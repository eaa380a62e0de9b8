//! Host-controller driver core for a DesignWare-style SD/MMC controller.
//!
//! The driver never touches the hardware itself. Every operation is a state
//! machine: it names the next register, FIFO, clock or delay access it
//! needs as an [`io::Action`], and is advanced with the [`io::Event`] that
//! the access produced. The caller owns the register block and runs the
//! loop.
use vstd::prelude::*;

pub mod bits;
pub mod cid;
pub mod cmd;
pub mod driver;
pub mod engine;

pub mod io;
pub mod register;
pub mod sequence;
pub mod utils;

pub use driver::Vf2SdDriver;

verus! {

/// The ways an operation of the driver can fail.
#[derive(Debug, Copy, Clone, PartialEq, Eq, Structural)]
pub enum Vf2SdDriverError {
    /// A mandatory step of the initialization failed.
    InitError,
    /// A command that reads data reported an error.
    ReadError,
    /// A command that writes data reported an error.
    WriteError,
    /// A bounded wait ran out of time.
    TimeoutError,
    /// Anything else.
    UnknownError,
}

impl Vf2SdDriverError {
    /// The text of the error.
    pub open spec fn spec_to_string(self) -> Seq<char> {
        match self {
            Vf2SdDriverError::InitError => "init error"@,
            Vf2SdDriverError::ReadError => "read error"@,
            Vf2SdDriverError::WriteError => "write error"@,
            Vf2SdDriverError::TimeoutError => "timeout error"@,
            Vf2SdDriverError::UnknownError => "unknown error"@,
        }
    }

    /// The text of the error.
    pub fn to_string(&self) -> (r: String)
        ensures
            r@ == self.spec_to_string(),
    {
        match self {
            Vf2SdDriverError::InitError => "init error".to_owned(),
            Vf2SdDriverError::ReadError => "read error".to_owned(),
            Vf2SdDriverError::WriteError => "write error".to_owned(),
            Vf2SdDriverError::TimeoutError => "timeout error".to_owned(),
            Vf2SdDriverError::UnknownError => "unknown error".to_owned(),
        }
    }
}

pub type Result<T> = core::result::Result<T, Vf2SdDriverError>;

} // verus!
