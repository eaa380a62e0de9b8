//! What the driver asks of its caller, and what the caller hands back.
use vstd::prelude::*;

verus! {

/// One access that the caller performs on behalf of the driver. Register and
/// FIFO offsets are relative to the controller's base address.
#[derive(Debug, Copy, Clone, PartialEq, Eq, Structural)]
pub enum Action {
    /// Load the 32-bit register at `offset`; answered by `Event::Register`.
    ReadRegister { offset: u32 },
    /// Store `value` to the 32-bit register at `offset`; answered by
    /// `Event::Done`.
    WriteRegister { offset: u32, value: u32 },
    /// Load one machine word from the data FIFO at `offset`; answered by
    /// `Event::Fifo`.
    ReadFifo { offset: u32 },
    /// Store one machine word to the data FIFO at `offset`; answered by
    /// `Event::Done`.
    WriteFifo { offset: u32, word: u64 },
    /// Read the monotonic clock; answered by `Event::Clock` with the time in
    /// milliseconds.
    ReadClock,
    /// Pause for `ms` milliseconds; answered by `Event::Done`.
    Sleep { ms: u64 },
}

/// The outcome of the access that the driver asked for last.
#[derive(Debug, Copy, Clone, PartialEq, Eq, Structural)]
pub enum Event {
    /// The value loaded from a register.
    Register(u32),
    /// The word loaded from the data FIFO.
    Fifo(u64),
    /// The reading of the monotonic clock, in milliseconds.
    Clock(u64),
    /// A store or a pause was carried out.
    Done,
}

/// How an operation goes on: with one more access, or not at all because it
/// has reached its result.
#[derive(Debug)]
pub enum Step<T> {
    Perform(Action),
    Complete(T),
}

} // verus!
