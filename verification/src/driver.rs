//! The card initialization sequence and single-block I/O, as one state
//! machine on top of the data transfer engine.
//!
//! Initialization walks through these states, in order: clock reset, FIFO
//! reset, bus width set to one bit, DMA reset, go idle, voltage check,
//! operating-condition poll (repeated until the card is ready), identify,
//! address assignment, read of the card-specific data, card selection and
//! the bus width query. A step that fails ends the initialization and leaves
//! the card unusable; only the voltage check and the bus width query may be
//! answered with an error by the card without ending it.
use crate::bits::{get_bit_u32, spec_get_bit};
use crate::cid::Cid;
use crate::cmd::Cmd;
use crate::engine::{DataTransType, Exchange, ExchangeModel, Outcome, Response, Transfer};
use crate::io::{Action, Event, Step};
use crate::register::{
    BlkSizeReg, BusModeReg, ByteCountReg, CardTypeReg, ClockDividerReg, ClockEnableReg, CmdReg,
    ControlReg, BLK_SIZE_REG, BUS_MODE_REG, BYTE_CNT_REG, CLK_DIVIDER_REG, CLOCK_ENABLE_REG,
    CTRL_REG, CTYPE_REG,
};
use crate::utils::{
    lemma_bytes_of_words, spec_byte_of, spec_bytes, spec_words, words_from_bytes,
};
use crate::Vf2SdDriverError;
use vstd::prelude::*;

verus! {

/// Bytes in one block.
pub const BLOCK_SIZE: usize = 512;

/// FIFO words in one block.
pub const BLOCK_WORDS: usize = 64;

/// Bytes of the configuration register that the bus width query reads.
pub const SCR_SIZE: u32 = 8;

/// Pause between two polls of the operating conditions, in milliseconds.
pub const OCR_POLL_DELAY_MS: u64 = 100;

/// Argument of the voltage check: the supply voltage range and the check
/// pattern that the card echoes.
pub const IF_COND_ARG: u32 = 0x1aa;

/// The bits of the echoed voltage check that tell a version 2 card.
pub const IF_COND_ECHO: u32 = 0xaa;

/// Argument of the operating-condition poll: high capacity supported, and
/// the voltage window.
pub const OCR_ARG: u32 = 0x41ff_8000;

/// Bit of the operating conditions that says the card has powered up.
pub const OCR_READY_BIT: usize = 31;

/// Bit of the operating conditions that says the card is of high capacity.
pub const OCR_CAPACITY_BIT: usize = 30;

/// Clock divider during initialization.
pub const INIT_CLOCK_DIVIDER: u8 = 4;

/// Where the driver stands. A phase is named after the access it has asked
/// for, or after the command whose exchange is under way.
#[derive(Debug, Copy, Clone, PartialEq, Eq, Structural)]
pub enum Phase {
    /// Nothing has been done yet.
    PowerOn,
    /// Clock reset: the write that switches the card clock off.
    ClockOff,
    /// Clock reset: the pulse that commits the switched-off clock.
    ClockCommitOff,
    /// Clock reset: the write of the initialization divider.
    ClockDivide,
    /// Clock reset: the write that switches the card clock on.
    ClockOn,
    /// Clock reset: the pulse that commits the divided clock.
    ClockCommitOn,
    /// FIFO reset: the read of the control register.
    FifoControl,
    /// FIFO reset: the write of the control register with the reset bit.
    FifoReset,
    /// The write that sets the bus width to one bit.
    BusWidthInit,
    /// DMA reset: the read of the bus mode register.
    DmaBusMode,
    /// DMA reset: the write of the bus mode register with the reset bit.
    DmaSoftReset,
    /// DMA reset: the read of the control register.
    DmaControl,
    /// DMA reset: the write of the control register with the reset bit.
    DmaReset,
    /// The go-idle command.
    Idle,
    /// The send-interface-condition command.
    VoltageCheck,
    /// The app-command prefix of an operating-condition poll.
    OcrPrefix,
    /// The send-operating-condition command.
    OcrPoll,
    /// The pause before the next operating-condition poll.
    OcrDelay,
    /// The all-send-CID command.
    Identify,
    /// The send-relative-address command.
    AddressAssign,
    /// The send-CSD command.
    ReadCsd,
    /// The select-card command.
    Select,
    /// The app-command prefix of the bus width query.
    BusWidthPrefix,
    /// Bus width query: the write of the block size.
    BusWidthBlockSize,
    /// Bus width query: the write of the byte count.
    BusWidthByteCount,
    /// The send-SCR command.
    BusWidthQuery,
    /// The card is initialized and no operation is under way.
    Ready,
    /// The initialization has failed; the card is unusable.
    Failed,
    /// Block read: the write of the block size.
    ReadBlockSize,
    /// Block read: the write of the byte count.
    ReadByteCount,
    /// The read-single-block command.
    ReadTransfer,
    /// Block write: the write of the block size.
    WriteBlockSize,
    /// Block write: the write of the byte count.
    WriteByteCount,
    /// The write-single-block command.
    WriteTransfer,
}

/// The operation that a phase belongs to.
#[derive(Debug, Copy, Clone, PartialEq, Eq, Structural)]
pub enum Operation {
    Nothing,
    Init,
    Read,
    Write,
}

impl Phase {
    /// The operation under way in this phase.
    pub open spec fn spec_operation(self) -> Operation {
        match self {
            Phase::PowerOn | Phase::Ready | Phase::Failed => Operation::Nothing,
            Phase::ReadBlockSize | Phase::ReadByteCount | Phase::ReadTransfer => Operation::Read,
            Phase::WriteBlockSize | Phase::WriteByteCount | Phase::WriteTransfer => {
                Operation::Write
            },
            _ => Operation::Init,
        }
    }

    /// Whether an exchange of the engine is under way in this phase.
    pub open spec fn spec_in_exchange(self) -> bool {
        match self {
            Phase::ClockCommitOff
            | Phase::ClockCommitOn
            | Phase::Idle
            | Phase::VoltageCheck
            | Phase::OcrPrefix
            | Phase::OcrPoll
            | Phase::Identify
            | Phase::AddressAssign
            | Phase::ReadCsd
            | Phase::Select
            | Phase::BusWidthPrefix
            | Phase::BusWidthQuery
            | Phase::ReadTransfer
            | Phase::WriteTransfer => true,
            _ => false,
        }
    }

    pub fn operation(self) -> (r: Operation)
        ensures
            r == self.spec_operation(),
    {
        match self {
            Phase::PowerOn | Phase::Ready | Phase::Failed => Operation::Nothing,
            Phase::ReadBlockSize | Phase::ReadByteCount | Phase::ReadTransfer => Operation::Read,
            Phase::WriteBlockSize | Phase::WriteByteCount | Phase::WriteTransfer => {
                Operation::Write
            },
            _ => Operation::Init,
        }
    }

    pub fn in_exchange(self) -> (r: bool)
        ensures
            r == self.spec_in_exchange(),
    {
        match self {
            Phase::ClockCommitOff
            | Phase::ClockCommitOn
            | Phase::Idle
            | Phase::VoltageCheck
            | Phase::OcrPrefix
            | Phase::OcrPoll
            | Phase::Identify
            | Phase::AddressAssign
            | Phase::ReadCsd
            | Phase::Select
            | Phase::BusWidthPrefix
            | Phase::BusWidthQuery
            | Phase::ReadTransfer
            | Phase::WriteTransfer => true,
            _ => false,
        }
    }
}

/// The card version that the answer to the voltage check tells: 2 if the
/// card echoed any bit of the check pattern, 1 otherwise.
pub open spec fn spec_check_version(word0: u32) -> u8 {
    if word0 & IF_COND_ECHO == 0 {
        1
    } else {
        2
    }
}

/// The relative card address in the answer to the send-relative-address
/// command: its upper 16 bits.
pub open spec fn spec_check_rca(word0: u32) -> u32 {
    word0 >> 16
}

/// The argument that addresses the card `rca`: the address in the upper 16
/// bits.
pub open spec fn spec_rca_arg(rca: u32) -> u32 {
    rca << 16
}

/// The two register writes that program the size of the next data
/// transfer: block size first, byte count second.
pub open spec fn spec_set_transaction_size(blk_size: u32, byte_count: u32) -> (Action, Action) {
    (
        Action::WriteRegister {
            offset: BLK_SIZE_REG,
            value: BlkSizeReg::spec_decode(blk_size).spec_encode(),
        },
        Action::WriteRegister {
            offset: BYTE_CNT_REG,
            value: ByteCountReg::spec_decode(byte_count).spec_encode(),
        },
    )
}

/// The error that a failed exchange means to the operation under way: the
/// operation's own error where the card raised an error flag, `TimeoutError`
/// where a wait ran out, `UnknownError` otherwise.
pub open spec fn spec_error_of(operation: Operation, outcome: Outcome) -> Vf2SdDriverError {
    match outcome {
        Outcome::TimedOut => Vf2SdDriverError::TimeoutError,
        Outcome::Unexpected => Vf2SdDriverError::UnknownError,
        _ => match operation {
            Operation::Init => Vf2SdDriverError::InitError,
            Operation::Read => Vf2SdDriverError::ReadError,
            Operation::Write => Vf2SdDriverError::WriteError,
            Operation::Nothing => Vf2SdDriverError::UnknownError,
        },
    }
}

/// The 512 bytes of a buffer after the words of a block read have been
/// copied into it: the bytes of the words, a block's worth at most, and
/// behind them what the buffer held before.
pub open spec fn spec_block(words: Seq<u64>, before: Seq<u8>) -> Seq<u8> {
    let n = if words.len() < BLOCK_WORDS {
        words.len() as int
    } else {
        BLOCK_WORDS as int
    };
    spec_bytes(words.take(n)) + before.skip(8 * n)
}

pub type Done = Result<(), Vf2SdDriverError>;

/// The mathematical state of the driver.
pub ghost struct DriverModel {
    /// Bound of every wait, in milliseconds.
    pub timeout_ms: u64,
    /// How often the operating-condition poll is repeated at most.
    pub ocr_retries: u32,
    pub phase: Phase,
    /// The exchange under way, or the last one.
    pub exchange: ExchangeModel,
    /// Repetitions of the operating-condition poll that are left.
    pub retries_left: u32,
    /// Card version: 1 or 2 once the voltage check is done, 0 before.
    pub version: u8,
    /// The operating conditions as the card reported them last.
    pub ocr: u32,
    /// The card identification.
    pub cid: u128,
    /// The relative card address.
    pub rca: u32,
    /// Index of the block that is read or written.
    pub block: u32,
    /// The words to write, until the transfer starts.
    pub data: Seq<u64>,
}

impl DriverModel {
    /// The driver before anything is done.
    pub open spec fn start(timeout_ms: u64, ocr_retries: u32) -> DriverModel {
        DriverModel {
            timeout_ms,
            ocr_retries,
            phase: Phase::PowerOn,
            exchange: ExchangeModel::start(
                CmdReg::spec_update_clock(),
                0,
                Transfer::NoData,
                Seq::empty(),
                0,
                timeout_ms,
            ),
            retries_left: ocr_retries,
            version: 0,
            ocr: 0,
            cid: 0,
            rca: 0,
            block: 0,
            data: Seq::empty(),
        }
    }

    pub open spec fn write(self, phase: Phase, offset: u32, value: u32) -> (DriverModel, Step<Done>) {
        (DriverModel { phase, ..self }, Step::Perform(Action::WriteRegister { offset, value }))
    }

    pub open spec fn read(self, phase: Phase, offset: u32) -> (DriverModel, Step<Done>) {
        (DriverModel { phase, ..self }, Step::Perform(Action::ReadRegister { offset }))
    }

    pub open spec fn end(self, phase: Phase, result: Done) -> (DriverModel, Step<Done>) {
        (DriverModel { phase, ..self }, Step::Complete(result))
    }

    /// Starts the exchange that makes up the phase `phase`.
    pub open spec fn exchange(
        self,
        phase: Phase,
        cmd: CmdReg,
        arg: u32,
        transfer: Transfer,
        words: Seq<u64>,
        capacity: nat,
    ) -> (DriverModel, Step<Done>) {
        (
            DriverModel {
                phase,
                exchange: ExchangeModel::start(cmd, arg, transfer, words, capacity, self.timeout_ms),
                ..self
            },
            Step::Perform(Action::ReadClock),
        )
    }

    /// Starts the exchange of a card command without data phase.
    pub open spec fn command(self, phase: Phase, cmd: Cmd, arg: u32) -> (DriverModel, Step<Done>) {
        self.exchange(
            phase,
            CmdReg::spec_from_cmd(cmd).unwrap(),
            arg,
            Transfer::NoData,
            Seq::empty(),
            0,
        )
    }

    /// Starts the pulse that commits the clock registers.
    pub open spec fn commit_clock(self, phase: Phase) -> (DriverModel, Step<Done>) {
        self.exchange(phase, CmdReg::spec_update_clock(), 0, Transfer::NoData, Seq::empty(), 0)
    }

    /// Ends the operation under way because its exchange ended with
    /// `outcome`. A failed initialization leaves the card unusable; a failed
    /// block operation leaves the driver ready for the next.
    pub open spec fn fail(self, outcome: Outcome) -> (DriverModel, Step<Done>) {
        let error = spec_error_of(self.phase.spec_operation(), outcome);
        match self.phase.spec_operation() {
            Operation::Init => self.end(Phase::Failed, Err(error)),
            Operation::Read | Operation::Write => self.end(Phase::Ready, Err(error)),
            Operation::Nothing => (self, Step::Complete(Err(Vf2SdDriverError::UnknownError))),
        }
    }

    /// Starts the first operating-condition poll.
    pub open spec fn begin_ocr(self, version: u8) -> (DriverModel, Step<Done>) {
        (DriverModel { version, retries_left: self.ocr_retries, ..self }).command(
            Phase::OcrPrefix,
            Cmd::AppCmd,
            0,
        )
    }

    /// The card answered the operating-condition poll with `ocr`.
    pub open spec fn on_ocr(self, ocr: u32) -> (DriverModel, Step<Done>) {
        let seen = DriverModel { ocr, ..self };
        if spec_get_bit(ocr, OCR_READY_BIT) {
            seen.command(Phase::Identify, Cmd::AllSendCid, 0)
        } else if self.retries_left > 0 {
            (
                DriverModel {
                    phase: Phase::OcrDelay,
                    retries_left: (self.retries_left - 1) as u32,
                    ..seen
                },
                Step::Perform(Action::Sleep { ms: OCR_POLL_DELAY_MS }),
            )
        } else {
            seen.end(Phase::Failed, Err(Vf2SdDriverError::InitError))
        }
    }

    /// The exchange of the current phase ended with `outcome`.
    pub open spec fn on_outcome(self, outcome: Outcome) -> (DriverModel, Step<Done>) {
        match (self.phase, outcome) {
            (Phase::ClockCommitOff, Outcome::Response(_)) => self.write(
                Phase::ClockDivide,
                CLK_DIVIDER_REG,
                (ClockDividerReg {
                    clk_divider3: 0,
                    clk_divider2: 0,
                    clk_divider1: 0,
                    clk_divider0: INIT_CLOCK_DIVIDER,
                }).spec_encode(),
            ),
            (Phase::ClockCommitOn, Outcome::Response(_)) => self.read(Phase::FifoControl, CTRL_REG),
            (Phase::Idle, Outcome::Response(_)) => self.command(
                Phase::VoltageCheck,
                Cmd::SendIfCond,
                IF_COND_ARG,
            ),
            (Phase::VoltageCheck, Outcome::Response(r)) => self.begin_ocr(
                spec_check_version(r.word0),
            ),
            (Phase::VoltageCheck, Outcome::Failed) => self.begin_ocr(1),
            (Phase::OcrPrefix, Outcome::Response(_)) => self.command(
                Phase::OcrPoll,
                Cmd::SdSendOpCond,
                OCR_ARG,
            ),
            (Phase::OcrPoll, Outcome::Response(r)) => self.on_ocr(r.word0),
            (Phase::Identify, Outcome::Response(r)) => (DriverModel {
                cid: Cid::spec_from_response(r),
                ..self
            }).command(Phase::AddressAssign, Cmd::SendRelativeAddr, 0),
            (Phase::AddressAssign, Outcome::Response(r)) => (DriverModel {
                rca: spec_check_rca(r.word0),
                ..self
            }).command(Phase::ReadCsd, Cmd::SendCsd, spec_rca_arg(spec_check_rca(r.word0))),
            (Phase::ReadCsd, Outcome::Response(_)) => self.command(
                Phase::Select,
                Cmd::SelectCard,
                spec_rca_arg(self.rca),
            ),
            (Phase::Select, Outcome::Response(_)) => self.command(
                Phase::BusWidthPrefix,
                Cmd::AppCmd,
                spec_rca_arg(self.rca),
            ),
            (Phase::BusWidthPrefix, Outcome::Response(_)) => {
                let first = spec_set_transaction_size(SCR_SIZE, SCR_SIZE).0;
                (DriverModel { phase: Phase::BusWidthBlockSize, ..self }, Step::Perform(first))
            },
            (Phase::BusWidthPrefix, Outcome::Failed) => self.end(Phase::Ready, Ok(())),
            (Phase::BusWidthQuery, Outcome::Response(_)) => self.end(Phase::Ready, Ok(())),
            (Phase::BusWidthQuery, Outcome::Failed) => self.end(Phase::Ready, Ok(())),
            (Phase::ReadTransfer, Outcome::Response(_)) => self.end(Phase::Ready, Ok(())),
            (Phase::WriteTransfer, Outcome::Response(_)) => self.end(Phase::Ready, Ok(())),
            _ => self.fail(outcome),
        }
    }

    /// The access of a phase without exchange was answered by `event`.
    pub open spec fn on_event(self, event: Event) -> (DriverModel, Step<Done>) {
        match (self.phase, event) {
            (Phase::ClockOff, Event::Done) => self.commit_clock(Phase::ClockCommitOff),
            (Phase::ClockDivide, Event::Done) => self.write(
                Phase::ClockOn,
                CLOCK_ENABLE_REG,
                (ClockEnableReg { cclk_low_power: 0, clk_enable: 1 }).spec_encode(),
            ),
            (Phase::ClockOn, Event::Done) => self.commit_clock(Phase::ClockCommitOn),
            (Phase::FifoControl, Event::Register(value)) => self.write(
                Phase::FifoReset,
                CTRL_REG,
                (ControlReg { fifo_reset: true, ..ControlReg::spec_decode(value) }).spec_encode(),
            ),
            (Phase::FifoReset, Event::Done) => self.write(
                Phase::BusWidthInit,
                CTYPE_REG,
                (CardTypeReg { card_width8: 0, card_width4_1: 0 }).spec_encode(),
            ),
            (Phase::BusWidthInit, Event::Done) => self.read(Phase::DmaBusMode, BUS_MODE_REG),
            (Phase::DmaBusMode, Event::Register(value)) => self.write(
                Phase::DmaSoftReset,
                BUS_MODE_REG,
                (BusModeReg { de: false, swr: true, ..BusModeReg::spec_decode(value) }).spec_encode(),
            ),
            (Phase::DmaSoftReset, Event::Done) => self.read(Phase::DmaControl, CTRL_REG),
            (Phase::DmaControl, Event::Register(value)) => self.write(
                Phase::DmaReset,
                CTRL_REG,
                (ControlReg {
                    dma_reset: true,
                    use_internal_dmac: false,
                    ..ControlReg::spec_decode(value)
                }).spec_encode(),
            ),
            (Phase::DmaReset, Event::Done) => self.command(Phase::Idle, Cmd::GoIdleState, 0),
            (Phase::OcrDelay, Event::Done) => self.command(Phase::OcrPrefix, Cmd::AppCmd, 0),
            (Phase::BusWidthBlockSize, Event::Done) => {
                let second = spec_set_transaction_size(SCR_SIZE, SCR_SIZE).1;
                (DriverModel { phase: Phase::BusWidthByteCount, ..self }, Step::Perform(second))
            },
            (Phase::BusWidthByteCount, Event::Done) => self.exchange(
                Phase::BusWidthQuery,
                CmdReg::spec_from_cmd(Cmd::SendScr).unwrap(),
                0,
                Transfer::Read,
                Seq::empty(),
                BLOCK_WORDS as nat,
            ),
            (Phase::ReadBlockSize, Event::Done) => {
                let second = spec_set_transaction_size(BLOCK_SIZE as u32, BLOCK_SIZE as u32).1;
                (DriverModel { phase: Phase::ReadByteCount, ..self }, Step::Perform(second))
            },
            (Phase::ReadByteCount, Event::Done) => self.exchange(
                Phase::ReadTransfer,
                CmdReg::spec_from_cmd(Cmd::ReadSingleBlock).unwrap(),
                self.block,
                Transfer::Read,
                Seq::empty(),
                BLOCK_WORDS as nat,
            ),
            (Phase::WriteBlockSize, Event::Done) => {
                let second = spec_set_transaction_size(BLOCK_SIZE as u32, BLOCK_SIZE as u32).1;
                (DriverModel { phase: Phase::WriteByteCount, ..self }, Step::Perform(second))
            },
            (Phase::WriteByteCount, Event::Done) => (DriverModel {
                data: Seq::empty(),
                ..self
            }).exchange(
                Phase::WriteTransfer,
                CmdReg::spec_from_cmd(Cmd::WriteSingleBlock).unwrap(),
                self.block,
                Transfer::Write,
                self.data,
                0,
            ),
            _ => self.fail(Outcome::Unexpected),
        }
    }

    /// Begins the initialization. It can begin only once, from power-on;
    /// otherwise it is refused with `InitError` and nothing changes.
    pub open spec fn init(self) -> (DriverModel, Step<Done>) {
        if self.phase == Phase::PowerOn {
            self.write(
                Phase::ClockOff,
                CLOCK_ENABLE_REG,
                (ClockEnableReg { cclk_low_power: 0, clk_enable: 0 }).spec_encode(),
            )
        } else {
            (self, Step::Complete(Err(Vf2SdDriverError::InitError)))
        }
    }

    /// Begins the read of block `block`. Unless the driver is ready it is
    /// refused with `ReadError` and nothing changes.
    pub open spec fn read_block(self, block: u32) -> (DriverModel, Step<Done>) {
        if self.phase == Phase::Ready {
            let first = spec_set_transaction_size(BLOCK_SIZE as u32, BLOCK_SIZE as u32).0;
            (DriverModel { phase: Phase::ReadBlockSize, block, ..self }, Step::Perform(first))
        } else {
            (self, Step::Complete(Err(Vf2SdDriverError::ReadError)))
        }
    }

    /// Begins the write of `words` to block `block`. Unless the driver is
    /// ready it is refused with `WriteError` and nothing changes.
    pub open spec fn write_block(self, block: u32, words: Seq<u64>) -> (DriverModel, Step<Done>) {
        if self.phase == Phase::Ready {
            let first = spec_set_transaction_size(BLOCK_SIZE as u32, BLOCK_SIZE as u32).0;
            (
                DriverModel { phase: Phase::WriteBlockSize, block, data: words, ..self },
                Step::Perform(first),
            )
        } else {
            (self, Step::Complete(Err(Vf2SdDriverError::WriteError)))
        }
    }

    /// The transition function: the state after `event` and what to do next.
    pub open spec fn advance(self, event: Event) -> (DriverModel, Step<Done>) {
        if self.phase.spec_in_exchange() {
            let (exchange, step) = self.exchange.advance(event);
            let moved = DriverModel { exchange, ..self };
            match step {
                Step::Perform(action) => (moved, Step::Perform(action)),
                Step::Complete(outcome) => moved.on_outcome(outcome),
            }
        } else {
            self.on_event(event)
        }
    }
}

/// The card version that the answer to the voltage check tells.
pub fn check_version(response: Response) -> (r: u8)
    ensures
        r == spec_check_version(response.word0),
{
    if response.word0 & IF_COND_ECHO == 0 {
        1
    } else {
        2
    }
}

/// Reads the answer to the operating-condition poll: `None` while the card
/// is still powering up, and once it is ready whether it is of high
/// capacity.
pub fn check_big_support(ocr: u32) -> (r: Option<bool>)
    ensures
        r == (if spec_get_bit(ocr, OCR_READY_BIT) {
            Some(spec_get_bit(ocr, OCR_CAPACITY_BIT))
        } else {
            None::<bool>
        }),
{
    if get_bit_u32(ocr, OCR_READY_BIT) {
        Some(get_bit_u32(ocr, OCR_CAPACITY_BIT))
    } else {
        None
    }
}

/// The card identification in the answer to the all-send-CID command.
pub fn check_cid(response: Response) -> (r: Cid)
    ensures
        r@ == Cid::spec_from_response(response),
{
    Cid::from_response(response)
}

/// The relative card address in the answer to the send-relative-address
/// command.
pub fn check_rca(response: Response) -> (r: u32)
    ensures
        r == spec_check_rca(response.word0),
        r <= 0xffff,
{
    let word0 = response.word0;
    assert(word0 >> 16 <= 0xffff) by (bit_vector);
    word0 >> 16
}

/// The send-CSD command for the card `rca`: command word and argument.
pub fn check_csd(rca: u32) -> (r: (CmdReg, u32))
    ensures
        Some(r.0) == CmdReg::spec_from_cmd(Cmd::SendCsd),
        r.1 == spec_rca_arg(rca),
{
    (CmdReg::from_cmd(Cmd::SendCsd), rca << 16)
}

/// The select-card command for the card `rca`: command word and argument.
pub fn select_card(rca: u32) -> (r: (CmdReg, u32))
    ensures
        Some(r.0) == CmdReg::spec_from_cmd(Cmd::SelectCard),
        r.1 == spec_rca_arg(rca),
{
    (CmdReg::from_cmd(Cmd::SelectCard), rca << 16)
}

/// The app-command prefix of the bus width query for the card `rca`:
/// command word and argument.
pub fn check_bus_width(rca: u32) -> (r: (CmdReg, u32))
    ensures
        Some(r.0) == CmdReg::spec_from_cmd(Cmd::AppCmd),
        r.1 == spec_rca_arg(rca),
{
    (CmdReg::from_cmd(Cmd::AppCmd), rca << 16)
}

/// The two register writes that program the size of the next data
/// transfer: block size first, byte count second.
pub fn set_transaction_size(blk_size: u32, byte_count: u32) -> (r: (Action, Action))
    ensures
        r == spec_set_transaction_size(blk_size, byte_count),
        r.0 == (Action::WriteRegister { offset: BLK_SIZE_REG, value: blk_size }),
        r.1 == (Action::WriteRegister { offset: BYTE_CNT_REG, value: byte_count }),
{
    proof {
        BlkSizeReg::lemma_round_trip(blk_size);
        ByteCountReg::lemma_round_trip(byte_count);
    }
    (
        Action::WriteRegister { offset: BLK_SIZE_REG, value: BlkSizeReg::decode(blk_size).encode() },
        Action::WriteRegister {
            offset: BYTE_CNT_REG,
            value: ByteCountReg::decode(byte_count).encode(),
        },
    )
}

/// The write that resets the FIFO, given the control register as it was
/// read: the same word with the FIFO reset bit set.
pub fn reset_fifo(control: u32) -> (r: Action)
    ensures
        r == (Action::WriteRegister {
            offset: CTRL_REG,
            value: (ControlReg { fifo_reset: true, ..ControlReg::spec_decode(control) }).spec_encode(),
        }),
{
    let mut ctrl = ControlReg::decode(control);
    ctrl.fifo_reset = true;
    Action::WriteRegister { offset: CTRL_REG, value: ctrl.encode() }
}

/// The first write of the DMA reset, given the bus mode register as it was
/// read: the same word with the internal DMA controller disabled and its
/// software reset bit set.
pub fn reset_dma_bus_mode(bus_mode: u32) -> (r: Action)
    ensures
        r == (Action::WriteRegister {
            offset: BUS_MODE_REG,
            value: (BusModeReg {
                de: false,
                swr: true,
                ..BusModeReg::spec_decode(bus_mode)
            }).spec_encode(),
        }),
{
    let mut mode = BusModeReg::decode(bus_mode);
    mode.de = false;
    mode.swr = true;
    Action::WriteRegister { offset: BUS_MODE_REG, value: mode.encode() }
}

/// The second write of the DMA reset, given the control register as it was
/// read: the same word with the DMA reset bit set and the internal DMA
/// controller not used.
pub fn reset_dma(control: u32) -> (r: Action)
    ensures
        r == (Action::WriteRegister {
            offset: CTRL_REG,
            value: (ControlReg {
                dma_reset: true,
                use_internal_dmac: false,
                ..ControlReg::spec_decode(control)
            }).spec_encode(),
        }),
{
    let mut ctrl = ControlReg::decode(control);
    ctrl.dma_reset = true;
    ctrl.use_internal_dmac = false;
    Action::WriteRegister { offset: CTRL_REG, value: ctrl.encode() }
}

/// The error that a failed exchange means to the operation under way.
pub fn error_of(operation: Operation, outcome: Outcome) -> (r: Vf2SdDriverError)
    ensures
        r == spec_error_of(operation, outcome),
{
    match outcome {
        Outcome::TimedOut => Vf2SdDriverError::TimeoutError,
        Outcome::Unexpected => Vf2SdDriverError::UnknownError,
        _ => match operation {
            Operation::Init => Vf2SdDriverError::InitError,
            Operation::Read => Vf2SdDriverError::ReadError,
            Operation::Write => Vf2SdDriverError::WriteError,
            Operation::Nothing => Vf2SdDriverError::UnknownError,
        },
    }
}

/// The driver of one card slot.
///
/// The caller runs the loop: `init`, `read_block` and `write_block` begin an
/// operation and return its first step; each `Step::Perform` names an access
/// to carry out, whose outcome goes to `advance`; `Step::Complete` ends the
/// operation with its result.
#[derive(Debug)]
pub struct Vf2SdDriver {
    timeout_ms: u64,
    ocr_retries: u32,
    phase: Phase,
    exchange: Exchange,
    retries_left: u32,
    version: u8,
    ocr: u32,
    cid: Cid,
    rca: u32,
    block: u32,
    data: Vec<u64>,
}

impl Vf2SdDriver {
    pub closed spec fn view(&self) -> DriverModel {
        DriverModel {
            timeout_ms: self.timeout_ms,
            ocr_retries: self.ocr_retries,
            phase: self.phase,
            exchange: self.exchange@,
            retries_left: self.retries_left,
            version: self.version,
            ocr: self.ocr,
            cid: self.cid@,
            rca: self.rca,
            block: self.block,
            data: self.data@,
        }
    }

    /// A driver for a card that has just been powered on. Every wait is
    /// bounded by `timeout_ms` milliseconds; the operating-condition poll is
    /// repeated at most `ocr_retries` times before the card is given up.
    pub fn new(timeout_ms: u64, ocr_retries: u32) -> (r: Vf2SdDriver)
        ensures
            r@ == DriverModel::start(timeout_ms, ocr_retries),
    {
        let (exchange, _) = Exchange::send_cmd(
            CmdReg::update_clock(),
            0,
            DataTransType::NoData,
            timeout_ms,
        );
        Vf2SdDriver {
            timeout_ms,
            ocr_retries,
            phase: Phase::PowerOn,
            exchange,
            retries_left: ocr_retries,
            version: 0,
            ocr: 0,
            cid: Cid::new(0),
            rca: 0,
            block: 0,
            data: Vec::new(),
        }
    }

    /// Where the driver stands.
    pub fn phase(&self) -> (r: Phase)
        ensures
            r == self@.phase,
    {
        self.phase
    }

    /// Whether the card is initialized and no operation is under way.
    pub fn is_ready(&self) -> (r: bool)
        ensures
            r == (self@.phase == Phase::Ready),
    {
        self.phase == Phase::Ready
    }

    /// Card version: 1 or 2 once the voltage check is done, 0 before.
    pub fn version(&self) -> (r: u8)
        ensures
            r == self@.version,
    {
        self.version
    }

    /// The operating conditions as the card reported them last.
    pub fn ocr(&self) -> (r: u32)
        ensures
            r == self@.ocr,
    {
        self.ocr
    }

    /// Whether the card reported itself as of high capacity.
    pub fn high_capacity(&self) -> (r: bool)
        ensures
            r == spec_get_bit(self@.ocr, OCR_CAPACITY_BIT),
    {
        get_bit_u32(self.ocr, OCR_CAPACITY_BIT)
    }

    /// The card identification, once the card has been identified.
    pub fn cid(&self) -> (r: Cid)
        ensures
            r@ == self@.cid,
    {
        self.cid
    }

    /// The relative card address, once it has been assigned.
    pub fn rca(&self) -> (r: u32)
        ensures
            r == self@.rca,
    {
        self.rca
    }

    /// The words that the last exchange with a data phase moved: after a
    /// block read, the words of the block as far as the card delivered them.
    pub fn words(&self) -> (r: &Vec<u64>)
        ensures
            r@ == self@.exchange.words,
    {
        self.exchange.words()
    }

    /// Copies the block that the last read delivered into `buf`. Where the
    /// card delivered less than a block, the bytes that it did not deliver
    /// stay as they were.
    pub fn read_data(&self, buf: &mut [u8; 512])
        ensures
            final(buf)@ == spec_block(self@.exchange.words, old(buf)@),
    {
        let words = self.exchange.words();
        let n = if words.len() < BLOCK_WORDS {
            words.len()
        } else {
            BLOCK_WORDS
        };
        let mut i: usize = 0;
        while i < 8 * n
            invariant
                n <= BLOCK_WORDS,
                n <= words@.len(),
                i <= 8 * n,
                buf@.len() == 512,
                forall|j: int| 0 <= j < i ==> buf@[j] == spec_byte_of(words@[j / 8], j % 8),
                forall|j: int| 8 * n <= j < 512 ==> buf@[j] == old(buf)@[j],
            decreases 8 * n - i,
        {
            let w = words[i / 8];
            let shift: u64 = (8 * (i % 8)) as u64;
            assert((w >> shift) & 0xff <= 0xff) by (bit_vector);
            buf[i] = ((w >> shift) & 0xff) as u8;
            i += 1;
        }
        assert(buf@ =~= spec_block(self@.exchange.words, old(buf)@));
    }

    fn write(&mut self, phase: Phase, offset: u32, value: u32) -> (step: Step<Done>)
        ensures
            (final(self)@, step) == old(self)@.write(phase, offset, value),
    {
        self.phase = phase;
        Step::Perform(Action::WriteRegister { offset, value })
    }

    fn read(&mut self, phase: Phase, offset: u32) -> (step: Step<Done>)
        ensures
            (final(self)@, step) == old(self)@.read(phase, offset),
    {
        self.phase = phase;
        Step::Perform(Action::ReadRegister { offset })
    }

    fn perform(&mut self, phase: Phase, action: Action) -> (step: Step<Done>)
        ensures
            final(self)@ == (DriverModel { phase, ..old(self)@ }),
            step == Step::<Done>::Perform(action),
    {
        self.phase = phase;
        Step::Perform(action)
    }

    fn end(&mut self, phase: Phase, result: Done) -> (step: Step<Done>)
        ensures
            (final(self)@, step) == old(self)@.end(phase, result),
    {
        self.phase = phase;
        Step::Complete(result)
    }

    fn exchange(&mut self, phase: Phase, cmd: CmdReg, arg: u32, data: DataTransType) -> (step:
        Step<Done>)
        requires
            cmd.data_expected ==> !(data is NoData),
        ensures
            (final(self)@, step) == old(self)@.exchange(
                phase,
                cmd,
                arg,
                data.spec_transfer(),
                data.spec_words(),
                data.spec_capacity(),
            ),
    {
        let (exchange, first) = Exchange::send_cmd(cmd, arg, data, self.timeout_ms);
        self.exchange = exchange;
        self.phase = phase;
        Step::Perform(first)
    }

    fn command(&mut self, phase: Phase, cmd: Cmd, arg: u32) -> (step: Step<Done>)
        requires
            CmdReg::spec_from_cmd(cmd) matches Some(word) && !word.data_expected,
        ensures
            (final(self)@, step) == old(self)@.command(phase, cmd, arg),
    {
        self.exchange(phase, CmdReg::from_cmd(cmd), arg, DataTransType::NoData)
    }

    fn commit_clock(&mut self, phase: Phase) -> (step: Step<Done>)
        ensures
            (final(self)@, step) == old(self)@.commit_clock(phase),
    {
        self.exchange(phase, CmdReg::update_clock(), 0, DataTransType::NoData)
    }

    fn fail(&mut self, outcome: Outcome) -> (step: Step<Done>)
        ensures
            (final(self)@, step) == old(self)@.fail(outcome),
    {
        let operation = self.phase.operation();
        let error = error_of(operation, outcome);
        match operation {
            Operation::Init => self.end(Phase::Failed, Err(error)),
            Operation::Read | Operation::Write => self.end(Phase::Ready, Err(error)),
            Operation::Nothing => Step::Complete(Err(Vf2SdDriverError::UnknownError)),
        }
    }

    fn begin_ocr(&mut self, version: u8) -> (step: Step<Done>)
        ensures
            (final(self)@, step) == old(self)@.begin_ocr(version),
    {
        self.version = version;
        self.retries_left = self.ocr_retries;
        self.command(Phase::OcrPrefix, Cmd::AppCmd, 0)
    }

    fn on_ocr(&mut self, ocr: u32) -> (step: Step<Done>)
        ensures
            (final(self)@, step) == old(self)@.on_ocr(ocr),
    {
        self.ocr = ocr;
        match check_big_support(ocr) {
            Some(_) => self.command(Phase::Identify, Cmd::AllSendCid, 0),
            None => {
                if self.retries_left > 0 {
                    self.retries_left = self.retries_left - 1;
                    self.perform(Phase::OcrDelay, Action::Sleep { ms: OCR_POLL_DELAY_MS })
                } else {
                    self.end(Phase::Failed, Err(Vf2SdDriverError::InitError))
                }
            },
        }
    }

    fn on_outcome(&mut self, outcome: Outcome) -> (step: Step<Done>)
        ensures
            (final(self)@, step) == old(self)@.on_outcome(outcome),
    {
        match (self.phase, outcome) {
            (Phase::ClockCommitOff, Outcome::Response(_)) => {
                let divider = ClockDividerReg {
                    clk_divider3: 0,
                    clk_divider2: 0,
                    clk_divider1: 0,
                    clk_divider0: INIT_CLOCK_DIVIDER,
                };
                self.write(Phase::ClockDivide, CLK_DIVIDER_REG, divider.encode())
            },
            (Phase::ClockCommitOn, Outcome::Response(_)) => self.read(Phase::FifoControl, CTRL_REG),
            (Phase::Idle, Outcome::Response(_)) => self.command(
                Phase::VoltageCheck,
                Cmd::SendIfCond,
                IF_COND_ARG,
            ),
            (Phase::VoltageCheck, Outcome::Response(r)) => self.begin_ocr(check_version(r)),
            (Phase::VoltageCheck, Outcome::Failed) => self.begin_ocr(1),
            (Phase::OcrPrefix, Outcome::Response(_)) => self.command(
                Phase::OcrPoll,
                Cmd::SdSendOpCond,
                OCR_ARG,
            ),
            (Phase::OcrPoll, Outcome::Response(r)) => self.on_ocr(r.word0),
            (Phase::Identify, Outcome::Response(r)) => {
                self.cid = check_cid(r);
                self.command(Phase::AddressAssign, Cmd::SendRelativeAddr, 0)
            },
            (Phase::AddressAssign, Outcome::Response(r)) => {
                self.rca = check_rca(r);
                let (cmd, arg) = check_csd(self.rca);
                self.exchange(Phase::ReadCsd, cmd, arg, DataTransType::NoData)
            },
            (Phase::ReadCsd, Outcome::Response(_)) => {
                let (cmd, arg) = select_card(self.rca);
                self.exchange(Phase::Select, cmd, arg, DataTransType::NoData)
            },
            (Phase::Select, Outcome::Response(_)) => {
                let (cmd, arg) = check_bus_width(self.rca);
                self.exchange(Phase::BusWidthPrefix, cmd, arg, DataTransType::NoData)
            },
            (Phase::BusWidthPrefix, Outcome::Response(_)) => {
                let (first, _) = set_transaction_size(SCR_SIZE, SCR_SIZE);
                self.perform(Phase::BusWidthBlockSize, first)
            },
            (Phase::BusWidthPrefix, Outcome::Failed) => self.end(Phase::Ready, Ok(())),
            (Phase::BusWidthQuery, Outcome::Response(_)) => self.end(Phase::Ready, Ok(())),
            (Phase::BusWidthQuery, Outcome::Failed) => self.end(Phase::Ready, Ok(())),
            (Phase::ReadTransfer, Outcome::Response(_)) => self.end(Phase::Ready, Ok(())),
            (Phase::WriteTransfer, Outcome::Response(_)) => self.end(Phase::Ready, Ok(())),
            _ => self.fail(outcome),
        }
    }

    fn on_event(&mut self, event: Event) -> (step: Step<Done>)
        ensures
            (final(self)@, step) == old(self)@.on_event(event),
    {
        match (self.phase, event) {
            (Phase::ClockOff, Event::Done) => self.commit_clock(Phase::ClockCommitOff),
            (Phase::ClockDivide, Event::Done) => {
                let enable = ClockEnableReg { cclk_low_power: 0, clk_enable: 1 };
                self.write(Phase::ClockOn, CLOCK_ENABLE_REG, enable.encode())
            },
            (Phase::ClockOn, Event::Done) => self.commit_clock(Phase::ClockCommitOn),
            (Phase::FifoControl, Event::Register(value)) => {
                let action = reset_fifo(value);
                self.perform(Phase::FifoReset, action)
            },
            (Phase::FifoReset, Event::Done) => {
                let width = CardTypeReg { card_width8: 0, card_width4_1: 0 };
                self.write(Phase::BusWidthInit, CTYPE_REG, width.encode())
            },
            (Phase::BusWidthInit, Event::Done) => self.read(Phase::DmaBusMode, BUS_MODE_REG),
            (Phase::DmaBusMode, Event::Register(value)) => {
                let action = reset_dma_bus_mode(value);
                self.perform(Phase::DmaSoftReset, action)
            },
            (Phase::DmaSoftReset, Event::Done) => self.read(Phase::DmaControl, CTRL_REG),
            (Phase::DmaControl, Event::Register(value)) => {
                let action = reset_dma(value);
                self.perform(Phase::DmaReset, action)
            },
            (Phase::DmaReset, Event::Done) => self.command(Phase::Idle, Cmd::GoIdleState, 0),
            (Phase::OcrDelay, Event::Done) => self.command(Phase::OcrPrefix, Cmd::AppCmd, 0),
            (Phase::BusWidthBlockSize, Event::Done) => {
                let (_, second) = set_transaction_size(SCR_SIZE, SCR_SIZE);
                self.perform(Phase::BusWidthByteCount, second)
            },
            (Phase::BusWidthByteCount, Event::Done) => self.exchange(
                Phase::BusWidthQuery,
                CmdReg::from_cmd(Cmd::SendScr),
                0,
                DataTransType::Read(BLOCK_WORDS),
            ),
            (Phase::ReadBlockSize, Event::Done) => {
                let (_, second) = set_transaction_size(BLOCK_SIZE as u32, BLOCK_SIZE as u32);
                self.perform(Phase::ReadByteCount, second)
            },
            (Phase::ReadByteCount, Event::Done) => {
                let block = self.block;
                self.exchange(
                    Phase::ReadTransfer,
                    CmdReg::from_cmd(Cmd::ReadSingleBlock),
                    block,
                    DataTransType::Read(BLOCK_WORDS),
                )
            },
            (Phase::WriteBlockSize, Event::Done) => {
                let (_, second) = set_transaction_size(BLOCK_SIZE as u32, BLOCK_SIZE as u32);
                self.perform(Phase::WriteByteCount, second)
            },
            (Phase::WriteByteCount, Event::Done) => {
                let block = self.block;
                let mut words: Vec<u64> = Vec::new();
                core::mem::swap(&mut self.data, &mut words);
                self.exchange(
                    Phase::WriteTransfer,
                    CmdReg::from_cmd(Cmd::WriteSingleBlock),
                    block,
                    DataTransType::Write(words),
                )
            },
            _ => self.fail(Outcome::Unexpected),
        }
    }

    /// Begins the initialization of the card and returns its first step.
    /// The initialization can begin only once, on a driver that has done
    /// nothing yet; at any other time it is refused with `InitError` and the
    /// driver stays as it is.
    pub fn init(&mut self) -> (step: Step<Done>)
        ensures
            (final(self)@, step) == old(self)@.init(),
    {
        if self.phase == Phase::PowerOn {
            let disable = ClockEnableReg { cclk_low_power: 0, clk_enable: 0 };
            self.write(Phase::ClockOff, CLOCK_ENABLE_REG, disable.encode())
        } else {
            Step::Complete(Err(Vf2SdDriverError::InitError))
        }
    }

    /// Begins the read of block `block` and returns its first step. When the
    /// read has completed with `Ok`, `read_data` hands out the block. Unless
    /// the card is initialized and no operation is under way, the read is
    /// refused with `ReadError` and the driver stays as it is.
    pub fn read_block(&mut self, block: u32) -> (step: Step<Done>)
        ensures
            (final(self)@, step) == old(self)@.read_block(block),
    {
        if self.phase == Phase::Ready {
            let (first, _) = set_transaction_size(BLOCK_SIZE as u32, BLOCK_SIZE as u32);
            self.block = block;
            self.perform(Phase::ReadBlockSize, first)
        } else {
            Step::Complete(Err(Vf2SdDriverError::ReadError))
        }
    }

    /// Begins the write of the 512 bytes of `buf` to block `block` and
    /// returns its first step. Unless the card is initialized and no
    /// operation is under way, the write is refused with `WriteError` and
    /// the driver stays as it is.
    pub fn write_block(&mut self, block: u32, buf: &[u8; 512]) -> (step: Step<Done>)
        ensures
            (final(self)@, step) == old(self)@.write_block(block, spec_words(buf@)),
    {
        if self.phase == Phase::Ready {
            let (first, _) = set_transaction_size(BLOCK_SIZE as u32, BLOCK_SIZE as u32);
            self.block = block;
            self.data = words_from_bytes(buf);
            self.perform(Phase::WriteBlockSize, first)
        } else {
            Step::Complete(Err(Vf2SdDriverError::WriteError))
        }
    }

    /// Advances the operation under way with the outcome of the access that
    /// the driver asked for last, and returns the next step. With no
    /// operation under way it answers `UnknownError` and changes nothing.
    pub fn advance(&mut self, event: Event) -> (step: Step<Done>)
        ensures
            (final(self)@, step) == old(self)@.advance(event),
    {
        if self.phase.in_exchange() {
            match self.exchange.advance(event) {
                Step::Perform(action) => Step::Perform(action),
                Step::Complete(outcome) => self.on_outcome(outcome),
            }
        } else {
            self.on_event(event)
        }
    }
}

/// A block survives the way to the card and back: the words that
/// `write_block` makes of 512 bytes, delivered again by a read and copied
/// out by `read_data`, give the same 512 bytes, whatever the buffer held
/// before.
pub proof fn lemma_block_round_trip(bytes: Seq<u8>, before: Seq<u8>)
    requires
        bytes.len() == BLOCK_SIZE,
        before.len() == BLOCK_SIZE,
    ensures
        spec_words(bytes).len() == BLOCK_WORDS,
        spec_block(spec_words(bytes), before) == bytes,
{
    let words = spec_words(bytes);
    lemma_bytes_of_words(bytes);
    assert(words.take(BLOCK_WORDS as int) =~= words);
    assert(spec_block(words, before) =~= bytes);
}

} // verus!
