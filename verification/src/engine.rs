//! The data transfer engine: one command, its response and its optional data
//! phase, as a state machine over register, FIFO and clock accesses.
//!
//! An exchange runs through these steps. Each wait is bounded by the
//! exchange's timeout, measured on the caller's monotonic clock.
//!
//! 1. Wait until the controller accepts commands (start flag clear); for a
//!    command with a data phase, also until the card releases its data line.
//! 2. Write the argument register, then the command register.
//! 3. Wait until the controller has taken the command (start flag clear).
//! 4. If a response is expected, wait for the command-done flag.
//! 5. If data is transferred, pump the FIFO until the data-transfer-over
//!    flag or an error flag shows.
//! 6. Read the raw interrupt status and write it back to acknowledge it.
//! 7. Read the four response words and classify the outcome.
use crate::io::{Action, Event, Step};
use crate::register::{
    CmdReg, RawInterrupt, RawInterruptStatusReg, StatusReg, ARG_REG, CMD_REG, FIFO_DATA_REG,
    RAW_INT_STATUS_REG, RESP0_REG, RESP1_REG, RESP2_REG, RESP3_REG, STATUS_REG,
};
use crate::utils::{spec_wait_ms, wait_ms};
use vstd::prelude::*;

verus! {

/// Filled FIFO locations that make up one machine word: the receive path
/// takes a word out only while at least this many locations are filled.
pub const FIFO_READ_MARK: u16 = 2;

/// Depth of the FIFO in locations: the transmit path puts a word in only
/// while fewer locations are filled.
pub const FIFO_DEPTH: u16 = 120;

/// The most words one exchange moves, so that every FIFO offset fits the 32
/// bits of a register offset. An exchange that has moved so many words moves
/// no more.
pub const MAX_WORDS: usize = 0x1000_0000;

/// The four response words of a command, `word0` from the lowest response
/// register.
#[derive(Debug, Copy, Clone, PartialEq, Eq, Structural)]
pub struct Response {
    pub word0: u32,
    pub word1: u32,
    pub word2: u32,
    pub word3: u32,
}

/// The data phase of a command: none, a read of up to so many words from the
/// card, or a write of the given words to the card.
#[derive(Debug)]
pub enum DataTransType {
    NoData,
    Read(usize),
    Write(Vec<u64>),
}

/// The direction of an exchange's data phase.
#[derive(Debug, Copy, Clone, PartialEq, Eq, Structural)]
pub enum Transfer {
    NoData,
    Read,
    Write,
}

/// What a bounded wait of the exchange waits for.
#[derive(Debug, Copy, Clone, PartialEq, Eq, Structural)]
pub enum Wait {
    /// The controller is ready for a command.
    Ready,
    /// The card has released its data line.
    DataIdle,
    /// The controller has taken the command.
    Accepted,
    /// The command-done flag.
    Response,
    /// The end of the data phase.
    Data,
}

/// Where an exchange stands, named after the access it has asked for and is
/// waiting to hear of.
#[derive(Debug, Copy, Clone, PartialEq, Eq, Structural)]
pub enum Stage {
    /// The clock reading that starts a wait.
    Start(Wait),
    /// The register read that tests the condition of a wait.
    Poll(Wait),
    /// The clock reading that tells whether a wait has run out.
    Tick(Wait),
    /// The status register read that gives the FIFO level.
    Level,
    /// The transfer of one word through the FIFO.
    Word,
    /// The write of the argument register.
    Argument,
    /// The write of the command register.
    Command,
    /// The final read of the raw interrupt status.
    Status,
    /// The write that acknowledges the raw interrupt status.
    Acknowledge,
    /// The read of response word 0.
    Resp0,
    /// The read of response word 1.
    Resp1,
    /// The read of response word 2.
    Resp2,
    /// The read of response word 3.
    Resp3,
    /// The exchange is over.
    Finished,
}

/// The interrupt flags held in a raw interrupt status word.
pub open spec fn spec_flags(raw: u32) -> RawInterrupt {
    RawInterrupt::spec_decode(RawInterruptStatusReg::spec_decode(raw).int_status)
}

/// Whether a command register word shows the start flag clear, so that the
/// controller takes a command.
pub open spec fn spec_can_send_cmd(raw: u32) -> bool {
    !CmdReg::spec_decode(raw).start_cmd
}

/// Whether a status word shows the card's data line released.
pub open spec fn spec_can_send_data(raw: u32) -> bool {
    !StatusReg::spec_decode(raw).data_busy
}

/// Whether a raw interrupt status word shows the command-done flag.
pub open spec fn spec_response_ready(raw: u32) -> bool {
    spec_flags(raw).command_done
}

/// The FIFO level held in a status word.
pub open spec fn spec_fifo_filled_cnt(raw: u32) -> u16 {
    StatusReg::spec_decode(raw).fifo_count
}

/// The register that the wait `wait` polls.
pub open spec fn spec_poll_register(wait: Wait) -> u32 {
    match wait {
        Wait::Ready | Wait::Accepted => CMD_REG,
        Wait::DataIdle => STATUS_REG,
        Wait::Response | Wait::Data => RAW_INT_STATUS_REG,
    }
}

/// The FIFO offset at which word number `k` of a transfer is moved.
pub open spec fn spec_fifo_offset(k: nat) -> u32 {
    (FIFO_DATA_REG + 8 * k) as u32
}

/// How an exchange ended.
#[derive(Debug, Copy, Clone, PartialEq, Eq, Structural)]
pub enum Outcome {
    /// No error flag was raised; these are the four response words.
    Response(Response),
    /// An error flag was raised; no response is handed out.
    Failed,
    /// A bounded wait ran out of time.
    TimedOut,
    /// An event did not answer the access that the exchange had asked for.
    Unexpected,
}

/// The outcome of an exchange whose final interrupt flags are `status`: a
/// failure if any error flag is raised, the response otherwise.
pub open spec fn spec_classify(status: RawInterrupt, response: Response) -> Outcome {
    if status.spec_have_error() {
        Outcome::Failed
    } else {
        Outcome::Response(response)
    }
}

/// The mathematical state of an exchange.
pub ghost struct ExchangeModel {
    pub cmd: CmdReg,
    pub arg: u32,
    pub transfer: Transfer,
    pub timeout_ms: u64,
    pub stage: Stage,
    /// Clock reading at which the current wait began.
    pub started: u64,
    /// Interrupt flags seen by the last poll of the data phase.
    pub pending: RawInterrupt,
    /// The raw interrupt status that was read at the end and acknowledged.
    pub status: u32,
    pub resp0: u32,
    pub resp1: u32,
    pub resp2: u32,
    /// Read: the words received so far. Write: the words to send.
    pub words: Seq<u64>,
    /// Read: the most words to receive.
    pub capacity: nat,
    /// Write: the number of words sent so far.
    pub sent: nat,
}

impl ExchangeModel {
    /// The state in which an exchange starts.
    pub open spec fn start(
        cmd: CmdReg,
        arg: u32,
        transfer: Transfer,
        words: Seq<u64>,
        capacity: nat,
        timeout_ms: u64,
    ) -> ExchangeModel {
        ExchangeModel {
            cmd,
            arg,
            transfer,
            timeout_ms,
            stage: Stage::Start(Wait::Ready),
            started: 0,
            pending: RawInterrupt::spec_decode(0),
            status: 0,
            resp0: 0,
            resp1: 0,
            resp2: 0,
            words,
            capacity,
            sent: 0,
        }
    }

    /// The number of words moved through the FIFO so far.
    pub open spec fn moved(self) -> nat {
        match self.transfer {
            Transfer::Write => self.sent,
            _ => self.words.len(),
        }
    }

    pub open spec fn go(self, stage: Stage, action: Action) -> (ExchangeModel, Step<Outcome>) {
        (ExchangeModel { stage, ..self }, Step::Perform(action))
    }

    pub open spec fn finish(self, outcome: Outcome) -> (ExchangeModel, Step<Outcome>) {
        (ExchangeModel { stage: Stage::Finished, ..self }, Step::Complete(outcome))
    }

    pub open spec fn begin_wait(self, wait: Wait) -> (ExchangeModel, Step<Outcome>) {
        self.go(Stage::Start(wait), Action::ReadClock)
    }

    pub open spec fn poll(self, wait: Wait) -> (ExchangeModel, Step<Outcome>) {
        self.go(Stage::Poll(wait), Action::ReadRegister { offset: spec_poll_register(wait) })
    }

    pub open spec fn tick(self, wait: Wait) -> (ExchangeModel, Step<Outcome>) {
        self.go(Stage::Tick(wait), Action::ReadClock)
    }

    pub open spec fn write_argument(self) -> (ExchangeModel, Step<Outcome>) {
        self.go(Stage::Argument, Action::WriteRegister { offset: ARG_REG, value: self.arg })
    }

    pub open spec fn read_status(self) -> (ExchangeModel, Step<Outcome>) {
        self.go(Stage::Status, Action::ReadRegister { offset: RAW_INT_STATUS_REG })
    }

    pub open spec fn read_level(self) -> (ExchangeModel, Step<Outcome>) {
        self.go(Stage::Level, Action::ReadRegister { offset: STATUS_REG })
    }

    /// The controller is ready: a command with a data phase waits for the
    /// data line, any other goes on to the argument.
    pub open spec fn after_ready(self) -> (ExchangeModel, Step<Outcome>) {
        if self.cmd.data_expected {
            self.begin_wait(Wait::DataIdle)
        } else {
            self.write_argument()
        }
    }

    /// The command is done as far as its response goes.
    pub open spec fn after_response(self) -> (ExchangeModel, Step<Outcome>) {
        if self.cmd.data_expected && self.transfer != Transfer::NoData {
            self.begin_wait(Wait::Data)
        } else {
            self.read_status()
        }
    }

    /// The controller has taken the command.
    pub open spec fn after_accepted(self) -> (ExchangeModel, Step<Outcome>) {
        if self.cmd.response_expect {
            self.begin_wait(Wait::Response)
        } else {
            self.after_response()
        }
    }

    /// Whether the flags seen by the last poll ask for words to be moved.
    pub open spec fn requested(self) -> bool {
        match self.transfer {
            Transfer::NoData => false,
            Transfer::Read => self.pending.rxdr,
            Transfer::Write => self.pending.txdr,
        }
    }

    /// Whether the flags seen by the last poll end the data phase.
    pub open spec fn data_over(self) -> bool {
        self.pending.dto || self.pending.spec_have_error()
    }

    /// No more words can be moved for now: the data phase ends if the last
    /// poll said so, and goes on waiting otherwise.
    pub open spec fn after_drain(self) -> (ExchangeModel, Step<Outcome>) {
        if self.data_over() {
            self.read_status()
        } else {
            self.tick(Wait::Data)
        }
    }

    /// The poll of the wait `wait` read `value`.
    pub open spec fn on_poll(self, wait: Wait, value: u32) -> (ExchangeModel, Step<Outcome>) {
        match wait {
            Wait::Ready => if spec_can_send_cmd(value) {
                self.after_ready()
            } else {
                self.tick(wait)
            },
            Wait::DataIdle => if spec_can_send_data(value) {
                self.write_argument()
            } else {
                self.tick(wait)
            },
            Wait::Accepted => if spec_can_send_cmd(value) {
                self.after_accepted()
            } else {
                self.tick(wait)
            },
            Wait::Response => if spec_response_ready(value) {
                self.after_response()
            } else {
                self.tick(wait)
            },
            Wait::Data => {
                let seen = ExchangeModel { pending: spec_flags(value), ..self };
                if seen.requested() {
                    seen.read_level()
                } else {
                    seen.after_drain()
                }
            },
        }
    }

    /// The clock read `now` after an unsuccessful poll of the wait `wait`.
    pub open spec fn on_tick(self, wait: Wait, now: u64) -> (ExchangeModel, Step<Outcome>) {
        if spec_wait_ms(self.timeout_ms, self.started, now) {
            self.poll(wait)
        } else {
            self.finish(Outcome::TimedOut)
        }
    }

    /// The status register read `value` while words were asked for.
    pub open spec fn on_level(self, value: u32) -> (ExchangeModel, Step<Outcome>) {
        let filled = spec_fifo_filled_cnt(value);
        match self.transfer {
            Transfer::Read => if filled >= FIFO_READ_MARK && self.words.len() < self.capacity
                && self.words.len() < MAX_WORDS {
                self.go(Stage::Word, Action::ReadFifo { offset: spec_fifo_offset(self.words.len()) })
            } else {
                self.after_drain()
            },
            Transfer::Write => if filled < FIFO_DEPTH && self.sent < self.words.len() && self.sent
                < MAX_WORDS {
                self.go(
                    Stage::Word,
                    Action::WriteFifo {
                        offset: spec_fifo_offset(self.sent),
                        word: self.words[self.sent as int],
                    },
                )
            } else {
                self.after_drain()
            },
            Transfer::NoData => self.after_drain(),
        }
    }

    /// The response made of the three words stored and the last one read.
    pub open spec fn response(self, word3: u32) -> Response {
        Response { word0: self.resp0, word1: self.resp1, word2: self.resp2, word3 }
    }

    /// The transition function: the state after `event` and what to do next.
    /// An event that does not answer the access asked for ends the exchange
    /// as `Unexpected`.
    pub open spec fn advance(self, event: Event) -> (ExchangeModel, Step<Outcome>) {
        match (self.stage, event) {
            (Stage::Start(wait), Event::Clock(now)) => (ExchangeModel {
                started: now,
                ..self
            }).poll(wait),
            (Stage::Poll(wait), Event::Register(value)) => self.on_poll(wait, value),
            (Stage::Tick(wait), Event::Clock(now)) => self.on_tick(wait, now),
            (Stage::Level, Event::Register(value)) => self.on_level(value),
            (Stage::Word, Event::Fifo(word)) => if self.transfer == Transfer::Read
                && self.words.len() < self.capacity {
                (ExchangeModel { words: self.words.push(word), ..self }).read_level()
            } else {
                self.finish(Outcome::Unexpected)
            },
            (Stage::Word, Event::Done) => if self.transfer == Transfer::Write && self.sent
                < self.words.len() {
                (ExchangeModel { sent: self.sent + 1, ..self }).read_level()
            } else {
                self.finish(Outcome::Unexpected)
            },
            (Stage::Argument, Event::Done) => self.go(
                Stage::Command,
                Action::WriteRegister { offset: CMD_REG, value: self.cmd.spec_encode() },
            ),
            (Stage::Command, Event::Done) => self.begin_wait(Wait::Accepted),
            (Stage::Status, Event::Register(value)) => (ExchangeModel {
                status: value,
                ..self
            }).go(
                Stage::Acknowledge,
                Action::WriteRegister { offset: RAW_INT_STATUS_REG, value },
            ),
            (Stage::Acknowledge, Event::Done) => self.go(
                Stage::Resp0,
                Action::ReadRegister { offset: RESP0_REG },
            ),
            (Stage::Resp0, Event::Register(value)) => (ExchangeModel { resp0: value, ..self }).go(
                Stage::Resp1,
                Action::ReadRegister { offset: RESP1_REG },
            ),
            (Stage::Resp1, Event::Register(value)) => (ExchangeModel { resp1: value, ..self }).go(
                Stage::Resp2,
                Action::ReadRegister { offset: RESP2_REG },
            ),
            (Stage::Resp2, Event::Register(value)) => (ExchangeModel { resp2: value, ..self }).go(
                Stage::Resp3,
                Action::ReadRegister { offset: RESP3_REG },
            ),
            (Stage::Resp3, Event::Register(value)) => self.finish(
                spec_classify(spec_flags(self.status), self.response(value)),
            ),
            _ => self.finish(Outcome::Unexpected),
        }
    }
}

impl DataTransType {
    pub open spec fn spec_transfer(self) -> Transfer {
        match self {
            DataTransType::NoData => Transfer::NoData,
            DataTransType::Read(_) => Transfer::Read,
            DataTransType::Write(_) => Transfer::Write,
        }
    }

    pub open spec fn spec_words(self) -> Seq<u64> {
        match self {
            DataTransType::Write(words) => words@,
            _ => Seq::empty(),
        }
    }

    pub open spec fn spec_capacity(self) -> nat {
        match self {
            DataTransType::Read(capacity) => capacity as nat,
            _ => 0,
        }
    }
}

/// The interrupt flags held in a raw interrupt status word.
pub fn flags(raw: u32) -> (r: RawInterrupt)
    ensures
        r == spec_flags(raw),
{
    RawInterrupt::decode(RawInterruptStatusReg::decode(raw).int_status)
}

/// Tests the value read from the command register: whether the controller
/// takes a command.
pub fn wait_ms_util_can_send_cmd(raw: u32) -> (r: bool)
    ensures
        r == spec_can_send_cmd(raw),
{
    !CmdReg::decode(raw).start_cmd
}

/// Tests the value read from the status register: whether the card has
/// released its data line.
pub fn wait_ms_util_can_send_data(raw: u32) -> (r: bool)
    ensures
        r == spec_can_send_data(raw),
{
    !StatusReg::decode(raw).data_busy
}

/// Tests the value read from the raw interrupt status register: whether the
/// command is done.
pub fn wait_ms_util_response(raw: u32) -> (r: bool)
    ensures
        r == spec_response_ready(raw),
{
    flags(raw).command_done
}

/// The number of filled FIFO locations that a status word reports.
pub fn fifo_filled_cnt(raw: u32) -> (r: u16)
    ensures
        r == spec_fifo_filled_cnt(raw),
{
    StatusReg::decode(raw).fifo_count
}

/// Classifies the end of an exchange by its final interrupt flags.
pub fn classify(status: RawInterrupt, response: Response) -> (r: Outcome)
    ensures
        r == spec_classify(status, response),
{
    if status.have_error() {
        Outcome::Failed
    } else {
        Outcome::Response(response)
    }
}

/// One exchange in progress.
#[derive(Debug)]
pub struct Exchange {
    cmd: CmdReg,
    arg: u32,
    transfer: Transfer,
    timeout_ms: u64,
    stage: Stage,
    started: u64,
    pending: RawInterrupt,
    status: u32,
    resp0: u32,
    resp1: u32,
    resp2: u32,
    words: Vec<u64>,
    capacity: usize,
    sent: usize,
}

impl Exchange {
    pub closed spec fn view(&self) -> ExchangeModel {
        ExchangeModel {
            cmd: self.cmd,
            arg: self.arg,
            transfer: self.transfer,
            timeout_ms: self.timeout_ms,
            stage: self.stage,
            started: self.started,
            pending: self.pending,
            status: self.status,
            resp0: self.resp0,
            resp1: self.resp1,
            resp2: self.resp2,
            words: self.words@,
            capacity: self.capacity as nat,
            sent: self.sent as nat,
        }
    }

    /// Starts the exchange of the command `cmd` with the argument `arg` and
    /// the data phase `data`; every wait of the exchange is bounded by
    /// `timeout_ms` milliseconds. Returns the exchange and its first access.
    pub fn send_cmd(cmd: CmdReg, arg: u32, data: DataTransType, timeout_ms: u64) -> (r: (
        Exchange,
        Action,
    ))
        requires
            cmd.data_expected ==> !(data is NoData),
        ensures
            r.0@ == ExchangeModel::start(
                cmd,
                arg,
                data.spec_transfer(),
                data.spec_words(),
                data.spec_capacity(),
                timeout_ms,
            ),
            r.1 == Action::ReadClock,
    {
        let (transfer, words, capacity) = match data {
            DataTransType::NoData => (Transfer::NoData, Vec::new(), 0),
            DataTransType::Read(capacity) => (Transfer::Read, Vec::new(), capacity),
            DataTransType::Write(words) => (Transfer::Write, words, 0),
        };
        let exchange = Exchange {
            cmd,
            arg,
            transfer,
            timeout_ms,
            stage: Stage::Start(Wait::Ready),
            started: 0,
            pending: RawInterrupt::decode(0),
            status: 0,
            resp0: 0,
            resp1: 0,
            resp2: 0,
            words,
            capacity,
            sent: 0,
        };
        (exchange, Action::ReadClock)
    }

    /// Where the exchange stands.
    pub fn stage(&self) -> (r: Stage)
        ensures
            r == self@.stage,
    {
        self.stage
    }

    /// The words of the data phase: those received so far when reading,
    /// those to send when writing.
    pub fn words(&self) -> (r: &Vec<u64>)
        ensures
            r@ == self@.words,
    {
        &self.words
    }

    /// The number of words moved through the FIFO so far.
    pub fn moved(&self) -> (r: usize)
        ensures
            r == self@.moved(),
    {
        match self.transfer {
            Transfer::Write => self.sent,
            _ => self.words.len(),
        }
    }

    fn go(&mut self, stage: Stage, action: Action) -> (step: Step<Outcome>)
        ensures
            (final(self)@, step) == old(self)@.go(stage, action),
    {
        self.stage = stage;
        Step::Perform(action)
    }

    fn finish(&mut self, outcome: Outcome) -> (step: Step<Outcome>)
        ensures
            (final(self)@, step) == old(self)@.finish(outcome),
    {
        self.stage = Stage::Finished;
        Step::Complete(outcome)
    }

    fn poll(&mut self, wait: Wait) -> (step: Step<Outcome>)
        ensures
            (final(self)@, step) == old(self)@.poll(wait),
    {
        let offset = match wait {
            Wait::Ready | Wait::Accepted => CMD_REG,
            Wait::DataIdle => STATUS_REG,
            Wait::Response | Wait::Data => RAW_INT_STATUS_REG,
        };
        self.go(Stage::Poll(wait), Action::ReadRegister { offset })
    }

    fn write_argument(&mut self) -> (step: Step<Outcome>)
        ensures
            (final(self)@, step) == old(self)@.write_argument(),
    {
        let value = self.arg;
        self.go(Stage::Argument, Action::WriteRegister { offset: ARG_REG, value })
    }

    fn read_status(&mut self) -> (step: Step<Outcome>)
        ensures
            (final(self)@, step) == old(self)@.read_status(),
    {
        self.go(Stage::Status, Action::ReadRegister { offset: RAW_INT_STATUS_REG })
    }

    fn read_level(&mut self) -> (step: Step<Outcome>)
        ensures
            (final(self)@, step) == old(self)@.read_level(),
    {
        self.go(Stage::Level, Action::ReadRegister { offset: STATUS_REG })
    }

    fn after_ready(&mut self) -> (step: Step<Outcome>)
        ensures
            (final(self)@, step) == old(self)@.after_ready(),
    {
        if self.cmd.data_expected {
            self.go(Stage::Start(Wait::DataIdle), Action::ReadClock)
        } else {
            self.write_argument()
        }
    }

    fn after_response(&mut self) -> (step: Step<Outcome>)
        ensures
            (final(self)@, step) == old(self)@.after_response(),
    {
        if self.cmd.data_expected && self.transfer != Transfer::NoData {
            self.go(Stage::Start(Wait::Data), Action::ReadClock)
        } else {
            self.read_status()
        }
    }

    fn after_accepted(&mut self) -> (step: Step<Outcome>)
        ensures
            (final(self)@, step) == old(self)@.after_accepted(),
    {
        if self.cmd.response_expect {
            self.go(Stage::Start(Wait::Response), Action::ReadClock)
        } else {
            self.after_response()
        }
    }

    fn after_drain(&mut self) -> (step: Step<Outcome>)
        ensures
            (final(self)@, step) == old(self)@.after_drain(),
    {
        if self.pending.dto || self.pending.have_error() {
            self.read_status()
        } else {
            self.go(Stage::Tick(Wait::Data), Action::ReadClock)
        }
    }

    fn on_poll(&mut self, wait: Wait, value: u32) -> (step: Step<Outcome>)
        ensures
            (final(self)@, step) == old(self)@.on_poll(wait, value),
    {
        match wait {
            Wait::Ready => if wait_ms_util_can_send_cmd(value) {
                self.after_ready()
            } else {
                self.go(Stage::Tick(wait), Action::ReadClock)
            },
            Wait::DataIdle => if wait_ms_util_can_send_data(value) {
                self.write_argument()
            } else {
                self.go(Stage::Tick(wait), Action::ReadClock)
            },
            Wait::Accepted => if wait_ms_util_can_send_cmd(value) {
                self.after_accepted()
            } else {
                self.go(Stage::Tick(wait), Action::ReadClock)
            },
            Wait::Response => if wait_ms_util_response(value) {
                self.after_response()
            } else {
                self.go(Stage::Tick(wait), Action::ReadClock)
            },
            Wait::Data => {
                self.pending = flags(value);
                let requested = match self.transfer {
                    Transfer::NoData => false,
                    Transfer::Read => self.pending.rxdr,
                    Transfer::Write => self.pending.txdr,
                };
                if requested {
                    self.read_level()
                } else {
                    self.after_drain()
                }
            },
        }
    }

    fn on_tick(&mut self, wait: Wait, now: u64) -> (step: Step<Outcome>)
        ensures
            (final(self)@, step) == old(self)@.on_tick(wait, now),
    {
        if wait_ms(self.timeout_ms, self.started, now) {
            self.poll(wait)
        } else {
            self.finish(Outcome::TimedOut)
        }
    }

    fn on_level(&mut self, value: u32) -> (step: Step<Outcome>)
        ensures
            (final(self)@, step) == old(self)@.on_level(value),
    {
        let filled = fifo_filled_cnt(value);
        match self.transfer {
            Transfer::Read => if filled >= FIFO_READ_MARK && self.words.len() < self.capacity
                && self.words.len() < MAX_WORDS {
                let offset = FIFO_DATA_REG + 8 * (self.words.len() as u32);
                self.go(Stage::Word, Action::ReadFifo { offset })
            } else {
                self.after_drain()
            },
            Transfer::Write => if filled < FIFO_DEPTH && self.sent < self.words.len() && self.sent
                < MAX_WORDS {
                let offset = FIFO_DATA_REG + 8 * (self.sent as u32);
                let word = self.words[self.sent];
                self.go(Stage::Word, Action::WriteFifo { offset, word })
            } else {
                self.after_drain()
            },
            Transfer::NoData => self.after_drain(),
        }
    }

    /// Advances the exchange with the outcome of the access it asked for
    /// last. Returns the next access, or the outcome of the exchange: the
    /// response, `Failed` where an error flag was raised, `TimedOut` where a
    /// wait ran out, and `Unexpected` where `event` does not answer the
    /// access asked for.
    pub fn advance(&mut self, event: Event) -> (step: Step<Outcome>)
        ensures
            (final(self)@, step) == old(self)@.advance(event),
    {
        match (self.stage, event) {
            (Stage::Start(wait), Event::Clock(now)) => {
                self.started = now;
                self.poll(wait)
            },
            (Stage::Poll(wait), Event::Register(value)) => self.on_poll(wait, value),
            (Stage::Tick(wait), Event::Clock(now)) => self.on_tick(wait, now),
            (Stage::Level, Event::Register(value)) => self.on_level(value),
            (Stage::Word, Event::Fifo(word)) => {
                if self.transfer == Transfer::Read && self.words.len() < self.capacity {
                    self.words.push(word);
                    self.read_level()
                } else {
                    self.finish(Outcome::Unexpected)
                }
            },
            (Stage::Word, Event::Done) => {
                if self.transfer == Transfer::Write && self.sent < self.words.len() {
                    self.sent = self.sent + 1;
                    self.read_level()
                } else {
                    self.finish(Outcome::Unexpected)
                }
            },
            (Stage::Argument, Event::Done) => {
                let value = self.cmd.encode();
                self.go(Stage::Command, Action::WriteRegister { offset: CMD_REG, value })
            },
            (Stage::Command, Event::Done) => self.go(
                Stage::Start(Wait::Accepted),
                Action::ReadClock,
            ),
            (Stage::Status, Event::Register(value)) => {
                self.status = value;
                self.go(
                    Stage::Acknowledge,
                    Action::WriteRegister { offset: RAW_INT_STATUS_REG, value },
                )
            },
            (Stage::Acknowledge, Event::Done) => self.go(
                Stage::Resp0,
                Action::ReadRegister { offset: RESP0_REG },
            ),
            (Stage::Resp0, Event::Register(value)) => {
                self.resp0 = value;
                self.go(Stage::Resp1, Action::ReadRegister { offset: RESP1_REG })
            },
            (Stage::Resp1, Event::Register(value)) => {
                self.resp1 = value;
                self.go(Stage::Resp2, Action::ReadRegister { offset: RESP2_REG })
            },
            (Stage::Resp2, Event::Register(value)) => {
                self.resp2 = value;
                self.go(Stage::Resp3, Action::ReadRegister { offset: RESP3_REG })
            },
            (Stage::Resp3, Event::Register(value)) => {
                let response = Response {
                    word0: self.resp0,
                    word1: self.resp1,
                    word2: self.resp2,
                    word3: value,
                };
                let outcome = classify(flags(self.status), response);
                self.finish(outcome)
            },
            _ => self.finish(Outcome::Unexpected),
        }
    }
}

/// The events of a receive burst: for each word, the status word that shows
/// the FIFO level and then the word itself.
pub open spec fn read_burst(levels: Seq<u32>, words: Seq<u64>) -> Seq<Event>
    decreases words.len(),
{
    if words.len() == 0 {
        Seq::empty()
    } else {
        seq![Event::Register(levels[0]), Event::Fifo(words[0])] + read_burst(
            levels.skip(1),
            words.skip(1),
        )
    }
}

/// The events of a transmit burst: for each word, the status word that shows
/// the FIFO level and then the completion of the store.
pub open spec fn write_burst(levels: Seq<u32>) -> Seq<Event>
    decreases levels.len(),
{
    if levels.len() == 0 {
        Seq::empty()
    } else {
        seq![Event::Register(levels[0]), Event::Done] + write_burst(levels.skip(1))
    }
}

impl ExchangeModel {
    /// The state after a run of events, each answering the access that the
    /// one before led to.
    pub open spec fn run(self, events: Seq<Event>) -> ExchangeModel
        decreases events.len(),
    {
        if events.len() == 0 {
            self
        } else {
            self.advance(events[0]).0.run(events.skip(1))
        }
    }

    /// A run over two scripts in a row is the run over the second from where
    /// the first ended.
    pub proof fn lemma_run_concat(self, first: Seq<Event>, second: Seq<Event>)
        ensures
            self.run(first + second) == self.run(first).run(second),
        decreases first.len(),
    {
        if first.len() == 0 {
            assert(first + second =~= second);
        } else {
            assert((first + second).skip(1) =~= first.skip(1) + second);
            self.advance(first[0]).0.lemma_run_concat(first.skip(1), second);
        }
    }

    /// A run over a single event is one transition.
    pub proof fn lemma_run_one(self, event: Event)
        ensures
            self.run(seq![event]) == self.advance(event).0,
    {
        assert(seq![event].skip(1) =~= Seq::<Event>::empty());
        reveal_with_fuel(ExchangeModel::run, 2);
    }

    proof fn lemma_read_burst(self, levels: Seq<u32>, words: Seq<u64>)
        requires
            self.stage == Stage::Level,
            self.transfer == Transfer::Read,
            levels.len() == words.len(),
            self.words.len() + words.len() <= self.capacity,
            self.words.len() + words.len() <= MAX_WORDS,
            forall|i: int|
                0 <= i < levels.len() ==> spec_fifo_filled_cnt(#[trigger] levels[i])
                    >= FIFO_READ_MARK,
        ensures
            self.run(read_burst(levels, words)) == (ExchangeModel {
                words: self.words + words,
                ..self
            }),
        decreases words.len(),
    {
        if words.len() == 0 {
            assert(self.words + words =~= self.words);
        } else {
            let head = seq![Event::Register(levels[0]), Event::Fifo(words[0])];
            let rest = read_burst(levels.skip(1), words.skip(1));
            let taken = self.advance(Event::Register(levels[0])).0;
            let stored = taken.advance(Event::Fifo(words[0])).0;
            assert(self.run(head) == stored) by {
                assert(head.skip(1) =~= seq![Event::Fifo(words[0])]);
                taken.lemma_run_one(Event::Fifo(words[0]));
            }
            self.lemma_run_concat(head, rest);
            assert forall|i: int| 0 <= i < levels.skip(1).len() implies spec_fifo_filled_cnt(
                #[trigger] levels.skip(1)[i],
            ) >= FIFO_READ_MARK by {
                assert(levels.skip(1)[i] == levels[i + 1]);
            }
            stored.lemma_read_burst(levels.skip(1), words.skip(1));
            assert(stored.words + words.skip(1) =~= self.words + words);
        }
    }

    proof fn lemma_write_burst(self, levels: Seq<u32>)
        requires
            self.stage == Stage::Level,
            self.transfer == Transfer::Write,
            self.sent + levels.len() <= self.words.len(),
            self.words.len() <= MAX_WORDS,
            forall|i: int|
                0 <= i < levels.len() ==> spec_fifo_filled_cnt(#[trigger] levels[i]) < FIFO_DEPTH,
        ensures
            self.run(write_burst(levels)) == (ExchangeModel {
                sent: self.sent + levels.len(),
                ..self
            }),
        decreases levels.len(),
    {
        if levels.len() == 0 {
        } else {
            let head = seq![Event::Register(levels[0]), Event::Done];
            let rest = write_burst(levels.skip(1));
            let offered = self.advance(Event::Register(levels[0])).0;
            let stored = offered.advance(Event::Done).0;
            assert(self.run(head) == stored) by {
                assert(head.skip(1) =~= seq![Event::Done]);
                offered.lemma_run_one(Event::Done);
            }
            self.lemma_run_concat(head, rest);
            assert forall|i: int| 0 <= i < levels.skip(1).len() implies spec_fifo_filled_cnt(
                #[trigger] levels.skip(1)[i],
            ) < FIFO_DEPTH by {
                assert(levels.skip(1)[i] == levels[i + 1]);
            }
            stored.lemma_write_burst(levels.skip(1));
        }
    }

    proof fn lemma_run_three(self, a: Event, b: Event, c: Event)
        ensures
            self.run(seq![a, b, c]) == self.advance(a).0.advance(b).0.advance(c).0,
    {
        let script = seq![a, b, c];
        let first = self.advance(a).0;
        let second = first.advance(b).0;
        assert(script.skip(1) =~= seq![b, c]);
        assert(seq![b, c].skip(1) =~= seq![c]);
        second.lemma_run_one(c);
        assert(first.run(seq![b, c]) == second.run(seq![c])) by {
            assert(seq![b, c][0] == b);
        }
        assert(self.run(script) == first.run(seq![b, c])) by {
            assert(script[0] == a);
        }
    }

    /// The receive pump moves exactly the words that the FIFO offers and
    /// then leaves. The script is that of a controller which asks for the
    /// FIFO to be drained (`request`), shows a level at or above the mark
    /// before each of the words (`levels`), then a level below it (`empty`),
    /// and at the next poll, still within the timeout (`now`), reports the
    /// data transfer over (`over`). After it the exchange holds the words it
    /// held before followed by the offered words, in order, and has gone on
    /// to read the final interrupt status.
    pub proof fn lemma_read_pump_moves_offered_words(
        self,
        request: u32,
        levels: Seq<u32>,
        words: Seq<u64>,
        empty: u32,
        now: u64,
        over: u32,
    )
        requires
            self.stage == Stage::Poll(Wait::Data),
            self.transfer == Transfer::Read,
            levels.len() == words.len(),
            self.words.len() + words.len() <= self.capacity,
            self.words.len() + words.len() <= MAX_WORDS,
            spec_flags(request).rxdr,
            !spec_flags(request).dto,
            !spec_flags(request).spec_have_error(),
            forall|i: int|
                0 <= i < levels.len() ==> spec_fifo_filled_cnt(#[trigger] levels[i])
                    >= FIFO_READ_MARK,
            spec_fifo_filled_cnt(empty) < FIFO_READ_MARK,
            spec_wait_ms(self.timeout_ms, self.started, now),
            !spec_flags(over).rxdr,
            spec_flags(over).dto,
        ensures
            ({
                let script = seq![Event::Register(request)] + read_burst(levels, words) + seq![
                    Event::Register(empty),
                    Event::Clock(now),
                    Event::Register(over),
                ];
                let end = self.run(script);
                &&& end.stage == Stage::Status
                &&& end.words == self.words + words
                &&& end.moved() == self.moved() + words.len()
            }),
    {
        let opening = seq![Event::Register(request)];
        let burst = read_burst(levels, words);
        let closing = seq![Event::Register(empty), Event::Clock(now), Event::Register(over)];
        let asked = self.advance(Event::Register(request)).0;
        self.lemma_run_one(Event::Register(request));
        asked.lemma_read_burst(levels, words);
        let drained = asked.run(burst);
        drained.lemma_run_three(Event::Register(empty), Event::Clock(now), Event::Register(over));
        self.lemma_run_concat(opening, burst);
        self.lemma_run_concat(opening + burst, closing);
    }

    /// The transmit pump moves exactly the words it was given and then
    /// leaves. The script is that of a controller which asks for the FIFO to
    /// be filled (`request`), shows a level below the FIFO depth before each
    /// of the words that are left (`levels`), any level after the last
    /// (`last`), and at the next poll, still within the timeout (`now`),
    /// reports the data transfer over (`over`). After it every word has been
    /// sent and the exchange has gone on to read the final interrupt status.
    pub proof fn lemma_write_pump_moves_given_words(
        self,
        request: u32,
        levels: Seq<u32>,
        last: u32,
        now: u64,
        over: u32,
    )
        requires
            self.stage == Stage::Poll(Wait::Data),
            self.transfer == Transfer::Write,
            self.sent + levels.len() == self.words.len(),
            self.words.len() <= MAX_WORDS,
            spec_flags(request).txdr,
            !spec_flags(request).dto,
            !spec_flags(request).spec_have_error(),
            forall|i: int|
                0 <= i < levels.len() ==> spec_fifo_filled_cnt(#[trigger] levels[i]) < FIFO_DEPTH,
            spec_wait_ms(self.timeout_ms, self.started, now),
            !spec_flags(over).txdr,
            spec_flags(over).dto,
        ensures
            ({
                let script = seq![Event::Register(request)] + write_burst(levels) + seq![
                    Event::Register(last),
                    Event::Clock(now),
                    Event::Register(over),
                ];
                let end = self.run(script);
                &&& end.stage == Stage::Status
                &&& end.sent == self.words.len()
                &&& end.words == self.words
                &&& end.moved() == self.moved() + levels.len()
            }),
    {
        let opening = seq![Event::Register(request)];
        let burst = write_burst(levels);
        let closing = seq![Event::Register(last), Event::Clock(now), Event::Register(over)];
        let asked = self.advance(Event::Register(request)).0;
        self.lemma_run_one(Event::Register(request));
        asked.lemma_write_burst(levels);
        let filled = asked.run(burst);
        filled.lemma_run_three(Event::Register(last), Event::Clock(now), Event::Register(over));
        self.lemma_run_concat(opening, burst);
        self.lemma_run_concat(opening + burst, closing);
    }

    /// The data phase ends at the first poll that shows the
    /// data-transfer-over flag or an error flag without asking for words:
    /// the exchange goes straight on to read the final interrupt status.
    pub proof fn lemma_pump_leaves_when_over(self, status: u32)
        requires
            self.stage == Stage::Poll(Wait::Data),
            spec_flags(status).dto || spec_flags(status).spec_have_error(),
            !(ExchangeModel { pending: spec_flags(status), ..self }).requested(),
        ensures
            self.advance(Event::Register(status)).0.stage == Stage::Status,
            self.advance(Event::Register(status)).0.moved() == self.moved(),
    {
    }

    /// How an exchange is classified when its last response word arrives:
    /// each of the seven error flags in the acknowledged interrupt status,
    /// on its own, makes the exchange fail, and with none of them raised it
    /// succeeds with the four response words as they were read.
    pub proof fn lemma_error_classification(self, word3: u32)
        requires
            self.stage == Stage::Resp3,
        ensures
            ({
                let flags = spec_flags(self.status);
                let step = self.advance(Event::Register(word3)).1;
                let failed = Step::<Outcome>::Complete(Outcome::Failed);
                &&& flags.rto ==> step == failed
                &&& flags.rcrc ==> step == failed
                &&& flags.response_err ==> step == failed
                &&& flags.dcrc ==> step == failed
                &&& flags.drto ==> step == failed
                &&& flags.sbe ==> step == failed
                &&& flags.ebe ==> step == failed
                &&& !(flags.rto || flags.rcrc || flags.response_err || flags.dcrc || flags.drto
                    || flags.sbe || flags.ebe) ==> step == Step::<Outcome>::Complete(
                    Outcome::Response(self.response(word3)),
                )
            }),
    {
    }
}

impl Stage {
    /// Whether an exchange that stands at this stage has written the command
    /// register.
    pub open spec fn command_written(self) -> bool {
        match self {
            Stage::Start(wait) | Stage::Poll(wait) | Stage::Tick(wait) => wait != Wait::Ready
                && wait != Wait::DataIdle,
            Stage::Argument => false,
            _ => true,
        }
    }
}

impl ExchangeModel {
    /// An exchange writes the command register once, with its own command
    /// word, when the write of the argument is done; and it hands out a
    /// response, or reports error flags, only after that.
    pub proof fn lemma_command_written_once(self, event: Event)
        requires
            self.stage != Stage::Finished,
        ensures
            ({
                let (next, step) = self.advance(event);
                let write = Action::WriteRegister { offset: CMD_REG, value: self.cmd.spec_encode() };
                &&& next.cmd == self.cmd
                &&& next.timeout_ms == self.timeout_ms
                &&& step matches Step::Perform(action) ==> {
                    &&& next.stage != Stage::Finished
                    &&& self.stage == Stage::Argument ==> action == write
                        && next.stage.command_written()
                    &&& self.stage != Stage::Argument ==> next.stage.command_written()
                        == self.stage.command_written() && !(action matches Action::WriteRegister {
                        offset,
                        ..
                    } && offset == CMD_REG)
                }
                &&& step matches Step::Complete(outcome) ==> {
                    &&& next.stage == Stage::Finished
                    &&& (outcome is Response || outcome is Failed) ==> self.stage.command_written()
                }
            }),
    {
    }

    /// Every wait is bounded by the clock: after a poll that did not find
    /// what the wait is for, the exchange ends as timed out exactly when the
    /// clock shows that the timeout has passed since the wait began, or
    /// that it has run backwards; otherwise the exchange polls again.
    pub proof fn lemma_wait_is_bounded(self, wait: Wait, now: u64)
        requires
            self.stage == Stage::Tick(wait),
        ensures
            ({
                let (next, step) = self.advance(Event::Clock(now));
                let running = self.started <= now && now - self.started < self.timeout_ms;
                &&& !running ==> step == Step::<Outcome>::Complete(Outcome::TimedOut)
                &&& running ==> step == Step::<Outcome>::Perform(
                    Action::ReadRegister { offset: spec_poll_register(wait) },
                ) && next.stage == Stage::Poll(wait)
            }),
    {
    }
}

} // verus!
