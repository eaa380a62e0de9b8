//! What holds of every run of the initialization, whatever the hardware
//! answers: the order in which the commands are issued, and what the driver
//! has seen by the time it declares the card ready.
use crate::bits::spec_get_bit;
use crate::cmd::Cmd;
use crate::driver::{DriverModel, Phase, OCR_READY_BIT};
use crate::engine::Stage;
use crate::io::{Action, Event, Step};
use crate::register::{CmdReg, CMD_REG};
use vstd::prelude::*;

verus! {

/// The command word of the pulse that commits the clock registers.
pub open spec fn clock_word() -> u32 {
    CmdReg::spec_update_clock().spec_encode()
}

/// The command word of a card command.
pub open spec fn command_word(cmd: Cmd) -> u32 {
    CmdReg::spec_from_cmd(cmd).unwrap().spec_encode()
}

/// The command word that an initialization with `polls` polls of the
/// operating conditions writes in place `i`: two clock pulses, go-idle,
/// send-interface-condition, then for each poll the app-command prefix and
/// send-operating-condition, then all-send-CID, send-relative-address,
/// send-CSD, select-card, and last the app-command prefix and send-SCR of
/// the bus width query.
pub open spec fn init_command_at(polls: int, i: int) -> u32 {
    if i < 2 {
        clock_word()
    } else if i == 2 {
        command_word(Cmd::GoIdleState)
    } else if i == 3 {
        command_word(Cmd::SendIfCond)
    } else if i < 4 + 2 * polls {
        if (i - 4) % 2 == 0 {
            command_word(Cmd::AppCmd)
        } else {
            command_word(Cmd::SdSendOpCond)
        }
    } else if i == 4 + 2 * polls {
        command_word(Cmd::AllSendCid)
    } else if i == 5 + 2 * polls {
        command_word(Cmd::SendRelativeAddr)
    } else if i == 6 + 2 * polls {
        command_word(Cmd::SendCsd)
    } else if i == 7 + 2 * polls {
        command_word(Cmd::SelectCard)
    } else if i == 8 + 2 * polls {
        command_word(Cmd::AppCmd)
    } else {
        command_word(Cmd::SendScr)
    }
}

/// All command words of an initialization with `polls` polls of the
/// operating conditions, in the order in which they are written.
pub open spec fn init_commands(polls: int) -> Seq<u32> {
    Seq::new((10 + 2 * polls) as nat, |i: int| init_command_at(polls, i))
}

impl DriverModel {
    /// The state after a run of events, each answering the access that the
    /// one before led to.
    pub open spec fn run(self, events: Seq<Event>) -> DriverModel
        decreases events.len(),
    {
        if events.len() == 0 {
            self
        } else {
            self.run(events.drop_last()).advance(events.last()).0
        }
    }

    /// The words that the steps of a run write to the command register, in
    /// order.
    pub open spec fn commands(self, events: Seq<Event>) -> Seq<u32>
        decreases events.len(),
    {
        if events.len() == 0 {
            Seq::empty()
        } else {
            let before = self.commands(events.drop_last());
            Self::commands_after(before, self.run(events.drop_last()).advance(events.last()).1)
        }
    }

    /// The number of polls of the operating conditions that the driver has
    /// begun, counted as one until the first has begun.
    pub open spec fn polls(self) -> int {
        self.ocr_retries - self.retries_left + 1
    }

    /// The command that the exchange of a phase carries.
    pub open spec fn phase_command(phase: Phase) -> CmdReg {
        match phase {
            Phase::Idle => CmdReg::spec_from_cmd(Cmd::GoIdleState).unwrap(),
            Phase::VoltageCheck => CmdReg::spec_from_cmd(Cmd::SendIfCond).unwrap(),
            Phase::OcrPrefix => CmdReg::spec_from_cmd(Cmd::AppCmd).unwrap(),
            Phase::OcrPoll => CmdReg::spec_from_cmd(Cmd::SdSendOpCond).unwrap(),
            Phase::Identify => CmdReg::spec_from_cmd(Cmd::AllSendCid).unwrap(),
            Phase::AddressAssign => CmdReg::spec_from_cmd(Cmd::SendRelativeAddr).unwrap(),
            Phase::ReadCsd => CmdReg::spec_from_cmd(Cmd::SendCsd).unwrap(),
            Phase::Select => CmdReg::spec_from_cmd(Cmd::SelectCard).unwrap(),
            Phase::BusWidthPrefix => CmdReg::spec_from_cmd(Cmd::AppCmd).unwrap(),
            Phase::BusWidthQuery => CmdReg::spec_from_cmd(Cmd::SendScr).unwrap(),
            Phase::ReadTransfer => CmdReg::spec_from_cmd(Cmd::ReadSingleBlock).unwrap(),
            Phase::WriteTransfer => CmdReg::spec_from_cmd(Cmd::WriteSingleBlock).unwrap(),
            _ => CmdReg::spec_update_clock(),
        }
    }

    /// The number of command words written before the driver entered its
    /// phase.
    pub open spec fn issued_before(self) -> int {
        let k = self.polls();
        match self.phase {
            Phase::PowerOn | Phase::ClockOff | Phase::ClockCommitOff => 0,
            Phase::ClockDivide | Phase::ClockOn | Phase::ClockCommitOn => 1,
            Phase::FifoControl
            | Phase::FifoReset
            | Phase::BusWidthInit
            | Phase::DmaBusMode
            | Phase::DmaSoftReset
            | Phase::DmaControl
            | Phase::DmaReset
            | Phase::Idle => 2,
            Phase::VoltageCheck => 3,
            Phase::OcrPrefix | Phase::OcrDelay => 2 + 2 * k,
            Phase::OcrPoll => 3 + 2 * k,
            Phase::Identify => 4 + 2 * k,
            Phase::AddressAssign => 5 + 2 * k,
            Phase::ReadCsd => 6 + 2 * k,
            Phase::Select => 7 + 2 * k,
            Phase::BusWidthPrefix => 8 + 2 * k,
            _ => 9 + 2 * k,
        }
    }

    /// The number of command words written so far, while the initialization
    /// is under way.
    pub open spec fn issued(self) -> int {
        if self.phase.spec_in_exchange() && self.exchange.stage.command_written() {
            self.issued_before() + 1
        } else {
            self.issued_before()
        }
    }

    /// Whether the driver has left the poll of the operating conditions
    /// behind.
    pub open spec fn past_ocr(self) -> bool {
        match self.phase {
            Phase::Identify
            | Phase::AddressAssign
            | Phase::ReadCsd
            | Phase::Select
            | Phase::BusWidthPrefix
            | Phase::BusWidthBlockSize
            | Phase::BusWidthByteCount
            | Phase::BusWidthQuery
            | Phase::Ready => true,
            _ => false,
        }
    }

    /// Whether the driver has not reached the poll of the operating
    /// conditions yet.
    pub open spec fn before_ocr(self) -> bool {
        self.issued_before() <= 3 && self.phase != Phase::OcrPrefix && self.phase
            != Phase::OcrDelay
    }

    /// What holds of the driver and of the command words `cmds` written so
    /// far, at every point of an initialization.
    pub open spec fn init_invariant(self, cmds: Seq<u32>) -> bool {
        &&& self.retries_left <= self.ocr_retries
        &&& self.phase != Phase::PowerOn
        &&& self.phase.spec_operation() != crate::driver::Operation::Read
        &&& self.phase.spec_operation() != crate::driver::Operation::Write
        &&& self.phase.spec_in_exchange() ==> {
            &&& self.exchange.stage != Stage::Finished
            &&& self.exchange.cmd == Self::phase_command(self.phase)
        }
        &&& self.before_ocr() ==> self.retries_left == self.ocr_retries
        &&& self.past_ocr() ==> spec_get_bit(self.ocr, OCR_READY_BIT)
        &&& self.phase != Phase::Failed && self.phase != Phase::Ready ==> cmds.len()
            == self.issued()
        &&& self.phase == Phase::Ready ==> (cmds.len() == 9 + 2 * self.polls() || cmds.len() == 10
            + 2 * self.polls())
        &&& cmds.len() <= 10 + 2 * self.polls()
        &&& forall|i: int|
            0 <= i < cmds.len() ==> cmds[i] == #[trigger] init_command_at(self.polls(), i)
    }

    /// The command words written so far once `action` has been asked for.
    pub open spec fn commands_with(cmds: Seq<u32>, action: Action) -> Seq<u32> {
        match action {
            Action::WriteRegister { offset, value } => if offset == CMD_REG {
                cmds.push(value)
            } else {
                cmds
            },
            _ => cmds,
        }
    }

    /// The command words that one step adds to those written before.
    pub open spec fn commands_after(cmds: Seq<u32>, step: Step<crate::driver::Done>) -> Seq<u32> {
        match step {
            Step::Perform(action) => Self::commands_with(cmds, action),
            _ => cmds,
        }
    }

    /// What holds when the exchange of the current phase has just ended with
    /// `outcome`, before the driver has acted on it.
    spec fn at_outcome(self, cmds: Seq<u32>, outcome: crate::engine::Outcome) -> bool {
        &&& self.retries_left <= self.ocr_retries
        &&& self.phase.spec_in_exchange()
        &&& self.phase.spec_operation() == crate::driver::Operation::Init
        &&& self.exchange.cmd == Self::phase_command(self.phase)
        &&& self.before_ocr() ==> self.retries_left == self.ocr_retries
        &&& self.past_ocr() ==> spec_get_bit(self.ocr, OCR_READY_BIT)
        &&& (outcome is Response || outcome is Failed) ==> cmds.len() == self.issued_before() + 1
        &&& cmds.len() <= self.issued_before() + 1
        &&& forall|i: int|
            0 <= i < cmds.len() ==> cmds[i] == #[trigger] init_command_at(self.polls(), i)
    }

    proof fn lemma_outcome_keeps_invariant(self, cmds: Seq<u32>, outcome: crate::engine::Outcome)
        requires
            self.at_outcome(cmds, outcome),
        ensures
            self.on_outcome(outcome).0.init_invariant(cmds),
            !(self.on_outcome(outcome).1 matches Step::Perform(Action::WriteRegister {
                offset,
                ..
            }) && offset == CMD_REG),
    {
        let next = self.on_outcome(outcome).0;
        assert forall|i: int| 0 <= i < cmds.len() implies cmds[i] == #[trigger] init_command_at(
            next.polls(),
            i,
        ) by {
            assert(cmds[i] == init_command_at(self.polls(), i));
        }
    }

    proof fn lemma_exchange_keeps_invariant(self, cmds: Seq<u32>, event: Event)
        requires
            self.init_invariant(cmds),
            self.phase.spec_in_exchange(),
        ensures
            ({
                let (exchange, inner) = self.exchange.advance(event);
                let moved = DriverModel { exchange, ..self };
                &&& inner matches Step::Perform(action) ==> moved.init_invariant(
                    Self::commands_with(cmds, action),
                )
                &&& inner matches Step::Complete(outcome) ==> moved.at_outcome(cmds, outcome)
            }),
    {
        self.exchange.lemma_command_written_once(event);
        let (exchange, inner) = self.exchange.advance(event);
        let moved = DriverModel { exchange, ..self };
        assert(moved.polls() == self.polls());
        assert(moved.issued_before() == self.issued_before());
        match inner {
            Step::Perform(action) => {
                let after = Self::commands_with(cmds, action);
                if self.exchange.stage == Stage::Argument {
                    assert(after == cmds.push(self.exchange.cmd.spec_encode()));
                    assert(after[cmds.len() as int] == init_command_at(
                        self.polls(),
                        cmds.len() as int,
                    ));
                    assert forall|i: int| 0 <= i < after.len() implies after[i]
                        == #[trigger] init_command_at(moved.polls(), i) by {
                        if i < cmds.len() {
                            assert(cmds[i] == init_command_at(self.polls(), i));
                        }
                    }
                } else {
                    assert(after == cmds);
                }
            },
            Step::Complete(outcome) => {},
        }
    }

    proof fn lemma_event_keeps_invariant(self, cmds: Seq<u32>, event: Event)
        requires
            self.init_invariant(cmds),
            !self.phase.spec_in_exchange(),
        ensures
            self.on_event(event).0.init_invariant(cmds),
            !(self.on_event(event).1 matches Step::Perform(Action::WriteRegister { offset, .. })
                && offset == CMD_REG),
    {
        let next = self.on_event(event).0;
        assert forall|i: int| 0 <= i < cmds.len() implies cmds[i] == #[trigger] init_command_at(
            next.polls(),
            i,
        ) by {
            assert(cmds[i] == init_command_at(self.polls(), i));
        }
    }

    proof fn lemma_step_keeps_invariant(self, cmds: Seq<u32>, event: Event)
        requires
            self.init_invariant(cmds),
        ensures
            self.advance(event).0.init_invariant(
                Self::commands_after(cmds, self.advance(event).1),
            ),
            self.advance(event).0.ocr_retries == self.ocr_retries,
            self.advance(event).0.timeout_ms == self.timeout_ms,
    {
        if self.phase.spec_in_exchange() {
            self.lemma_exchange_keeps_invariant(cmds, event);
            let (exchange, inner) = self.exchange.advance(event);
            let moved = DriverModel { exchange, ..self };
            match inner {
                Step::Perform(action) => {
                    assert(self.advance(event) == (moved, Step::<crate::driver::Done>::Perform(
                        action,
                    )));
                },
                Step::Complete(outcome) => {
                    moved.lemma_outcome_keeps_invariant(cmds, outcome);
                    assert(self.advance(event) == moved.on_outcome(outcome));
                },
            }
        } else {
            self.lemma_event_keeps_invariant(cmds, event);
            assert(self.advance(event) == self.on_event(event));
        }
    }

    proof fn lemma_run_keeps_invariant(self, events: Seq<Event>)
        requires
            self.init_invariant(Seq::empty()),
        ensures
            self.run(events).init_invariant(self.commands(events)),
            self.run(events).ocr_retries == self.ocr_retries,
            self.run(events).timeout_ms == self.timeout_ms,
        decreases events.len(),
    {
        if events.len() > 0 {
            self.lemma_run_keeps_invariant(events.drop_last());
            self.run(events.drop_last()).lemma_step_keeps_invariant(
                self.commands(events.drop_last()),
                events.last(),
            );
        }
    }

    /// The initialization issues its commands in one fixed order. Take a
    /// driver fresh from power-on, begin the initialization, and feed it any
    /// events at all. At every point, the words written to the command
    /// register so far are the first so many of the list `init_commands`:
    /// two clock pulses, go-idle, send-interface-condition, one app-command
    /// and send-operating-condition for each poll, all-send-CID,
    /// send-relative-address, send-CSD, select-card, and the app-command and
    /// send-SCR of the bus width query. The driver is ready only when
    /// everything up to select-card and the app-command of the bus width
    /// query has been written, and when the last operating conditions that
    /// the card reported have the ready bit set.
    pub proof fn lemma_init_issues_commands_in_order(
        timeout_ms: u64,
        ocr_retries: u32,
        events: Seq<Event>,
    )
        ensures
            ({
                let begun = DriverModel::start(timeout_ms, ocr_retries).init().0;
                let end = begun.run(events);
                let cmds = begun.commands(events);
                &&& 1 <= end.polls() <= ocr_retries + 1
                &&& cmds.len() <= 10 + 2 * end.polls()
                &&& cmds == init_commands(end.polls()).take(cmds.len() as int)
                &&& end.phase == Phase::Ready ==> cmds.len() >= 9 + 2 * end.polls()
                &&& end.phase == Phase::Ready ==> spec_get_bit(end.ocr, OCR_READY_BIT)
            }),
    {
        let begun = DriverModel::start(timeout_ms, ocr_retries).init().0;
        assert(begun.init_invariant(Seq::empty()));
        begun.lemma_run_keeps_invariant(events);
        let end = begun.run(events);
        let cmds = begun.commands(events);
        assert(cmds =~= init_commands(end.polls()).take(cmds.len() as int));
    }

    /// A failed initialization leaves the card unusable for good: whatever
    /// is asked of the driver afterwards is refused and changes nothing.
    pub proof fn lemma_failed_card_stays_unusable(self, event: Event, block: u32, words: Seq<u64>)
        requires
            self.phase == Phase::Failed,
        ensures
            self.init() == (self, Step::<crate::driver::Done>::Complete(
                Err(crate::Vf2SdDriverError::InitError),
            )),
            self.read_block(block) == (self, Step::<crate::driver::Done>::Complete(
                Err(crate::Vf2SdDriverError::ReadError),
            )),
            self.write_block(block, words) == (self, Step::<crate::driver::Done>::Complete(
                Err(crate::Vf2SdDriverError::WriteError),
            )),
            self.advance(event) == (self, Step::<crate::driver::Done>::Complete(
                Err(crate::Vf2SdDriverError::UnknownError),
            )),
    {
    }

    /// One operation at a time: an initialization is refused unless nothing
    /// has been done yet, and a block operation is refused unless the card
    /// is initialized and no other operation is under way. A refusal changes
    /// nothing.
    pub proof fn lemma_one_operation_at_a_time(self, block: u32, words: Seq<u64>)
        ensures
            self.phase != Phase::PowerOn ==> self.init() == (self, Step::<
                crate::driver::Done,
            >::Complete(Err(crate::Vf2SdDriverError::InitError))),
            self.phase != Phase::Ready ==> self.read_block(block) == (self, Step::<
                crate::driver::Done,
            >::Complete(Err(crate::Vf2SdDriverError::ReadError))),
            self.phase != Phase::Ready ==> self.write_block(block, words) == (self, Step::<
                crate::driver::Done,
            >::Complete(Err(crate::Vf2SdDriverError::WriteError))),
            self.phase == Phase::PowerOn ==> self.init().1 is Perform,
            self.phase == Phase::Ready ==> self.read_block(block).1 is Perform,
            self.phase == Phase::Ready ==> self.write_block(block, words).1 is Perform,
    {
    }

    /// A command with a data phase is always preceded by the programming of
    /// its size: the exchange of a block read, of a block write and of the
    /// bus width query starts only when the byte count has been written, and
    /// the byte count is written only when the block size has been; for a
    /// block operation both are 512.
    pub proof fn lemma_data_transfer_is_sized_first(self, event: Event, block: u32, words: Seq<u64>)
        ensures
            ({
                let (next, step) = self.advance(event);
                let size = crate::driver::spec_set_transaction_size(512, 512);
                let query = crate::driver::spec_set_transaction_size(8, 8);
                &&& self.read_block(block).1 is Perform ==> self.read_block(block).1 == Step::<
                    crate::driver::Done,
                >::Perform(size.0) && self.read_block(block).0.phase == Phase::ReadBlockSize
                &&& self.write_block(block, words).1 is Perform ==> self.write_block(block, words).1
                    == Step::<crate::driver::Done>::Perform(size.0) && self.write_block(
                    block,
                    words,
                ).0.phase == Phase::WriteBlockSize
                &&& next.phase == Phase::ReadByteCount ==> self.phase == Phase::ReadBlockSize
                    && step == Step::<crate::driver::Done>::Perform(size.1)
                &&& next.phase == Phase::WriteByteCount ==> self.phase == Phase::WriteBlockSize
                    && step == Step::<crate::driver::Done>::Perform(size.1)
                &&& next.phase == Phase::BusWidthByteCount ==> self.phase
                    == Phase::BusWidthBlockSize && step == Step::<crate::driver::Done>::Perform(
                    query.1,
                )
                &&& next.phase == Phase::BusWidthBlockSize ==> self.phase == Phase::BusWidthPrefix
                    && step == Step::<crate::driver::Done>::Perform(query.0)
                &&& next.phase == Phase::ReadTransfer && self.phase != Phase::ReadTransfer
                    ==> self.phase == Phase::ReadByteCount
                &&& next.phase == Phase::WriteTransfer && self.phase != Phase::WriteTransfer
                    ==> self.phase == Phase::WriteByteCount
                &&& next.phase == Phase::BusWidthQuery && self.phase != Phase::BusWidthQuery
                    ==> self.phase == Phase::BusWidthByteCount
            }),
    {
    }

    /// How the end of an exchange ends the operation it belongs to. A wait
    /// that ran out gives `TimeoutError` and an unexpected event
    /// `UnknownError`, whatever the operation. Error flags give `ReadError`
    /// to a block read and `WriteError` to a block write, which leave the
    /// driver ready for the next operation; to the initialization they give
    /// `InitError`, except in the voltage check, which goes on to the poll
    /// of the operating conditions, and in the bus width query, which ends
    /// the initialization with success. Whatever ends the initialization
    /// with an error leaves the card unusable. A response ends a block
    /// operation with success.
    pub proof fn lemma_operation_results(self, outcome: crate::engine::Outcome)
        requires
            self.phase.spec_in_exchange(),
        ensures
            ({
                let (next, step) = self.on_outcome(outcome);
                let operation = self.phase.spec_operation();
                let tolerant = self.phase == Phase::VoltageCheck || self.phase
                    == Phase::BusWidthPrefix || self.phase == Phase::BusWidthQuery;
                &&& outcome is TimedOut ==> step == Step::<crate::driver::Done>::Complete(
                    Err(crate::Vf2SdDriverError::TimeoutError),
                )
                &&& outcome is Unexpected ==> step == Step::<crate::driver::Done>::Complete(
                    Err(crate::Vf2SdDriverError::UnknownError),
                )
                &&& outcome is Failed && operation == crate::driver::Operation::Read ==> step
                    == Step::<crate::driver::Done>::Complete(
                    Err(crate::Vf2SdDriverError::ReadError),
                )
                &&& outcome is Failed && operation == crate::driver::Operation::Write ==> step
                    == Step::<crate::driver::Done>::Complete(
                    Err(crate::Vf2SdDriverError::WriteError),
                )
                &&& outcome is Failed && operation == crate::driver::Operation::Init && !tolerant
                    ==> step == Step::<crate::driver::Done>::Complete(
                    Err(crate::Vf2SdDriverError::InitError),
                )
                &&& outcome is Failed && self.phase == Phase::VoltageCheck ==> step is Perform
                    && next.phase == Phase::OcrPrefix && next.version == 1
                &&& outcome is Failed && (self.phase == Phase::BusWidthPrefix || self.phase
                    == Phase::BusWidthQuery) ==> step == Step::<crate::driver::Done>::Complete(
                    Ok(()),
                ) && next.phase == Phase::Ready
                &&& outcome is Response && operation != crate::driver::Operation::Init ==> step
                    == Step::<crate::driver::Done>::Complete(Ok(())) && next.phase == Phase::Ready
                &&& outcome is Response && operation == crate::driver::Operation::Init
                    && self.phase != Phase::BusWidthQuery && self.phase != Phase::OcrPoll
                    ==> step is Perform
                &&& step matches Step::Complete(Err(_)) ==> next.phase == (if operation
                    == crate::driver::Operation::Init {
                    Phase::Failed
                } else {
                    Phase::Ready
                })
            }),
    {
    }

    /// The poll of the operating conditions is bounded: an answer without
    /// the ready bit leads to a pause and one more poll while repetitions
    /// are left, and to `InitError` when none is; an answer with the ready
    /// bit leads on to the identification.
    pub proof fn lemma_ocr_poll_is_bounded(self, ocr: u32)
        ensures
            ({
                let (next, step) = self.on_ocr(ocr);
                &&& next.ocr == ocr
                &&& spec_get_bit(ocr, OCR_READY_BIT) ==> next.phase == Phase::Identify
                    && next.retries_left == self.retries_left && step is Perform
                &&& !spec_get_bit(ocr, OCR_READY_BIT) && self.retries_left > 0 ==> next.phase
                    == Phase::OcrDelay && next.retries_left == self.retries_left - 1 && step
                    == Step::<crate::driver::Done>::Perform(
                    Action::Sleep { ms: crate::driver::OCR_POLL_DELAY_MS },
                )
                &&& !spec_get_bit(ocr, OCR_READY_BIT) && self.retries_left == 0 ==> next.phase
                    == Phase::Failed && step == Step::<crate::driver::Done>::Complete(
                    Err(crate::Vf2SdDriverError::InitError),
                )
            }),
    {
    }
}

} // verus!
