use std::collections::{HashMap, VecDeque};

use visionfive2_sd::cmd::Cmd;
use visionfive2_sd::driver::{
    check_big_support, check_bus_width, check_cid, check_csd, check_rca, check_version, error_of,
    reset_dma, reset_dma_bus_mode, reset_fifo, select_card, set_transaction_size, Operation,
    Phase, BLOCK_SIZE, BLOCK_WORDS, IF_COND_ARG, OCR_ARG, OCR_POLL_DELAY_MS,
};
use visionfive2_sd::engine::{
    classify, fifo_filled_cnt, flags, wait_ms_util_can_send_cmd, wait_ms_util_can_send_data,
    wait_ms_util_response, DataTransType, Exchange, Outcome, Response, Stage, Wait, FIFO_DEPTH,
    FIFO_READ_MARK, MAX_WORDS,
};
use visionfive2_sd::io::{Action, Event, Step};
use visionfive2_sd::register::{
    CmdReg, ARG_REG, BLK_SIZE_REG, BUS_MODE_REG, BYTE_CNT_REG, CLK_DIVIDER_REG,
    CLOCK_ENABLE_REG, CMD_REG, CTRL_REG, CTYPE_REG, FIFO_DATA_REG, RAW_INT_STATUS_REG,
    RESP0_REG, RESP1_REG, RESP2_REG, RESP3_REG, STATUS_REG,
};
use visionfive2_sd::{Vf2SdDriver, Vf2SdDriverError};

const CLOCK: u32 = 0x8020_2000;
const GO_IDLE: u32 = 0xa000_a100;
const SEND_IF_COND: u32 = 0xa000_2148;
const APP_CMD: u32 = 0xa000_2177;
const SD_SEND_OP_COND: u32 = 0xa000_2069;
const ALL_SEND_CID: u32 = 0xa000_20c2;
const SEND_RELATIVE_ADDR: u32 = 0xa000_2143;
const SEND_CSD: u32 = 0xa000_2049;
const SELECT_CARD: u32 = 0xa000_2147;
const SEND_SCR: u32 = 0xa000_2373;
const READ_SINGLE_BLOCK: u32 = 0xa000_2351;
const WRITE_SINGLE_BLOCK: u32 = 0xa000_2758;

const COMMAND_DONE: u32 = 0x0004;
const DTO: u32 = 0x0008;
const TXDR: u32 = 0x0010;
const RXDR: u32 = 0x0020;
const RTO: u32 = 0x0100;
const DCRC: u32 = 0x0080;

const CID_WORDS: [u32; 4] = [0x7801_5aff, 0x8012_3456, 0x5530_3847, 0x0353_4453];
const CID: u128 = 0x0353_4453_5530_3847_8012_3456_7801_5aff;

/// A controller with a card behind it, as far as the driver can tell.
struct Sim {
    plain: HashMap<u32, u32>,
    rintsts: u32,
    resp: [u32; 4],
    arg: u32,
    command: u32,
    fifo: VecDeque<u64>,
    memory: HashMap<u32, Vec<u64>>,
    incoming: Vec<u64>,
    target: u32,
    clock: u64,
    clock_step: u64,
    stuck: bool,
    polls_until_ready: u32,
    polls: u32,
    ocr_ready: u32,
    faults: HashMap<u8, u32>,
    commands: Vec<u32>,
    args: Vec<u32>,
    writes: Vec<(u32, u32)>,
    fifo_offsets: Vec<u32>,
    sleeps: Vec<u64>,
    accesses: usize,
}

impl Sim {
    fn new() -> Sim {
        Sim {
            plain: HashMap::new(),
            rintsts: 0,
            resp: [0; 4],
            arg: 0,
            command: 0,
            fifo: VecDeque::new(),
            memory: HashMap::new(),
            incoming: Vec::new(),
            target: 0,
            clock: 0,
            clock_step: 1,
            stuck: false,
            polls_until_ready: 1,
            polls: 0,
            ocr_ready: 0xc0ff_8000,
            faults: HashMap::new(),
            commands: Vec::new(),
            args: Vec::new(),
            writes: Vec::new(),
            fifo_offsets: Vec::new(),
            sleeps: Vec::new(),
            accesses: 0,
        }
    }

    fn start(&mut self, value: u32) {
        self.command = value;
        self.commands.push(value);
        self.args.push(self.arg);
        let cmd = CmdReg::decode(value);
        if cmd.update_clock_registers_only {
            return;
        }
        let opcode = cmd.cmd_index;
        let mut raised = COMMAND_DONE;
        match opcode {
            8 => self.resp = [self.arg, 0, 0, 0],
            55 => self.resp = [0x0000_0120, 0, 0, 0],
            41 => {
                self.polls += 1;
                let ocr = if self.polls >= self.polls_until_ready {
                    self.ocr_ready
                } else {
                    0x00ff_8000
                };
                self.resp = [ocr, 0, 0, 0];
            }
            2 => self.resp = CID_WORDS,
            3 => self.resp = [0xaaaa_0520, 0, 0, 0],
            51 => {
                self.fifo.push_back(0x0000_0000_0035_8002);
                raised |= RXDR | DTO;
            }
            17 => {
                let block = self.memory.get(&self.arg).cloned().unwrap_or(vec![0; 64]);
                self.fifo.extend(block);
                raised |= RXDR | DTO;
            }
            24 => {
                self.target = self.arg;
                self.incoming.clear();
                raised |= TXDR;
            }
            _ => self.resp = [0x0000_0900, 0, 0, 0],
        }
        if let Some(fault) = self.faults.get(&opcode) {
            raised |= fault;
        }
        self.rintsts |= raised;
    }

    fn perform(&mut self, action: Action) -> Event {
        self.accesses += 1;
        match action {
            Action::ReadRegister { offset } => {
                let value = match offset {
                    CMD_REG => {
                        if self.stuck {
                            self.command | 0x8000_0000
                        } else {
                            self.command & 0x7fff_ffff
                        }
                    }
                    STATUS_REG => ((2 * self.fifo.len()) as u32) << 17,
                    RAW_INT_STATUS_REG => self.rintsts,
                    RESP0_REG => self.resp[0],
                    RESP1_REG => self.resp[1],
                    RESP2_REG => self.resp[2],
                    RESP3_REG => self.resp[3],
                    _ => self.plain.get(&offset).copied().unwrap_or(0),
                };
                Event::Register(value)
            }
            Action::WriteRegister { offset, value } => {
                self.writes.push((offset, value));
                match offset {
                    CMD_REG => self.start(value),
                    ARG_REG => self.arg = value,
                    RAW_INT_STATUS_REG => self.rintsts &= !value,
                    CTRL_REG => {
                        self.plain.insert(offset, value & !0x7);
                    }
                    BUS_MODE_REG => {
                        self.plain.insert(offset, value & !0x1);
                    }
                    _ => {
                        self.plain.insert(offset, value);
                    }
                }
                Event::Done
            }
            Action::ReadFifo { offset } => {
                self.fifo_offsets.push(offset);
                Event::Fifo(self.fifo.pop_front().unwrap_or(0))
            }
            Action::WriteFifo { offset, word } => {
                self.fifo_offsets.push(offset);
                self.incoming.push(word);
                if self.incoming.len() == 64 {
                    self.memory.insert(self.target, self.incoming.clone());
                    self.rintsts |= DTO;
                    self.rintsts &= !TXDR;
                }
                Event::Done
            }
            Action::ReadClock => {
                self.clock += self.clock_step;
                Event::Clock(self.clock)
            }
            Action::Sleep { ms } => {
                self.sleeps.push(ms);
                self.clock += ms;
                Event::Done
            }
        }
    }
}

fn run(
    driver: &mut Vf2SdDriver,
    sim: &mut Sim,
    first: Step<Result<(), Vf2SdDriverError>>,
) -> Result<(), Vf2SdDriverError> {
    let mut step = first;
    for _ in 0..1_000_000 {
        match step {
            Step::Perform(action) => {
                let event = sim.perform(action);
                step = driver.advance(event);
            }
            Step::Complete(result) => return result,
        }
    }
    panic!("the operation did not end");
}

fn exchange(sim: &mut Sim, cmd: CmdReg, arg: u32, data: DataTransType, timeout_ms: u64) -> (Exchange, Outcome, Vec<Action>) {
    let (mut exchange, first) = Exchange::send_cmd(cmd, arg, data, timeout_ms);
    let mut actions = vec![first];
    let mut action = first;
    for _ in 0..1_000_000 {
        let event = sim.perform(action);
        match exchange.advance(event) {
            Step::Perform(next) => {
                actions.push(next);
                action = next;
            }
            Step::Complete(outcome) => return (exchange, outcome, actions),
        }
    }
    panic!("the exchange did not end");
}

fn ready_driver(sim: &mut Sim) -> Vf2SdDriver {
    let mut driver = Vf2SdDriver::new(1000, 10);
    let first = driver.init();
    assert_eq!(run(&mut driver, sim, first), Ok(()));
    assert!(driver.is_ready());
    driver
}

fn pattern() -> [u8; 512] {
    let mut block = [0u8; 512];
    for (i, byte) in block.iter_mut().enumerate() {
        *byte = (i * 7 + 3) as u8;
    }
    block
}

fn is_complete<T: PartialEq>(step: &Step<T>, expected: T) -> bool {
    match step {
        Step::Complete(result) => *result == expected,
        Step::Perform(_) => false,
    }
}

fn is_perform<T>(step: &Step<T>, expected: Action) -> bool {
    match step {
        Step::Perform(action) => *action == expected,
        Step::Complete(_) => false,
    }
}

#[test]
fn an_exchange_without_data_runs_its_steps_in_order() {
    let mut sim = Sim::new();
    let (exchange, outcome, actions) = exchange(
        &mut sim,
        CmdReg::from_cmd(Cmd::SendIfCond),
        0x1aa,
        DataTransType::NoData,
        1000,
    );
    assert_eq!(
        outcome,
        Outcome::Response(Response { word0: 0x1aa, word1: 0, word2: 0, word3: 0 })
    );
    assert_eq!(exchange.stage(), Stage::Finished);
    assert_eq!(exchange.moved(), 0);
    assert_eq!(
        actions,
        vec![
            Action::ReadClock,
            Action::ReadRegister { offset: CMD_REG },
            Action::WriteRegister { offset: ARG_REG, value: 0x1aa },
            Action::WriteRegister { offset: CMD_REG, value: SEND_IF_COND },
            Action::ReadClock,
            Action::ReadRegister { offset: CMD_REG },
            Action::ReadClock,
            Action::ReadRegister { offset: RAW_INT_STATUS_REG },
            Action::ReadRegister { offset: RAW_INT_STATUS_REG },
            Action::WriteRegister { offset: RAW_INT_STATUS_REG, value: COMMAND_DONE },
            Action::ReadRegister { offset: RESP0_REG },
            Action::ReadRegister { offset: RESP1_REG },
            Action::ReadRegister { offset: RESP2_REG },
            Action::ReadRegister { offset: RESP3_REG },
        ]
    );
    assert_eq!(sim.rintsts, 0);
}

#[test]
fn a_command_without_response_skips_the_wait_for_it() {
    let mut sim = Sim::new();
    let (_, outcome, actions) =
        exchange(&mut sim, CmdReg::update_clock(), 0, DataTransType::NoData, 1000);
    assert_eq!(
        outcome,
        Outcome::Response(Response { word0: 0, word1: 0, word2: 0, word3: 0 })
    );
    assert_eq!(
        actions,
        vec![
            Action::ReadClock,
            Action::ReadRegister { offset: CMD_REG },
            Action::WriteRegister { offset: ARG_REG, value: 0 },
            Action::WriteRegister { offset: CMD_REG, value: CLOCK },
            Action::ReadClock,
            Action::ReadRegister { offset: CMD_REG },
            Action::ReadRegister { offset: RAW_INT_STATUS_REG },
            Action::WriteRegister { offset: RAW_INT_STATUS_REG, value: 0 },
            Action::ReadRegister { offset: RESP0_REG },
            Action::ReadRegister { offset: RESP1_REG },
            Action::ReadRegister { offset: RESP2_REG },
            Action::ReadRegister { offset: RESP3_REG },
        ]
    );
}

#[test]
fn the_four_response_words_come_back_in_register_order() {
    let mut sim = Sim::new();
    let (_, outcome, _) = exchange(
        &mut sim,
        CmdReg::from_cmd(Cmd::AllSendCid),
        0,
        DataTransType::NoData,
        1000,
    );
    assert_eq!(
        outcome,
        Outcome::Response(Response {
            word0: CID_WORDS[0],
            word1: CID_WORDS[1],
            word2: CID_WORDS[2],
            word3: CID_WORDS[3],
        })
    );
}

#[test]
fn a_controller_that_never_gets_ready_times_the_exchange_out() {
    let mut sim = Sim::new();
    sim.stuck = true;
    let (exchange, outcome, actions) = exchange(
        &mut sim,
        CmdReg::from_cmd(Cmd::SendIfCond),
        0x1aa,
        DataTransType::NoData,
        5,
    );
    assert_eq!(outcome, Outcome::TimedOut);
    assert_eq!(exchange.stage(), Stage::Finished);
    assert!(sim.commands.is_empty());
    assert!(sim.writes.is_empty());
    // the start reading, then five polls that each find the wait running or run out
    assert_eq!(actions.len(), 11);
    assert_eq!(sim.clock, 6);
}

#[test]
fn a_timeout_of_zero_polls_once() {
    let mut sim = Sim::new();
    sim.stuck = true;
    let (_, outcome, actions) = exchange(
        &mut sim,
        CmdReg::from_cmd(Cmd::SendIfCond),
        0x1aa,
        DataTransType::NoData,
        0,
    );
    assert_eq!(outcome, Outcome::TimedOut);
    assert_eq!(
        actions,
        vec![
            Action::ReadClock,
            Action::ReadRegister { offset: CMD_REG },
            Action::ReadClock,
        ]
    );
}

#[test]
fn a_clock_that_runs_backwards_ends_the_wait() {
    let (mut exchange, first) =
        Exchange::send_cmd(CmdReg::from_cmd(Cmd::SendIfCond), 0, DataTransType::NoData, 1000);
    assert_eq!(first, Action::ReadClock);
    assert!(is_perform(
        &exchange.advance(Event::Clock(500)),
        Action::ReadRegister { offset: CMD_REG }
    ));
    assert!(is_perform(&exchange.advance(Event::Register(0x8000_0000)), Action::ReadClock));
    assert!(is_complete(&exchange.advance(Event::Clock(499)), Outcome::TimedOut));
}

#[test]
fn a_wait_goes_on_while_its_time_has_not_passed() {
    let (mut exchange, _) =
        Exchange::send_cmd(CmdReg::from_cmd(Cmd::SendIfCond), 0, DataTransType::NoData, 10);
    assert_eq!(exchange.stage(), Stage::Start(Wait::Ready));
    exchange.advance(Event::Clock(100));
    assert_eq!(exchange.stage(), Stage::Poll(Wait::Ready));
    exchange.advance(Event::Register(0x8000_0000));
    assert_eq!(exchange.stage(), Stage::Tick(Wait::Ready));
    assert!(is_perform(
        &exchange.advance(Event::Clock(109)),
        Action::ReadRegister { offset: CMD_REG }
    ));
    exchange.advance(Event::Register(0x8000_0000));
    assert!(is_complete(&exchange.advance(Event::Clock(110)), Outcome::TimedOut));
}

#[test]
fn an_event_of_the_wrong_kind_ends_the_exchange() {
    let (mut exchange, _) =
        Exchange::send_cmd(CmdReg::from_cmd(Cmd::SendIfCond), 0, DataTransType::NoData, 10);
    assert!(is_complete(&exchange.advance(Event::Done), Outcome::Unexpected));
    assert_eq!(exchange.stage(), Stage::Finished);
    assert!(is_complete(&exchange.advance(Event::Clock(1)), Outcome::Unexpected));

    let (mut exchange, _) =
        Exchange::send_cmd(CmdReg::from_cmd(Cmd::SendIfCond), 0, DataTransType::NoData, 10);
    exchange.advance(Event::Clock(0));
    assert!(is_complete(&exchange.advance(Event::Fifo(0)), Outcome::Unexpected));
}

#[test]
fn each_error_flag_fails_the_exchange() {
    let errors: [u32; 7] = [0x0100, 0x0040, 0x0002, 0x0080, 0x0200, 0x2000, 0x8000];
    for flag in errors {
        let mut sim = Sim::new();
        sim.faults.insert(8, flag);
        let (_, outcome, _) = exchange(
            &mut sim,
            CmdReg::from_cmd(Cmd::SendIfCond),
            0x1aa,
            DataTransType::NoData,
            1000,
        );
        assert_eq!(outcome, Outcome::Failed, "{:#x}", flag);
        assert_eq!(sim.rintsts, 0, "the flags are acknowledged");
    }
}

#[test]
fn flags_that_are_no_errors_let_the_exchange_succeed() {
    let harmless: [u32; 8] = [0x0001, 0x0008, 0x0010, 0x0020, 0x0400, 0x0800, 0x1000, 0x4000];
    for flag in harmless {
        let mut sim = Sim::new();
        sim.faults.insert(8, flag);
        let (_, outcome, _) = exchange(
            &mut sim,
            CmdReg::from_cmd(Cmd::SendIfCond),
            0x1aa,
            DataTransType::NoData,
            1000,
        );
        assert_eq!(
            outcome,
            Outcome::Response(Response { word0: 0x1aa, word1: 0, word2: 0, word3: 0 }),
            "{:#x}",
            flag
        );
    }
}

#[test]
fn classification_by_flags() {
    let response = Response { word0: 1, word1: 2, word2: 3, word3: 4 };
    assert_eq!(classify(flags(COMMAND_DONE), response), Outcome::Response(response));
    assert_eq!(classify(flags(0), response), Outcome::Response(response));
    assert_eq!(classify(flags(COMMAND_DONE | RTO), response), Outcome::Failed);
    assert_eq!(classify(flags(DCRC), response), Outcome::Failed);
    // the upper half of the word holds the card interrupts, which are no errors
    assert_eq!(classify(flags(0xffff_0004), response), Outcome::Response(response));
}

#[test]
fn register_tests_of_the_waits() {
    assert!(wait_ms_util_can_send_cmd(0));
    assert!(wait_ms_util_can_send_cmd(0x7fff_ffff));
    assert!(!wait_ms_util_can_send_cmd(0x8000_0000));
    assert!(wait_ms_util_can_send_data(0));
    assert!(wait_ms_util_can_send_data(!0x200));
    assert!(!wait_ms_util_can_send_data(0x200));
    assert!(wait_ms_util_response(0x4));
    assert!(!wait_ms_util_response(!0x4));
    assert_eq!(fifo_filled_cnt(0), 0);
    assert_eq!(fifo_filled_cnt(2 << 17), 2);
    assert_eq!(fifo_filled_cnt(120 << 17), 120);
    assert_eq!(fifo_filled_cnt(0xffff_ffff), 0x1fff);
    assert_eq!(FIFO_READ_MARK, 2);
    assert_eq!(FIFO_DEPTH, 120);
    assert_eq!(MAX_WORDS, 0x1000_0000);
}

#[test]
fn the_read_pump_moves_exactly_the_words_that_are_there() {
    for n in [0usize, 1, 3, 64] {
        let mut sim = Sim::new();
        let words: Vec<u64> = (0..n as u64).map(|i| 0x0101_0101_0101_0101 * (i + 1)).collect();
        sim.memory.insert(9, words.clone());
        let (exchange, outcome, actions) = exchange(
            &mut sim,
            CmdReg::from_cmd(Cmd::ReadSingleBlock),
            9,
            DataTransType::Read(64),
            1000,
        );
        assert!(matches!(outcome, Outcome::Response(_)));
        assert_eq!(exchange.words(), &words);
        assert_eq!(exchange.moved(), n);
        let reads = actions
            .iter()
            .filter(|a| matches!(a, Action::ReadFifo { .. }))
            .count();
        assert_eq!(reads, n);
        assert!(sim.fifo.is_empty());
    }
}

#[test]
fn the_read_pump_follows_a_scripted_status_sequence() {
    let (mut exchange, _) = Exchange::send_cmd(
        CmdReg::from_cmd(Cmd::ReadSingleBlock),
        0,
        DataTransType::Read(64),
        1000,
    );
    // ready, data line free, argument, command, accepted, command done
    for event in [
        Event::Clock(0),
        Event::Register(0),
        Event::Clock(0),
        Event::Register(0),
        Event::Done,
        Event::Done,
        Event::Clock(0),
        Event::Register(0),
        Event::Clock(0),
        Event::Register(COMMAND_DONE),
    ] {
        assert!(matches!(exchange.advance(event), Step::Perform(_)));
    }
    assert_eq!(exchange.stage(), Stage::Start(Wait::Data));
    assert!(is_perform(
        &exchange.advance(Event::Clock(10)),
        Action::ReadRegister { offset: RAW_INT_STATUS_REG }
    ));
    // nothing asked for yet: the pump waits
    assert!(is_perform(&exchange.advance(Event::Register(COMMAND_DONE)), Action::ReadClock));
    assert!(is_perform(
        &exchange.advance(Event::Clock(11)),
        Action::ReadRegister { offset: RAW_INT_STATUS_REG }
    ));
    // two words are there
    assert!(is_perform(
        &exchange.advance(Event::Register(RXDR)),
        Action::ReadRegister { offset: STATUS_REG }
    ));
    assert!(is_perform(
        &exchange.advance(Event::Register(4 << 17)),
        Action::ReadFifo { offset: FIFO_DATA_REG }
    ));
    assert!(is_perform(
        &exchange.advance(Event::Fifo(0x11)),
        Action::ReadRegister { offset: STATUS_REG }
    ));
    assert!(is_perform(
        &exchange.advance(Event::Register(2 << 17)),
        Action::ReadFifo { offset: FIFO_DATA_REG + 8 }
    ));
    assert!(is_perform(
        &exchange.advance(Event::Fifo(0x22)),
        Action::ReadRegister { offset: STATUS_REG }
    ));
    // one location is less than a word: the burst is over, the transfer is not
    assert!(is_perform(&exchange.advance(Event::Register(1 << 17)), Action::ReadClock));
    assert!(is_perform(
        &exchange.advance(Event::Clock(12)),
        Action::ReadRegister { offset: RAW_INT_STATUS_REG }
    ));
    // one more word, and the transfer is over
    assert!(is_perform(
        &exchange.advance(Event::Register(RXDR | DTO)),
        Action::ReadRegister { offset: STATUS_REG }
    ));
    assert!(is_perform(
        &exchange.advance(Event::Register(2 << 17)),
        Action::ReadFifo { offset: FIFO_DATA_REG + 16 }
    ));
    assert!(is_perform(
        &exchange.advance(Event::Fifo(0x33)),
        Action::ReadRegister { offset: STATUS_REG }
    ));
    assert!(is_perform(
        &exchange.advance(Event::Register(0)),
        Action::ReadRegister { offset: RAW_INT_STATUS_REG }
    ));
    assert_eq!(exchange.stage(), Stage::Status);
    assert_eq!(exchange.words(), &vec![0x11, 0x22, 0x33]);
    assert_eq!(exchange.moved(), 3);
}

#[test]
fn the_read_pump_stops_at_its_capacity() {
    let mut sim = Sim::new();
    sim.memory.insert(0, (1..=64).collect());
    let (exchange, outcome, _) = exchange(
        &mut sim,
        CmdReg::from_cmd(Cmd::ReadSingleBlock),
        0,
        DataTransType::Read(5),
        1000,
    );
    assert!(matches!(outcome, Outcome::Response(_)));
    assert_eq!(exchange.words(), &vec![1, 2, 3, 4, 5]);
    assert_eq!(sim.fifo.len(), 59);
}

#[test]
fn the_read_pump_leaves_on_an_error_flag() {
    let mut sim = Sim::new();
    sim.faults.insert(17, DCRC);
    sim.memory.insert(0, vec![7; 64]);
    let (exchange, outcome, _) = exchange(
        &mut sim,
        CmdReg::from_cmd(Cmd::ReadSingleBlock),
        0,
        DataTransType::Read(64),
        1000,
    );
    assert_eq!(outcome, Outcome::Failed);
    assert_eq!(exchange.moved(), 64);
}

#[test]
fn the_data_phase_times_out_when_the_transfer_never_ends() {
    let (mut exchange, _) = Exchange::send_cmd(
        CmdReg::from_cmd(Cmd::ReadSingleBlock),
        0,
        DataTransType::Read(64),
        3,
    );
    for event in [
        Event::Clock(0),
        Event::Register(0),
        Event::Clock(0),
        Event::Register(0),
        Event::Done,
        Event::Done,
        Event::Clock(0),
        Event::Register(0),
        Event::Clock(0),
        Event::Register(COMMAND_DONE),
        Event::Clock(100),
        Event::Register(0),
        Event::Clock(101),
        Event::Register(0),
        Event::Clock(102),
        Event::Register(0),
    ] {
        assert!(matches!(exchange.advance(event), Step::Perform(_)));
    }
    assert!(is_complete(&exchange.advance(Event::Clock(103)), Outcome::TimedOut));
}

#[test]
fn the_write_pump_moves_exactly_the_words_it_was_given() {
    let mut sim = Sim::new();
    let words: Vec<u64> = (100..164).collect();
    let (exchange, outcome, actions) = exchange(
        &mut sim,
        CmdReg::from_cmd(Cmd::WriteSingleBlock),
        7,
        DataTransType::Write(words.clone()),
        1000,
    );
    assert!(matches!(outcome, Outcome::Response(_)));
    assert_eq!(exchange.moved(), 64);
    assert_eq!(sim.memory.get(&7), Some(&words));
    let sent: Vec<u64> = actions
        .iter()
        .filter_map(|a| match a {
            Action::WriteFifo { word, .. } => Some(*word),
            _ => None,
        })
        .collect();
    assert_eq!(sent, words);
    let offsets: Vec<u32> = (0..64).map(|k| FIFO_DATA_REG + 8 * k).collect();
    assert_eq!(sim.fifo_offsets, offsets);
}

#[test]
fn the_write_pump_holds_back_while_the_fifo_is_full() {
    let (mut exchange, _) = Exchange::send_cmd(
        CmdReg::from_cmd(Cmd::WriteSingleBlock),
        0,
        DataTransType::Write(vec![0xaa, 0xbb]),
        1000,
    );
    for event in [
        Event::Clock(0),
        Event::Register(0),
        Event::Clock(0),
        Event::Register(0),
        Event::Done,
        Event::Done,
        Event::Clock(0),
        Event::Register(0),
        Event::Clock(0),
        Event::Register(COMMAND_DONE),
        Event::Clock(0),
    ] {
        assert!(matches!(exchange.advance(event), Step::Perform(_)));
    }
    assert!(is_perform(
        &exchange.advance(Event::Register(TXDR)),
        Action::ReadRegister { offset: STATUS_REG }
    ));
    assert!(is_perform(
        &exchange.advance(Event::Register(119 << 17)),
        Action::WriteFifo { offset: FIFO_DATA_REG, word: 0xaa }
    ));
    assert!(is_perform(
        &exchange.advance(Event::Done),
        Action::ReadRegister { offset: STATUS_REG }
    ));
    // full: nothing is written, the pump polls again
    assert!(is_perform(&exchange.advance(Event::Register(120 << 17)), Action::ReadClock));
    assert_eq!(exchange.moved(), 1);
    assert!(is_perform(
        &exchange.advance(Event::Clock(1)),
        Action::ReadRegister { offset: RAW_INT_STATUS_REG }
    ));
    assert!(is_perform(
        &exchange.advance(Event::Register(TXDR)),
        Action::ReadRegister { offset: STATUS_REG }
    ));
    assert!(is_perform(
        &exchange.advance(Event::Register(0)),
        Action::WriteFifo { offset: FIFO_DATA_REG + 8, word: 0xbb }
    ));
    assert!(is_perform(
        &exchange.advance(Event::Done),
        Action::ReadRegister { offset: STATUS_REG }
    ));
    // everything is sent: the pump waits for the end of the transfer
    assert!(is_perform(&exchange.advance(Event::Register(0)), Action::ReadClock));
    assert!(is_perform(
        &exchange.advance(Event::Clock(2)),
        Action::ReadRegister { offset: RAW_INT_STATUS_REG }
    ));
    assert!(is_perform(
        &exchange.advance(Event::Register(DTO)),
        Action::ReadRegister { offset: RAW_INT_STATUS_REG }
    ));
    assert_eq!(exchange.stage(), Stage::Status);
    assert_eq!(exchange.moved(), 2);
}

#[test]
fn a_data_command_waits_for_the_data_line() {
    let (mut exchange, _) = Exchange::send_cmd(
        CmdReg::from_cmd(Cmd::ReadSingleBlock),
        0,
        DataTransType::Read(64),
        1000,
    );
    exchange.advance(Event::Clock(0));
    assert!(is_perform(&exchange.advance(Event::Register(0)), Action::ReadClock));
    assert_eq!(exchange.stage(), Stage::Start(Wait::DataIdle));
    assert!(is_perform(
        &exchange.advance(Event::Clock(0)),
        Action::ReadRegister { offset: STATUS_REG }
    ));
    // busy
    assert!(is_perform(&exchange.advance(Event::Register(0x200)), Action::ReadClock));
    assert!(is_perform(
        &exchange.advance(Event::Clock(1)),
        Action::ReadRegister { offset: STATUS_REG }
    ));
    assert!(is_perform(
        &exchange.advance(Event::Register(0)),
        Action::WriteRegister { offset: ARG_REG, value: 0 }
    ));
}

#[test]
fn answers_of_the_card_are_read_as_the_protocol_says() {
    let v2 = Response { word0: 0x1aa, word1: 0, word2: 0, word3: 0 };
    let v1 = Response { word0: 0x100, word1: 0, word2: 0, word3: 0 };
    assert_eq!(check_version(v2), 2);
    assert_eq!(check_version(v1), 1);
    assert_eq!(check_version(Response { word0: 0x02, ..v1 }), 2);
    assert_eq!(check_version(Response { word0: 0x55, ..v1 }), 1);

    assert_eq!(check_big_support(0xc0ff_8000), Some(true));
    assert_eq!(check_big_support(0x80ff_8000), Some(false));
    assert_eq!(check_big_support(0x40ff_8000), None);
    assert_eq!(check_big_support(0x7fff_ffff), None);
    assert_eq!(check_big_support(0x8000_0000), Some(false));

    assert_eq!(check_rca(Response { word0: 0xaaaa_0520, ..v1 }), 0xaaaa);
    assert_eq!(check_rca(Response { word0: 0x0000_ffff, ..v1 }), 0);
    assert_eq!(check_rca(Response { word0: 0xffff_0000, ..v1 }), 0xffff);

    let words = Response {
        word0: CID_WORDS[0],
        word1: CID_WORDS[1],
        word2: CID_WORDS[2],
        word3: CID_WORDS[3],
    };
    assert_eq!(check_cid(words).raw(), CID);

    assert_eq!(check_csd(0xaaaa), (CmdReg::from_cmd(Cmd::SendCsd), 0xaaaa_0000));
    assert_eq!(select_card(0x1234), (CmdReg::from_cmd(Cmd::SelectCard), 0x1234_0000));
    assert_eq!(check_bus_width(1), (CmdReg::from_cmd(Cmd::AppCmd), 0x0001_0000));
    assert_eq!(IF_COND_ARG, 0x1aa);
    assert_eq!(OCR_ARG, (1 << 30) | (1 << 24) | 0xff_8000);
}

#[test]
fn register_programming_helpers() {
    assert_eq!(
        set_transaction_size(512, 512),
        (
            Action::WriteRegister { offset: BLK_SIZE_REG, value: 512 },
            Action::WriteRegister { offset: BYTE_CNT_REG, value: 512 },
        )
    );
    assert_eq!(
        set_transaction_size(8, 16),
        (
            Action::WriteRegister { offset: BLK_SIZE_REG, value: 8 },
            Action::WriteRegister { offset: BYTE_CNT_REG, value: 16 },
        )
    );
    assert_eq!(
        reset_fifo(0x0200_0010),
        Action::WriteRegister { offset: CTRL_REG, value: 0x0200_0012 }
    );
    assert_eq!(reset_fifo(0), Action::WriteRegister { offset: CTRL_REG, value: 2 });
    assert_eq!(
        reset_dma_bus_mode(0x0000_0782),
        Action::WriteRegister { offset: BUS_MODE_REG, value: 0x0000_0703 }
    );
    assert_eq!(
        reset_dma(0x0200_0010),
        Action::WriteRegister { offset: CTRL_REG, value: 0x0000_0014 }
    );
}

#[test]
fn errors_by_operation_and_outcome() {
    for operation in [Operation::Init, Operation::Read, Operation::Write, Operation::Nothing] {
        assert_eq!(error_of(operation, Outcome::TimedOut), Vf2SdDriverError::TimeoutError);
        assert_eq!(error_of(operation, Outcome::Unexpected), Vf2SdDriverError::UnknownError);
    }
    assert_eq!(error_of(Operation::Init, Outcome::Failed), Vf2SdDriverError::InitError);
    assert_eq!(error_of(Operation::Read, Outcome::Failed), Vf2SdDriverError::ReadError);
    assert_eq!(error_of(Operation::Write, Outcome::Failed), Vf2SdDriverError::WriteError);
    assert_eq!(error_of(Operation::Nothing, Outcome::Failed), Vf2SdDriverError::UnknownError);
}

#[test]
fn init_issues_its_commands_in_order() {
    let mut sim = Sim::new();
    sim.plain.insert(CTRL_REG, 0x0200_0010);
    sim.plain.insert(BUS_MODE_REG, 0x0000_0782);
    let mut driver = Vf2SdDriver::new(1000, 10);
    assert_eq!(driver.phase(), Phase::PowerOn);
    let first = driver.init();
    assert!(is_perform(&first, Action::WriteRegister { offset: CLOCK_ENABLE_REG, value: 0 }));
    assert_eq!(run(&mut driver, &mut sim, first), Ok(()));
    assert_eq!(driver.phase(), Phase::Ready);
    assert_eq!(
        sim.commands,
        vec![
            CLOCK,
            CLOCK,
            GO_IDLE,
            SEND_IF_COND,
            APP_CMD,
            SD_SEND_OP_COND,
            ALL_SEND_CID,
            SEND_RELATIVE_ADDR,
            SEND_CSD,
            SELECT_CARD,
            APP_CMD,
            SEND_SCR,
        ]
    );
    assert_eq!(
        sim.args,
        vec![0, 0, 0, 0x1aa, 0, 0x41ff_8000, 0, 0, 0xaaaa_0000, 0xaaaa_0000, 0xaaaa_0000, 0]
    );
    let plain: Vec<(u32, u32)> = sim
        .writes
        .iter()
        .copied()
        .filter(|(offset, _)| {
            *offset != CMD_REG && *offset != ARG_REG && *offset != RAW_INT_STATUS_REG
        })
        .collect();
    assert_eq!(
        plain,
        vec![
            (CLOCK_ENABLE_REG, 0),
            (CLK_DIVIDER_REG, 4),
            (CLOCK_ENABLE_REG, 1),
            (CTRL_REG, 0x0200_0012),
            (CTYPE_REG, 0),
            (BUS_MODE_REG, 0x0000_0703),
            (CTRL_REG, 0x0000_0014),
            (BLK_SIZE_REG, 8),
            (BYTE_CNT_REG, 8),
        ]
    );
    assert_eq!(driver.version(), 2);
    assert_eq!(driver.ocr(), 0xc0ff_8000);
    assert!(driver.high_capacity());
    assert_eq!(driver.rca(), 0xaaaa);
    assert_eq!(driver.cid().raw(), CID);
    assert_eq!(driver.cid().pnm(), "SU08G");
    assert_eq!(driver.words(), &vec![0x0000_0000_0035_8002]);
    assert!(sim.sleeps.is_empty());
}

#[test]
fn init_polls_until_the_card_is_ready() {
    let mut sim = Sim::new();
    sim.polls_until_ready = 4;
    sim.ocr_ready = 0x80ff_8000;
    let mut driver = Vf2SdDriver::new(1000, 10);
    let first = driver.init();
    assert_eq!(run(&mut driver, &mut sim, first), Ok(()));
    assert!(driver.is_ready());
    assert_eq!(
        sim.commands,
        vec![
            CLOCK,
            CLOCK,
            GO_IDLE,
            SEND_IF_COND,
            APP_CMD,
            SD_SEND_OP_COND,
            APP_CMD,
            SD_SEND_OP_COND,
            APP_CMD,
            SD_SEND_OP_COND,
            APP_CMD,
            SD_SEND_OP_COND,
            ALL_SEND_CID,
            SEND_RELATIVE_ADDR,
            SEND_CSD,
            SELECT_CARD,
            APP_CMD,
            SEND_SCR,
        ]
    );
    assert_eq!(sim.sleeps, vec![OCR_POLL_DELAY_MS; 3]);
    assert_eq!(OCR_POLL_DELAY_MS, 100);
    assert_eq!(driver.ocr(), 0x80ff_8000);
    assert!(!driver.high_capacity());
}

#[test]
fn init_gives_up_a_card_that_never_gets_ready() {
    let mut sim = Sim::new();
    sim.polls_until_ready = u32::MAX;
    let mut driver = Vf2SdDriver::new(1000, 2);
    let first = driver.init();
    assert_eq!(run(&mut driver, &mut sim, first), Err(Vf2SdDriverError::InitError));
    assert_eq!(driver.phase(), Phase::Failed);
    assert_eq!(sim.polls, 3);
    assert_eq!(sim.sleeps, vec![100, 100]);
    assert_eq!(*sim.commands.last().unwrap(), SD_SEND_OP_COND);

    let mut sim = Sim::new();
    sim.polls_until_ready = 2;
    let mut driver = Vf2SdDriver::new(1000, 0);
    let first = driver.init();
    assert_eq!(run(&mut driver, &mut sim, first), Err(Vf2SdDriverError::InitError));
    assert_eq!(sim.polls, 1);
    assert!(sim.sleeps.is_empty());
}

#[test]
fn a_card_that_does_not_answer_the_voltage_check_is_version_one() {
    let mut sim = Sim::new();
    sim.faults.insert(8, RTO);
    let mut driver = Vf2SdDriver::new(1000, 10);
    let first = driver.init();
    assert_eq!(run(&mut driver, &mut sim, first), Ok(()));
    assert!(driver.is_ready());
    assert_eq!(driver.version(), 1);
    assert_eq!(sim.commands.len(), 12);
}

#[test]
fn a_card_that_does_not_echo_the_pattern_is_version_one() {
    let mut sim = Sim::new();
    let mut driver = Vf2SdDriver::new(1000, 10);
    let mut step = driver.init();
    let mut result = None;
    for _ in 0..100_000 {
        match step {
            Step::Perform(action) => {
                let mut event = sim.perform(action);
                if driver.phase() == Phase::VoltageCheck
                    && action == (Action::ReadRegister { offset: RESP0_REG })
                {
                    event = Event::Register(0x0000_0100);
                }
                step = driver.advance(event);
            }
            Step::Complete(done) => {
                result = Some(done);
                break;
            }
        }
    }
    assert_eq!(result, Some(Ok(())));
    assert_eq!(driver.version(), 1);
}

#[test]
fn a_failing_bus_width_query_does_not_fail_the_init() {
    let mut sim = Sim::new();
    sim.faults.insert(51, DCRC);
    let mut driver = Vf2SdDriver::new(1000, 10);
    let first = driver.init();
    assert_eq!(run(&mut driver, &mut sim, first), Ok(()));
    assert!(driver.is_ready());

    let mut sim = Sim::new();
    sim.faults.insert(55, RTO);
    sim.polls_until_ready = 1;
    let mut driver = Vf2SdDriver::new(1000, 10);
    let first = driver.init();
    // the prefix of the poll fails first, and that one is mandatory
    assert_eq!(run(&mut driver, &mut sim, first), Err(Vf2SdDriverError::InitError));
}

#[test]
fn a_failing_mandatory_step_fails_the_init() {
    for opcode in [55u8, 41, 2, 3, 9, 7] {
        let mut sim = Sim::new();
        sim.faults.insert(opcode, RTO);
        let mut driver = Vf2SdDriver::new(1000, 10);
        let first = driver.init();
        assert_eq!(
            run(&mut driver, &mut sim, first),
            Err(Vf2SdDriverError::InitError),
            "opcode {}",
            opcode
        );
        assert_eq!(driver.phase(), Phase::Failed);
        assert_eq!(CmdReg::decode(*sim.commands.last().unwrap()).cmd_index, opcode);
    }
}

#[test]
fn a_failed_init_leaves_the_card_unusable() {
    let mut sim = Sim::new();
    sim.faults.insert(2, RTO);
    let mut driver = Vf2SdDriver::new(1000, 10);
    let first = driver.init();
    assert_eq!(run(&mut driver, &mut sim, first), Err(Vf2SdDriverError::InitError));
    let accesses = sim.accesses;
    assert!(is_complete(&driver.read_block(0), Err(Vf2SdDriverError::ReadError)));
    assert!(is_complete(
        &driver.write_block(0, &pattern()),
        Err(Vf2SdDriverError::WriteError)
    ));
    assert!(is_complete(&driver.init(), Err(Vf2SdDriverError::InitError)));
    assert!(is_complete(&driver.advance(Event::Done), Err(Vf2SdDriverError::UnknownError)));
    assert_eq!(driver.phase(), Phase::Failed);
    assert_eq!(sim.accesses, accesses);
}

#[test]
fn a_stuck_controller_times_the_init_out() {
    let mut sim = Sim::new();
    sim.stuck = true;
    let mut driver = Vf2SdDriver::new(20, 10);
    let first = driver.init();
    assert_eq!(run(&mut driver, &mut sim, first), Err(Vf2SdDriverError::TimeoutError));
    assert_eq!(driver.phase(), Phase::Failed);
    assert!(sim.commands.is_empty());
}

#[test]
fn an_event_that_answers_nothing_is_an_unknown_error() {
    let mut driver = Vf2SdDriver::new(1000, 10);
    assert!(is_complete(&driver.advance(Event::Done), Err(Vf2SdDriverError::UnknownError)));
    assert_eq!(driver.phase(), Phase::PowerOn);

    let first = driver.init();
    assert!(matches!(first, Step::Perform(_)));
    assert_eq!(driver.phase(), Phase::ClockOff);
    // the write of the clock enable register is answered by a register value
    assert!(is_complete(
        &driver.advance(Event::Register(0)),
        Err(Vf2SdDriverError::UnknownError)
    ));
    assert_eq!(driver.phase(), Phase::Failed);

    let mut sim = Sim::new();
    let mut driver = ready_driver(&mut sim);
    assert!(is_complete(&driver.advance(Event::Clock(0)), Err(Vf2SdDriverError::UnknownError)));
    assert!(driver.is_ready());
    assert!(matches!(driver.read_block(0), Step::Perform(_)));
    assert!(is_complete(&driver.advance(Event::Fifo(0)), Err(Vf2SdDriverError::UnknownError)));
    assert!(driver.is_ready());
}

#[test]
fn init_begins_only_once() {
    let mut sim = Sim::new();
    let mut driver = ready_driver(&mut sim);
    assert!(is_complete(&driver.init(), Err(Vf2SdDriverError::InitError)));
    assert!(driver.is_ready());

    let mut driver = Vf2SdDriver::new(1000, 10);
    assert!(matches!(driver.init(), Step::Perform(_)));
    assert!(is_complete(&driver.init(), Err(Vf2SdDriverError::InitError)));
    assert_eq!(driver.phase(), Phase::ClockOff);
}

#[test]
fn block_io_needs_an_initialized_card() {
    let mut driver = Vf2SdDriver::new(1000, 10);
    assert!(is_complete(&driver.read_block(0), Err(Vf2SdDriverError::ReadError)));
    assert!(is_complete(
        &driver.write_block(0, &pattern()),
        Err(Vf2SdDriverError::WriteError)
    ));
    assert_eq!(driver.phase(), Phase::PowerOn);
    assert!(matches!(driver.init(), Step::Perform(_)));
    assert!(is_complete(&driver.read_block(0), Err(Vf2SdDriverError::ReadError)));
    assert!(is_complete(
        &driver.write_block(0, &pattern()),
        Err(Vf2SdDriverError::WriteError)
    ));
    assert_eq!(driver.phase(), Phase::ClockOff);
}

#[test]
fn test_write_read() {
    let mut sim = Sim::new();
    let mut driver = ready_driver(&mut sim);
    sim.commands.clear();
    sim.args.clear();
    sim.writes.clear();
    sim.fifo_offsets.clear();

    let block = pattern();
    let first = driver.write_block(5, &block);
    assert!(is_perform(&first, Action::WriteRegister { offset: BLK_SIZE_REG, value: 512 }));
    assert_eq!(run(&mut driver, &mut sim, first), Ok(()));
    assert!(driver.is_ready());
    assert_eq!(sim.commands, vec![WRITE_SINGLE_BLOCK]);
    assert_eq!(sim.args, vec![5]);
    assert_eq!(&sim.writes[..2], &[(BLK_SIZE_REG, 512), (BYTE_CNT_REG, 512)]);
    assert_eq!(sim.memory.get(&5).unwrap().len(), BLOCK_WORDS);
    assert_eq!(sim.memory.get(&5).unwrap()[0], 0x342d_261f_1811_0a03);

    sim.writes.clear();
    let first = driver.read_block(5);
    assert!(is_perform(&first, Action::WriteRegister { offset: BLK_SIZE_REG, value: 512 }));
    assert_eq!(run(&mut driver, &mut sim, first), Ok(()));
    assert!(driver.is_ready());
    assert_eq!(sim.commands, vec![WRITE_SINGLE_BLOCK, READ_SINGLE_BLOCK]);
    assert_eq!(sim.args, vec![5, 5]);
    assert_eq!(&sim.writes[..2], &[(BLK_SIZE_REG, 512), (BYTE_CNT_REG, 512)]);
    let mut buf = [0u8; 512];
    driver.read_data(&mut buf);
    assert_eq!(buf, block);
    assert_eq!(buf.len(), BLOCK_SIZE);

    // another block was never written
    let first = driver.read_block(6);
    assert_eq!(run(&mut driver, &mut sim, first), Ok(()));
    driver.read_data(&mut buf);
    assert_eq!(buf, [0u8; 512]);
}

#[test]
fn a_short_read_leaves_the_rest_of_the_buffer_alone() {
    let mut sim = Sim::new();
    let mut driver = ready_driver(&mut sim);
    sim.memory.insert(3, vec![0x0807_0605_0403_0201, 0x100f_0e0d_0c0b_0a09]);
    let first = driver.read_block(3);
    assert_eq!(run(&mut driver, &mut sim, first), Ok(()));
    assert_eq!(driver.words().len(), 2);
    let mut buf = [0xeeu8; 512];
    driver.read_data(&mut buf);
    let head: Vec<u8> = (1..=16).collect();
    assert_eq!(&buf[..16], &head[..]);
    assert!(buf[16..].iter().all(|b| *b == 0xee));
}

#[test]
fn a_read_that_reports_an_error_flag_is_a_read_error() {
    let mut sim = Sim::new();
    let mut driver = ready_driver(&mut sim);
    sim.faults.insert(17, DCRC);
    let first = driver.read_block(1);
    assert_eq!(run(&mut driver, &mut sim, first), Err(Vf2SdDriverError::ReadError));
    assert!(driver.is_ready());
    sim.faults.clear();
    let first = driver.read_block(1);
    assert_eq!(run(&mut driver, &mut sim, first), Ok(()));
}

#[test]
fn a_write_that_reports_an_error_flag_is_a_write_error() {
    let mut sim = Sim::new();
    let mut driver = ready_driver(&mut sim);
    sim.faults.insert(24, DCRC);
    let first = driver.write_block(1, &pattern());
    assert_eq!(run(&mut driver, &mut sim, first), Err(Vf2SdDriverError::WriteError));
    assert!(driver.is_ready());
}

#[test]
fn a_block_operation_on_a_stuck_controller_times_out() {
    let mut sim = Sim::new();
    let mut driver = ready_driver(&mut sim);
    sim.stuck = true;
    let first = driver.read_block(1);
    assert_eq!(run(&mut driver, &mut sim, first), Err(Vf2SdDriverError::TimeoutError));
    assert!(driver.is_ready());
    let first = driver.write_block(1, &pattern());
    assert_eq!(run(&mut driver, &mut sim, first), Err(Vf2SdDriverError::TimeoutError));
    assert!(driver.is_ready());
}

#[test]
fn phases_know_their_operation() {
    assert_eq!(Phase::PowerOn.operation(), Operation::Nothing);
    assert_eq!(Phase::Ready.operation(), Operation::Nothing);
    assert_eq!(Phase::Failed.operation(), Operation::Nothing);
    assert_eq!(Phase::ClockOff.operation(), Operation::Init);
    assert_eq!(Phase::OcrDelay.operation(), Operation::Init);
    assert_eq!(Phase::BusWidthQuery.operation(), Operation::Init);
    assert_eq!(Phase::ReadBlockSize.operation(), Operation::Read);
    assert_eq!(Phase::ReadTransfer.operation(), Operation::Read);
    assert_eq!(Phase::WriteByteCount.operation(), Operation::Write);
    assert!(Phase::Idle.in_exchange());
    assert!(Phase::ReadTransfer.in_exchange());
    assert!(!Phase::OcrDelay.in_exchange());
    assert!(!Phase::Ready.in_exchange());
    assert!(!Phase::ClockOff.in_exchange());
}

#[test]
fn a_block_is_512_bytes_in_64_words() {
    assert_eq!(BLOCK_SIZE, 512);
    assert_eq!(BLOCK_WORDS, 64);
    assert_eq!(std::mem::size_of::<[u8; BLOCK_SIZE]>(), 512);
    let mut sim = Sim::new();
    let mut driver = ready_driver(&mut sim);
    sim.writes.clear();
    let block = [0x5au8; BLOCK_SIZE];
    let first = driver.write_block(0, &block);
    assert_eq!(run(&mut driver, &mut sim, first), Ok(()));
    // nothing is cut off and nothing is added
    assert_eq!(sim.incoming.len(), 64);
    assert!(sim.incoming.iter().all(|w| *w == 0x5a5a_5a5a_5a5a_5a5a));
    assert_eq!(sim.writes[0], (BLK_SIZE_REG, 512));
    assert_eq!(sim.writes[1], (BYTE_CNT_REG, 512));
}
