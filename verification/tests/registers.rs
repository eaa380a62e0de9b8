use visionfive2_sd::cmd::Cmd;
use visionfive2_sd::register::{
    BlkSizeReg, BusModeReg, ByteCountReg, CDetectReg, CardTypeReg, ClockDividerReg,
    ClockEnableReg, CmdArg, CmdReg, ControlReg, PowerReg, RawInterrupt, RawInterruptStatusReg,
    StatusReg, ARG_REG, BLK_SIZE_REG, BUS_MODE_REG, BYTE_CNT_REG, CDETECT_REG, CLK_DIVIDER_REG,
    CLOCK_ENABLE_REG, CMD_REG, CTRL_REG, CTYPE_REG, DBADDRL_REG, DBADDRU_REG, FIFO_DATA_REG,
    POWER_REG, RAW_INT_STATUS_REG, RESP0_REG, RESP1_REG, RESP2_REG, RESP3_REG, SDIO_BASE,
    STATUS_REG,
};
use visionfive2_sd::utils::{wait_ms, word_at, words_from_bytes};
use visionfive2_sd::Vf2SdDriverError;

const SAMPLES: [u32; 8] = [
    0,
    1,
    0xffff_ffff,
    0x1234_5678,
    0x8000_0000,
    0xa5a5_5a5a,
    0x0f0f_f0f0,
    0xdead_beef,
];

#[test]
fn register_map_matches_the_hardware() {
    assert_eq!(SDIO_BASE, 0x1602_0000);
    assert_eq!(CTRL_REG, 0x00);
    assert_eq!(POWER_REG, 0x04);
    assert_eq!(CLK_DIVIDER_REG, 0x08);
    assert_eq!(CLOCK_ENABLE_REG, 0x10);
    assert_eq!(CTYPE_REG, 0x18);
    assert_eq!(BLK_SIZE_REG, 0x1c);
    assert_eq!(BYTE_CNT_REG, 0x20);
    assert_eq!(ARG_REG, 0x28);
    assert_eq!(CMD_REG, 0x2c);
    assert_eq!(RESP0_REG, 0x30);
    assert_eq!(RESP1_REG, 0x34);
    assert_eq!(RESP2_REG, 0x38);
    assert_eq!(RESP3_REG, 0x3c);
    assert_eq!(RAW_INT_STATUS_REG, 0x44);
    assert_eq!(STATUS_REG, 0x48);
    assert_eq!(CDETECT_REG, 0x50);
    assert_eq!(BUS_MODE_REG, 0x80);
    assert_eq!(DBADDRL_REG, 0x88);
    assert_eq!(DBADDRU_REG, 0x8c);
    assert_eq!(FIFO_DATA_REG, 0x600);
}

#[test]
fn every_register_round_trips() {
    for raw in SAMPLES {
        assert_eq!(PowerReg::decode(raw).encode(), raw);
        assert_eq!(CmdArg::decode(raw).encode(), raw);
        assert_eq!(BlkSizeReg::decode(raw).encode(), raw);
        assert_eq!(ByteCountReg::decode(raw).encode(), raw);
        assert_eq!(CmdReg::decode(raw).encode(), raw);
        assert_eq!(CDetectReg::decode(raw).encode(), raw);
        assert_eq!(ClockEnableReg::decode(raw).encode(), raw);
        assert_eq!(CardTypeReg::decode(raw).encode(), raw);
        assert_eq!(ControlReg::decode(raw).encode(), raw);
        assert_eq!(BusModeReg::decode(raw).encode(), raw);
        assert_eq!(ClockDividerReg::decode(raw).encode(), raw);
        assert_eq!(StatusReg::decode(raw).encode(), raw);
        assert_eq!(RawInterruptStatusReg::decode(raw).encode(), raw);
        let low = raw as u16;
        assert_eq!(RawInterrupt::decode(low).encode(), low);
    }
}

#[test]
fn every_single_bit_round_trips() {
    for bit in 0..32 {
        let raw = 1u32 << bit;
        assert_eq!(CmdReg::decode(raw).encode(), raw);
        assert_eq!(ControlReg::decode(raw).encode(), raw);
        assert_eq!(StatusReg::decode(raw).encode(), raw);
        assert_eq!(BusModeReg::decode(raw).encode(), raw);
    }
    for bit in 0..16 {
        let raw = 1u16 << bit;
        assert_eq!(RawInterrupt::decode(raw).encode(), raw);
    }
}

#[test]
fn command_register_fields_lie_where_the_hardware_has_them() {
    let cmd = CmdReg::decode(0x8000_0000);
    assert!(cmd.start_cmd);
    assert!(!cmd.use_hold_reg);
    let cmd = CmdReg::decode(0x2000_0000);
    assert!(cmd.use_hold_reg);
    let cmd = CmdReg::decode(0x0020_0000);
    assert!(cmd.update_clock_registers_only);
    let cmd = CmdReg::decode(0x001f_0000);
    assert_eq!(cmd.card_number, 0x1f);
    let cmd = CmdReg::decode(0x0000_8000);
    assert!(cmd.send_initialization);
    let cmd = CmdReg::decode(0x0000_2000);
    assert!(cmd.wait_prvdata_complete);
    let cmd = CmdReg::decode(0x0000_0400);
    assert!(cmd.transfer_dir);
    let cmd = CmdReg::decode(0x0000_0200);
    assert!(cmd.data_expected);
    let cmd = CmdReg::decode(0x0000_0100);
    assert!(cmd.check_response_crc);
    let cmd = CmdReg::decode(0x0000_0080);
    assert!(cmd.response_length);
    let cmd = CmdReg::decode(0x0000_0040);
    assert!(cmd.response_expect);
    let cmd = CmdReg::decode(0x0000_003f);
    assert_eq!(cmd.cmd_index, 0x3f);
    assert!(!cmd.response_expect);
}

#[test]
fn status_register_fields() {
    let status = StatusReg::decode((3 << 17) | (1 << 9));
    assert_eq!(status.fifo_count, 3);
    assert!(status.data_busy);
    assert!(!status.fifo_full);
    let status = StatusReg::decode(0x3ffe_0000);
    assert_eq!(status.fifo_count, 0x1fff);
    assert!(!status.data_busy);
    let status = StatusReg::decode((0x2a << 11) | (0x5 << 4) | 0xc);
    assert_eq!(status.response_index, 0x2a);
    assert_eq!(status.command_fsm_states, 5);
    assert!(status.fifo_full);
    assert!(status.fifo_empty);
    assert!(!status.fifo_tx_watermark);
}

#[test]
fn control_and_bus_mode_fields() {
    let ctrl = ControlReg::decode(0x0200_0012);
    assert!(ctrl.use_internal_dmac);
    assert!(ctrl.int_enable);
    assert!(ctrl.fifo_reset);
    assert!(!ctrl.dma_reset);
    assert!(!ctrl.controller_reset);
    let ctrl = ControlReg::decode(0x0000_0005);
    assert!(ctrl.dma_reset);
    assert!(ctrl.controller_reset);
    let mode = BusModeReg::decode(0x0000_0783);
    assert_eq!(mode.pbl, 7);
    assert!(mode.de);
    assert_eq!(mode.dsl, 0);
    assert!(mode.fd);
    assert!(mode.swr);
}

#[test]
fn small_registers_fields() {
    let power = PowerReg::decode(0xc000_0001);
    assert_eq!(power.reserved, 3);
    assert_eq!(power.power_enable, 1);
    let detect = CDetectReg::decode(0x3fff_ffff);
    assert_eq!(detect.reserved, 0);
    assert_eq!(detect.card_detect_n, 0x3fff_ffff);
    let size = BlkSizeReg::decode(0x0001_0200);
    assert_eq!(size.reserved, 1);
    assert_eq!(size.block_size, 512);
    assert_eq!(ByteCountReg::decode(512).byte_count, 512);
    assert_eq!(CmdArg::decode(0x1aa).arg, 0x1aa);
    let enable = ClockEnableReg::decode(0x0001_0002);
    assert_eq!(enable.cclk_low_power, 1);
    assert_eq!(enable.clk_enable, 2);
    let width = CardTypeReg::decode(0x0001_0000);
    assert_eq!(width.card_width8, 1);
    assert_eq!(width.card_width4_1, 0);
    let divider = ClockDividerReg::decode(0x0403_0201);
    assert_eq!(divider.clk_divider3, 4);
    assert_eq!(divider.clk_divider2, 3);
    assert_eq!(divider.clk_divider1, 2);
    assert_eq!(divider.clk_divider0, 1);
    let raw = RawInterruptStatusReg::decode(0x0001_8004);
    assert_eq!(raw.sdio_interrupt, 1);
    assert_eq!(raw.int_status, 0x8004);
}

#[test]
fn encode_places_each_field() {
    let divider = ClockDividerReg {
        clk_divider3: 0,
        clk_divider2: 0,
        clk_divider1: 0,
        clk_divider0: 4,
    };
    assert_eq!(divider.encode(), 4);
    let enable = ClockEnableReg { cclk_low_power: 0, clk_enable: 1 };
    assert_eq!(enable.encode(), 1);
    let enable = ClockEnableReg { cclk_low_power: 1, clk_enable: 0 };
    assert_eq!(enable.encode(), 0x0001_0000);
    let size = BlkSizeReg { reserved: 0, block_size: 512 };
    assert_eq!(size.encode(), 512);
    let flags = RawInterrupt::decode(0);
    let flags = RawInterrupt { command_done: true, dto: true, ..flags };
    assert_eq!(flags.encode(), 0x000c);
}

#[test]
fn clock_divider_divides_by_twice_its_field() {
    assert_eq!(ClockDividerReg::divisor(0), 1);
    assert_eq!(ClockDividerReg::divisor(1), 2);
    assert_eq!(ClockDividerReg::divisor(4), 8);
    assert_eq!(ClockDividerReg::divisor(255), 510);
}

#[test]
fn interrupt_flags_lie_where_the_hardware_has_them() {
    assert!(RawInterrupt::decode(0x8000).ebe);
    assert!(RawInterrupt::decode(0x4000).acd);
    assert!(RawInterrupt::decode(0x2000).sbe);
    assert!(RawInterrupt::decode(0x1000).hle);
    assert!(RawInterrupt::decode(0x0800).frun);
    assert!(RawInterrupt::decode(0x0400).hto);
    assert!(RawInterrupt::decode(0x0200).drto);
    assert!(RawInterrupt::decode(0x0100).rto);
    assert!(RawInterrupt::decode(0x0080).dcrc);
    assert!(RawInterrupt::decode(0x0040).rcrc);
    assert!(RawInterrupt::decode(0x0020).rxdr);
    assert!(RawInterrupt::decode(0x0010).txdr);
    assert!(RawInterrupt::decode(0x0008).dto);
    assert!(RawInterrupt::decode(0x0004).command_done);
    assert!(RawInterrupt::decode(0x0002).response_err);
    assert!(RawInterrupt::decode(0x0001).card_detect);
}

#[test]
fn seven_flags_are_errors_and_no_other() {
    let errors: [u16; 7] = [0x0100, 0x0040, 0x0002, 0x0080, 0x0200, 0x2000, 0x8000];
    for raw in errors {
        assert!(RawInterrupt::decode(raw).have_error(), "{:#x}", raw);
        assert!(RawInterrupt::decode(raw | 0x0004).have_error(), "{:#x}", raw);
    }
    let harmless: [u16; 9] = [
        0x0001, 0x0004, 0x0008, 0x0010, 0x0020, 0x0400, 0x0800, 0x1000, 0x4000,
    ];
    for raw in harmless {
        assert!(!RawInterrupt::decode(raw).have_error(), "{:#x}", raw);
    }
    assert!(!RawInterrupt::decode(0).have_error());
    assert!(!RawInterrupt::decode(0x5c3d).have_error());
    assert!(RawInterrupt::decode(0xffff).have_error());
}

#[test]
fn opcodes_of_the_commands() {
    assert_eq!(Cmd::GoIdleState.opcode(), 0);
    assert_eq!(Cmd::AllSendCid.opcode(), 2);
    assert_eq!(Cmd::SendRelativeAddr.opcode(), 3);
    assert_eq!(Cmd::SetDSR.opcode(), 4);
    assert_eq!(Cmd::SetBusWidth.opcode(), 6);
    assert_eq!(Cmd::SelectCard.opcode(), 7);
    assert_eq!(Cmd::SendIfCond.opcode(), 8);
    assert_eq!(Cmd::SendCsd.opcode(), 9);
    assert_eq!(Cmd::SendCid.opcode(), 10);
    assert_eq!(Cmd::StopTransmission.opcode(), 12);
    assert_eq!(Cmd::SendStatus.opcode(), 13);
    assert_eq!(Cmd::SdStatus.opcode(), 13);
    assert_eq!(Cmd::GoInactiveState.opcode(), 15);
    assert_eq!(Cmd::SetBlockLen.opcode(), 16);
    assert_eq!(Cmd::ReadSingleBlock.opcode(), 17);
    assert_eq!(Cmd::ReadMultipleBlock.opcode(), 18);
    assert_eq!(Cmd::SendNumWrBlocks.opcode(), 22);
    assert_eq!(Cmd::SetWrBlkEraseCnt.opcode(), 23);
    assert_eq!(Cmd::WriteSingleBlock.opcode(), 24);
    assert_eq!(Cmd::WriteMultipleBlock.opcode(), 25);
    assert_eq!(Cmd::EraseWrBlkStart.opcode(), 32);
    assert_eq!(Cmd::EraseWrBlkEnd.opcode(), 33);
    assert_eq!(Cmd::Erase.opcode(), 38);
    assert_eq!(Cmd::SdSendOpCond.opcode(), 41);
    assert_eq!(Cmd::SetClrCardDetect.opcode(), 42);
    assert_eq!(Cmd::SendScr.opcode(), 51);
    assert_eq!(Cmd::AppCmd.opcode(), 55);
    assert_eq!(Cmd::GenCmd.opcode(), 56);
    assert!(Cmd::GenCmd.has_opcode());
    assert!(!Cmd::ResetClock.has_opcode());
}

#[test]
fn default_command_word() {
    let cmd = CmdReg::default(3, 17);
    assert!(cmd.start_cmd);
    assert!(cmd.use_hold_reg);
    assert!(cmd.response_expect);
    assert!(cmd.wait_prvdata_complete);
    assert!(cmd.check_response_crc);
    assert!(!cmd.data_expected);
    assert!(!cmd.response_length);
    assert!(!cmd.send_initialization);
    assert_eq!(cmd.card_number, 3);
    assert_eq!(cmd.cmd_index, 17);
    assert_eq!(cmd.encode(), 0xa003_2151);
    assert_eq!(CmdReg::default(0x1f, 0x3f).encode(), 0xa01f_217f);
    assert_eq!(CmdReg::with_no_data(0, 8), CmdReg::default(0, 8));
    let data = CmdReg::with_data(0, 17);
    assert!(data.data_expected);
    assert!(!data.transfer_dir);
    assert_eq!(data.encode(), 0xa000_2351);
}

#[test]
fn go_idle_sends_the_initialization_and_expects_no_response() {
    let cmd = CmdReg::from_cmd(Cmd::GoIdleState);
    assert!(cmd.send_initialization);
    assert!(!cmd.response_expect);
    assert!(!cmd.data_expected);
    assert_eq!(cmd.cmd_index, 0);
    assert_eq!(cmd.encode(), 0xa000_a100);
}

#[test]
fn all_send_cid_asks_for_a_long_response_without_crc() {
    let cmd = CmdReg::from_cmd(Cmd::AllSendCid);
    assert!(cmd.response_length);
    assert!(!cmd.check_response_crc);
    assert!(cmd.response_expect);
    assert_eq!(cmd.encode(), 0xa000_20c2);
}

#[test]
fn write_single_block_writes() {
    let cmd = CmdReg::from_cmd(Cmd::WriteSingleBlock);
    assert!(cmd.transfer_dir);
    assert!(cmd.data_expected);
    assert_eq!(cmd.encode(), 0xa000_2758);
}

#[test]
fn command_table() {
    assert_eq!(CmdReg::from_cmd(Cmd::SendIfCond).encode(), 0xa000_2148);
    assert_eq!(CmdReg::from_cmd(Cmd::AppCmd).encode(), 0xa000_2177);
    assert_eq!(CmdReg::from_cmd(Cmd::SendRelativeAddr).encode(), 0xa000_2143);
    assert_eq!(CmdReg::from_cmd(Cmd::SelectCard).encode(), 0xa000_2147);
    let op_cond = CmdReg::from_cmd(Cmd::SdSendOpCond);
    assert!(!op_cond.check_response_crc);
    assert!(!op_cond.response_length);
    assert_eq!(op_cond.encode(), 0xa000_2069);
    let csd = CmdReg::from_cmd(Cmd::SendCsd);
    assert!(!csd.check_response_crc);
    assert_eq!(csd.encode(), 0xa000_2049);
    let scr = CmdReg::from_cmd(Cmd::SendScr);
    assert!(scr.data_expected);
    assert!(!scr.transfer_dir);
    assert_eq!(scr.encode(), 0xa000_2373);
    let read = CmdReg::from_cmd(Cmd::ReadSingleBlock);
    assert!(read.data_expected);
    assert!(!read.transfer_dir);
    assert_eq!(read.encode(), 0xa000_2351);
}

#[test]
fn only_the_commands_of_the_table_can_be_encoded() {
    let encodable = [
        Cmd::GoIdleState,
        Cmd::SendIfCond,
        Cmd::AppCmd,
        Cmd::SendRelativeAddr,
        Cmd::SelectCard,
        Cmd::SdSendOpCond,
        Cmd::SendCsd,
        Cmd::AllSendCid,
        Cmd::SendScr,
        Cmd::ReadSingleBlock,
        Cmd::WriteSingleBlock,
    ];
    for cmd in encodable {
        assert!(CmdReg::is_encodable(cmd));
        assert_eq!(CmdReg::from_cmd(cmd).cmd_index, cmd.opcode());
    }
    let others = [
        Cmd::SetDSR,
        Cmd::SendCid,
        Cmd::StopTransmission,
        Cmd::SendStatus,
        Cmd::GoInactiveState,
        Cmd::SetBlockLen,
        Cmd::ReadMultipleBlock,
        Cmd::WriteMultipleBlock,
        Cmd::EraseWrBlkStart,
        Cmd::EraseWrBlkEnd,
        Cmd::Erase,
        Cmd::GenCmd,
        Cmd::SetBusWidth,
        Cmd::SdStatus,
        Cmd::SendNumWrBlocks,
        Cmd::SetWrBlkEraseCnt,
        Cmd::SetClrCardDetect,
        Cmd::ResetClock,
    ];
    for cmd in others {
        assert!(!CmdReg::is_encodable(cmd));
    }
}

#[test]
fn clock_update_pulse_word() {
    let cmd = CmdReg::update_clock();
    assert!(cmd.start_cmd);
    assert!(cmd.wait_prvdata_complete);
    assert!(cmd.update_clock_registers_only);
    assert!(!cmd.use_hold_reg);
    assert!(!cmd.response_expect);
    assert!(!cmd.check_response_crc);
    assert_eq!(cmd.encode(), 0x8020_2000);
}

#[test]
fn a_wait_runs_until_its_milliseconds_have_passed() {
    assert!(wait_ms(10, 100, 100));
    assert!(wait_ms(10, 100, 105));
    assert!(wait_ms(10, 100, 109));
    assert!(!wait_ms(10, 100, 110));
    assert!(!wait_ms(10, 100, 1000));
    assert!(!wait_ms(10, 100, 99));
    assert!(!wait_ms(0, 5, 5));
    assert!(wait_ms(u64::MAX, 0, u64::MAX - 1));
    assert!(!wait_ms(u64::MAX, 0, u64::MAX));
}

#[test]
fn bytes_pack_into_words_low_byte_first() {
    let bytes = [1u8, 2, 3, 4, 5, 6, 7, 8, 0xff, 0, 0, 0, 0, 0, 0, 0x80];
    assert_eq!(word_at(&bytes, 0), 0x0807_0605_0403_0201);
    assert_eq!(word_at(&bytes, 8), 0x8000_0000_0000_00ff);
    assert_eq!(word_at(&bytes, 1), 0xff08_0706_0504_0302);
    assert_eq!(
        words_from_bytes(&bytes),
        vec![0x0807_0605_0403_0201, 0x8000_0000_0000_00ff]
    );
    assert_eq!(words_from_bytes(&bytes[..15]), vec![0x0807_0605_0403_0201]);
    assert_eq!(words_from_bytes(&bytes[..7]), Vec::<u64>::new());
}

#[test]
fn error_texts() {
    assert_eq!(Vf2SdDriverError::InitError.to_string(), "init error");
    assert_eq!(Vf2SdDriverError::ReadError.to_string(), "read error");
    assert_eq!(Vf2SdDriverError::WriteError.to_string(), "write error");
    assert_eq!(Vf2SdDriverError::TimeoutError.to_string(), "timeout error");
    assert_eq!(Vf2SdDriverError::UnknownError.to_string(), "unknown error");
}
