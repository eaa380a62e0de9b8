//! The controller's register map and the bit-field layout of each register.
//!
//! Every register type is the decoded form of one hardware word: `decode`
//! splits a raw word into its fields and `encode` puts them back. Fields are
//! listed from the most significant bit down, reserved bits included, so a
//! decoded word keeps everything the raw word held.
use crate::bits::{
    bit, bit16, field, flag, flag16, lemma_field_bound, place, spec_bit, spec_bit16, spec_field,
    spec_flag, spec_flag16, spec_place,
};
use crate::cmd::Cmd;
use vstd::prelude::*;

verus! {

/// Base address of the controller on the target board.
pub const SDIO_BASE: usize = 0x16020000;

// Register offsets from the controller's base address.
pub const CTRL_REG: u32 = 0x00;
pub const POWER_REG: u32 = 0x04;
pub const CLK_DIVIDER_REG: u32 = 0x08;
pub const CLOCK_ENABLE_REG: u32 = 0x10;
pub const CTYPE_REG: u32 = 0x18;
pub const BLK_SIZE_REG: u32 = 0x1c;
pub const BYTE_CNT_REG: u32 = 0x20;
pub const ARG_REG: u32 = 0x28;
pub const CMD_REG: u32 = 0x2c;
pub const RESP0_REG: u32 = 0x30;
pub const RESP1_REG: u32 = 0x34;
pub const RESP2_REG: u32 = 0x38;
pub const RESP3_REG: u32 = 0x3c;
pub const RAW_INT_STATUS_REG: u32 = 0x44;
pub const STATUS_REG: u32 = 0x48;
pub const CDETECT_REG: u32 = 0x50;
pub const BUS_MODE_REG: u32 = 0x80;
pub const DBADDRL_REG: u32 = 0x88;
pub const DBADDRU_REG: u32 = 0x8c;
pub const FIFO_DATA_REG: u32 = 0x600;

/// The power-enable register.
#[derive(Debug, Copy, Clone, PartialEq, Eq, Structural)]
pub struct PowerReg {
    /// Bits 31..30.
    pub reserved: u8,
    /// Bits 29..0: power switch of each card slot.
    pub power_enable: u32,
}

impl PowerReg {
    /// Every field fits its width.
    pub open spec fn wf(self) -> bool {
        self.reserved <= 0x3
        && self.power_enable <= 0x3fffffff
    }

    pub open spec fn spec_decode(raw: u32) -> PowerReg {
        PowerReg {
            reserved: spec_field(raw, 30, 0x3) as u8,
            power_enable: spec_field(raw, 0, 0x3fffffff),
        }
    }

    pub open spec fn spec_encode(self) -> u32 {
        spec_place(self.reserved as u32, 30)
            | spec_place(self.power_enable, 0)
    }

    /// Splits a raw word into its fields.
    pub fn decode(raw: u32) -> (r: PowerReg)
        ensures
            r == Self::spec_decode(raw),
            r.wf(),
    {
        PowerReg {
            reserved: field(raw, 30, 0x3) as u8,
            power_enable: field(raw, 0, 0x3fffffff),
        }
    }

    /// Packs the fields into the raw word.
    pub fn encode(&self) -> (raw: u32)
        ensures
            raw == self.spec_encode(),
    {
        place(self.reserved as u32, 30)
            | place(self.power_enable, 0)
    }

    /// Decoding a raw word and encoding the fields again gives the word back,
    /// whatever the word holds.
    pub proof fn lemma_round_trip(raw: u32)
        ensures
            Self::spec_decode(raw).spec_encode() == raw,
            Self::spec_decode(raw).wf(),
    {
        lemma_field_bound(raw, 30, 0x3);
        lemma_field_bound(raw, 0, 0x3fffffff);
        assert(spec_place(spec_field(raw, 30, 0x3), 30)
            | spec_place(spec_field(raw, 0, 0x3fffffff), 0) == raw) by (bit_vector);
    }
}

/// The command argument register.
#[derive(Debug, Copy, Clone, PartialEq, Eq, Structural)]
pub struct CmdArg {
    /// Bits 31..0: the argument sent with the next command.
    pub arg: u32,
}

impl CmdArg {
    /// Every field fits its width.
    pub open spec fn wf(self) -> bool {
        true
    }

    pub open spec fn spec_decode(raw: u32) -> CmdArg {
        CmdArg {
            arg: raw,
        }
    }

    pub open spec fn spec_encode(self) -> u32 {
        self.arg
    }

    /// Splits a raw word into its fields.
    pub fn decode(raw: u32) -> (r: CmdArg)
        ensures
            r == Self::spec_decode(raw),
            r.wf(),
    {
        CmdArg {
            arg: raw,
        }
    }

    /// Packs the fields into the raw word.
    pub fn encode(&self) -> (raw: u32)
        ensures
            raw == self.spec_encode(),
    {
        self.arg
    }

    /// Decoding a raw word and encoding the fields again gives the word back,
    /// whatever the word holds.
    pub proof fn lemma_round_trip(raw: u32)
        ensures
            Self::spec_decode(raw).spec_encode() == raw,
            Self::spec_decode(raw).wf(),
    {
    }
}

/// The block-size register.
#[derive(Debug, Copy, Clone, PartialEq, Eq, Structural)]
pub struct BlkSizeReg {
    /// Bits 31..16.
    pub reserved: u16,
    /// Bits 15..0: size of one data block in bytes.
    pub block_size: u16,
}

impl BlkSizeReg {
    /// Every field fits its width.
    pub open spec fn wf(self) -> bool {
        true
    }

    pub open spec fn spec_decode(raw: u32) -> BlkSizeReg {
        BlkSizeReg {
            reserved: spec_field(raw, 16, 0xffff) as u16,
            block_size: spec_field(raw, 0, 0xffff) as u16,
        }
    }

    pub open spec fn spec_encode(self) -> u32 {
        spec_place(self.reserved as u32, 16)
            | spec_place(self.block_size as u32, 0)
    }

    /// Splits a raw word into its fields.
    pub fn decode(raw: u32) -> (r: BlkSizeReg)
        ensures
            r == Self::spec_decode(raw),
            r.wf(),
    {
        BlkSizeReg {
            reserved: field(raw, 16, 0xffff) as u16,
            block_size: field(raw, 0, 0xffff) as u16,
        }
    }

    /// Packs the fields into the raw word.
    pub fn encode(&self) -> (raw: u32)
        ensures
            raw == self.spec_encode(),
    {
        place(self.reserved as u32, 16)
            | place(self.block_size as u32, 0)
    }

    /// Decoding a raw word and encoding the fields again gives the word back,
    /// whatever the word holds.
    pub proof fn lemma_round_trip(raw: u32)
        ensures
            Self::spec_decode(raw).spec_encode() == raw,
            Self::spec_decode(raw).wf(),
    {
        lemma_field_bound(raw, 16, 0xffff);
        lemma_field_bound(raw, 0, 0xffff);
        assert(spec_place(spec_field(raw, 16, 0xffff), 16)
            | spec_place(spec_field(raw, 0, 0xffff), 0) == raw) by (bit_vector);
    }
}

/// The byte-count register: the number of bytes of the next data transfer, a
/// multiple of the block size for block transfers.
#[derive(Debug, Copy, Clone, PartialEq, Eq, Structural)]
pub struct ByteCountReg {
    /// Bits 31..0.
    pub byte_count: u32,
}

impl ByteCountReg {
    /// Every field fits its width.
    pub open spec fn wf(self) -> bool {
        true
    }

    pub open spec fn spec_decode(raw: u32) -> ByteCountReg {
        ByteCountReg {
            byte_count: raw,
        }
    }

    pub open spec fn spec_encode(self) -> u32 {
        self.byte_count
    }

    /// Splits a raw word into its fields.
    pub fn decode(raw: u32) -> (r: ByteCountReg)
        ensures
            r == Self::spec_decode(raw),
            r.wf(),
    {
        ByteCountReg {
            byte_count: raw,
        }
    }

    /// Packs the fields into the raw word.
    pub fn encode(&self) -> (raw: u32)
        ensures
            raw == self.spec_encode(),
    {
        self.byte_count
    }

    /// Decoding a raw word and encoding the fields again gives the word back,
    /// whatever the word holds.
    pub proof fn lemma_round_trip(raw: u32)
        ensures
            Self::spec_decode(raw).spec_encode() == raw,
            Self::spec_decode(raw).wf(),
    {
    }
}

/// The command register.
#[derive(Debug, Copy, Clone, PartialEq, Eq, Structural)]
pub struct CmdReg {
    /// Bit 31: set by software to start a command, cleared by the controller
    /// once the command is accepted.
    pub start_cmd: bool,
    /// Bit 30.
    pub reserved: bool,
    /// Bit 29: send command and data through the hold register.
    pub use_hold_reg: bool,
    /// Bit 28.
    pub volt_switch: bool,
    /// Bit 27.
    pub boot_mode: bool,
    /// Bit 26.
    pub disable_boot: bool,
    /// Bit 25.
    pub expect_boot_ack: bool,
    /// Bit 24.
    pub enable_boot: bool,
    /// Bit 23.
    pub ccs_expected: bool,
    /// Bit 22.
    pub read_ceata_device: bool,
    /// Bit 21: send nothing to the card, only carry the clock registers over
    /// into the card clock domain.
    pub update_clock_registers_only: bool,
    /// Bits 20..16: index of the card addressed.
    pub card_number: u8,
    /// Bit 15: send the initialization sequence before the command.
    pub send_initialization: bool,
    /// Bit 14.
    pub stop_abort_cmd: bool,
    /// Bit 13: wait for the previous data transfer to complete.
    pub wait_prvdata_complete: bool,
    /// Bit 12.
    pub send_auto_stop: bool,
    /// Bit 11: clear for a block transfer, set for a stream transfer.
    pub transfer_mode: bool,
    /// Bit 10: clear to read from the card, set to write to it.
    pub transfer_dir: bool,
    /// Bit 9: a data phase follows the command.
    pub data_expected: bool,
    /// Bit 8: check the CRC of the response.
    pub check_response_crc: bool,
    /// Bit 7: clear for a short response, set for a long one.
    pub response_length: bool,
    /// Bit 6: the card answers this command.
    pub response_expect: bool,
    /// Bits 5..0: the opcode.
    pub cmd_index: u8,
}

impl CmdReg {
    /// Every field fits its width.
    pub open spec fn wf(self) -> bool {
        self.card_number <= 0x1f
        && self.cmd_index <= 0x3f
    }

    pub open spec fn spec_decode(raw: u32) -> CmdReg {
        CmdReg {
            start_cmd: spec_bit(raw, 31),
            reserved: spec_bit(raw, 30),
            use_hold_reg: spec_bit(raw, 29),
            volt_switch: spec_bit(raw, 28),
            boot_mode: spec_bit(raw, 27),
            disable_boot: spec_bit(raw, 26),
            expect_boot_ack: spec_bit(raw, 25),
            enable_boot: spec_bit(raw, 24),
            ccs_expected: spec_bit(raw, 23),
            read_ceata_device: spec_bit(raw, 22),
            update_clock_registers_only: spec_bit(raw, 21),
            card_number: spec_field(raw, 16, 0x1f) as u8,
            send_initialization: spec_bit(raw, 15),
            stop_abort_cmd: spec_bit(raw, 14),
            wait_prvdata_complete: spec_bit(raw, 13),
            send_auto_stop: spec_bit(raw, 12),
            transfer_mode: spec_bit(raw, 11),
            transfer_dir: spec_bit(raw, 10),
            data_expected: spec_bit(raw, 9),
            check_response_crc: spec_bit(raw, 8),
            response_length: spec_bit(raw, 7),
            response_expect: spec_bit(raw, 6),
            cmd_index: spec_field(raw, 0, 0x3f) as u8,
        }
    }

    pub open spec fn spec_encode(self) -> u32 {
        spec_flag(self.start_cmd, 0x80000000)
            | spec_flag(self.reserved, 0x40000000)
            | spec_flag(self.use_hold_reg, 0x20000000)
            | spec_flag(self.volt_switch, 0x10000000)
            | spec_flag(self.boot_mode, 0x8000000)
            | spec_flag(self.disable_boot, 0x4000000)
            | spec_flag(self.expect_boot_ack, 0x2000000)
            | spec_flag(self.enable_boot, 0x1000000)
            | spec_flag(self.ccs_expected, 0x800000)
            | spec_flag(self.read_ceata_device, 0x400000)
            | spec_flag(self.update_clock_registers_only, 0x200000)
            | spec_place(self.card_number as u32, 16)
            | spec_flag(self.send_initialization, 0x8000)
            | spec_flag(self.stop_abort_cmd, 0x4000)
            | spec_flag(self.wait_prvdata_complete, 0x2000)
            | spec_flag(self.send_auto_stop, 0x1000)
            | spec_flag(self.transfer_mode, 0x800)
            | spec_flag(self.transfer_dir, 0x400)
            | spec_flag(self.data_expected, 0x200)
            | spec_flag(self.check_response_crc, 0x100)
            | spec_flag(self.response_length, 0x80)
            | spec_flag(self.response_expect, 0x40)
            | spec_place(self.cmd_index as u32, 0)
    }

    /// Splits a raw word into its fields.
    pub fn decode(raw: u32) -> (r: CmdReg)
        ensures
            r == Self::spec_decode(raw),
            r.wf(),
    {
        CmdReg {
            start_cmd: bit(raw, 31),
            reserved: bit(raw, 30),
            use_hold_reg: bit(raw, 29),
            volt_switch: bit(raw, 28),
            boot_mode: bit(raw, 27),
            disable_boot: bit(raw, 26),
            expect_boot_ack: bit(raw, 25),
            enable_boot: bit(raw, 24),
            ccs_expected: bit(raw, 23),
            read_ceata_device: bit(raw, 22),
            update_clock_registers_only: bit(raw, 21),
            card_number: field(raw, 16, 0x1f) as u8,
            send_initialization: bit(raw, 15),
            stop_abort_cmd: bit(raw, 14),
            wait_prvdata_complete: bit(raw, 13),
            send_auto_stop: bit(raw, 12),
            transfer_mode: bit(raw, 11),
            transfer_dir: bit(raw, 10),
            data_expected: bit(raw, 9),
            check_response_crc: bit(raw, 8),
            response_length: bit(raw, 7),
            response_expect: bit(raw, 6),
            cmd_index: field(raw, 0, 0x3f) as u8,
        }
    }

    /// Packs the fields into the raw word.
    pub fn encode(&self) -> (raw: u32)
        ensures
            raw == self.spec_encode(),
    {
        flag(self.start_cmd, 0x80000000)
            | flag(self.reserved, 0x40000000)
            | flag(self.use_hold_reg, 0x20000000)
            | flag(self.volt_switch, 0x10000000)
            | flag(self.boot_mode, 0x8000000)
            | flag(self.disable_boot, 0x4000000)
            | flag(self.expect_boot_ack, 0x2000000)
            | flag(self.enable_boot, 0x1000000)
            | flag(self.ccs_expected, 0x800000)
            | flag(self.read_ceata_device, 0x400000)
            | flag(self.update_clock_registers_only, 0x200000)
            | place(self.card_number as u32, 16)
            | flag(self.send_initialization, 0x8000)
            | flag(self.stop_abort_cmd, 0x4000)
            | flag(self.wait_prvdata_complete, 0x2000)
            | flag(self.send_auto_stop, 0x1000)
            | flag(self.transfer_mode, 0x800)
            | flag(self.transfer_dir, 0x400)
            | flag(self.data_expected, 0x200)
            | flag(self.check_response_crc, 0x100)
            | flag(self.response_length, 0x80)
            | flag(self.response_expect, 0x40)
            | place(self.cmd_index as u32, 0)
    }

    /// Decoding a raw word and encoding the fields again gives the word back,
    /// whatever the word holds.
    pub proof fn lemma_round_trip(raw: u32)
        ensures
            Self::spec_decode(raw).spec_encode() == raw,
            Self::spec_decode(raw).wf(),
    {
        lemma_field_bound(raw, 16, 0x1f);
        lemma_field_bound(raw, 0, 0x3f);
        assert(spec_flag(spec_bit(raw, 31), 0x80000000)
            | spec_flag(spec_bit(raw, 30), 0x40000000)
            | spec_flag(spec_bit(raw, 29), 0x20000000)
            | spec_flag(spec_bit(raw, 28), 0x10000000)
            | spec_flag(spec_bit(raw, 27), 0x8000000)
            | spec_flag(spec_bit(raw, 26), 0x4000000)
            | spec_flag(spec_bit(raw, 25), 0x2000000)
            | spec_flag(spec_bit(raw, 24), 0x1000000)
            | spec_flag(spec_bit(raw, 23), 0x800000)
            | spec_flag(spec_bit(raw, 22), 0x400000)
            | spec_flag(spec_bit(raw, 21), 0x200000)
            | spec_place(spec_field(raw, 16, 0x1f), 16)
            | spec_flag(spec_bit(raw, 15), 0x8000)
            | spec_flag(spec_bit(raw, 14), 0x4000)
            | spec_flag(spec_bit(raw, 13), 0x2000)
            | spec_flag(spec_bit(raw, 12), 0x1000)
            | spec_flag(spec_bit(raw, 11), 0x800)
            | spec_flag(spec_bit(raw, 10), 0x400)
            | spec_flag(spec_bit(raw, 9), 0x200)
            | spec_flag(spec_bit(raw, 8), 0x100)
            | spec_flag(spec_bit(raw, 7), 0x80)
            | spec_flag(spec_bit(raw, 6), 0x40)
            | spec_place(spec_field(raw, 0, 0x3f), 0) == raw) by (bit_vector);
    }
}

/// The card-detect register.
#[derive(Debug, Copy, Clone, PartialEq, Eq, Structural)]
pub struct CDetectReg {
    /// Bits 31..30.
    pub reserved: u8,
    /// Bits 29..0: one bit per slot, clear when a card is present.
    pub card_detect_n: u32,
}

impl CDetectReg {
    /// Every field fits its width.
    pub open spec fn wf(self) -> bool {
        self.reserved <= 0x3
        && self.card_detect_n <= 0x3fffffff
    }

    pub open spec fn spec_decode(raw: u32) -> CDetectReg {
        CDetectReg {
            reserved: spec_field(raw, 30, 0x3) as u8,
            card_detect_n: spec_field(raw, 0, 0x3fffffff),
        }
    }

    pub open spec fn spec_encode(self) -> u32 {
        spec_place(self.reserved as u32, 30)
            | spec_place(self.card_detect_n, 0)
    }

    /// Splits a raw word into its fields.
    pub fn decode(raw: u32) -> (r: CDetectReg)
        ensures
            r == Self::spec_decode(raw),
            r.wf(),
    {
        CDetectReg {
            reserved: field(raw, 30, 0x3) as u8,
            card_detect_n: field(raw, 0, 0x3fffffff),
        }
    }

    /// Packs the fields into the raw word.
    pub fn encode(&self) -> (raw: u32)
        ensures
            raw == self.spec_encode(),
    {
        place(self.reserved as u32, 30)
            | place(self.card_detect_n, 0)
    }

    /// Decoding a raw word and encoding the fields again gives the word back,
    /// whatever the word holds.
    pub proof fn lemma_round_trip(raw: u32)
        ensures
            Self::spec_decode(raw).spec_encode() == raw,
            Self::spec_decode(raw).wf(),
    {
        lemma_field_bound(raw, 30, 0x3);
        lemma_field_bound(raw, 0, 0x3fffffff);
        assert(spec_place(spec_field(raw, 30, 0x3), 30)
            | spec_place(spec_field(raw, 0, 0x3fffffff), 0) == raw) by (bit_vector);
    }
}

/// The clock-enable register.
#[derive(Debug, Copy, Clone, PartialEq, Eq, Structural)]
pub struct ClockEnableReg {
    /// Bits 31..16: one bit per card: stop the clock while the card is idle.
    pub cclk_low_power: u16,
    /// Bits 15..0: one bit per card: clock on.
    pub clk_enable: u16,
}

impl ClockEnableReg {
    /// Every field fits its width.
    pub open spec fn wf(self) -> bool {
        true
    }

    pub open spec fn spec_decode(raw: u32) -> ClockEnableReg {
        ClockEnableReg {
            cclk_low_power: spec_field(raw, 16, 0xffff) as u16,
            clk_enable: spec_field(raw, 0, 0xffff) as u16,
        }
    }

    pub open spec fn spec_encode(self) -> u32 {
        spec_place(self.cclk_low_power as u32, 16)
            | spec_place(self.clk_enable as u32, 0)
    }

    /// Splits a raw word into its fields.
    pub fn decode(raw: u32) -> (r: ClockEnableReg)
        ensures
            r == Self::spec_decode(raw),
            r.wf(),
    {
        ClockEnableReg {
            cclk_low_power: field(raw, 16, 0xffff) as u16,
            clk_enable: field(raw, 0, 0xffff) as u16,
        }
    }

    /// Packs the fields into the raw word.
    pub fn encode(&self) -> (raw: u32)
        ensures
            raw == self.spec_encode(),
    {
        place(self.cclk_low_power as u32, 16)
            | place(self.clk_enable as u32, 0)
    }

    /// Decoding a raw word and encoding the fields again gives the word back,
    /// whatever the word holds.
    pub proof fn lemma_round_trip(raw: u32)
        ensures
            Self::spec_decode(raw).spec_encode() == raw,
            Self::spec_decode(raw).wf(),
    {
        lemma_field_bound(raw, 16, 0xffff);
        lemma_field_bound(raw, 0, 0xffff);
        assert(spec_place(spec_field(raw, 16, 0xffff), 16)
            | spec_place(spec_field(raw, 0, 0xffff), 0) == raw) by (bit_vector);
    }
}

/// The card-type register, which holds the bus width of each card.
#[derive(Debug, Copy, Clone, PartialEq, Eq, Structural)]
pub struct CardTypeReg {
    /// Bits 31..16: one bit per card: 8-bit bus.
    pub card_width8: u16,
    /// Bits 15..0: one bit per card: clear for a 1-bit bus, set for a 4-bit
    /// bus.
    pub card_width4_1: u16,
}

impl CardTypeReg {
    /// Every field fits its width.
    pub open spec fn wf(self) -> bool {
        true
    }

    pub open spec fn spec_decode(raw: u32) -> CardTypeReg {
        CardTypeReg {
            card_width8: spec_field(raw, 16, 0xffff) as u16,
            card_width4_1: spec_field(raw, 0, 0xffff) as u16,
        }
    }

    pub open spec fn spec_encode(self) -> u32 {
        spec_place(self.card_width8 as u32, 16)
            | spec_place(self.card_width4_1 as u32, 0)
    }

    /// Splits a raw word into its fields.
    pub fn decode(raw: u32) -> (r: CardTypeReg)
        ensures
            r == Self::spec_decode(raw),
            r.wf(),
    {
        CardTypeReg {
            card_width8: field(raw, 16, 0xffff) as u16,
            card_width4_1: field(raw, 0, 0xffff) as u16,
        }
    }

    /// Packs the fields into the raw word.
    pub fn encode(&self) -> (raw: u32)
        ensures
            raw == self.spec_encode(),
    {
        place(self.card_width8 as u32, 16)
            | place(self.card_width4_1 as u32, 0)
    }

    /// Decoding a raw word and encoding the fields again gives the word back,
    /// whatever the word holds.
    pub proof fn lemma_round_trip(raw: u32)
        ensures
            Self::spec_decode(raw).spec_encode() == raw,
            Self::spec_decode(raw).wf(),
    {
        lemma_field_bound(raw, 16, 0xffff);
        lemma_field_bound(raw, 0, 0xffff);
        assert(spec_place(spec_field(raw, 16, 0xffff), 16)
            | spec_place(spec_field(raw, 0, 0xffff), 0) == raw) by (bit_vector);
    }
}

/// The control register. The three reset bits clear themselves once the
/// controller has carried the reset out; software never clears them.
#[derive(Debug, Copy, Clone, PartialEq, Eq, Structural)]
pub struct ControlReg {
    /// Bits 31..26.
    pub reserved: u8,
    /// Bit 25: move data with the internal DMA controller.
    pub use_internal_dmac: bool,
    /// Bit 24.
    pub enable_od_pullup: bool,
    /// Bits 23..20.
    pub card_voltage_b: u8,
    /// Bits 19..16.
    pub card_voltage_a: u8,
    /// Bits 15..12.
    pub reserved1: u8,
    /// Bit 11.
    pub ceata_device_interrupt: bool,
    /// Bit 10.
    pub send_auto_stop_ccsd: bool,
    /// Bit 9.
    pub send_ccsd: bool,
    /// Bit 8.
    pub abort_read_data: bool,
    /// Bit 7.
    pub send_irq_response: bool,
    /// Bit 6.
    pub read_wait: bool,
    /// Bit 5.
    pub dma_enable: bool,
    /// Bit 4: global interrupt enable.
    pub int_enable: bool,
    /// Bit 3.
    pub reserved2: bool,
    /// Bit 2: reset the DMA interface; self-clearing.
    pub dma_reset: bool,
    /// Bit 1: reset the FIFO pointers; self-clearing.
    pub fifo_reset: bool,
    /// Bit 0: reset the controller; self-clearing.
    pub controller_reset: bool,
}

impl ControlReg {
    /// Every field fits its width.
    pub open spec fn wf(self) -> bool {
        self.reserved <= 0x3f
        && self.card_voltage_b <= 0xf
        && self.card_voltage_a <= 0xf
        && self.reserved1 <= 0xf
    }

    pub open spec fn spec_decode(raw: u32) -> ControlReg {
        ControlReg {
            reserved: spec_field(raw, 26, 0x3f) as u8,
            use_internal_dmac: spec_bit(raw, 25),
            enable_od_pullup: spec_bit(raw, 24),
            card_voltage_b: spec_field(raw, 20, 0xf) as u8,
            card_voltage_a: spec_field(raw, 16, 0xf) as u8,
            reserved1: spec_field(raw, 12, 0xf) as u8,
            ceata_device_interrupt: spec_bit(raw, 11),
            send_auto_stop_ccsd: spec_bit(raw, 10),
            send_ccsd: spec_bit(raw, 9),
            abort_read_data: spec_bit(raw, 8),
            send_irq_response: spec_bit(raw, 7),
            read_wait: spec_bit(raw, 6),
            dma_enable: spec_bit(raw, 5),
            int_enable: spec_bit(raw, 4),
            reserved2: spec_bit(raw, 3),
            dma_reset: spec_bit(raw, 2),
            fifo_reset: spec_bit(raw, 1),
            controller_reset: spec_bit(raw, 0),
        }
    }

    pub open spec fn spec_encode(self) -> u32 {
        spec_place(self.reserved as u32, 26)
            | spec_flag(self.use_internal_dmac, 0x2000000)
            | spec_flag(self.enable_od_pullup, 0x1000000)
            | spec_place(self.card_voltage_b as u32, 20)
            | spec_place(self.card_voltage_a as u32, 16)
            | spec_place(self.reserved1 as u32, 12)
            | spec_flag(self.ceata_device_interrupt, 0x800)
            | spec_flag(self.send_auto_stop_ccsd, 0x400)
            | spec_flag(self.send_ccsd, 0x200)
            | spec_flag(self.abort_read_data, 0x100)
            | spec_flag(self.send_irq_response, 0x80)
            | spec_flag(self.read_wait, 0x40)
            | spec_flag(self.dma_enable, 0x20)
            | spec_flag(self.int_enable, 0x10)
            | spec_flag(self.reserved2, 0x8)
            | spec_flag(self.dma_reset, 0x4)
            | spec_flag(self.fifo_reset, 0x2)
            | spec_flag(self.controller_reset, 0x1)
    }

    /// Splits a raw word into its fields.
    pub fn decode(raw: u32) -> (r: ControlReg)
        ensures
            r == Self::spec_decode(raw),
            r.wf(),
    {
        ControlReg {
            reserved: field(raw, 26, 0x3f) as u8,
            use_internal_dmac: bit(raw, 25),
            enable_od_pullup: bit(raw, 24),
            card_voltage_b: field(raw, 20, 0xf) as u8,
            card_voltage_a: field(raw, 16, 0xf) as u8,
            reserved1: field(raw, 12, 0xf) as u8,
            ceata_device_interrupt: bit(raw, 11),
            send_auto_stop_ccsd: bit(raw, 10),
            send_ccsd: bit(raw, 9),
            abort_read_data: bit(raw, 8),
            send_irq_response: bit(raw, 7),
            read_wait: bit(raw, 6),
            dma_enable: bit(raw, 5),
            int_enable: bit(raw, 4),
            reserved2: bit(raw, 3),
            dma_reset: bit(raw, 2),
            fifo_reset: bit(raw, 1),
            controller_reset: bit(raw, 0),
        }
    }

    /// Packs the fields into the raw word.
    pub fn encode(&self) -> (raw: u32)
        ensures
            raw == self.spec_encode(),
    {
        place(self.reserved as u32, 26)
            | flag(self.use_internal_dmac, 0x2000000)
            | flag(self.enable_od_pullup, 0x1000000)
            | place(self.card_voltage_b as u32, 20)
            | place(self.card_voltage_a as u32, 16)
            | place(self.reserved1 as u32, 12)
            | flag(self.ceata_device_interrupt, 0x800)
            | flag(self.send_auto_stop_ccsd, 0x400)
            | flag(self.send_ccsd, 0x200)
            | flag(self.abort_read_data, 0x100)
            | flag(self.send_irq_response, 0x80)
            | flag(self.read_wait, 0x40)
            | flag(self.dma_enable, 0x20)
            | flag(self.int_enable, 0x10)
            | flag(self.reserved2, 0x8)
            | flag(self.dma_reset, 0x4)
            | flag(self.fifo_reset, 0x2)
            | flag(self.controller_reset, 0x1)
    }

    /// Decoding a raw word and encoding the fields again gives the word back,
    /// whatever the word holds.
    pub proof fn lemma_round_trip(raw: u32)
        ensures
            Self::spec_decode(raw).spec_encode() == raw,
            Self::spec_decode(raw).wf(),
    {
        lemma_field_bound(raw, 26, 0x3f);
        lemma_field_bound(raw, 20, 0xf);
        lemma_field_bound(raw, 16, 0xf);
        lemma_field_bound(raw, 12, 0xf);
        assert(spec_place(spec_field(raw, 26, 0x3f), 26)
            | spec_flag(spec_bit(raw, 25), 0x2000000)
            | spec_flag(spec_bit(raw, 24), 0x1000000)
            | spec_place(spec_field(raw, 20, 0xf), 20)
            | spec_place(spec_field(raw, 16, 0xf), 16)
            | spec_place(spec_field(raw, 12, 0xf), 12)
            | spec_flag(spec_bit(raw, 11), 0x800)
            | spec_flag(spec_bit(raw, 10), 0x400)
            | spec_flag(spec_bit(raw, 9), 0x200)
            | spec_flag(spec_bit(raw, 8), 0x100)
            | spec_flag(spec_bit(raw, 7), 0x80)
            | spec_flag(spec_bit(raw, 6), 0x40)
            | spec_flag(spec_bit(raw, 5), 0x20)
            | spec_flag(spec_bit(raw, 4), 0x10)
            | spec_flag(spec_bit(raw, 3), 0x8)
            | spec_flag(spec_bit(raw, 2), 0x4)
            | spec_flag(spec_bit(raw, 1), 0x2)
            | spec_flag(spec_bit(raw, 0), 0x1) == raw) by (bit_vector);
    }
}

/// The bus-mode register of the internal DMA controller.
#[derive(Debug, Copy, Clone, PartialEq, Eq, Structural)]
pub struct BusModeReg {
    /// Bits 31..11.
    pub reserved: u32,
    /// Bits 10..8: programmable burst length.
    pub pbl: u8,
    /// Bit 7: internal DMA controller enable.
    pub de: bool,
    /// Bits 6..2: descriptor skip length.
    pub dsl: u8,
    /// Bit 1.
    pub fd: bool,
    /// Bit 0: software reset of the DMA controller; self-clearing.
    pub swr: bool,
}

impl BusModeReg {
    /// Every field fits its width.
    pub open spec fn wf(self) -> bool {
        self.reserved <= 0x1fffff
        && self.pbl <= 0x7
        && self.dsl <= 0x1f
    }

    pub open spec fn spec_decode(raw: u32) -> BusModeReg {
        BusModeReg {
            reserved: spec_field(raw, 11, 0x1fffff),
            pbl: spec_field(raw, 8, 0x7) as u8,
            de: spec_bit(raw, 7),
            dsl: spec_field(raw, 2, 0x1f) as u8,
            fd: spec_bit(raw, 1),
            swr: spec_bit(raw, 0),
        }
    }

    pub open spec fn spec_encode(self) -> u32 {
        spec_place(self.reserved, 11)
            | spec_place(self.pbl as u32, 8)
            | spec_flag(self.de, 0x80)
            | spec_place(self.dsl as u32, 2)
            | spec_flag(self.fd, 0x2)
            | spec_flag(self.swr, 0x1)
    }

    /// Splits a raw word into its fields.
    pub fn decode(raw: u32) -> (r: BusModeReg)
        ensures
            r == Self::spec_decode(raw),
            r.wf(),
    {
        BusModeReg {
            reserved: field(raw, 11, 0x1fffff),
            pbl: field(raw, 8, 0x7) as u8,
            de: bit(raw, 7),
            dsl: field(raw, 2, 0x1f) as u8,
            fd: bit(raw, 1),
            swr: bit(raw, 0),
        }
    }

    /// Packs the fields into the raw word.
    pub fn encode(&self) -> (raw: u32)
        ensures
            raw == self.spec_encode(),
    {
        place(self.reserved, 11)
            | place(self.pbl as u32, 8)
            | flag(self.de, 0x80)
            | place(self.dsl as u32, 2)
            | flag(self.fd, 0x2)
            | flag(self.swr, 0x1)
    }

    /// Decoding a raw word and encoding the fields again gives the word back,
    /// whatever the word holds.
    pub proof fn lemma_round_trip(raw: u32)
        ensures
            Self::spec_decode(raw).spec_encode() == raw,
            Self::spec_decode(raw).wf(),
    {
        lemma_field_bound(raw, 11, 0x1fffff);
        lemma_field_bound(raw, 8, 0x7);
        lemma_field_bound(raw, 2, 0x1f);
        assert(spec_place(spec_field(raw, 11, 0x1fffff), 11)
            | spec_place(spec_field(raw, 8, 0x7), 8)
            | spec_flag(spec_bit(raw, 7), 0x80)
            | spec_place(spec_field(raw, 2, 0x1f), 2)
            | spec_flag(spec_bit(raw, 1), 0x2)
            | spec_flag(spec_bit(raw, 0), 0x1) == raw) by (bit_vector);
    }
}

/// The clock-divider register. A divider field of `n` divides the source clock
/// by `2 * n`; zero leaves it undivided.
#[derive(Debug, Copy, Clone, PartialEq, Eq, Structural)]
pub struct ClockDividerReg {
    /// Bits 31..24.
    pub clk_divider3: u8,
    /// Bits 23..16.
    pub clk_divider2: u8,
    /// Bits 15..8.
    pub clk_divider1: u8,
    /// Bits 7..0.
    pub clk_divider0: u8,
}

impl ClockDividerReg {
    /// Every field fits its width.
    pub open spec fn wf(self) -> bool {
        true
    }

    pub open spec fn spec_decode(raw: u32) -> ClockDividerReg {
        ClockDividerReg {
            clk_divider3: spec_field(raw, 24, 0xff) as u8,
            clk_divider2: spec_field(raw, 16, 0xff) as u8,
            clk_divider1: spec_field(raw, 8, 0xff) as u8,
            clk_divider0: spec_field(raw, 0, 0xff) as u8,
        }
    }

    pub open spec fn spec_encode(self) -> u32 {
        spec_place(self.clk_divider3 as u32, 24)
            | spec_place(self.clk_divider2 as u32, 16)
            | spec_place(self.clk_divider1 as u32, 8)
            | spec_place(self.clk_divider0 as u32, 0)
    }

    /// Splits a raw word into its fields.
    pub fn decode(raw: u32) -> (r: ClockDividerReg)
        ensures
            r == Self::spec_decode(raw),
            r.wf(),
    {
        ClockDividerReg {
            clk_divider3: field(raw, 24, 0xff) as u8,
            clk_divider2: field(raw, 16, 0xff) as u8,
            clk_divider1: field(raw, 8, 0xff) as u8,
            clk_divider0: field(raw, 0, 0xff) as u8,
        }
    }

    /// Packs the fields into the raw word.
    pub fn encode(&self) -> (raw: u32)
        ensures
            raw == self.spec_encode(),
    {
        place(self.clk_divider3 as u32, 24)
            | place(self.clk_divider2 as u32, 16)
            | place(self.clk_divider1 as u32, 8)
            | place(self.clk_divider0 as u32, 0)
    }

    /// Decoding a raw word and encoding the fields again gives the word back,
    /// whatever the word holds.
    pub proof fn lemma_round_trip(raw: u32)
        ensures
            Self::spec_decode(raw).spec_encode() == raw,
            Self::spec_decode(raw).wf(),
    {
        lemma_field_bound(raw, 24, 0xff);
        lemma_field_bound(raw, 16, 0xff);
        lemma_field_bound(raw, 8, 0xff);
        lemma_field_bound(raw, 0, 0xff);
        assert(spec_place(spec_field(raw, 24, 0xff), 24)
            | spec_place(spec_field(raw, 16, 0xff), 16)
            | spec_place(spec_field(raw, 8, 0xff), 8)
            | spec_place(spec_field(raw, 0, 0xff), 0) == raw) by (bit_vector);
    }
}

/// The status register.
#[derive(Debug, Copy, Clone, PartialEq, Eq, Structural)]
pub struct StatusReg {
    /// Bit 31.
    pub dma_req: bool,
    /// Bit 30.
    pub dma_ack: bool,
    /// Bits 29..17: number of filled FIFO locations.
    pub fifo_count: u16,
    /// Bits 16..11: index of the previous response.
    pub response_index: u8,
    /// Bit 10.
    pub data_state_mc_busy: bool,
    /// Bit 9: the card holds its data line busy.
    pub data_busy: bool,
    /// Bit 8.
    pub data_3_status: bool,
    /// Bits 7..4.
    pub command_fsm_states: u8,
    /// Bit 3.
    pub fifo_full: bool,
    /// Bit 2.
    pub fifo_empty: bool,
    /// Bit 1.
    pub fifo_tx_watermark: bool,
    /// Bit 0.
    pub fifo_rx_watermark: bool,
}

impl StatusReg {
    /// Every field fits its width.
    pub open spec fn wf(self) -> bool {
        self.fifo_count <= 0x1fff
        && self.response_index <= 0x3f
        && self.command_fsm_states <= 0xf
    }

    pub open spec fn spec_decode(raw: u32) -> StatusReg {
        StatusReg {
            dma_req: spec_bit(raw, 31),
            dma_ack: spec_bit(raw, 30),
            fifo_count: spec_field(raw, 17, 0x1fff) as u16,
            response_index: spec_field(raw, 11, 0x3f) as u8,
            data_state_mc_busy: spec_bit(raw, 10),
            data_busy: spec_bit(raw, 9),
            data_3_status: spec_bit(raw, 8),
            command_fsm_states: spec_field(raw, 4, 0xf) as u8,
            fifo_full: spec_bit(raw, 3),
            fifo_empty: spec_bit(raw, 2),
            fifo_tx_watermark: spec_bit(raw, 1),
            fifo_rx_watermark: spec_bit(raw, 0),
        }
    }

    pub open spec fn spec_encode(self) -> u32 {
        spec_flag(self.dma_req, 0x80000000)
            | spec_flag(self.dma_ack, 0x40000000)
            | spec_place(self.fifo_count as u32, 17)
            | spec_place(self.response_index as u32, 11)
            | spec_flag(self.data_state_mc_busy, 0x400)
            | spec_flag(self.data_busy, 0x200)
            | spec_flag(self.data_3_status, 0x100)
            | spec_place(self.command_fsm_states as u32, 4)
            | spec_flag(self.fifo_full, 0x8)
            | spec_flag(self.fifo_empty, 0x4)
            | spec_flag(self.fifo_tx_watermark, 0x2)
            | spec_flag(self.fifo_rx_watermark, 0x1)
    }

    /// Splits a raw word into its fields.
    pub fn decode(raw: u32) -> (r: StatusReg)
        ensures
            r == Self::spec_decode(raw),
            r.wf(),
    {
        StatusReg {
            dma_req: bit(raw, 31),
            dma_ack: bit(raw, 30),
            fifo_count: field(raw, 17, 0x1fff) as u16,
            response_index: field(raw, 11, 0x3f) as u8,
            data_state_mc_busy: bit(raw, 10),
            data_busy: bit(raw, 9),
            data_3_status: bit(raw, 8),
            command_fsm_states: field(raw, 4, 0xf) as u8,
            fifo_full: bit(raw, 3),
            fifo_empty: bit(raw, 2),
            fifo_tx_watermark: bit(raw, 1),
            fifo_rx_watermark: bit(raw, 0),
        }
    }

    /// Packs the fields into the raw word.
    pub fn encode(&self) -> (raw: u32)
        ensures
            raw == self.spec_encode(),
    {
        flag(self.dma_req, 0x80000000)
            | flag(self.dma_ack, 0x40000000)
            | place(self.fifo_count as u32, 17)
            | place(self.response_index as u32, 11)
            | flag(self.data_state_mc_busy, 0x400)
            | flag(self.data_busy, 0x200)
            | flag(self.data_3_status, 0x100)
            | place(self.command_fsm_states as u32, 4)
            | flag(self.fifo_full, 0x8)
            | flag(self.fifo_empty, 0x4)
            | flag(self.fifo_tx_watermark, 0x2)
            | flag(self.fifo_rx_watermark, 0x1)
    }

    /// Decoding a raw word and encoding the fields again gives the word back,
    /// whatever the word holds.
    pub proof fn lemma_round_trip(raw: u32)
        ensures
            Self::spec_decode(raw).spec_encode() == raw,
            Self::spec_decode(raw).wf(),
    {
        lemma_field_bound(raw, 17, 0x1fff);
        lemma_field_bound(raw, 11, 0x3f);
        lemma_field_bound(raw, 4, 0xf);
        assert(spec_flag(spec_bit(raw, 31), 0x80000000)
            | spec_flag(spec_bit(raw, 30), 0x40000000)
            | spec_place(spec_field(raw, 17, 0x1fff), 17)
            | spec_place(spec_field(raw, 11, 0x3f), 11)
            | spec_flag(spec_bit(raw, 10), 0x400)
            | spec_flag(spec_bit(raw, 9), 0x200)
            | spec_flag(spec_bit(raw, 8), 0x100)
            | spec_place(spec_field(raw, 4, 0xf), 4)
            | spec_flag(spec_bit(raw, 3), 0x8)
            | spec_flag(spec_bit(raw, 2), 0x4)
            | spec_flag(spec_bit(raw, 1), 0x2)
            | spec_flag(spec_bit(raw, 0), 0x1) == raw) by (bit_vector);
    }
}

/// The raw interrupt status register. A flag is cleared by writing a one to
/// it, so writing back the word that was read acknowledges exactly the flags
/// that were seen.
#[derive(Debug, Copy, Clone, PartialEq, Eq, Structural)]
pub struct RawInterruptStatusReg {
    /// Bits 31..16: one bit per card: the card raised an SDIO interrupt.
    pub sdio_interrupt: u16,
    /// Bits 15..0: the controller's own flags, laid out as in `RawInterrupt`.
    pub int_status: u16,
}

impl RawInterruptStatusReg {
    /// Every field fits its width.
    pub open spec fn wf(self) -> bool {
        true
    }

    pub open spec fn spec_decode(raw: u32) -> RawInterruptStatusReg {
        RawInterruptStatusReg {
            sdio_interrupt: spec_field(raw, 16, 0xffff) as u16,
            int_status: spec_field(raw, 0, 0xffff) as u16,
        }
    }

    pub open spec fn spec_encode(self) -> u32 {
        spec_place(self.sdio_interrupt as u32, 16)
            | spec_place(self.int_status as u32, 0)
    }

    /// Splits a raw word into its fields.
    pub fn decode(raw: u32) -> (r: RawInterruptStatusReg)
        ensures
            r == Self::spec_decode(raw),
            r.wf(),
    {
        RawInterruptStatusReg {
            sdio_interrupt: field(raw, 16, 0xffff) as u16,
            int_status: field(raw, 0, 0xffff) as u16,
        }
    }

    /// Packs the fields into the raw word.
    pub fn encode(&self) -> (raw: u32)
        ensures
            raw == self.spec_encode(),
    {
        place(self.sdio_interrupt as u32, 16)
            | place(self.int_status as u32, 0)
    }

    /// Decoding a raw word and encoding the fields again gives the word back,
    /// whatever the word holds.
    pub proof fn lemma_round_trip(raw: u32)
        ensures
            Self::spec_decode(raw).spec_encode() == raw,
            Self::spec_decode(raw).wf(),
    {
        lemma_field_bound(raw, 16, 0xffff);
        lemma_field_bound(raw, 0, 0xffff);
        assert(spec_place(spec_field(raw, 16, 0xffff), 16)
            | spec_place(spec_field(raw, 0, 0xffff), 0) == raw) by (bit_vector);
    }
}

/// The sixteen interrupt flags of the controller.
#[derive(Debug, Copy, Clone, PartialEq, Eq, Structural)]
pub struct RawInterrupt {
    /// Bit 15: end-bit error.
    pub ebe: bool,
    /// Bit 14: auto command done.
    pub acd: bool,
    /// Bit 13: start-bit error.
    pub sbe: bool,
    /// Bit 12: hardware locked write error.
    pub hle: bool,
    /// Bit 11: FIFO underrun or overrun.
    pub frun: bool,
    /// Bit 10: data starvation by the host.
    pub hto: bool,
    /// Bit 9: data read timeout.
    pub drto: bool,
    /// Bit 8: response timeout.
    pub rto: bool,
    /// Bit 7: data CRC error.
    pub dcrc: bool,
    /// Bit 6: response CRC error.
    pub rcrc: bool,
    /// Bit 5: receive FIFO data request.
    pub rxdr: bool,
    /// Bit 4: transmit FIFO data request.
    pub txdr: bool,
    /// Bit 3: data transfer over.
    pub dto: bool,
    /// Bit 2: command done.
    pub command_done: bool,
    /// Bit 1: response error.
    pub response_err: bool,
    /// Bit 0: card detect.
    pub card_detect: bool,
}

impl RawInterrupt {
    /// Every field fits its width.
    pub open spec fn wf(self) -> bool {
        true
    }

    pub open spec fn spec_decode(raw: u16) -> RawInterrupt {
        RawInterrupt {
            ebe: spec_bit16(raw, 15),
            acd: spec_bit16(raw, 14),
            sbe: spec_bit16(raw, 13),
            hle: spec_bit16(raw, 12),
            frun: spec_bit16(raw, 11),
            hto: spec_bit16(raw, 10),
            drto: spec_bit16(raw, 9),
            rto: spec_bit16(raw, 8),
            dcrc: spec_bit16(raw, 7),
            rcrc: spec_bit16(raw, 6),
            rxdr: spec_bit16(raw, 5),
            txdr: spec_bit16(raw, 4),
            dto: spec_bit16(raw, 3),
            command_done: spec_bit16(raw, 2),
            response_err: spec_bit16(raw, 1),
            card_detect: spec_bit16(raw, 0),
        }
    }

    pub open spec fn spec_encode(self) -> u16 {
        spec_flag16(self.ebe, 0x8000)
            | spec_flag16(self.acd, 0x4000)
            | spec_flag16(self.sbe, 0x2000)
            | spec_flag16(self.hle, 0x1000)
            | spec_flag16(self.frun, 0x800)
            | spec_flag16(self.hto, 0x400)
            | spec_flag16(self.drto, 0x200)
            | spec_flag16(self.rto, 0x100)
            | spec_flag16(self.dcrc, 0x80)
            | spec_flag16(self.rcrc, 0x40)
            | spec_flag16(self.rxdr, 0x20)
            | spec_flag16(self.txdr, 0x10)
            | spec_flag16(self.dto, 0x8)
            | spec_flag16(self.command_done, 0x4)
            | spec_flag16(self.response_err, 0x2)
            | spec_flag16(self.card_detect, 0x1)
    }

    /// Splits a raw word into its fields.
    pub fn decode(raw: u16) -> (r: RawInterrupt)
        ensures
            r == Self::spec_decode(raw),
            r.wf(),
    {
        RawInterrupt {
            ebe: bit16(raw, 15),
            acd: bit16(raw, 14),
            sbe: bit16(raw, 13),
            hle: bit16(raw, 12),
            frun: bit16(raw, 11),
            hto: bit16(raw, 10),
            drto: bit16(raw, 9),
            rto: bit16(raw, 8),
            dcrc: bit16(raw, 7),
            rcrc: bit16(raw, 6),
            rxdr: bit16(raw, 5),
            txdr: bit16(raw, 4),
            dto: bit16(raw, 3),
            command_done: bit16(raw, 2),
            response_err: bit16(raw, 1),
            card_detect: bit16(raw, 0),
        }
    }

    /// Packs the fields into the raw word.
    pub fn encode(&self) -> (raw: u16)
        ensures
            raw == self.spec_encode(),
    {
        flag16(self.ebe, 0x8000)
            | flag16(self.acd, 0x4000)
            | flag16(self.sbe, 0x2000)
            | flag16(self.hle, 0x1000)
            | flag16(self.frun, 0x800)
            | flag16(self.hto, 0x400)
            | flag16(self.drto, 0x200)
            | flag16(self.rto, 0x100)
            | flag16(self.dcrc, 0x80)
            | flag16(self.rcrc, 0x40)
            | flag16(self.rxdr, 0x20)
            | flag16(self.txdr, 0x10)
            | flag16(self.dto, 0x8)
            | flag16(self.command_done, 0x4)
            | flag16(self.response_err, 0x2)
            | flag16(self.card_detect, 0x1)
    }

    /// Decoding a raw word and encoding the fields again gives the word back,
    /// whatever the word holds.
    pub proof fn lemma_round_trip(raw: u16)
        ensures
            Self::spec_decode(raw).spec_encode() == raw,
            Self::spec_decode(raw).wf(),
    {
        assert(spec_flag16(spec_bit16(raw, 15), 0x8000)
            | spec_flag16(spec_bit16(raw, 14), 0x4000)
            | spec_flag16(spec_bit16(raw, 13), 0x2000)
            | spec_flag16(spec_bit16(raw, 12), 0x1000)
            | spec_flag16(spec_bit16(raw, 11), 0x800)
            | spec_flag16(spec_bit16(raw, 10), 0x400)
            | spec_flag16(spec_bit16(raw, 9), 0x200)
            | spec_flag16(spec_bit16(raw, 8), 0x100)
            | spec_flag16(spec_bit16(raw, 7), 0x80)
            | spec_flag16(spec_bit16(raw, 6), 0x40)
            | spec_flag16(spec_bit16(raw, 5), 0x20)
            | spec_flag16(spec_bit16(raw, 4), 0x10)
            | spec_flag16(spec_bit16(raw, 3), 0x8)
            | spec_flag16(spec_bit16(raw, 2), 0x4)
            | spec_flag16(spec_bit16(raw, 1), 0x2)
            | spec_flag16(spec_bit16(raw, 0), 0x1) == raw) by (bit_vector);
    }
}

/// `bit_struct::u5::new` followed by `value`: the outside constructor accepts
/// exactly the values that fit five bits and hands the accepted value back
/// unchanged.
#[verifier::external_body]
fn five_bits(value: u8) -> (r: Option<u8>)
    ensures
        r == (if value <= 0x1f {
            Some(value)
        } else {
            None::<u8>
        }),
{
    match bit_struct::u5::new(value) {
        Some(v) => Some(v.value()),
        None => None,
    }
}

/// `bit_struct::u6::new` followed by `value`: the outside constructor accepts
/// exactly the values that fit six bits and hands the accepted value back
/// unchanged.
#[verifier::external_body]
fn six_bits(value: u8) -> (r: Option<u8>)
    ensures
        r == (if value <= 0x3f {
            Some(value)
        } else {
            None::<u8>
        }),
{
    match bit_struct::u6::new(value) {
        Some(v) => Some(v.value()),
        None => None,
    }
}

impl CmdReg {
    /// The command word that every card command starts from: start flag set,
    /// sent through the hold register, a short CRC-checked response expected,
    /// issued only after the previous data transfer has completed.
    pub open spec fn spec_default(card_number: u8, cmd_number: u8) -> CmdReg {
        CmdReg {
            start_cmd: true,
            reserved: false,
            use_hold_reg: true,
            volt_switch: false,
            boot_mode: false,
            disable_boot: false,
            expect_boot_ack: false,
            enable_boot: false,
            ccs_expected: false,
            read_ceata_device: false,
            update_clock_registers_only: false,
            card_number,
            send_initialization: false,
            stop_abort_cmd: false,
            wait_prvdata_complete: true,
            send_auto_stop: false,
            transfer_mode: false,
            transfer_dir: false,
            data_expected: false,
            check_response_crc: true,
            response_length: false,
            response_expect: true,
            cmd_index: cmd_number,
        }
    }

    /// The command word of the controller-only pulse that commits the clock
    /// registers: nothing is sent to the card and no response is expected.
    pub open spec fn spec_update_clock() -> CmdReg {
        CmdReg {
            start_cmd: true,
            use_hold_reg: false,
            wait_prvdata_complete: true,
            update_clock_registers_only: true,
            check_response_crc: false,
            response_expect: false,
            ..Self::spec_default(0, 0)
        }
    }

    /// The command table: the register encoding of each command the driver
    /// can issue, and `None` for the commands it cannot.
    pub open spec fn spec_from_cmd(cmd: Cmd) -> Option<CmdReg> {
        match cmd {
            Cmd::GoIdleState => Some(
                CmdReg { send_initialization: true, response_expect: false, ..Self::spec_default(0, 0) },
            ),
            Cmd::SendIfCond => Some(Self::spec_default(0, 8)),
            Cmd::AppCmd => Some(Self::spec_default(0, 55)),
            Cmd::SendRelativeAddr => Some(Self::spec_default(0, 3)),
            Cmd::SelectCard => Some(Self::spec_default(0, 7)),
            Cmd::SdSendOpCond => Some(
                CmdReg { check_response_crc: false, ..Self::spec_default(0, 41) },
            ),
            Cmd::SendCsd => Some(CmdReg { check_response_crc: false, ..Self::spec_default(0, 9) }),
            Cmd::AllSendCid => Some(
                CmdReg {
                    check_response_crc: false,
                    response_length: true,
                    ..Self::spec_default(0, 2)
                },
            ),
            Cmd::SendScr => Some(CmdReg { data_expected: true, ..Self::spec_default(0, 51) }),
            Cmd::ReadSingleBlock => Some(
                CmdReg { data_expected: true, ..Self::spec_default(0, 17) },
            ),
            Cmd::WriteSingleBlock => Some(
                CmdReg { data_expected: true, transfer_dir: true, ..Self::spec_default(0, 24) },
            ),
            _ => None,
        }
    }

    /// The command word that every card command starts from, for the card
    /// with index `card_number` and the opcode `cmd_number`.
    pub fn default(card_number: usize, cmd_number: u8) -> (r: CmdReg)
        requires
            card_number <= 0x1f,
            cmd_number <= 0x3f,
        ensures
            r == Self::spec_default(card_number as u8, cmd_number),
            r.wf(),
    {
        let card = five_bits(card_number as u8).unwrap();
        let index = six_bits(cmd_number).unwrap();
        CmdReg {
            start_cmd: true,
            reserved: false,
            use_hold_reg: true,
            volt_switch: false,
            boot_mode: false,
            disable_boot: false,
            expect_boot_ack: false,
            enable_boot: false,
            ccs_expected: false,
            read_ceata_device: false,
            update_clock_registers_only: false,
            card_number: card,
            send_initialization: false,
            stop_abort_cmd: false,
            wait_prvdata_complete: true,
            send_auto_stop: false,
            transfer_mode: false,
            transfer_dir: false,
            data_expected: false,
            check_response_crc: true,
            response_length: false,
            response_expect: true,
            cmd_index: index,
        }
    }

    /// The default command word of a command without a data phase.
    pub fn with_no_data(card_number: usize, cmd_number: u8) -> (r: CmdReg)
        requires
            card_number <= 0x1f,
            cmd_number <= 0x3f,
        ensures
            r == Self::spec_default(card_number as u8, cmd_number),
            r.wf(),
    {
        CmdReg::default(card_number, cmd_number)
    }

    /// The default command word of a command with a data phase; the
    /// direction is left at reading from the card.
    pub fn with_data(card_number: usize, cmd_number: u8) -> (r: CmdReg)
        requires
            card_number <= 0x1f,
            cmd_number <= 0x3f,
        ensures
            r == (CmdReg { data_expected: true, ..Self::spec_default(card_number as u8, cmd_number) }),
            r.wf(),
    {
        let mut cmd = CmdReg::default(card_number, cmd_number);
        cmd.data_expected = true;
        cmd
    }

    /// The command word of the pulse that commits the clock registers.
    pub fn update_clock() -> (r: CmdReg)
        ensures
            r == Self::spec_update_clock(),
            r.wf(),
    {
        let mut cmd = CmdReg::default(0, 0);
        cmd.use_hold_reg = false;
        cmd.update_clock_registers_only = true;
        cmd.check_response_crc = false;
        cmd.response_expect = false;
        cmd
    }

    /// Whether the command table has an encoding for `cmd`.
    pub fn is_encodable(cmd: Cmd) -> (r: bool)
        ensures
            r == Self::spec_from_cmd(cmd).is_some(),
    {
        match cmd {
            Cmd::GoIdleState
            | Cmd::SendIfCond
            | Cmd::AppCmd
            | Cmd::SendRelativeAddr
            | Cmd::SelectCard
            | Cmd::SdSendOpCond
            | Cmd::SendCsd
            | Cmd::AllSendCid
            | Cmd::SendScr
            | Cmd::ReadSingleBlock
            | Cmd::WriteSingleBlock => true,
            _ => false,
        }
    }

    /// The register encoding of a command. Only the commands of the command
    /// table can be encoded; asking for any other is a programming error.
    pub fn from_cmd(cmd: Cmd) -> (r: CmdReg)
        requires
            Self::spec_from_cmd(cmd).is_some(),
        ensures
            Self::spec_from_cmd(cmd) == Some(r),
            r.wf(),
            r.cmd_index == cmd.spec_opcode().unwrap(),
    {
        match cmd {
            Cmd::GoIdleState => {
                let mut cmd0 = CmdReg::with_no_data(0, cmd.opcode());
                cmd0.send_initialization = true;
                cmd0.response_expect = false;
                cmd0
            },
            Cmd::SendIfCond | Cmd::AppCmd | Cmd::SendRelativeAddr | Cmd::SelectCard => {
                CmdReg::with_no_data(0, cmd.opcode())
            },
            Cmd::SdSendOpCond => {
                let mut cmd41 = CmdReg::with_no_data(0, cmd.opcode());
                cmd41.check_response_crc = false;
                cmd41
            },
            Cmd::SendCsd => {
                let mut cmd9 = CmdReg::with_no_data(0, cmd.opcode());
                cmd9.check_response_crc = false;
                cmd9
            },
            Cmd::AllSendCid => {
                let mut cmd2 = CmdReg::with_no_data(0, cmd.opcode());
                cmd2.check_response_crc = false;
                cmd2.response_length = true;
                cmd2
            },
            Cmd::SendScr | Cmd::ReadSingleBlock => CmdReg::with_data(0, cmd.opcode()),
            Cmd::WriteSingleBlock => {
                let mut cmd24 = CmdReg::with_data(0, cmd.opcode());
                cmd24.transfer_dir = true;
                cmd24
            },
            _ => vstd::pervasive::unreached(),
        }
    }
}

impl RawInterrupt {
    /// Whether any flag is raised that makes a command fail: response
    /// timeout, response CRC error, response error, data CRC error, data
    /// read timeout, start-bit error or end-bit error.
    pub open spec fn spec_have_error(self) -> bool {
        self.rto || self.rcrc || self.response_err || self.dcrc || self.drto || self.sbe
            || self.ebe
    }

    pub fn have_error(&self) -> (r: bool)
        ensures
            r == self.spec_have_error(),
    {
        self.rto || self.rcrc || self.response_err || self.dcrc || self.drto || self.sbe
            || self.ebe
    }
}

impl ClockDividerReg {
    /// The factor by which a divider field of `n` divides the source clock.
    pub open spec fn spec_divisor(n: u8) -> nat {
        if n == 0 {
            1
        } else {
            2 * (n as nat)
        }
    }

    pub fn divisor(n: u8) -> (r: u16)
        ensures
            r == Self::spec_divisor(n),
    {
        if n == 0 {
            1
        } else {
            2 * (n as u16)
        }
    }
}

} // verus!
