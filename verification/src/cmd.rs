//! The logical SD commands and their opcodes.
use vstd::prelude::*;

verus! {

/// A logical SD operation. `ResetClock` is the controller-only pulse that
/// commits the clock registers; it is never sent to the card and has no
/// opcode.
#[allow(clippy::enum_variant_names)]
#[derive(Debug, Copy, Clone, PartialEq, Eq, Structural)]
pub enum Cmd {
    GoIdleState,
    AllSendCid,
    SendRelativeAddr,
    SetDSR,
    SelectCard,
    SendIfCond,
    SendCsd,
    SendCid,
    StopTransmission,
    SendStatus,
    GoInactiveState,
    SetBlockLen,
    ReadSingleBlock,
    ReadMultipleBlock,
    WriteSingleBlock,
    WriteMultipleBlock,
    EraseWrBlkStart,
    EraseWrBlkEnd,
    Erase,
    AppCmd,
    GenCmd,
    SetBusWidth,
    SdStatus,
    SendNumWrBlocks,
    SetWrBlkEraseCnt,
    SdSendOpCond,
    SetClrCardDetect,
    SendScr,
    ResetClock,
}

impl Cmd {
    /// The opcode that goes into the command index field, for every command
    /// that has one.
    pub open spec fn spec_opcode(self) -> Option<u8> {
        match self {
            Cmd::GoIdleState => Some(0u8),
            Cmd::AllSendCid => Some(2u8),
            Cmd::SendRelativeAddr => Some(3u8),
            Cmd::SetDSR => Some(4u8),
            Cmd::SelectCard => Some(7u8),
            Cmd::SendIfCond => Some(8u8),
            Cmd::SendCsd => Some(9u8),
            Cmd::SendCid => Some(10u8),
            Cmd::StopTransmission => Some(12u8),
            Cmd::SendStatus => Some(13u8),
            Cmd::GoInactiveState => Some(15u8),
            Cmd::SetBlockLen => Some(16u8),
            Cmd::ReadSingleBlock => Some(17u8),
            Cmd::ReadMultipleBlock => Some(18u8),
            Cmd::WriteSingleBlock => Some(24u8),
            Cmd::WriteMultipleBlock => Some(25u8),
            Cmd::EraseWrBlkStart => Some(32u8),
            Cmd::EraseWrBlkEnd => Some(33u8),
            Cmd::Erase => Some(38u8),
            Cmd::AppCmd => Some(55u8),
            Cmd::GenCmd => Some(56u8),
            Cmd::SetBusWidth => Some(6u8),
            Cmd::SdStatus => Some(13u8),
            Cmd::SendNumWrBlocks => Some(22u8),
            Cmd::SetWrBlkEraseCnt => Some(23u8),
            Cmd::SdSendOpCond => Some(41u8),
            Cmd::SetClrCardDetect => Some(42u8),
            Cmd::SendScr => Some(51u8),
            Cmd::ResetClock => None,
        }
    }

    /// Whether the command has an opcode, that is, whether it is a card
    /// command at all.
    pub fn has_opcode(self) -> (r: bool)
        ensures
            r == self.spec_opcode().is_some(),
            r == (self != Cmd::ResetClock),
    {
        match self {
            Cmd::ResetClock => false,
            _ => true,
        }
    }

    /// The opcode of a card command.
    pub fn opcode(self) -> (r: u8)
        requires
            self != Cmd::ResetClock,
        ensures
            self.spec_opcode() == Some(r),
            r <= 56,
    {
        match self {
            Cmd::GoIdleState => 0,
            Cmd::AllSendCid => 2,
            Cmd::SendRelativeAddr => 3,
            Cmd::SetDSR => 4,
            Cmd::SelectCard => 7,
            Cmd::SendIfCond => 8,
            Cmd::SendCsd => 9,
            Cmd::SendCid => 10,
            Cmd::StopTransmission => 12,
            Cmd::SendStatus => 13,
            Cmd::GoInactiveState => 15,
            Cmd::SetBlockLen => 16,
            Cmd::ReadSingleBlock => 17,
            Cmd::ReadMultipleBlock => 18,
            Cmd::WriteSingleBlock => 24,
            Cmd::WriteMultipleBlock => 25,
            Cmd::EraseWrBlkStart => 32,
            Cmd::EraseWrBlkEnd => 33,
            Cmd::Erase => 38,
            Cmd::AppCmd => 55,
            Cmd::GenCmd => 56,
            Cmd::SetBusWidth => 6,
            Cmd::SdStatus => 13,
            Cmd::SendNumWrBlocks => 22,
            Cmd::SetWrBlkEraseCnt => 23,
            Cmd::SdSendOpCond => 41,
            Cmd::SetClrCardDetect => 42,
            Cmd::SendScr => 51,
            Cmd::ResetClock => vstd::pervasive::unreached(),
        }
    }
}

} // verus!
