//! Bit-level helpers shared by the register layouts.
use bit_field::BitField;
use vstd::prelude::*;

verus! {

/// The bit of `raw` at position `n`, counted from the least significant bit.
pub open spec fn spec_bit(raw: u32, n: u32) -> bool {
    (raw >> n) & 1 == 1
}

/// The field of `raw` that starts at bit `lo` and is selected by `mask`
/// (the mask is given right-aligned).
pub open spec fn spec_field(raw: u32, lo: u32, mask: u32) -> u32 {
    (raw >> lo) & mask
}

/// The bit of a 16-bit word at position `n`.
pub open spec fn spec_bit16(raw: u16, n: u16) -> bool {
    (raw >> n) & 1 == 1
}

/// A single flag of a 16-bit word: `mask` when set, nothing otherwise.
pub open spec fn spec_flag16(set: bool, mask: u16) -> u16 {
    if set {
        mask
    } else {
        0u16
    }
}

/// A single flag: `mask` when set, nothing otherwise.
pub open spec fn spec_flag(set: bool, mask: u32) -> u32 {
    if set {
        mask
    } else {
        0u32
    }
}

/// A field value moved to its position.
pub open spec fn spec_place(value: u32, lo: u32) -> u32 {
    value << lo
}

/// Reads the bit of `raw` at position `n`.
pub fn bit(raw: u32, n: u32) -> (r: bool)
    requires
        n < 32,
    ensures
        r == spec_bit(raw, n),
{
    (raw >> n) & 1 == 1
}

/// Reads the bit of a 16-bit word at position `n`.
pub fn bit16(raw: u16, n: u16) -> (r: bool)
    requires
        n < 16,
    ensures
        r == spec_bit16(raw, n),
{
    (raw >> n) & 1 == 1
}

/// The flag `mask` of a 16-bit word, if `set`.
pub fn flag16(set: bool, mask: u16) -> (r: u16)
    ensures
        r == spec_flag16(set, mask),
{
    if set {
        mask
    } else {
        0u16
    }
}

/// Reads the field of `raw` that starts at bit `lo` and is as wide as the
/// right-aligned `mask`.
pub fn field(raw: u32, lo: u32, mask: u32) -> (r: u32)
    requires
        lo < 32,
    ensures
        r == spec_field(raw, lo, mask),
        r <= mask,
{
    assert((raw >> lo) & mask <= mask) by (bit_vector);
    (raw >> lo) & mask
}

/// The flag `mask`, if `set`.
pub fn flag(set: bool, mask: u32) -> (r: u32)
    ensures
        r == spec_flag(set, mask),
{
    if set {
        mask
    } else {
        0u32
    }
}

/// Moves a field value to the position that starts at bit `lo`.
pub fn place(value: u32, lo: u32) -> (r: u32)
    requires
        lo < 32,
    ensures
        r == spec_place(value, lo),
{
    value << lo
}

/// Whether the bit of `value` at index `bit` is set, tested with a one-bit
/// mask.
pub open spec fn spec_get_bit(value: u32, bit: usize) -> bool {
    (value & (1u32 << bit)) != 0
}

/// `bit_field::BitField::get_bit` on a `u32`: whether the bit at index `bit`
/// is set, index 0 being the least significant bit. The outside function
/// masks the value with a one shifted left by `bit` and compares with zero;
/// it panics on an index of 32 or more, which the precondition rules out.
#[verifier::external_body]
pub(crate) fn get_bit_u32(value: u32, bit: usize) -> (r: bool)
    requires
        bit < 32,
    ensures
        r == spec_get_bit(value, bit),
{
    value.get_bit(bit)
}

/// `bit_field::BitField::get_bits` on a `u128` with the inclusive range
/// `lo..=hi`: the outside function shifts the bits above `hi` out to the
/// left, shifts back, and then shifts the bits below `lo` out to the right.
/// It panics when the range leaves the 128 bits or is reversed.
#[verifier::external_body]
pub(crate) fn get_bits_u128(value: u128, lo: usize, hi: usize) -> (r: u128)
    requires
        lo <= hi < 128,
    ensures
        r == ((value << ((127 - hi) as usize)) >> ((127 - hi) as usize)) >> lo,
{
    value.get_bits(lo..=hi)
}

/// An extracted field never exceeds its mask.
pub proof fn lemma_field_bound(raw: u32, lo: u32, mask: u32)
    by (bit_vector)
    ensures
        spec_field(raw, lo, mask) <= mask,
{
}

} // verus!
