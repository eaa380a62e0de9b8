//! Decoder of the 128-bit card identification record.
//!
//! The decoder is total: it reads the fields where they lie and validates
//! neither the reserved bits nor the checksum.
use crate::bits::get_bits_u128;
use crate::engine::Response;
use vstd::prelude::*;
use vstd::string::StringExecFns;

verus! {

/// `String::push` of the standard library: appends one character to the end
/// of the string.
pub assume_specification[ String::push ](s: &mut String, c: char)
    ensures
        final(s)@ == old(s)@.push(c),
;

/// The decimal digit `d` as a character.
pub open spec fn spec_digit(d: nat) -> char {
    (48 + d) as char
}

/// The decimal notation of `n`, without sign or leading zeros.
pub open spec fn spec_decimal(n: nat) -> Seq<char>
    decreases n,
{
    if n < 10 {
        seq![spec_digit(n)]
    } else {
        spec_decimal(n / 10).push(spec_digit(n % 10))
    }
}

/// Appends the decimal notation of `n` to `s`.
pub fn push_decimal(s: &mut String, n: u64)
    ensures
        final(s)@ == old(s)@ + spec_decimal(n as nat),
    decreases n,
{
    if n >= 10 {
        push_decimal(s, n / 10);
    }
    let d: u8 = (n % 10) as u8;
    s.push((48 + d) as char);
    assert(s@ =~= old(s)@ + spec_decimal(n as nat));
}

/// Appends the character whose code is `b` to `s`.
fn push_byte(s: &mut String, b: u8)
    ensures
        final(s)@ == old(s)@.push(b as char),
{
    s.push(b as char);
}

/// The facts about shifts and masks of a 128-bit word that the field
/// accessors rest on.
proof fn lemma_cid_fields(v: u128)
    by (bit_vector)
    ensures
        ((v << 0usize) >> 0usize) >> 120usize == (v >> 120) & 0xff,
        ((v << 8usize) >> 8usize) >> 112usize == (v >> 112) & 0xff,
        ((v << 16usize) >> 16usize) >> 104usize == (v >> 104) & 0xff,
        ((v << 24usize) >> 24usize) >> 96usize == (v >> 96) & 0xff,
        ((v << 32usize) >> 32usize) >> 88usize == (v >> 88) & 0xff,
        ((v << 40usize) >> 40usize) >> 80usize == (v >> 80) & 0xff,
        ((v << 48usize) >> 48usize) >> 72usize == (v >> 72) & 0xff,
        ((v << 56usize) >> 56usize) >> 64usize == (v >> 64) & 0xff,
        ((v << 64usize) >> 64usize) >> 60usize == (v >> 60) & 0xf,
        ((v << 68usize) >> 68usize) >> 56usize == (v >> 56) & 0xf,
        ((v << 72usize) >> 72usize) >> 24usize == (v >> 24) & 0xffff_ffff,
        ((v << 108usize) >> 108usize) >> 12usize == (v >> 12) & 0xff,
        ((v << 116usize) >> 116usize) >> 8usize == (v >> 8) & 0xf,
        (v >> 120) & 0xff <= 0xff,
        (v >> 112) & 0xff <= 0xff,
        (v >> 104) & 0xff <= 0xff,
        (v >> 96) & 0xff <= 0xff,
        (v >> 88) & 0xff <= 0xff,
        (v >> 80) & 0xff <= 0xff,
        (v >> 72) & 0xff <= 0xff,
        (v >> 64) & 0xff <= 0xff,
        (v >> 60) & 0xf <= 0xf,
        (v >> 56) & 0xf <= 0xf,
        (v >> 24) & 0xffff_ffff <= 0xffff_ffff,
        (v >> 12) & 0xff <= 0xff,
        (v >> 8) & 0xf <= 0xf,
{
}

/// A card identification record.
#[derive(Debug, Copy, Clone)]
pub struct Cid(u128);

impl Cid {
    /// The 128 bits of the record.
    pub closed spec fn view(&self) -> u128 {
        self.0
    }

    /// The byte of the record whose lowest bit is bit `lo`.
    pub open spec fn spec_byte(self, lo: u128) -> u8 {
        ((self@ >> lo) & 0xff) as u8
    }

    /// Manufacturer id: bits 127..120.
    pub open spec fn spec_mid(self) -> u8 {
        self.spec_byte(120)
    }

    /// OEM id: bits 119..104 as two characters, the upper byte first.
    pub open spec fn spec_oid(self) -> Seq<char> {
        seq![self.spec_byte(112) as char, self.spec_byte(104) as char]
    }

    /// Product name: bits 103..64 as five characters, the uppermost byte
    /// first.
    pub open spec fn spec_pnm(self) -> Seq<char> {
        seq![
            self.spec_byte(96) as char,
            self.spec_byte(88) as char,
            self.spec_byte(80) as char,
            self.spec_byte(72) as char,
            self.spec_byte(64) as char,
        ]
    }

    /// Major revision: bits 63..60.
    pub open spec fn spec_prv_major(self) -> u8 {
        ((self@ >> 60) & 0xf) as u8
    }

    /// Minor revision: bits 59..56.
    pub open spec fn spec_prv_minor(self) -> u8 {
        ((self@ >> 56) & 0xf) as u8
    }

    /// Revision as text: major, a dot, minor.
    pub open spec fn spec_prv(self) -> Seq<char> {
        spec_decimal(self.spec_prv_major() as nat) + seq!['.'] + spec_decimal(
            self.spec_prv_minor() as nat,
        )
    }

    /// Serial number: bits 55..24.
    pub open spec fn spec_psn(self) -> u32 {
        ((self@ >> 24) & 0xffff_ffff) as u32
    }

    /// Year of manufacture: bits 19..12, counted from 2000.
    pub open spec fn spec_year(self) -> nat {
        2000 + (((self@ >> 12) & 0xff) as nat)
    }

    /// Month of manufacture: bits 11..8.
    pub open spec fn spec_month(self) -> nat {
        ((self@ >> 8) & 0xf) as nat
    }

    /// Date of manufacture as text: year, a hyphen, month.
    pub open spec fn spec_mdt(self) -> Seq<char> {
        spec_decimal(self.spec_year()) + seq!['-'] + spec_decimal(self.spec_month())
    }

    /// The whole record as one line of text.
    pub open spec fn spec_fmt(self) -> Seq<char> {
        "mid:"@ + spec_decimal(self.spec_mid() as nat) + " oid:"@ + self.spec_oid() + " pnm:"@
            + self.spec_pnm() + " prv:"@ + self.spec_prv() + " psn:"@ + spec_decimal(
            self.spec_psn() as nat,
        ) + " mdt:"@ + self.spec_mdt()
    }

    /// The record made of the four response words of the identification
    /// command. The word from the highest response register is the most
    /// significant one.
    pub open spec fn spec_from_response(resp: Response) -> u128 {
        ((resp.word3 as u128) << 96) | ((resp.word2 as u128) << 64) | ((resp.word1 as u128) << 32)
            | (resp.word0 as u128)
    }

    pub fn new(value: u128) -> (r: Cid)
        ensures
            r@ == value,
    {
        Cid(value)
    }

    /// Joins the four response words of the identification command.
    pub fn from_response(resp: Response) -> (r: Cid)
        ensures
            r@ == Self::spec_from_response(resp),
    {
        Cid(
            ((resp.word3 as u128) << 96) | ((resp.word2 as u128) << 64) | ((resp.word1 as u128)
                << 32) | (resp.word0 as u128),
        )
    }

    /// The raw 128 bits.
    pub fn raw(&self) -> (r: u128)
        ensures
            r == self@,
    {
        self.0
    }

    fn byte(&self, lo: usize) -> (r: u8)
        requires
            lo == 120 || lo == 112 || lo == 104 || lo == 96 || lo == 88 || lo == 80 || lo == 72
                || lo == 64,
        ensures
            r == self.spec_byte(lo as u128),
    {
        proof {
            lemma_cid_fields(self.0);
        }
        get_bits_u128(self.0, lo, lo + 7) as u8
    }

    /// Manufacturer id.
    pub fn mid(&self) -> (r: u8)
        ensures
            r == self.spec_mid(),
    {
        self.byte(120)
    }

    /// OEM id, two characters.
    pub fn oid(&self) -> (r: String)
        ensures
            r@ == self.spec_oid(),
    {
        let mut s = String::new();
        push_byte(&mut s, self.byte(112));
        push_byte(&mut s, self.byte(104));
        assert(s@ =~= self.spec_oid());
        s
    }

    /// Product name, five characters.
    pub fn pnm(&self) -> (r: String)
        ensures
            r@ == self.spec_pnm(),
    {
        let mut s = String::new();
        push_byte(&mut s, self.byte(96));
        push_byte(&mut s, self.byte(88));
        push_byte(&mut s, self.byte(80));
        push_byte(&mut s, self.byte(72));
        push_byte(&mut s, self.byte(64));
        assert(s@ =~= self.spec_pnm());
        s
    }

    /// Revision, as "major.minor".
    pub fn prv(&self) -> (r: String)
        ensures
            r@ == self.spec_prv(),
    {
        proof {
            lemma_cid_fields(self.0);
        }
        let major = get_bits_u128(self.0, 60, 63) as u8;
        let minor = get_bits_u128(self.0, 56, 59) as u8;
        let mut s = String::new();
        push_decimal(&mut s, major as u64);
        s.push('.');
        push_decimal(&mut s, minor as u64);
        assert(s@ =~= self.spec_prv());
        s
    }

    /// Serial number.
    pub fn psn(&self) -> (r: u32)
        ensures
            r == self.spec_psn(),
    {
        proof {
            lemma_cid_fields(self.0);
        }
        get_bits_u128(self.0, 24, 55) as u32
    }

    /// Date of manufacture, as "year-month" with the month not padded.
    pub fn mdt(&self) -> (r: String)
        ensures
            r@ == self.spec_mdt(),
    {
        proof {
            lemma_cid_fields(self.0);
        }
        let year = get_bits_u128(self.0, 12, 19) as u8;
        let month = get_bits_u128(self.0, 8, 11) as u8;
        let mut s = String::new();
        push_decimal(&mut s, year as u64 + 2000);
        s.push('-');
        push_decimal(&mut s, month as u64);
        assert(s@ =~= self.spec_mdt());
        s
    }

    /// The whole record as one line of text:
    /// `mid:.. oid:.. pnm:.. prv:.. psn:.. mdt:..`.
    pub fn fmt(&self) -> (r: String)
        ensures
            r@ == self.spec_fmt(),
    {
        let mut s = String::from_str("mid:");
        push_decimal(&mut s, self.mid() as u64);
        s.append(" oid:");
        s.append(self.oid().as_str());
        s.append(" pnm:");
        s.append(self.pnm().as_str());
        s.append(" prv:");
        s.append(self.prv().as_str());
        s.append(" psn:");
        push_decimal(&mut s, self.psn() as u64);
        s.append(" mdt:");
        s.append(self.mdt().as_str());
        assert(s@ =~= self.spec_fmt());
        s
    }
}

/// The decoder is a function of the bits alone: two records with the same
/// 128 bits decode to the same manufacturer id, OEM id, product name,
/// revision, serial number and date of manufacture, and to the same line of
/// text.
pub proof fn lemma_decode_is_determined_by_bits(a: Cid, b: Cid)
    requires
        a@ == b@,
    ensures
        a.spec_mid() == b.spec_mid(),
        a.spec_oid() == b.spec_oid(),
        a.spec_pnm() == b.spec_pnm(),
        a.spec_prv() == b.spec_prv(),
        a.spec_psn() == b.spec_psn(),
        a.spec_mdt() == b.spec_mdt(),
        a.spec_fmt() == b.spec_fmt(),
{
}

} // verus!
