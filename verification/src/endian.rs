//! Little-endian encoding of 16-bit and 32-bit unsigned values, with the
//! decoding functions that state what a reader of the byte stream recovers.

use vstd::arithmetic::div_mod::lemma_div_denominator;
use vstd::arithmetic::div_mod::lemma_fundamental_div_mod;
use vstd::prelude::*;

verus! {

/// The two little-endian bytes of a value in `0 .. 0x10000`.
pub open spec fn le16_seq(x: int) -> Seq<u8> {
    seq![(x % 0x100) as u8, ((x / 0x100) % 0x100) as u8]
}

/// The four little-endian bytes of a value in `0 .. 0x1_0000_0000`.
pub open spec fn le32_seq(x: int) -> Seq<u8> {
    seq![
        (x % 0x100) as u8,
        ((x / 0x100) % 0x100) as u8,
        ((x / 0x10000) % 0x100) as u8,
        ((x / 0x1000000) % 0x100) as u8,
    ]
}

/// The value a little-endian reader recovers from two bytes.
pub open spec fn le16_val(s: Seq<u8>) -> int {
    s[0] + 0x100 * s[1]
}

/// The value a little-endian reader recovers from four bytes.
pub open spec fn le32_val(s: Seq<u8>) -> int {
    s[0] + 0x100 * s[1] + 0x10000 * s[2] + 0x1000000 * s[3]
}

/// Decoding inverts encoding for every 16-bit value.
pub proof fn lemma_le16_roundtrip(x: int)
    requires
        0 <= x < 0x10000,
    ensures
        le16_seq(x).len() == 2,
        le16_val(le16_seq(x)) == x,
{
    lemma_fundamental_div_mod(x, 0x100);
    lemma_fundamental_div_mod(x / 0x100, 0x100);
}

/// Decoding inverts encoding for every 32-bit value.
pub proof fn lemma_le32_roundtrip(x: int)
    requires
        0 <= x < 0x1_0000_0000,
    ensures
        le32_seq(x).len() == 4,
        le32_val(le32_seq(x)) == x,
{
    lemma_fundamental_div_mod(x, 0x100);
    lemma_fundamental_div_mod(x / 0x100, 0x100);
    lemma_fundamental_div_mod(x / 0x10000, 0x100);
    lemma_fundamental_div_mod(x / 0x1000000, 0x100);
    lemma_div_denominator(x, 0x100, 0x100);
    lemma_div_denominator(x, 0x10000, 0x100);
}

/// Reads the little-endian 16-bit value at `off`.
pub fn read_u16_le(bytes: &Vec<u8>, off: usize) -> (r: u16)
    requires
        off + 2 <= bytes.len(),
    ensures
        r == le16_val(bytes@.subrange(off as int, off + 2)),
{
    let r: u16 = bytes[off] as u16 + 0x100 * (bytes[off + 1] as u16);
    proof {
        let sub = bytes@.subrange(off as int, off + 2);
        assert(sub[0] == bytes@[off as int] && sub[1] == bytes@[off as int + 1]);
    }
    r
}

/// Reads the little-endian 32-bit value at `off`.
pub fn read_u32_le(bytes: &Vec<u8>, off: usize) -> (r: u32)
    requires
        off + 4 <= bytes.len(),
    ensures
        r == le32_val(bytes@.subrange(off as int, off + 4)),
{
    let r: u32 = bytes[off] as u32 + 0x100 * (bytes[off + 1] as u32) + 0x10000 * (bytes[off
        + 2] as u32) + 0x1000000 * (bytes[off + 3] as u32);
    proof {
        let sub = bytes@.subrange(off as int, off + 4);
        assert(sub[0] == bytes@[off as int] && sub[1] == bytes@[off as int + 1] && sub[2]
            == bytes@[off as int + 2] && sub[3] == bytes@[off as int + 3]);
    }
    r
}

/// Appends the two little-endian bytes of `x`.
pub fn push_u16_le(out: &mut Vec<u8>, x: u16)
    ensures
        final(out)@ == old(out)@ + le16_seq(x as int),
{
    out.push((x % 0x100) as u8);
    out.push((x / 0x100) as u8);
    assert(out@ =~= old(out)@ + le16_seq(x as int));
}

/// Appends the four little-endian bytes of `x`.
pub fn push_u32_le(out: &mut Vec<u8>, x: u32)
    ensures
        final(out)@ == old(out)@ + le32_seq(x as int),
{
    out.push((x % 0x100) as u8);
    out.push(((x / 0x100) % 0x100) as u8);
    out.push(((x / 0x10000) % 0x100) as u8);
    out.push((x / 0x1000000) as u8);
    assert(out@ =~= old(out)@ + le32_seq(x as int));
}

} // verus!
