//! Sample types that a payload may hold, and the explicit per-element
//! little-endian encoding of a whole sample buffer.

use crate::endian::le16_seq;
use crate::endian::le32_seq;
use crate::endian::push_u16_le;
use crate::endian::push_u32_le;
use vstd::prelude::*;

verus! {

/// The unsigned value with the same two's-complement bits as `x`.
pub open spec fn i8_bits(x: i8) -> u8 {
    if x >= 0 {
        x as u8
    } else {
        (x + 0x100) as u8
    }
}

/// The unsigned value with the same two's-complement bits as `x`.
pub open spec fn i16_bits(x: i16) -> u16 {
    if x >= 0 {
        x as u16
    } else {
        (x + 0x10000) as u16
    }
}

/// The unsigned value with the same two's-complement bits as `x`.
pub open spec fn i32_bits(x: i32) -> u32 {
    if x >= 0 {
        x as u32
    } else {
        (x + 0x1_0000_0000) as u32
    }
}

/// A fixed-width numeric audio sample whose byte encoding is little-endian.
pub trait PcmSample: Copy {
    /// The byte width of every sample of this type.
    spec fn width() -> nat;

    /// The little-endian bytes of this sample.
    spec fn le_spec(self) -> Seq<u8>;

    /// Every sample encodes to exactly `width` bytes.
    proof fn lemma_le_len(self)
        ensures
            self.le_spec().len() == Self::width(),
    ;

    /// Appends the little-endian bytes of this sample.
    fn push_le(self, out: &mut Vec<u8>)
        ensures
            final(out)@ == old(out)@ + self.le_spec(),
    ;
}

impl PcmSample for u8 {
    open spec fn width() -> nat {
        1
    }

    open spec fn le_spec(self) -> Seq<u8> {
        seq![self]
    }

    proof fn lemma_le_len(self) {
    }

    fn push_le(self, out: &mut Vec<u8>) {
        out.push(self);
        assert(out@ =~= old(out)@ + self.le_spec());
    }
}

impl PcmSample for i8 {
    open spec fn width() -> nat {
        1
    }

    open spec fn le_spec(self) -> Seq<u8> {
        seq![i8_bits(self)]
    }

    proof fn lemma_le_len(self) {
    }

    fn push_le(self, out: &mut Vec<u8>) {
        let b: u8 = if self >= 0 {
            self as u8
        } else {
            ((self as i16) + 0x100) as u8
        };
        out.push(b);
        assert(out@ =~= old(out)@ + self.le_spec());
    }
}

impl PcmSample for u16 {
    open spec fn width() -> nat {
        2
    }

    open spec fn le_spec(self) -> Seq<u8> {
        le16_seq(self as int)
    }

    proof fn lemma_le_len(self) {
    }

    fn push_le(self, out: &mut Vec<u8>) {
        push_u16_le(out, self);
    }
}

impl PcmSample for i16 {
    open spec fn width() -> nat {
        2
    }

    open spec fn le_spec(self) -> Seq<u8> {
        le16_seq(i16_bits(self) as int)
    }

    proof fn lemma_le_len(self) {
    }

    fn push_le(self, out: &mut Vec<u8>) {
        let b: u16 = if self >= 0 {
            self as u16
        } else {
            ((self as i32) + 0x10000) as u16
        };
        push_u16_le(out, b);
    }
}

impl PcmSample for u32 {
    open spec fn width() -> nat {
        4
    }

    open spec fn le_spec(self) -> Seq<u8> {
        le32_seq(self as int)
    }

    proof fn lemma_le_len(self) {
    }

    fn push_le(self, out: &mut Vec<u8>) {
        push_u32_le(out, self);
    }
}

impl PcmSample for i32 {
    open spec fn width() -> nat {
        4
    }

    open spec fn le_spec(self) -> Seq<u8> {
        le32_seq(i32_bits(self) as int)
    }

    proof fn lemma_le_len(self) {
    }

    fn push_le(self, out: &mut Vec<u8>) {
        let b: u32 = if self >= 0 {
            self as u32
        } else {
            ((self as i64) + 0x1_0000_0000) as u32
        };
        push_u32_le(out, b);
    }
}

/// The payload bytes of a sample buffer: each sample's little-endian bytes,
/// in buffer order.
pub open spec fn payload_seq<T: PcmSample>(s: Seq<T>) -> Seq<u8>
    decreases s.len(),
{
    if s.len() == 0 {
        Seq::<u8>::empty()
    } else {
        payload_seq(s.drop_last()) + s.last().le_spec()
    }
}

/// A buffer of N samples encodes to exactly N times the sample width.
pub proof fn lemma_payload_seq_len<T: PcmSample>(s: Seq<T>)
    ensures
        payload_seq(s).len() == s.len() * T::width(),
    decreases s.len(),
{
    if s.len() == 0 {
        assert(s.len() * T::width() == 0);
    } else {
        lemma_payload_seq_len(s.drop_last());
        s.last().lemma_le_len();
        assert((s.len() - 1) * T::width() + T::width() == s.len() * T::width())
            by (nonlinear_arith);
    }
}

/// Encodes a sample buffer as raw little-endian payload bytes, element by
/// element, preserving order.
pub fn array_to_bytes<T: PcmSample>(arr: &Vec<T>) -> (r: Vec<u8>)
    ensures
        r@ == payload_seq(arr@),
        r@.len() == arr@.len() * T::width(),
{
    let mut out: Vec<u8> = Vec::new();
    let mut i: usize = 0;
    while i < arr.len()
        invariant
            i <= arr.len(),
            out@ == payload_seq(arr@.subrange(0, i as int)),
        decreases arr.len() - i,
    {
        let x: T = arr[i];
        x.push_le(&mut out);
        proof {
            let pre = arr@.subrange(0, i as int);
            let post = arr@.subrange(0, i + 1);
            assert(post.drop_last() =~= pre);
            assert(post.last() == arr@[i as int]);
        }
        i = i + 1;
    }
    proof {
        assert(arr@.subrange(0, arr@.len() as int) =~= arr@);
        lemma_payload_seq_len(arr@);
    }
    out
}

} // verus!
