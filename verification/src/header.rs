//! The format descriptor and the 44-byte RIFF/WAVE header built from it.

use crate::endian::le16_seq;
use crate::endian::le16_val;
use crate::endian::le32_seq;
use crate::endian::le32_val;
use crate::endian::lemma_le16_roundtrip;
use crate::endian::lemma_le32_roundtrip;
use crate::endian::push_u16_le;
use crate::endian::push_u32_le;
use crate::endian::read_u16_le;
use crate::endian::read_u32_le;
use vstd::prelude::*;

verus! {

/// A descriptor of one uncompressed linear PCM stream. The header is a pure
/// function of these four fields; every other header field is derived.
#[derive(Clone, Copy, Debug, PartialEq, Eq, Structural)]
pub struct WavH {
    /// Total size in bytes of the sample payload that follows the header.
    pub audio_size_bytes: u32,
    /// Number of interleaved channels.
    pub audio_channels: u16,
    /// Samples per second per channel.
    pub sample_rate: u32,
    /// Byte width of one sample of one channel.
    pub bytes_per_channel_sample: u16,
}

impl WavH {
    /// The chunk-size field: the file size minus the first eight bytes.
    pub open spec fn spec_chunk_size(self) -> int {
        36 + self.audio_size_bytes
    }

    /// Bytes of one frame: one sample instant across all channels.
    pub open spec fn spec_block_align(self) -> int {
        self.bytes_per_channel_sample * self.audio_channels
    }

    /// Bytes consumed per second of audio.
    pub open spec fn spec_byte_rate(self) -> int {
        self.sample_rate * self.bytes_per_channel_sample * self.audio_channels
    }

    /// Bit depth of one sample of one channel.
    pub open spec fn spec_bits_per_sample(self) -> int {
        8 * self.bytes_per_channel_sample
    }

    /// The derived header fields fit their fixed-width slots, including the
    /// intermediate product through which the byte rate is computed. Header
    /// construction demands this instead of wrapping: arithmetic that would
    /// overflow a field is rejected, never truncated silently.
    pub open spec fn fits(self) -> bool {
        &&& self.spec_chunk_size() <= u32::MAX
        &&& self.sample_rate * self.bytes_per_channel_sample <= u32::MAX
        &&& self.spec_byte_rate() <= u32::MAX
        &&& self.spec_block_align() <= u16::MAX
        &&& self.spec_bits_per_sample() <= u16::MAX
    }

    /// The 44 header bytes: the RIFF chunk, the format sub-chunk describing
    /// linear PCM, and the data sub-chunk header.
    pub open spec fn header_seq(self) -> Seq<u8> {
        seq![0x52u8, 0x49u8, 0x46u8, 0x46u8]  // "RIFF"
         + le32_seq(self.spec_chunk_size()) + seq![0x57u8, 0x41u8, 0x56u8, 0x45u8]  // "WAVE"
         + seq![0x66u8, 0x6du8, 0x74u8, 0x20u8]  // "fmt "
         + le32_seq(16)  // format sub-chunk size
         + le16_seq(1)  // audio format tag: linear PCM
         + le16_seq(self.audio_channels as int) + le32_seq(self.sample_rate as int) + le32_seq(
            self.spec_byte_rate(),
        ) + le16_seq(self.spec_block_align()) + le16_seq(self.spec_bits_per_sample())
            + seq![0x64u8, 0x61u8, 0x74u8, 0x61u8]  // "data"
         + le32_seq(self.audio_size_bytes as int)
    }

    /// Serializes the header. Produces exactly the 44 bytes of
    /// `header_seq`, so every field equality proved of that sequence holds
    /// of the returned buffer.
    pub fn to_bytestring(&self) -> (r: Vec<u8>)
        requires
            self.fits(),
        ensures
            r@ == self.header_seq(),
            r@.len() == 44,
    {
        let mut out: Vec<u8> = Vec::new();
        out.push(0x52);
        out.push(0x49);
        out.push(0x46);
        out.push(0x46);
        push_u32_le(&mut out, 36 + self.audio_size_bytes);
        out.push(0x57);
        out.push(0x41);
        out.push(0x56);
        out.push(0x45);
        out.push(0x66);
        out.push(0x6d);
        out.push(0x74);
        out.push(0x20);
        push_u32_le(&mut out, 16);
        push_u16_le(&mut out, 1);
        push_u16_le(&mut out, self.audio_channels);
        push_u32_le(&mut out, self.sample_rate);
        let byte_rate: u32 = self.sample_rate * (self.bytes_per_channel_sample as u32) * (
        self.audio_channels as u32);
        push_u32_le(&mut out, byte_rate);
        push_u16_le(&mut out, self.bytes_per_channel_sample * self.audio_channels);
        push_u16_le(&mut out, self.bytes_per_channel_sample * 8);
        out.push(0x64);
        out.push(0x61);
        out.push(0x74);
        out.push(0x61);
        push_u32_le(&mut out, self.audio_size_bytes);
        assert(out@ =~= self.header_seq());
        out
    }
}

/// Decides whether the four bytes at `off` are the given tag.
fn tag_at(bytes: &Vec<u8>, off: usize, t0: u8, t1: u8, t2: u8, t3: u8) -> (r: bool)
    requires
        off + 4 <= bytes.len(),
    ensures
        r == (bytes@.subrange(off as int, off + 4) == seq![t0, t1, t2, t3]),
{
    let r = bytes[off] == t0 && bytes[off + 1] == t1 && bytes[off + 2] == t2 && bytes[off + 3]
        == t3;
    proof {
        let sub = bytes@.subrange(off as int, off + 4);
        let t = seq![t0, t1, t2, t3];
        assert(sub[0] == bytes@[off as int] && sub[1] == bytes@[off as int + 1] && sub[2]
            == bytes@[off as int + 2] && sub[3] == bytes@[off as int + 3]);
        assert(t[0] == t0 && t[1] == t1 && t[2] == t2 && t[3] == t3);
        if r {
            assert(sub =~= t);
        }
    }
    r
}

/// What a standard PCM-container parser accepts and recovers: a buffer that
/// starts with the RIFF and WAVE tags, a 16-byte format sub-chunk declaring
/// linear PCM and a whole number of bytes per sample, and the data sub-chunk
/// tag, yields the descriptor its fields encode; anything else is rejected.
pub open spec fn spec_parse_header(s: Seq<u8>) -> Option<WavH> {
    if s.len() >= 44 && s.subrange(0, 4) == seq![0x52u8, 0x49u8, 0x46u8, 0x46u8] && s.subrange(
        8,
        12,
    ) == seq![0x57u8, 0x41u8, 0x56u8, 0x45u8] && s.subrange(12, 16) == seq![
        0x66u8,
        0x6du8,
        0x74u8,
        0x20u8,
    ] && le32_val(s.subrange(16, 20)) == 16 && le16_val(s.subrange(20, 22)) == 1 && s.subrange(
        36,
        40,
    ) == seq![0x64u8, 0x61u8, 0x74u8, 0x61u8] && le16_val(s.subrange(34, 36)) % 8 == 0 {
        Some(
            WavH {
                audio_size_bytes: le32_val(s.subrange(40, 44)) as u32,
                audio_channels: le16_val(s.subrange(22, 24)) as u16,
                sample_rate: le32_val(s.subrange(24, 28)) as u32,
                bytes_per_channel_sample: (le16_val(s.subrange(34, 36)) / 8) as u16,
            },
        )
    } else {
        None
    }
}

/// Parses a produced buffer back into its descriptor, as a standard
/// PCM-container parser would: exactly the buffers `spec_parse_header`
/// accepts are accepted, and the recovered descriptor is its value.
pub fn parse_header(bytes: &Vec<u8>) -> (r: Option<WavH>)
    ensures
        r == spec_parse_header(bytes@),
{
    if bytes.len() < 44 {
        return None;
    }
    if !tag_at(bytes, 0, 0x52, 0x49, 0x46, 0x46) {
        return None;
    }
    if !tag_at(bytes, 8, 0x57, 0x41, 0x56, 0x45) {
        return None;
    }
    if !tag_at(bytes, 12, 0x66, 0x6d, 0x74, 0x20) {
        return None;
    }
    if read_u32_le(bytes, 16) != 16 {
        return None;
    }
    if read_u16_le(bytes, 20) != 1 {
        return None;
    }
    if !tag_at(bytes, 36, 0x64, 0x61, 0x74, 0x61) {
        return None;
    }
    let bits: u16 = read_u16_le(bytes, 34);
    if bits % 8 != 0 {
        return None;
    }
    Some(
        WavH {
            audio_size_bytes: read_u32_le(bytes, 40),
            audio_channels: read_u16_le(bytes, 22),
            sample_rate: read_u32_le(bytes, 24),
            bytes_per_channel_sample: bits / 8,
        },
    )
}

/// Round trip: parsing a produced header recovers the exact descriptor that
/// built it.
pub proof fn lemma_parse_round_trip(h: WavH)
    requires
        h.fits(),
    ensures
        spec_parse_header(h.header_seq()) == Some(h),
{
    lemma_header_fields(h);
    assert((8 * h.bytes_per_channel_sample) % 8 == 0) by (nonlinear_arith);
    assert((8 * h.bytes_per_channel_sample) / 8 == h.bytes_per_channel_sample)
        by (nonlinear_arith);
}

/// What a little-endian reader of the header recovers, field by field: the
/// tags stand at their offsets, the four descriptor fields come back exactly
/// as supplied, and the derived fields carry the derived values.
pub proof fn lemma_header_fields(h: WavH)
    requires
        h.fits(),
    ensures
        h.header_seq().len() == 44,
        h.header_seq().subrange(0, 4) == seq![0x52u8, 0x49u8, 0x46u8, 0x46u8],  // "RIFF"
        le32_val(h.header_seq().subrange(4, 8)) == 36 + h.audio_size_bytes,
        h.header_seq().subrange(8, 12) == seq![0x57u8, 0x41u8, 0x56u8, 0x45u8],  // "WAVE"
        h.header_seq().subrange(12, 16) == seq![0x66u8, 0x6du8, 0x74u8, 0x20u8],  // "fmt "
        le32_val(h.header_seq().subrange(16, 20)) == 16,
        le16_val(h.header_seq().subrange(20, 22)) == 1,
        le16_val(h.header_seq().subrange(22, 24)) == h.audio_channels,
        le32_val(h.header_seq().subrange(24, 28)) == h.sample_rate,
        le32_val(h.header_seq().subrange(28, 32)) == h.sample_rate * h.spec_block_align(),
        le16_val(h.header_seq().subrange(32, 34)) == h.bytes_per_channel_sample
            * h.audio_channels,
        le16_val(h.header_seq().subrange(34, 36)) == 8 * h.bytes_per_channel_sample,
        h.header_seq().subrange(36, 40) == seq![0x64u8, 0x61u8, 0x74u8, 0x61u8],  // "data"
        le32_val(h.header_seq().subrange(40, 44)) == h.audio_size_bytes,
{
    let s = h.header_seq();
    assert(s.subrange(0, 4) =~= seq![0x52u8, 0x49u8, 0x46u8, 0x46u8]);
    assert(s.subrange(4, 8) =~= le32_seq(h.spec_chunk_size()));
    lemma_le32_roundtrip(h.spec_chunk_size());
    assert(s.subrange(8, 12) =~= seq![0x57u8, 0x41u8, 0x56u8, 0x45u8]);
    assert(s.subrange(12, 16) =~= seq![0x66u8, 0x6du8, 0x74u8, 0x20u8]);
    assert(s.subrange(16, 20) =~= le32_seq(16));
    lemma_le32_roundtrip(16);
    assert(s.subrange(20, 22) =~= le16_seq(1));
    lemma_le16_roundtrip(1);
    assert(s.subrange(22, 24) =~= le16_seq(h.audio_channels as int));
    lemma_le16_roundtrip(h.audio_channels as int);
    assert(s.subrange(24, 28) =~= le32_seq(h.sample_rate as int));
    lemma_le32_roundtrip(h.sample_rate as int);
    assert(s.subrange(28, 32) =~= le32_seq(h.spec_byte_rate()));
    assert(h.spec_byte_rate() >= 0) by (nonlinear_arith);
    lemma_le32_roundtrip(h.spec_byte_rate());
    assert(h.spec_byte_rate() == h.sample_rate * h.spec_block_align()) by (nonlinear_arith);
    assert(s.subrange(32, 34) =~= le16_seq(h.spec_block_align()));
    assert(h.spec_block_align() >= 0) by (nonlinear_arith);
    lemma_le16_roundtrip(h.spec_block_align());
    assert(s.subrange(34, 36) =~= le16_seq(h.spec_bits_per_sample()));
    lemma_le16_roundtrip(h.spec_bits_per_sample());
    assert(s.subrange(36, 40) =~= seq![0x64u8, 0x61u8, 0x74u8, 0x61u8]);
    assert(s.subrange(40, 44) =~= le32_seq(h.audio_size_bytes as int));
    lemma_le32_roundtrip(h.audio_size_bytes as int);
}

} // verus!
