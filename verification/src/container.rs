//! Assembly of the complete container: the 44-byte header followed by the
//! raw little-endian sample payload.

use crate::header::lemma_header_fields;
use crate::header::WavH;
use crate::sample::array_to_bytes;
use crate::sample::payload_seq;
use crate::sample::PcmSample;
use vstd::prelude::*;

verus! {

/// Why a container could not be assembled.
#[derive(Clone, Copy, Debug, PartialEq, Eq, Structural)]
pub enum WavError {
    /// A derived header field would overflow its fixed-width slot.
    FieldOverflow,
    /// The declared payload size differs from the buffer's encoded length.
    FormatMismatch,
}

/// Concatenates the header bytes with the payload bytes of `audio`. The
/// declared `audio_size_bytes` is written into the header as given, whether
/// or not it matches the buffer; `assemble` is the variant that checks.
pub fn make_wav_bytes<T: PcmSample>(header: &WavH, audio: Vec<T>) -> (r: Vec<u8>)
    requires
        header.fits(),
    ensures
        r@ == header.header_seq() + payload_seq(audio@),
        r@.len() == 44 + audio@.len() * T::width(),
{
    let mut wav: Vec<u8> = header.to_bytestring();
    let mut payload: Vec<u8> = array_to_bytes(&audio);
    wav.append(&mut payload);
    wav
}

/// Decides whether every derived header field of `h` fits its slot.
pub fn descriptor_fits(h: &WavH) -> (r: bool)
    ensures
        r == h.fits(),
{
    let chunk_ok = h.audio_size_bytes <= u32::MAX - 36;
    proof {
        assert((h.sample_rate as int) * (h.bytes_per_channel_sample as int) <= 0xffff_ffff
            * 0xffff) by (nonlinear_arith)
            requires
                h.sample_rate <= 0xffff_ffff,
                h.bytes_per_channel_sample <= 0xffff,
        ;
    }
    let inter: u64 = (h.sample_rate as u64) * (h.bytes_per_channel_sample as u64);
    let inter_ok = inter <= u32::MAX as u64;
    proof {
        assert((inter as int) * (h.audio_channels as int) <= 0xffff_ffff * 0xffff * 0xffff)
            by (nonlinear_arith)
            requires
                inter <= 0xffff_ffff * 0xffff,
                h.audio_channels <= 0xffff,
        ;
    }
    let rate: u64 = inter * (h.audio_channels as u64);
    let rate_ok = rate <= u32::MAX as u64;
    proof {
        assert((h.bytes_per_channel_sample as int) * (h.audio_channels as int) <= 0xffff * 0xffff)
            by (nonlinear_arith)
            requires
                h.bytes_per_channel_sample <= 0xffff,
                h.audio_channels <= 0xffff,
        ;
    }
    let align: u32 = (h.bytes_per_channel_sample as u32) * (h.audio_channels as u32);
    let align_ok = align <= u16::MAX as u32;
    let bits_ok = h.bytes_per_channel_sample <= u16::MAX / 8;
    chunk_ok && inter_ok && rate_ok && align_ok && bits_ok
}

/// Assembles the complete container after checking the descriptor: the
/// result is `Ok` exactly when every derived header field fits and the
/// declared payload size equals the buffer's encoded length, and then holds
/// the header bytes followed by the payload bytes.
pub fn assemble<T: PcmSample>(header: &WavH, audio: &Vec<T>) -> (r: Result<Vec<u8>, WavError>)
    ensures
        r is Ok <==> header.fits() && header.audio_size_bytes == audio@.len() * T::width(),
        r matches Ok(bytes) ==> bytes@ == header.header_seq() + payload_seq(audio@),
        r matches Ok(bytes) ==> bytes@.len() == 44 + header.audio_size_bytes,
        !header.fits() ==> r == Err::<Vec<u8>, WavError>(WavError::FieldOverflow),
        header.fits() && header.audio_size_bytes != audio@.len() * T::width() ==> r == Err::<
            Vec<u8>,
            WavError,
        >(WavError::FormatMismatch),
{
    if !descriptor_fits(header) {
        return Err(WavError::FieldOverflow);
    }
    let mut payload: Vec<u8> = array_to_bytes(audio);
    if payload.len() != header.audio_size_bytes as usize {
        return Err(WavError::FormatMismatch);
    }
    let mut wav: Vec<u8> = header.to_bytestring();
    wav.append(&mut payload);
    proof {
        lemma_header_fields(*header);
    }
    Ok(wav)
}

} // verus!
