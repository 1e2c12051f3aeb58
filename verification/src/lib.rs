//! A verified builder for minimal RIFF/WAVE containers of uncompressed
//! linear PCM audio: a 44-byte header followed by the raw little-endian
//! sample payload.

pub mod container;
pub mod endian;
pub mod header;
pub mod sample;

pub use container::assemble;
pub use container::descriptor_fits;
pub use container::make_wav_bytes;
pub use container::WavError;
pub use header::parse_header;
pub use header::WavH;
pub use sample::array_to_bytes;
pub use sample::PcmSample;
