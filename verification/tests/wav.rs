use wavbytes::{assemble, make_wav_bytes, parse_header, WavError, WavH};

fn le16_at(b: &[u8], off: usize) -> u32 {
    b[off] as u32 + 0x100 * b[off + 1] as u32
}

fn le32_at(b: &[u8], off: usize) -> u32 {
    b[off] as u32
        + 0x100 * b[off + 1] as u32
        + 0x10000 * b[off + 2] as u32
        + 0x1000000 * b[off + 3] as u32
}

#[test]
fn header_is_44_bytes_with_tags() {
    let h = WavH {
        audio_size_bytes: 0,
        audio_channels: 2,
        sample_rate: 8000,
        bytes_per_channel_sample: 2,
    };
    let b = h.to_bytestring();
    assert_eq!(b.len(), 44);
    assert_eq!(&b[0..4], b"RIFF");
    assert_eq!(&b[8..12], b"WAVE");
    assert_eq!(&b[12..16], b"fmt ");
    assert_eq!(&b[36..40], b"data");
    // fixed format fields: sub-chunk size 16, linear PCM tag 1
    assert_eq!(le32_at(&b, 16), 16);
    assert_eq!(le16_at(&b, 20), 1);
}

#[test]
fn header_round_trip_fields() {
    let h = WavH {
        audio_size_bytes: 123456,
        audio_channels: 2,
        sample_rate: 48000,
        bytes_per_channel_sample: 3,
    };
    let b = h.to_bytestring();
    assert_eq!(le32_at(&b, 4), 36 + 123456);
    assert_eq!(le16_at(&b, 22), 2);
    assert_eq!(le32_at(&b, 24), 48000);
    assert_eq!(le32_at(&b, 28), 48000 * 3 * 2);
    assert_eq!(le16_at(&b, 32), 3 * 2);
    assert_eq!(le16_at(&b, 34), 24);
    assert_eq!(le32_at(&b, 40), 123456);
}

#[test]
fn scenario_mono_44100_eight_byte_payload() {
    let h = WavH {
        audio_size_bytes: 8,
        audio_channels: 1,
        sample_rate: 44100,
        bytes_per_channel_sample: 2,
    };
    let payload: Vec<u8> = vec![0x00, 0x01, 0x02, 0x03, 0x04, 0x05, 0x06, 0x07];
    let out = make_wav_bytes(&h, payload.clone());
    assert_eq!(out.len(), 52);
    assert_eq!(&out[4..8], &[0x2c, 0x00, 0x00, 0x00]);
    assert_eq!(&out[40..44], &[0x08, 0x00, 0x00, 0x00]);
    assert_eq!(&out[44..52], payload.as_slice());
    // derived fields of this descriptor
    assert_eq!(le32_at(&out, 28), 88200);
    assert_eq!(&out[28..32], &[0x88, 0x58, 0x01, 0x00]);
    assert_eq!(le16_at(&out, 32), 2);
    assert_eq!(le16_at(&out, 34), 16);
}

#[test]
fn empty_payload_yields_header_only() {
    let h = WavH {
        audio_size_bytes: 0,
        audio_channels: 1,
        sample_rate: 44100,
        bytes_per_channel_sample: 2,
    };
    let out = make_wav_bytes::<i16>(&h, vec![]);
    assert_eq!(out.len(), 44);
    let checked = assemble::<i16>(&h, &vec![]).unwrap();
    assert_eq!(checked, out);
}

#[test]
fn file_length_is_header_plus_samples() {
    let h16 = WavH {
        audio_size_bytes: 10,
        audio_channels: 1,
        sample_rate: 22050,
        bytes_per_channel_sample: 2,
    };
    let out16 = make_wav_bytes::<i16>(&h16, vec![1, -1, 2, -2, 3]);
    assert_eq!(out16.len(), 44 + 5 * 2);
    let h32 = WavH {
        audio_size_bytes: 12,
        audio_channels: 3,
        sample_rate: 22050,
        bytes_per_channel_sample: 4,
    };
    let out32 = make_wav_bytes::<i32>(&h32, vec![7, -7, 7]);
    assert_eq!(out32.len(), 44 + 3 * 4);
}

#[test]
fn assemble_matches_unchecked_builder() {
    let h = WavH {
        audio_size_bytes: 6,
        audio_channels: 1,
        sample_rate: 8000,
        bytes_per_channel_sample: 2,
    };
    let samples: Vec<i16> = vec![100, -100, 0];
    let checked = assemble(&h, &samples).unwrap();
    let unchecked = make_wav_bytes(&h, samples);
    assert_eq!(checked, unchecked);
    assert_eq!(checked.len(), 44 + 6);
}

#[test]
fn parsing_recovers_the_descriptor() {
    let h = WavH {
        audio_size_bytes: 123456,
        audio_channels: 2,
        sample_rate: 48000,
        bytes_per_channel_sample: 3,
    };
    assert_eq!(parse_header(&h.to_bytestring()), Some(h));
    let full = make_wav_bytes::<u8>(
        &WavH {
            audio_size_bytes: 3,
            audio_channels: 1,
            sample_rate: 8000,
            bytes_per_channel_sample: 1,
        },
        vec![9, 8, 7],
    );
    assert_eq!(
        parse_header(&full),
        Some(WavH {
            audio_size_bytes: 3,
            audio_channels: 1,
            sample_rate: 8000,
            bytes_per_channel_sample: 1,
        })
    );
}

#[test]
fn parsing_rejects_foreign_buffers() {
    assert_eq!(parse_header(&vec![0u8; 43]), None);
    assert_eq!(parse_header(&vec![0u8; 44]), None);
    let h = WavH {
        audio_size_bytes: 0,
        audio_channels: 1,
        sample_rate: 8000,
        bytes_per_channel_sample: 2,
    };
    let mut wrong_tag = h.to_bytestring();
    wrong_tag[0] = b'X';
    assert_eq!(parse_header(&wrong_tag), None);
    let mut not_pcm = h.to_bytestring();
    not_pcm[20] = 2;
    assert_eq!(parse_header(&not_pcm), None);
}

#[test]
fn assemble_rejects_mismatched_payload_size() {
    let h = WavH {
        audio_size_bytes: 10,
        audio_channels: 1,
        sample_rate: 8000,
        bytes_per_channel_sample: 2,
    };
    let samples: Vec<i16> = vec![1, 2, 3, 4];
    assert_eq!(assemble(&h, &samples), Err(WavError::FormatMismatch));
}

#[test]
fn assemble_rejects_chunk_size_overflow() {
    let h = WavH {
        audio_size_bytes: u32::MAX,
        audio_channels: 1,
        sample_rate: 8000,
        bytes_per_channel_sample: 2,
    };
    let samples: Vec<i16> = vec![1];
    assert_eq!(assemble(&h, &samples), Err(WavError::FieldOverflow));
}

#[test]
fn assemble_rejects_byte_rate_overflow() {
    let h = WavH {
        audio_size_bytes: 2,
        audio_channels: 1,
        sample_rate: u32::MAX,
        bytes_per_channel_sample: 2,
    };
    let samples: Vec<i16> = vec![1];
    assert_eq!(assemble(&h, &samples), Err(WavError::FieldOverflow));
}
