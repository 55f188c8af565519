use terrasound::audiobuffer::AudioBuffer;
use terrasound::codec::{decode, encode, DecodeError};
use terrasound::metadata::Metadata;

fn frame(samples: Vec<u32>, sample_rate: i32) -> AudioBuffer {
    let len = samples.len() as i32;
    AudioBuffer { samples, metadata: Metadata { sample_rate, buffer_size: len } }
}

#[test]
fn round_trip_simple_frame() {
    let f = frame(vec![0.0f32.to_bits(), 1.0f32.to_bits(), (-0.5f32).to_bits()], 44100);
    let bytes = encode(&f);
    assert_eq!(bytes.len(), 8 + 4 * 3);
    let back = decode(&bytes).expect("a full record decodes");
    assert_eq!(back.samples, f.samples);
    assert_eq!(back.metadata, f.metadata);
}

#[test]
fn round_trip_empty_frame() {
    let f = frame(vec![], 22050);
    let bytes = encode(&f);
    assert_eq!(bytes.len(), 8);
    let back = decode(&bytes).expect("an empty frame still decodes");
    assert_eq!(back.samples, Vec::<u32>::new());
    assert_eq!(back.metadata.sample_rate, 22050);
    assert_eq!(back.metadata.buffer_size, 0);
}

#[test]
fn round_trip_negative_sample_rate() {
    let f = frame(vec![0x3f800000], -1);
    let back = decode(&encode(&f)).expect("the rate field is carried as is");
    assert_eq!(back.metadata.sample_rate, -1);
}

#[test]
fn encode_layout_is_little_endian() {
    let f = frame(vec![0x44434241], 22050);
    let bytes = encode(&f);
    // declared size 1, then rate 22050 = 0x5622, then the sample bytes.
    assert_eq!(&bytes[0..4], &[1, 0, 0, 0]);
    assert_eq!(&bytes[4..8], &[0x22, 0x56, 0, 0]);
    assert_eq!(&bytes[8..12], &[0x41, 0x42, 0x43, 0x44]);
}

#[test]
fn decode_reads_exact_sample_values() {
    let mut bytes = vec![2, 0, 0, 0, 0x44, 0xac, 0, 0];
    bytes.extend_from_slice(&0.25f32.to_le_bytes());
    bytes.extend_from_slice(&(-2.0f32).to_le_bytes());
    let back = decode(&bytes).expect("two declared, two present");
    assert_eq!(back.metadata.buffer_size, 2);
    assert_eq!(back.metadata.sample_rate, 44100);
    assert_eq!(back.samples, vec![0.25f32.to_bits(), (-2.0f32).to_bits()]);
}

#[test]
fn decode_ignores_bytes_beyond_declared_size() {
    // One declared sample, but room for three: the padding is ignored.
    let mut bytes = vec![1, 0, 0, 0, 0x22, 0x56, 0, 0];
    bytes.extend_from_slice(&1.5f32.to_le_bytes());
    bytes.extend_from_slice(&[0xAA; 8]);
    let back = decode(&bytes).expect("one declared, one present");
    assert_eq!(back.samples, vec![1.5f32.to_bits()]);
    assert_eq!(back.metadata.buffer_size, 1);
}

#[test]
fn truncated_header_is_rejected() {
    let bytes = vec![1, 0, 0];
    assert!(matches!(decode(&bytes), Err(DecodeError::Truncated)));
}

#[test]
fn truncated_sample_region_is_rejected() {
    // Declares 4 samples but carries bytes for fewer.
    let mut bytes = vec![4, 0, 0, 0, 0x22, 0x56, 0, 0];
    bytes.extend_from_slice(&0.0f32.to_le_bytes());
    bytes.extend_from_slice(&0.0f32.to_le_bytes());
    assert!(matches!(decode(&bytes), Err(DecodeError::Truncated)));
}

#[test]
fn negative_declared_size_is_rejected() {
    let bytes = vec![0xff, 0xff, 0xff, 0xff, 0x22, 0x56, 0, 0];
    assert!(matches!(decode(&bytes), Err(DecodeError::Truncated)));
}

#[test]
fn metadata_default_is_zeroed() {
    let m = Metadata::default();
    assert_eq!(m.sample_rate, 0);
    assert_eq!(m.buffer_size, 0);
}

#[test]
fn frame_clone_keeps_content() {
    let f = frame(vec![7, 8, 9], 8000);
    let c = f.clone();
    assert_eq!(c.samples, f.samples);
    assert_eq!(c.metadata, f.metadata);
}
