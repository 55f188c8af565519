use resonator::common::audiobuffer::AudioBuffer as RelayAudioBuffer;
use resonator::server::metadata::Metadata as RelayMetadata;

use terrasound::audiobuffer::AudioBuffer;
use terrasound::audiosource::AudioSourceError;
use terrasound::localaudiosource::LocalAudioSource;
use terrasound::metadata::Metadata;
use terrasound::TerrasoundSource;

fn full_frame(fill: impl Fn(usize) -> f32, sample_rate: i32) -> AudioBuffer {
    let samples: Vec<u32> = (0..2048).map(|i| fill(i).to_bits()).collect();
    AudioBuffer { samples, metadata: Metadata { sample_rate, buffer_size: 2048 } }
}

#[test]
fn to_resonator_carries_every_sample() {
    let f = full_frame(|i| (i as f32) * 0.125 - 64.0, 44100);
    let relay = f.to_resonator();
    assert_eq!(relay.samples.len(), 2048);
    for (i, s) in relay.samples.iter().enumerate() {
        assert_eq!(s.to_bits(), f.samples[i], "sample {} changed", i);
    }
    assert_eq!(relay.metadata.sample_rate, 44100);
    assert_eq!(relay.metadata.buffer_size, 2048);
}

#[test]
fn relay_round_trip_returns_the_frame() {
    let f = full_frame(|i| if i % 2 == 0 { 1.0 } else { -1.0 }, 22050);
    let back = AudioBuffer::from_resonator(f.to_resonator());
    assert_eq!(back.samples, f.samples);
    assert_eq!(back.metadata, f.metadata);
}

#[test]
fn from_resonator_reads_exact_bit_patterns() {
    let relay = RelayAudioBuffer {
        samples: vec![0.0, 1.0, -2.5, 3.25],
        metadata: RelayMetadata { sample_rate: 48000, buffer_size: 4 },
    };
    let f = AudioBuffer::from_resonator(relay);
    assert_eq!(
        f.samples,
        vec![0.0f32.to_bits(), 1.0f32.to_bits(), (-2.5f32).to_bits(), 3.25f32.to_bits()]
    );
    assert_eq!(f.metadata.sample_rate, 48000);
    assert_eq!(f.metadata.buffer_size, 4);
}

#[test]
fn local_source_hands_out_relay_buffers_in_order() {
    let meta = RelayMetadata { sample_rate: 22050, buffer_size: 2 };
    let first = RelayAudioBuffer { samples: vec![0.5, 0.5], metadata: meta.clone() };
    let second = RelayAudioBuffer { samples: vec![-0.5, -0.5], metadata: meta.clone() };
    let mut src = LocalAudioSource::new(vec![first, second]);
    assert_eq!(src.num_buffers(), 2);

    let f1 = src.get_next().unwrap();
    assert_eq!(f1.samples, vec![0.5f32.to_bits(); 2]);
    assert_eq!(f1.metadata.sample_rate, 22050);
    assert_eq!(src.num_buffers(), 1);

    let f2 = src.get_next().unwrap();
    assert_eq!(f2.samples, vec![(-0.5f32).to_bits(); 2]);
    assert_eq!(src.num_buffers(), 0);

    assert_eq!(src.get_next().unwrap_err(), AudioSourceError::NoMoreAudio);
}

#[test]
fn local_source_accepts_buffers_pushed_later() {
    let mut src = LocalAudioSource::new(Vec::new());
    assert!(src.get_next().is_err());
    src.buffers.push(RelayAudioBuffer {
        samples: vec![2.0],
        metadata: RelayMetadata { sample_rate: 8000, buffer_size: 1 },
    });
    let f = src.get_next().unwrap();
    assert_eq!(f.samples, vec![2.0f32.to_bits()]);
}
