use vstd::prelude::*;

use resonator::common::audiobuffer::AudioBuffer as RelayAudioBuffer;

use crate::config::{AUDIO_BUFFER_SIZE, BUFFER_SIZE};
use crate::metadata::Metadata;

verus! {

/// Mathematical content of one frame: the samples as their IEEE-754 bit
/// patterns, plus the two header fields.
#[verifier::ext_equal]
pub ghost struct FrameView {
    pub samples: Seq<u32>,
    pub sample_rate: int,
    pub buffer_size: int,
}

/// One decoded unit of single-channel PCM audio. Samples are held as the
/// little-endian IEEE-754 bit patterns read from the wire; rendering code
/// turns them back into floating-point values at the output boundary.
#[derive(Debug)]
pub struct AudioBuffer {
    pub samples: Vec<u32>,
    pub metadata: Metadata,
}

impl View for AudioBuffer {
    type V = FrameView;

    open spec fn view(&self) -> FrameView {
        FrameView {
            samples: self.samples@,
            sample_rate: self.metadata.sample_rate as int,
            buffer_size: self.metadata.buffer_size as int,
        }
    }
}

impl AudioBuffer {
    /// A frame is well formed when its declared sample count matches the
    /// samples it actually carries.
    pub open spec fn wf(&self) -> bool {
        self.metadata.buffer_size == self.samples@.len()
    }
}

impl Clone for AudioBuffer {
    fn clone(&self) -> (r: Self)
        ensures
            r@ == self@,
            r.wf() == self.wf(),
    {
        let samples = self.samples.clone();
        proof {
            assert forall|i: int| 0 <= i < self.samples@.len() implies samples@[i]
                == self.samples@[i] by {
                assert(cloned::<u32>(self.samples@[i], samples@[i]));
            }
            assert(samples@ =~= self.samples@);
        }
        AudioBuffer { samples, metadata: self.metadata }
    }
}

/// Declares resonator's buffer type so it can stand in signatures; its
/// values are opaque to the verifier and described only through
/// `relay_frame`.
#[verifier::external_type_specification]
#[verifier::external_body]
pub struct ExRelayAudioBuffer(RelayAudioBuffer);

/// Abstract content of a relay buffer: the sample bit patterns it carries and
/// its two header fields. The trusted conversions below are specified against
/// this one name, which ties them to each other.
pub uninterp spec fn relay_frame(b: RelayAudioBuffer) -> FrameView;

/// Relies on resonator's `AudioBuffer::from_bytes`: handed one whole wire
/// record, it parses the two little-endian header words and then every
/// four-byte group after the header as one sample, keeping each sample's
/// exact bit pattern.
#[verifier::external_body]
fn relay_buffer_of_record(bytes: &Vec<u8>) -> (r: RelayAudioBuffer)
    requires
        bytes@.len() == BUFFER_SIZE as int,
    ensures
        relay_frame(r) == crate::codec::raw_record_view(bytes@),
{
    let arr: &[u8; BUFFER_SIZE] = bytes.as_slice().try_into().unwrap();
    RelayAudioBuffer::from_bytes(arr)
}

impl AudioBuffer {
    /// Relies on resonator's `AudioBuffer` being a plain record of samples
    /// and a metadata header; `to_bits` reads each sample's exact IEEE-754
    /// bit pattern, so the frame built here is the buffer's content.
    #[verifier::external_body]
    pub fn from_resonator(buff: RelayAudioBuffer) -> (r: AudioBuffer)
        ensures
            r@ == relay_frame(buff),
    {
        AudioBuffer {
            samples: buff.samples.iter().map(|s| s.to_bits()).collect(),
            metadata: Metadata {
                sample_rate: buff.metadata.sample_rate,
                buffer_size: buff.metadata.buffer_size,
            },
        }
    }

    /// Hand this frame to the relay subsystem. The relay's wire format has
    /// room for exactly `AUDIO_BUFFER_SIZE` samples, so only full frames can
    /// cross; the resulting buffer carries exactly this frame's content.
    pub fn to_resonator(&self) -> (r: RelayAudioBuffer)
        requires
            self.wf(),
            self@.samples.len() == AUDIO_BUFFER_SIZE as int,
        ensures
            relay_frame(r) == self@,
    {
        let record = crate::codec::encode(self);
        proof {
            crate::codec::lemma_raw_record_of_encode(self@);
        }
        relay_buffer_of_record(&record)
    }
}

} // verus!
