use vstd::prelude::*;

use resonator::common::audiobuffer::AudioBuffer as RelayAudioBuffer;

use crate::audiobuffer::{relay_frame, AudioBuffer, FrameView};
use crate::audiosource::AudioSourceError;
use crate::TerrasoundSource;

verus! {

/// Relay-input adapter: holds the relay buffers that have arrived from the
/// distribution subsystem and hands them out, oldest first, converted to
/// frames. The embedding program pushes incoming relay buffers onto
/// `buffers` and wires this adapter to the session's frame queue.
pub struct LocalAudioSource {
    pub buffers: Vec<RelayAudioBuffer>,
    pub current_buffer_idx: usize,
}

impl LocalAudioSource {
    pub fn new(buffers: Vec<RelayAudioBuffer>) -> (s: LocalAudioSource)
        ensures
            s.buffers@ == buffers@,
            s.current_buffer_idx == 0,
    {
        LocalAudioSource { buffers, current_buffer_idx: 0 }
    }

    /// How many relay buffers are waiting.
    pub fn num_buffers(&self) -> (n: usize)
        ensures
            n == self.buffers@.len(),
    {
        self.buffers.len()
    }
}

impl TerrasoundSource for LocalAudioSource {
    open spec fn pending(&self) -> Seq<FrameView> {
        self.buffers@.map(|i: int, b: RelayAudioBuffer| relay_frame(b))
    }

    open spec fn inv(&self) -> bool {
        true
    }

    fn get_next(&mut self) -> (r: Result<AudioBuffer, AudioSourceError>) {
        let ghost pre = *self;
        if self.buffers.len() == 0 {
            return Err(AudioSourceError::NoMoreAudio);
        }
        let buff = self.buffers.remove(0);
        let frame = AudioBuffer::from_resonator(buff);
        proof {
            assert(self.pending() =~= pre.pending().skip(1));
        }
        Ok(frame)
    }
}

} // verus!
