use vstd::prelude::*;

use crate::audiobuffer::{AudioBuffer, FrameView};
use crate::TerrasoundSource;

verus! {

#[derive(Debug, Clone, Copy, PartialEq, Eq, Structural)]
pub enum AudioSourceError {
    NoMoreAudio,
}

/// The frame queue: an append-only sequence of produced frames plus a read
/// cursor. Frames below the cursor have been consumed and are never handed
/// out again; producers only append, the consumer only advances the cursor.
pub struct AudioSource {
    pub buffers: Vec<AudioBuffer>,
    pub current_buffer_idx: usize,
}

impl AudioSource {
    /// All frames ever produced, in arrival order.
    pub open spec fn frames(&self) -> Seq<FrameView> {
        self.buffers@.map(|i: int, b: AudioBuffer| b@)
    }

    /// The queue's invariant: the read cursor never exceeds the produced
    /// count.
    pub open spec fn wf(&self) -> bool {
        self.current_buffer_idx <= self.buffers@.len()
    }

    /// Append one produced frame. Never touches the cursor.
    pub fn add_buffer(&mut self, buffer: AudioBuffer)
        ensures
            final(self).frames() == old(self).frames().push(buffer@),
            final(self).buffers@ == old(self).buffers@.push(buffer),
            final(self).current_buffer_idx == old(self).current_buffer_idx,
            old(self).wf() ==> final(self).wf(),
    {
        self.buffers.push(buffer);
        proof {
            assert(self.frames() =~= old(self).frames().push(buffer@));
        }
    }

    /// How many frames have been produced.
    pub fn len(&self) -> (n: usize)
        ensures
            n == self.frames().len(),
    {
        self.buffers.len()
    }

    /// How many frames have been consumed.
    pub fn cursor(&self) -> (c: usize)
        ensures
            c == self.current_buffer_idx,
    {
        self.current_buffer_idx
    }

    /// The frame at `index`, if one has been produced there.
    pub fn peek_at(&self, index: usize) -> (r: Option<AudioBuffer>)
        ensures
            match r {
                Some(frame) => index < self.frames().len() && frame@ == self.frames()[index as int],
                None => index >= self.frames().len(),
            },
    {
        if index < self.buffers.len() {
            Some(self.buffers[index].clone())
        } else {
            None
        }
    }

    /// Return the frame under the cursor and move the cursor past it, or
    /// report `NoMoreAudio` when every produced frame has been consumed.
    /// The cursor never moves backwards and the stored frames never change.
    pub fn advance_cursor(&mut self) -> (r: Result<AudioBuffer, AudioSourceError>)
        requires
            old(self).wf(),
        ensures
            final(self).wf(),
            final(self).buffers@ == old(self).buffers@,
            match r {
                Ok(frame) => old(self).current_buffer_idx < old(self).frames().len()
                    && frame@ == old(self).frames()[old(self).current_buffer_idx as int]
                    && final(self).current_buffer_idx == old(self).current_buffer_idx + 1,
                Err(e) => old(self).current_buffer_idx == old(self).frames().len()
                    && final(self).current_buffer_idx == old(self).current_buffer_idx
                    && e == AudioSourceError::NoMoreAudio,
            },
    {
        if self.current_buffer_idx < self.buffers.len() {
            let frame = self.buffers[self.current_buffer_idx].clone();
            self.current_buffer_idx = self.current_buffer_idx + 1;
            Ok(frame)
        } else {
            Err(AudioSourceError::NoMoreAudio)
        }
    }
}

impl TerrasoundSource for AudioSource {
    open spec fn pending(&self) -> Seq<FrameView> {
        self.frames().skip(self.current_buffer_idx as int)
    }

    open spec fn inv(&self) -> bool {
        self.wf()
    }

    fn get_next(&mut self) -> (r: Result<AudioBuffer, AudioSourceError>) {
        let ghost pre = *self;
        let r = self.advance_cursor();
        proof {
            if r is Ok {
                assert(self.pending() =~= pre.pending().skip(1));
                assert(pre.pending()[0] == pre.frames()[pre.current_buffer_idx as int]);
            } else {
                assert(self.pending() =~= pre.pending());
            }
        }
        r
    }
}

} // verus!
