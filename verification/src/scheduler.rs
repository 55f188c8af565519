use vstd::prelude::*;

use crate::audiobuffer::AudioBuffer;
use crate::audiosource::{AudioSource, AudioSourceError};
use crate::model::{inv, session_view, step_tick, tick_output};
use crate::TerrasoundMode;

verus! {

/// Phase of the prebuffer hold: accumulating lead-in, cleared to play, or
/// actively draining the queue.
#[derive(Debug, Clone, Copy, PartialEq, Eq, Structural)]
pub enum SchedulerState {
    Filling,
    Armed,
    Draining,
}

/// The prebuffer scheduler: holds playback back until `threshold` frames
/// have accumulated beyond `baseline`, then drains the queue one frame per
/// tick. `baseline` is the produced count at the scheduler's last reset, so
/// the lead-in is measured against frames that arrived since, not against
/// the queue's absolute length.
pub struct Scheduler {
    pub state: SchedulerState,
    pub threshold: usize,
    pub baseline: usize,
    pub mode: TerrasoundMode,
}

impl Scheduler {
    /// The scheduler's bookkeeping is consistent with queue `q`.
    pub open spec fn wf(&self, q: AudioSource) -> bool {
        inv(session_view(*self, q))
    }

    /// A scheduler that has everything still to accumulate.
    pub fn new(threshold: usize, mode: TerrasoundMode) -> (s: Scheduler)
        requires
            threshold >= 1,
        ensures
            s.state == SchedulerState::Filling,
            s.threshold == threshold,
            s.baseline == 0,
            s.mode == mode,
    {
        Scheduler { state: SchedulerState::Filling, threshold, baseline: 0, mode }
    }

    /// One service step. Seeing the connection down puts the scheduler back
    /// to filling, re-baselined; otherwise, once armed — immediately in
    /// relay-out mode, else as soon as `threshold` frames stand above the
    /// baseline — it consumes the frame under the cursor and hands it out
    /// for dispatch. An armed tick that finds the queue drained is a no-op,
    /// not a reset.
    pub fn service_tick(&mut self, source: &mut AudioSource, live: bool) -> (r: Option<
        AudioBuffer,
    >)
        requires
            old(self).wf(*old(source)),
        ensures
            final(self).wf(*final(source)),
            session_view(*final(self), *final(source)) == step_tick(
                session_view(*old(self), *old(source)),
                live,
            ),
            match r {
                Some(frame) => tick_output(session_view(*old(self), *old(source)), live)
                    == Some(frame@),
                None => tick_output(session_view(*old(self), *old(source)), live) is None,
            },
            final(source).buffers@ == old(source).buffers@,
    {
        let ghost s0 = session_view(*old(self), *old(source));
        if !live {
            self.state = SchedulerState::Filling;
            self.baseline = source.len();
            proof {
                assert(session_view(*self, *source) =~= step_tick(s0, false));
            }
            return None;
        }
        let armed: bool = if self.state == SchedulerState::Filling {
            if self.mode == TerrasoundMode::PortInResonatorOut {
                true
            } else {
                let produced = source.len();
                produced - self.baseline >= self.threshold
            }
        } else {
            true
        };
        if !armed {
            proof {
                assert(session_view(*self, *source) =~= step_tick(s0, live));
            }
            return None;
        }
        if self.state == SchedulerState::Filling {
            self.state = SchedulerState::Armed;
        }
        match source.advance_cursor() {
            Ok(frame) => {
                self.state = SchedulerState::Draining;
                proof {
                    assert(session_view(*self, *source) =~= step_tick(s0, live));
                }
                Some(frame)
            },
            Err(_) => {
                proof {
                    assert(session_view(*self, *source) =~= step_tick(s0, live));
                }
                None
            },
        }
    }
}

} // verus!
