use vstd::prelude::*;

use crate::audiobuffer::FrameView;
use crate::audiosource::AudioSource;
use crate::scheduler::{Scheduler, SchedulerState};
use crate::TerrasoundMode;

verus! {

/// Whether the lead-in hold applies. Forwarding to the relay bypasses it:
/// the relay buffers on its own, and buffering twice would only add delay.
pub open spec fn gated(mode: TerrasoundMode) -> bool {
    mode != TerrasoundMode::PortInResonatorOut
}

/// One session's abstract state: every frame produced so far, the read
/// cursor, and the scheduler's bookkeeping.
#[verifier::ext_equal]
pub ghost struct SessionView {
    pub frames: Seq<FrameView>,
    pub cursor: int,
    pub state: SchedulerState,
    pub baseline: int,
    pub threshold: int,
    pub mode: TerrasoundMode,
}

/// The abstract state of a concrete scheduler paired with a concrete queue.
pub open spec fn session_view(sch: Scheduler, q: AudioSource) -> SessionView {
    SessionView {
        frames: q.frames(),
        cursor: q.current_buffer_idx as int,
        state: sch.state,
        baseline: sch.baseline as int,
        threshold: sch.threshold as int,
        mode: sch.mode,
    }
}

/// What can happen to a session: a producer appends one decoded frame, or
/// the scheduler runs one service tick, seeing the connection live or down.
pub ghost enum Event {
    Append(FrameView),
    Tick(bool),
}

/// The session invariant: the cursor and the baseline never exceed the
/// produced count, the threshold is positive, and once the scheduler has
/// armed, at least `threshold` frames stand above the baseline.
pub open spec fn inv(s: SessionView) -> bool {
    &&& 0 <= s.cursor <= s.frames.len()
    &&& 0 <= s.baseline <= s.frames.len()
    &&& s.threshold >= 1
    &&& (gated(s.mode) && !(s.state is Filling) ==> s.frames.len() >= s.baseline + s.threshold)
}

/// A producer appends one frame; nothing else moves.
pub open spec fn step_append(s: SessionView, f: FrameView) -> SessionView {
    SessionView { frames: s.frames.push(f), ..s }
}

/// Whether this tick finds the scheduler cleared to play: it already was,
/// the mode bypasses the lead-in hold, or enough lead has accumulated over
/// the baseline.
pub open spec fn tick_armed(s: SessionView) -> bool {
    ||| !(s.state is Filling)
    ||| !gated(s.mode)
    ||| s.frames.len() - s.baseline >= s.threshold
}

/// Whether this tick dispatches a frame: the connection is live, the
/// scheduler is cleared to play, and an unread frame is available.
pub open spec fn tick_dispatches(s: SessionView, live: bool) -> bool {
    live && tick_armed(s) && s.cursor < s.frames.len()
}

/// One scheduler service tick. A tick that sees the connection down puts
/// the scheduler back to filling, re-baselined at the produced count; an
/// armed tick consumes the frame under the cursor if there is one, and an
/// armed tick that finds the queue drained is a no-op, not a reset.
pub open spec fn step_tick(s: SessionView, live: bool) -> SessionView {
    if !live {
        SessionView { state: SchedulerState::Filling, baseline: s.frames.len() as int, ..s }
    } else if tick_dispatches(s, live) {
        SessionView { state: SchedulerState::Draining, cursor: s.cursor + 1, ..s }
    } else if tick_armed(s) && s.state is Filling {
        SessionView { state: SchedulerState::Armed, ..s }
    } else {
        s
    }
}

/// The frame a tick hands to the output capability, if any.
pub open spec fn tick_output(s: SessionView, live: bool) -> Option<FrameView> {
    if tick_dispatches(s, live) {
        Some(s.frames[s.cursor])
    } else {
        None
    }
}

pub open spec fn apply_event(s: SessionView, e: Event) -> SessionView {
    match e {
        Event::Append(f) => step_append(s, f),
        Event::Tick(live) => step_tick(s, live),
    }
}

/// The session after a whole sequence of operations.
pub open spec fn run(s: SessionView, evs: Seq<Event>) -> SessionView
    decreases evs.len(),
{
    if evs.len() == 0 {
        s
    } else {
        run(apply_event(s, evs[0]), evs.skip(1))
    }
}

pub open spec fn event_output(s: SessionView, e: Event) -> Seq<FrameView> {
    match e {
        Event::Append(f) => Seq::empty(),
        Event::Tick(live) => match tick_output(s, live) {
            Some(f) => seq![f],
            None => Seq::empty(),
        },
    }
}

/// Every frame dispatched over a whole sequence of operations, in dispatch
/// order.
pub open spec fn dispatched(s: SessionView, evs: Seq<Event>) -> Seq<FrameView>
    decreases evs.len(),
{
    if evs.len() == 0 {
        Seq::empty()
    } else {
        event_output(s, evs[0]) + dispatched(apply_event(s, evs[0]), evs.skip(1))
    }
}

/// The frames a sequence of operations appends, in arrival order.
pub open spec fn appended(evs: Seq<Event>) -> Seq<FrameView>
    decreases evs.len(),
{
    if evs.len() == 0 {
        Seq::empty()
    } else {
        (match evs[0] {
            Event::Append(f) => seq![f],
            Event::Tick(_) => Seq::empty(),
        }) + appended(evs.skip(1))
    }
}

pub open spec fn count_appends(evs: Seq<Event>) -> int
    decreases evs.len(),
{
    if evs.len() == 0 {
        0
    } else {
        (if evs[0] is Append {
            1int
        } else {
            0int
        }) + count_appends(evs.skip(1))
    }
}

proof fn lemma_count_appends_nonneg(evs: Seq<Event>)
    ensures
        count_appends(evs) >= 0,
    decreases evs.len(),
{
    if evs.len() > 0 {
        lemma_count_appends_nonneg(evs.skip(1));
    }
}

proof fn lemma_step_evolution(s: SessionView, e: Event)
    requires
        inv(s),
    ensures
        inv(apply_event(s, e)),
        apply_event(s, e).cursor >= s.cursor,
        apply_event(s, e).frames.len() >= s.frames.len(),
        apply_event(s, e).frames.take(s.frames.len() as int) == s.frames,
        apply_event(s, e).baseline >= s.baseline,
        apply_event(s, e).threshold == s.threshold,
        apply_event(s, e).mode == s.mode,
{
    assert(apply_event(s, e).frames.take(s.frames.len() as int) =~= s.frames);
}

/// Cursor monotonicity and session evolution: over any sequence of
/// operations the cursor never moves back and never exceeds the produced
/// count, produced frames are only ever appended to, and the baseline never
/// moves back either.
pub proof fn lemma_run_evolution(s: SessionView, evs: Seq<Event>)
    requires
        inv(s),
    ensures
        inv(run(s, evs)),
        run(s, evs).cursor >= s.cursor,
        run(s, evs).frames.len() >= s.frames.len(),
        run(s, evs).frames.take(s.frames.len() as int) == s.frames,
        run(s, evs).baseline >= s.baseline,
        run(s, evs).threshold == s.threshold,
        run(s, evs).mode == s.mode,
    decreases evs.len(),
{
    if evs.len() > 0 {
        let s1 = apply_event(s, evs[0]);
        lemma_step_evolution(s, evs[0]);
        lemma_run_evolution(s1, evs.skip(1));
        let s2 = run(s, evs);
        assert(s2.frames.take(s.frames.len() as int) =~= s.frames) by {
            assert(s2.frames.take(s1.frames.len() as int) == s1.frames);
            assert(s1.frames.take(s.frames.len() as int) == s.frames);
            assert forall|i: int| 0 <= i < s.frames.len() implies s2.frames[i] == s.frames[i] by {
                assert(s1.frames[i] == s1.frames.take(s.frames.len() as int)[i]);
                assert(s2.frames[i] == s2.frames.take(s1.frames.len() as int)[i]);
            }
        }
    }
}

/// FIFO ordering: over any sequence of operations, the frames the
/// scheduler dispatches are exactly the produced frames from the starting
/// cursor up to the final cursor, in production order — no reordering, no
/// loss, no repetition.
pub proof fn lemma_dispatch_order(s: SessionView, evs: Seq<Event>)
    requires
        inv(s),
    ensures
        dispatched(s, evs) == run(s, evs).frames.subrange(s.cursor, run(s, evs).cursor),
    decreases evs.len(),
{
    let s2 = run(s, evs);
    if evs.len() == 0 {
        assert(dispatched(s, evs) =~= s2.frames.subrange(s.cursor, s2.cursor));
    } else {
        let e = evs[0];
        let s1 = apply_event(s, e);
        lemma_step_evolution(s, e);
        lemma_dispatch_order(s1, evs.skip(1));
        lemma_run_evolution(s1, evs.skip(1));
        assert forall|i: int| 0 <= i < s1.frames.len() implies s2.frames[i] == s1.frames[i] by {
            assert(s1.frames[i] == s2.frames.take(s1.frames.len() as int)[i]);
        }
        if tick_dispatches_event(s, e) {
            assert(s1.cursor == s.cursor + 1);
            assert(event_output(s, e) =~= seq![s.frames[s.cursor]]);
            assert(s2.frames[s.cursor] == s1.frames[s.cursor]);
            assert(s1.frames[s.cursor] == s.frames[s.cursor]);
            assert(dispatched(s, evs) =~= s2.frames.subrange(s.cursor, s2.cursor));
        } else {
            assert(s1.cursor == s.cursor);
            assert(event_output(s, e) =~= Seq::<FrameView>::empty());
            assert(dispatched(s, evs) =~= s2.frames.subrange(s.cursor, s2.cursor));
        }
    }
}

/// Whether event `e` dispatches a frame from state `s`.
pub open spec fn tick_dispatches_event(s: SessionView, e: Event) -> bool {
    match e {
        Event::Append(f) => false,
        Event::Tick(live) => tick_dispatches(s, live),
    }
}

/// The produced frames after a sequence of operations are the frames there
/// were at the start followed by exactly the appended ones, in order.
pub proof fn lemma_frames_are_appends(s: SessionView, evs: Seq<Event>)
    requires
        inv(s),
    ensures
        run(s, evs).frames == s.frames + appended(evs),
    decreases evs.len(),
{
    if evs.len() == 0 {
        assert(run(s, evs).frames =~= s.frames + appended(evs));
    } else {
        let e = evs[0];
        let s1 = apply_event(s, e);
        lemma_step_evolution(s, e);
        lemma_frames_are_appends(s1, evs.skip(1));
        match e {
            Event::Append(f) => {
                assert(s1.frames =~= s.frames + seq![f]);
            },
            Event::Tick(live) => {
                assert(s1.frames == s.frames);
            },
        }
        assert(run(s, evs).frames =~= s.frames + appended(evs));
    }
}

/// FIFO from an empty session: what the scheduler dispatches over any
/// sequence of operations is exactly a prefix of what the producers
/// appended, in arrival order — the frames up to the final cursor.
pub proof fn lemma_dispatch_is_input_prefix(s: SessionView, evs: Seq<Event>)
    requires
        inv(s),
        s.frames.len() == 0,
        s.cursor == 0,
    ensures
        dispatched(s, evs) == appended(evs).take(run(s, evs).cursor),
{
    lemma_dispatch_order(s, evs);
    lemma_frames_are_appends(s, evs);
    lemma_run_evolution(s, evs);
    assert(run(s, evs).frames =~= appended(evs));
    assert(dispatched(s, evs) =~= appended(evs).take(run(s, evs).cursor));
}

/// Threshold hold: while the lead-in requirement applies and the scheduler
/// is filling, fewer than `threshold` appends beyond what already stands
/// above the baseline dispatch nothing, move nothing, and leave the
/// scheduler filling. This covers both session start and the refill after a
/// disconnect.
pub proof fn lemma_threshold_gating(s: SessionView, evs: Seq<Event>)
    requires
        inv(s),
        gated(s.mode),
        s.state is Filling,
        s.frames.len() - s.baseline + count_appends(evs) < s.threshold,
    ensures
        dispatched(s, evs) == Seq::<FrameView>::empty(),
        run(s, evs).state is Filling,
        run(s, evs).cursor == s.cursor,
    decreases evs.len(),
{
    if evs.len() > 0 {
        let e = evs[0];
        let s1 = apply_event(s, e);
        lemma_step_evolution(s, e);
        match e {
            Event::Append(f) => {
                lemma_threshold_gating(s1, evs.skip(1));
            },
            Event::Tick(live) => {
                lemma_count_appends_nonneg(evs.skip(1));
                assert(s.frames.len() - s.baseline < s.threshold);
                assert(!tick_armed(s));
                assert(!tick_dispatches(s, live));
                lemma_threshold_gating(s1, evs.skip(1));
            },
        }
        assert(dispatched(s, evs) =~= Seq::<FrameView>::empty());
    }
}

/// Reconnect behaviour: a tick that sees the connection down forces the
/// scheduler back through `Filling` with its baseline at the produced count,
/// so until `threshold` frames have been appended after the disconnect,
/// nothing further is dispatched; and since the cursor stays put, frames
/// dispatched before the disconnect are never dispatched again.
pub proof fn lemma_reconnect_refills(s: SessionView, evs: Seq<Event>)
    requires
        inv(s),
        gated(s.mode),
        count_appends(evs) < s.threshold,
    ensures
        step_tick(s, false).state is Filling,
        step_tick(s, false).baseline == s.frames.len(),
        step_tick(s, false).cursor == s.cursor,
        dispatched(step_tick(s, false), evs) == Seq::<FrameView>::empty(),
        run(step_tick(s, false), evs).cursor == s.cursor,
{
    let s1 = step_tick(s, false);
    assert(inv(s1));
    lemma_threshold_gating(s1, evs);
}

} // verus!
