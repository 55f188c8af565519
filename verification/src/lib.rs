pub mod audiobuffer;
pub mod audiosocketserver;
pub mod audiosource;
pub mod codec;
pub mod config;
pub mod localaudiosource;
pub mod metadata;
pub mod model;
pub mod scheduler;

use vstd::prelude::*;

use crate::audiobuffer::{AudioBuffer, FrameView};
use crate::audiosocketserver::AudioSocketServer;
use crate::audiosource::{AudioSource, AudioSourceError};
use crate::config::PREBUFFER_SIZE;
use crate::localaudiosource::LocalAudioSource;
use crate::model::{session_view, step_tick, tick_output};
use crate::scheduler::{Scheduler, SchedulerState};

verus! {

/// Wiring topology of one session, fixed at construction: where frames come
/// from and where the scheduler dispatches them to.
#[derive(Debug, Clone, Copy, PartialEq, Eq, Structural)]
pub enum TerrasoundMode {
    PortInResonatorOut,
    ResonatorInSpeakerOut,
    PortInSpeakerOut,
}

/// A supplier of decoded frames in arrival order.
pub trait TerrasoundSource {
    /// Frames available to this source but not yet handed out, oldest first.
    spec fn pending(&self) -> Seq<FrameView>;

    /// The source's internal consistency condition.
    spec fn inv(&self) -> bool;

    /// Hand out the next available frame; a source hands frames out in
    /// arrival order, each exactly once, and fails only when it has nothing
    /// pending.
    fn get_next(&mut self) -> (r: Result<AudioBuffer, AudioSourceError>)
        requires
            old(self).inv(),
        ensures
            final(self).inv(),
            match r {
                Ok(frame) => old(self).pending().len() > 0 && frame@ == old(self).pending()[0]
                    && final(self).pending() == old(self).pending().skip(1),
                Err(e) => old(self).pending().len() == 0
                    && final(self).pending() == old(self).pending()
                    && e == AudioSourceError::NoMoreAudio,
            },
    ;
}

/// Why a session cannot be built: the supplied capability set does not match
/// the declared mode.
#[derive(Debug, Clone, Copy, PartialEq, Eq, Structural)]
pub enum ConfigurationError {
    InvalidModeWiring,
}

/// The capability set each mode demands: relay-out modes need the outgoing
/// relay feed, relay-in modes the incoming one, and the plain
/// port-to-speaker mode must not be handed both relay feeds at once.
pub open spec fn mode_wiring_ok(mode: TerrasoundMode, has_incoming: bool, has_outgoing: bool) -> bool {
    match mode {
        TerrasoundMode::PortInResonatorOut => has_outgoing,
        TerrasoundMode::ResonatorInSpeakerOut => has_incoming,
        TerrasoundMode::PortInSpeakerOut => !(has_incoming && has_outgoing),
    }
}

/// One configured session: the verified pipeline pieces under a fixed mode.
/// The I/O capabilities themselves — socket, speaker sink, relay feeds —
/// live with the embedding program, which reports their presence at
/// construction and runs the listener and scheduling tasks.
pub struct Terrasound {
    pub mode: TerrasoundMode,
    pub audio_source: AudioSource,
    pub scheduler: Scheduler,
    pub server: Option<AudioSocketServer>,
    pub local_source: Option<LocalAudioSource>,
}

impl Terrasound {
    /// The session's pieces are mutually consistent.
    pub open spec fn wf(&self) -> bool {
        &&& self.scheduler.wf(self.audio_source)
        &&& self.scheduler.mode == self.mode
    }

    /// The capability wiring matches the mode: port-in modes carry a
    /// listener, the relay-in mode carries the relay-input adapter.
    pub open spec fn wired(&self) -> bool {
        &&& (self.server is Some <==> self.mode != TerrasoundMode::ResonatorInSpeakerOut)
        &&& (self.local_source is Some <==> self.mode == TerrasoundMode::ResonatorInSpeakerOut)
    }

    /// A freshly constructed session under `mode`: nothing produced, nothing
    /// consumed, and the whole lead-in still to accumulate.
    pub open spec fn fresh_session(&self, mode: TerrasoundMode, port: u16) -> bool {
        &&& self.wf()
        &&& self.wired()
        &&& self.mode == mode
        &&& self.scheduler.state == SchedulerState::Filling
        &&& self.scheduler.threshold == PREBUFFER_SIZE
        &&& self.scheduler.baseline == 0
        &&& self.audio_source.buffers@.len() == 0
        &&& self.audio_source.current_buffer_idx == 0
        &&& (mode != TerrasoundMode::ResonatorInSpeakerOut ==> (self.server matches Some(srv)
            && srv.port == port))
        &&& (mode == TerrasoundMode::ResonatorInSpeakerOut ==> (self.local_source matches Some(ls)
            && ls.buffers@.len() == 0))
    }

    /// Build a session, validating that the capability set the caller holds
    /// matches the declared mode; an invalid combination fails fast, before
    /// any task could start.
    pub fn new(port: u16, mode: TerrasoundMode, has_incoming: bool, has_outgoing: bool) -> (r:
        Result<Terrasound, ConfigurationError>)
        ensures
            match r {
                Ok(t) => mode_wiring_ok(mode, has_incoming, has_outgoing) && t.fresh_session(
                    mode,
                    port,
                ),
                Err(e) => !mode_wiring_ok(mode, has_incoming, has_outgoing) && e
                    == ConfigurationError::InvalidModeWiring,
            },
    {
        let valid: bool = match mode {
            TerrasoundMode::PortInResonatorOut => has_outgoing,
            TerrasoundMode::ResonatorInSpeakerOut => has_incoming,
            TerrasoundMode::PortInSpeakerOut => !(has_incoming && has_outgoing),
        };
        if !valid {
            return Err(ConfigurationError::InvalidModeWiring);
        }
        let server = if mode == TerrasoundMode::ResonatorInSpeakerOut {
            None
        } else {
            Some(AudioSocketServer::new(port))
        };
        let local_source = if mode == TerrasoundMode::ResonatorInSpeakerOut {
            Some(LocalAudioSource::new(Vec::new()))
        } else {
            None
        };
        Ok(
            Terrasound {
                mode,
                audio_source: AudioSource { buffers: Vec::new(), current_buffer_idx: 0 },
                scheduler: Scheduler::new(PREBUFFER_SIZE, mode),
                server,
                local_source,
            },
        )
    }

    /// A session that ingests on `port` and forwards every frame to the
    /// outgoing relay feed, which the caller holds.
    pub fn new_port_in_resonator_out(port: u16) -> (t: Terrasound)
        ensures
            t.fresh_session(TerrasoundMode::PortInResonatorOut, port),
    {
        match Terrasound::new(port, TerrasoundMode::PortInResonatorOut, false, true) {
            Ok(t) => t,
            Err(_) => unreached(),
        }
    }

    /// A session that ingests on `port` and plays to the local speaker.
    pub fn new_port_in_speaker_out(port: u16) -> (t: Terrasound)
        ensures
            t.fresh_session(TerrasoundMode::PortInSpeakerOut, port),
    {
        match Terrasound::new(port, TerrasoundMode::PortInSpeakerOut, false, false) {
            Ok(t) => t,
            Err(_) => unreached(),
        }
    }

    /// A session fed by the incoming relay feed, playing to the local
    /// speaker.
    pub fn new_resonator_in_speaker_out() -> (t: Terrasound)
        ensures
            t.fresh_session(TerrasoundMode::ResonatorInSpeakerOut, 0),
    {
        match Terrasound::new(0, TerrasoundMode::ResonatorInSpeakerOut, true, false) {
            Ok(t) => t,
            Err(_) => unreached(),
        }
    }

    /// One tick of the session's service loop — the decision core of the
    /// scheduling task. The embedding program calls this repeatedly, passing
    /// whether the ingest connection is live, and performs the returned
    /// dispatch on the session's output capability: the speaker sink, or the
    /// relay in relay-out mode.
    pub fn service_tick(&mut self, live: bool) -> (r: Option<AudioBuffer>)
        requires
            old(self).wf(),
        ensures
            final(self).wf(),
            final(self).mode == old(self).mode,
            final(self).server == old(self).server,
            final(self).local_source == old(self).local_source,
            session_view(final(self).scheduler, final(self).audio_source) == step_tick(
                session_view(old(self).scheduler, old(self).audio_source),
                live,
            ),
            match r {
                Some(frame) => tick_output(
                    session_view(old(self).scheduler, old(self).audio_source),
                    live,
                ) == Some(frame@),
                None => tick_output(
                    session_view(old(self).scheduler, old(self).audio_source),
                    live,
                ) is None,
            },
    {
        self.scheduler.service_tick(&mut self.audio_source, live)
    }
}

} // verus!
