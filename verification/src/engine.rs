//! The playback engine: a state machine that owns at most one decode
//! session and the audio output, consumes commands and decode outcomes,
//! and emits events.
//!
//! The engine itself performs no I/O.  Opening a source, seeking the
//! demuxer and decoding packets happen outside; their outcomes are handed
//! to [`Engine::step`] as [`EngineInput`] values, and the work the engine
//! wants done comes back as [`EngineAction`] values.  Every transition is
//! pinned down by the relation [`step_rel`], which the laws in
//! `engine_laws` are proved against.

use crate::ring::AudioOutput;
use crate::timecode::{
    add_frames, frames_of_ms, ms_of_frames, spec_add_frames, spec_clamped_frames,
    spec_ms_of_frames, MAX_FRAMES,
};
use vstd::prelude::*;

verus! {

/// The externally visible state of the player.
#[derive(Clone, Copy, Debug, PartialEq, Eq, Structural)]
pub enum PlayerState {
    Stopped,
    Loading,
    Playing,
    Paused,
}

/// What the open step learned about a freshly opened source.
#[derive(Clone, Copy, Debug)]
pub struct SessionInfo {
    /// Demuxer id of the selected audio track.
    pub track_id: u32,
    /// Frames per second of the decoded stream.
    pub sample_rate: u32,
    /// Interleaved channels per frame.
    pub channels: u32,
    /// Total duration of the stream, when the container reports one.
    pub total_duration_ms: Option<u64>,
    /// Position the source was opened at.
    pub start_position_ms: u64,
}

/// The live decode session: stream parameters plus the decoded-frame
/// counter that position reports are computed from.
#[derive(Clone, Copy, Debug)]
pub struct Session {
    pub track_id: u32,
    pub sample_rate: u32,
    pub channels: u32,
    pub frames_decoded: u64,
    pub total_duration_ms: Option<u64>,
}

/// A command sent to the engine by the rest of the application.
#[derive(Clone, Debug, PartialEq)]
pub enum PlaybackCommand {
    Play { source: String, start_position_ms: u64 },
    Pause,
    Resume,
    Stop,
    Seek(u64),
    /// Playback speed in percent.  No transition is defined for this
    /// command; the engine leaves its state unchanged.
    SetSpeed(u32),
}

/// An event emitted by the engine.  Events reflect state that has already
/// taken effect.
#[derive(Clone, Debug, PartialEq)]
pub enum PlaybackEvent {
    StateChanged(PlayerState),
    PositionUpdate(u64),
    DurationChanged(u64),
    TrackEnded,
    Error(String),
}

/// One input to the engine's control loop: either a command or the outcome
/// of outside work the engine asked for.
#[derive(Clone, Debug)]
pub enum EngineInput {
    Command(PlaybackCommand),
    /// The requested source was opened.
    Opened(SessionInfo),
    /// The requested source could not be opened.
    OpenFailed(String),
    /// Outcome of a requested demuxer seek.
    SeekDone { target_ms: u64, ok: bool, message: String },
    /// One demuxed packet was decoded to interleaved PCM samples.
    /// `report_position` is set when the position-update cadence has
    /// elapsed on the caller's clock.
    Packet { track_id: u32, samples: Vec<i16>, report_position: bool },
    /// A single corrupt frame; recovered locally, playback continues.
    DecodeError,
    /// An unrecoverable decode or read error.
    FatalError(String),
    /// The demuxer reached the end of the stream.
    EndOfStream,
}

/// Outside work the engine asks its caller to perform.
#[derive(Clone, Debug, PartialEq)]
pub enum EngineAction {
    /// Open this source at this position and report back with `Opened` or
    /// `OpenFailed`.
    OpenSession { source: String, start_position_ms: u64 },
    /// Seek the demuxer and report back with `SeekDone`.
    SeekDemuxer { target_ms: u64 },
    /// Buffered audio is still playing: wait, then resubmit `EndOfStream`.
    Drain,
}

/// Events and the requested action produced by one engine step.
pub struct StepOutput {
    pub events: Vec<PlaybackEvent>,
    pub action: Option<EngineAction>,
}

/// Mathematical model of the engine state.
#[verifier::ext_equal]
pub ghost struct EngineModel {
    pub state: PlayerState,
    pub session: Option<Session>,
    pub buffer: Seq<i16>,
    pub paused: bool,
}

/// The model of a stopped engine: no session, empty buffer, not paused.
pub open spec fn stopped_model() -> EngineModel {
    EngineModel {
        state: PlayerState::Stopped,
        session: None,
        buffer: Seq::empty(),
        paused: false,
    }
}

/// Well-formedness of an engine state: a session exists exactly while
/// playing or paused, the paused flag mirrors the paused state, nothing is
/// buffered without a session, and the frame counter is below its cap.
pub open spec fn wf(m: EngineModel) -> bool {
    &&& (m.session is Some <==> (m.state is Playing || m.state is Paused))
    &&& (m.paused <==> m.state is Paused)
    &&& ((m.state is Stopped || m.state is Loading) ==> m.buffer.len() == 0)
    &&& (m.session matches Some(s) ==> 1 <= s.sample_rate && 1 <= s.channels
        && s.frames_decoded <= MAX_FRAMES)
}

/// Stream parameters the engine relies on: at least one frame per second
/// and one channel, so frame arithmetic is well defined.
pub open spec fn input_ok(input: EngineInput) -> bool {
    input matches EngineInput::Opened(info) ==> 1 <= info.sample_rate && 1 <= info.channels
}

/// No state change, no events, no action.
pub open spec fn unchanged_rel(
    pre: EngineModel,
    post: EngineModel,
    events: Seq<PlaybackEvent>,
    action: Option<EngineAction>,
) -> bool {
    &&& post == pre
    &&& events.len() == 0
    &&& action is None
}

/// `Play`: any existing session is dropped and a fresh open is requested.
pub open spec fn play_rel(
    pre: EngineModel,
    source: Seq<char>,
    start_position_ms: u64,
    post: EngineModel,
    events: Seq<PlaybackEvent>,
    action: Option<EngineAction>,
) -> bool {
    &&& post == EngineModel {
        state: PlayerState::Loading,
        session: None,
        buffer: Seq::empty(),
        paused: false,
    }
    &&& events == seq![PlaybackEvent::StateChanged(PlayerState::Loading)]
    &&& action matches Some(EngineAction::OpenSession { source: s, start_position_ms: p })
        && s@ == source && p == start_position_ms
}

/// Relation for one command.
pub open spec fn command_rel(
    pre: EngineModel,
    cmd: PlaybackCommand,
    post: EngineModel,
    events: Seq<PlaybackEvent>,
    action: Option<EngineAction>,
) -> bool {
    match cmd {
        PlaybackCommand::Play { source, start_position_ms } => play_rel(
            pre,
            source@,
            start_position_ms,
            post,
            events,
            action,
        ),
        PlaybackCommand::Pause => {
            if pre.state is Playing {
                &&& post == EngineModel { state: PlayerState::Paused, paused: true, ..pre }
                &&& events == seq![PlaybackEvent::StateChanged(PlayerState::Paused)]
                &&& action is None
            } else {
                unchanged_rel(pre, post, events, action)
            }
        },
        PlaybackCommand::Resume => {
            if pre.state is Paused {
                &&& post == EngineModel { state: PlayerState::Playing, paused: false, ..pre }
                &&& events == seq![PlaybackEvent::StateChanged(PlayerState::Playing)]
                &&& action is None
            } else {
                unchanged_rel(pre, post, events, action)
            }
        },
        PlaybackCommand::Stop => {
            &&& post == stopped_model()
            &&& events == seq![PlaybackEvent::StateChanged(PlayerState::Stopped)]
            &&& action is None
        },
        PlaybackCommand::Seek(target_ms) => {
            if pre.session is Some {
                &&& post == EngineModel { buffer: Seq::empty(), ..pre }
                &&& events.len() == 0
                &&& action == Some(EngineAction::SeekDemuxer { target_ms })
            } else {
                unchanged_rel(pre, post, events, action)
            }
        },
        PlaybackCommand::SetSpeed(_) => unchanged_rel(pre, post, events, action),
    }
}

/// Relation for a successful open: the session starts with a frame counter
/// derived from the start position, and the duration (when known) is
/// announced before the state change.
pub open spec fn opened_rel(
    pre: EngineModel,
    info: SessionInfo,
    post: EngineModel,
    events: Seq<PlaybackEvent>,
    action: Option<EngineAction>,
) -> bool {
    if pre.state is Loading {
        let s = Session {
            track_id: info.track_id,
            sample_rate: info.sample_rate,
            channels: info.channels,
            frames_decoded: spec_clamped_frames(
                info.start_position_ms as nat,
                info.sample_rate as nat,
            ) as u64,
            total_duration_ms: info.total_duration_ms,
        };
        &&& post == EngineModel {
            state: PlayerState::Playing,
            session: Some(s),
            buffer: Seq::empty(),
            paused: false,
        }
        &&& events == (match info.total_duration_ms {
            Some(d) => seq![
                PlaybackEvent::DurationChanged(d),
                PlaybackEvent::StateChanged(PlayerState::Playing),
            ],
            None => seq![PlaybackEvent::StateChanged(PlayerState::Playing)],
        })
        &&& action is None
    } else {
        unchanged_rel(pre, post, events, action)
    }
}

/// Relation for a failed open: the error is reported and the engine
/// returns to stopped before anything else is processed.
pub open spec fn open_failed_rel(
    pre: EngineModel,
    msg: Seq<char>,
    post: EngineModel,
    events: Seq<PlaybackEvent>,
    action: Option<EngineAction>,
) -> bool {
    if pre.state is Loading {
        &&& post == stopped_model()
        &&& events.len() == 2
        &&& events[0] matches PlaybackEvent::Error(m) && m@ == msg
        &&& events[1] == PlaybackEvent::StateChanged(PlayerState::Stopped)
        &&& action is None
    } else {
        unchanged_rel(pre, post, events, action)
    }
}

/// Relation for a finished demuxer seek.  On success the frame counter is
/// recomputed from the target so position reports are correct immediately,
/// and the new position is announced.  On failure the session survives
/// with its stale position and only an error is reported.
pub open spec fn seek_done_rel(
    pre: EngineModel,
    target_ms: u64,
    ok: bool,
    msg: Seq<char>,
    post: EngineModel,
    events: Seq<PlaybackEvent>,
    action: Option<EngineAction>,
) -> bool {
    match pre.session {
        Some(s) => {
            if ok {
                let s2 = Session {
                    frames_decoded: spec_clamped_frames(
                        target_ms as nat,
                        s.sample_rate as nat,
                    ) as u64,
                    ..s
                };
                &&& post == EngineModel { session: Some(s2), ..pre }
                &&& events == seq![PlaybackEvent::PositionUpdate(target_ms)]
                &&& action is None
            } else {
                &&& post == pre
                &&& events.len() == 1
                &&& events[0] matches PlaybackEvent::Error(m) && m@ == msg
                &&& action is None
            }
        },
        None => unchanged_rel(pre, post, events, action),
    }
}

/// Relation for one decoded packet: its samples are queued, the frame
/// counter advances by the frames it held, and when the report cadence has
/// elapsed the position computed from the counter is announced.
pub open spec fn packet_rel(
    pre: EngineModel,
    track_id: u32,
    samples: Seq<i16>,
    report_position: bool,
    post: EngineModel,
    events: Seq<PlaybackEvent>,
    action: Option<EngineAction>,
) -> bool {
    match pre.session {
        Some(s) => {
            if pre.state is Playing && track_id == s.track_id {
                let nf = spec_add_frames(
                    s.frames_decoded as nat,
                    samples.len() / (s.channels as nat),
                );
                let s2 = Session { frames_decoded: nf as u64, ..s };
                &&& post == EngineModel { session: Some(s2), buffer: pre.buffer + samples, ..pre }
                &&& events == (if report_position {
                    seq![
                        PlaybackEvent::PositionUpdate(
                            spec_ms_of_frames(nf, s.sample_rate as nat) as u64,
                        ),
                    ]
                } else {
                    Seq::<PlaybackEvent>::empty()
                })
                &&& action is None
            } else {
                unchanged_rel(pre, post, events, action)
            }
        },
        None => unchanged_rel(pre, post, events, action),
    }
}

/// Relation for a fatal mid-stream error: the session is torn down and the
/// engine transitions through stopped, so no ghost playing state survives.
pub open spec fn fatal_rel(
    pre: EngineModel,
    msg: Seq<char>,
    post: EngineModel,
    events: Seq<PlaybackEvent>,
    action: Option<EngineAction>,
) -> bool {
    if pre.session is Some {
        &&& post == stopped_model()
        &&& events.len() == 2
        &&& events[0] matches PlaybackEvent::Error(m) && m@ == msg
        &&& events[1] == PlaybackEvent::StateChanged(PlayerState::Stopped)
        &&& action is None
    } else {
        unchanged_rel(pre, post, events, action)
    }
}

/// Relation for end of stream: while audio is still buffered the engine
/// only asks to drain; once the buffer is empty it emits exactly one
/// `TrackEnded` followed by exactly one `StateChanged(Stopped)`.
pub open spec fn end_of_stream_rel(
    pre: EngineModel,
    post: EngineModel,
    events: Seq<PlaybackEvent>,
    action: Option<EngineAction>,
) -> bool {
    if pre.state is Playing && pre.session is Some {
        if pre.buffer.len() > 0 {
            &&& post == pre
            &&& events.len() == 0
            &&& action == Some(EngineAction::Drain)
        } else {
            &&& post == stopped_model()
            &&& events == seq![
                PlaybackEvent::TrackEnded,
                PlaybackEvent::StateChanged(PlayerState::Stopped),
            ]
            &&& action is None
        }
    } else {
        unchanged_rel(pre, post, events, action)
    }
}

/// The full transition relation of the engine.
pub open spec fn step_rel(
    pre: EngineModel,
    input: EngineInput,
    post: EngineModel,
    events: Seq<PlaybackEvent>,
    action: Option<EngineAction>,
) -> bool {
    match input {
        EngineInput::Command(cmd) => command_rel(pre, cmd, post, events, action),
        EngineInput::Opened(info) => opened_rel(pre, info, post, events, action),
        EngineInput::OpenFailed(msg) => open_failed_rel(pre, msg@, post, events, action),
        EngineInput::SeekDone { target_ms, ok, message } => seek_done_rel(
            pre,
            target_ms,
            ok,
            message@,
            post,
            events,
            action,
        ),
        EngineInput::Packet { track_id, samples, report_position } => packet_rel(
            pre,
            track_id,
            samples@,
            report_position,
            post,
            events,
            action,
        ),
        EngineInput::DecodeError => unchanged_rel(pre, post, events, action),
        EngineInput::FatalError(msg) => fatal_rel(pre, msg@, post, events, action),
        EngineInput::EndOfStream => end_of_stream_rel(pre, post, events, action),
    }
}

/// The decode loop may decode one more packet exactly when a session is
/// playing and the buffered audio is at or below the backpressure
/// threshold of three seconds.
pub open spec fn decode_allowed(m: EngineModel) -> bool {
    &&& m.state is Playing
    &&& m.session matches Some(s) && m.buffer.len() <= 3 * (s.sample_rate as int) * (
    s.channels as int)
}

/// The playback engine.
pub struct Engine {
    state: PlayerState,
    session: Option<Session>,
    output: AudioOutput,
}

impl View for Engine {
    type V = EngineModel;

    closed spec fn view(&self) -> EngineModel {
        EngineModel {
            state: self.state,
            session: self.session,
            buffer: self.output@.buffer,
            paused: self.output@.paused,
        }
    }
}

impl Engine {
    /// Creates a stopped engine with no session and an empty buffer.
    pub fn new() -> (r: Engine)
        ensures
            r@ == stopped_model(),
            wf(r@),
    {
        let r = Engine { state: PlayerState::Stopped, session: None, output: AudioOutput::new() };
        proof {
            assert(r@ =~= stopped_model());
        }
        r
    }

    /// The externally visible state.
    pub fn current_state(&self) -> (s: PlayerState)
        ensures
            s == self@.state,
    {
        self.state
    }

    /// Number of buffered samples not yet handed to the device.
    pub fn buffered_samples(&self) -> (n: usize)
        ensures
            n == self@.buffer.len(),
    {
        self.output.buffer_len()
    }

    /// Whether the decode loop should decode one more packet now, or idle
    /// because there is nothing to do or the buffer is full enough.
    pub fn should_decode(&self) -> (b: bool)
        ensures
            b == decode_allowed(self@),
    {
        match &self.session {
            Some(s) => {
                if matches!(self.state, PlayerState::Playing) {
                    proof {
                        assert(3 * (s.sample_rate as int) * (s.channels as int) <= 3 * (
                        u32::MAX as int) * (u32::MAX as int)) by (nonlinear_arith)
                            requires
                                s.sample_rate <= u32::MAX,
                                s.channels <= u32::MAX,
                        ;
                    }
                    let threshold: u128 = 3u128 * (s.sample_rate as u128) * (s.channels as u128);
                    (self.output.buffer_len() as u128) <= threshold
                } else {
                    false
                }
            },
            None => false,
        }
    }

    /// The device callback: fills `n` output slots with buffered samples,
    /// or silence while paused or on underrun.  The playback state and the
    /// session are untouched.
    pub fn render_output(&mut self, n: usize) -> (out: Vec<i16>)
        requires
            wf(old(self)@),
        ensures
            wf(final(self)@),
            final(self)@.state == old(self)@.state,
            final(self)@.session == old(self)@.session,
            final(self)@.paused == old(self)@.paused,
            out@.len() == n,
            old(self)@.paused ==> final(self)@.buffer == old(self)@.buffer,
            !old(self)@.paused ==> ({
                let k = if n <= old(self)@.buffer.len() {
                    n as int
                } else {
                    old(self)@.buffer.len() as int
                };
                &&& final(self)@.buffer == old(self)@.buffer.skip(k)
                &&& out@.take(k) == old(self)@.buffer.take(k)
                &&& forall|i: int| k <= i < n ==> out@[i] == crate::ring::SILENCE
            }),
    {
        self.output.render(n)
    }

    /// Applies one input and returns the events to broadcast and the
    /// outside work to perform, exactly as [`step_rel`] describes.
    pub fn step(&mut self, input: EngineInput) -> (out: StepOutput)
        requires
            wf(old(self)@),
            input_ok(input),
        ensures
            wf(final(self)@),
            step_rel(old(self)@, input, final(self)@, out.events@, out.action),
    {
        let mut events: Vec<PlaybackEvent> = Vec::new();
        let mut action: Option<EngineAction> = None;
        match &input {
            EngineInput::Command(cmd) => match cmd {
                PlaybackCommand::Play { source, start_position_ms } => {
                    self.session = None;
                    self.state = PlayerState::Loading;
                    self.output.clear_buffer();
                    self.output.set_paused(false);
                    events.push(PlaybackEvent::StateChanged(PlayerState::Loading));
                    action = Some(
                        EngineAction::OpenSession {
                            source: source.clone(),
                            start_position_ms: *start_position_ms,
                        },
                    );
                    proof {
                        assert(self@ =~= EngineModel {
                            state: PlayerState::Loading,
                            session: None,
                            buffer: Seq::empty(),
                            paused: false,
                        });
                        assert(events@ =~= seq![
                            PlaybackEvent::StateChanged(PlayerState::Loading),
                        ]);
                    }
                },
                PlaybackCommand::Pause => {
                    if matches!(self.state, PlayerState::Playing) {
                        self.state = PlayerState::Paused;
                        self.output.set_paused(true);
                        events.push(PlaybackEvent::StateChanged(PlayerState::Paused));
                        proof {
                            assert(self@ =~= EngineModel {
                                state: PlayerState::Paused,
                                paused: true,
                                ..old(self)@
                            });
                            assert(events@ =~= seq![
                                PlaybackEvent::StateChanged(PlayerState::Paused),
                            ]);
                        }
                    }
                },
                PlaybackCommand::Resume => {
                    if matches!(self.state, PlayerState::Paused) {
                        self.state = PlayerState::Playing;
                        self.output.set_paused(false);
                        events.push(PlaybackEvent::StateChanged(PlayerState::Playing));
                        proof {
                            assert(self@ =~= EngineModel {
                                state: PlayerState::Playing,
                                paused: false,
                                ..old(self)@
                            });
                            assert(events@ =~= seq![
                                PlaybackEvent::StateChanged(PlayerState::Playing),
                            ]);
                        }
                    }
                },
                PlaybackCommand::Stop => {
                    self.session = None;
                    self.state = PlayerState::Stopped;
                    self.output.clear_buffer();
                    self.output.set_paused(false);
                    events.push(PlaybackEvent::StateChanged(PlayerState::Stopped));
                    proof {
                        assert(self@ =~= stopped_model());
                        assert(events@ =~= seq![
                            PlaybackEvent::StateChanged(PlayerState::Stopped),
                        ]);
                    }
                },
                PlaybackCommand::Seek(target_ms) => {
                    if self.session.is_some() {
                        self.output.clear_buffer();
                        action = Some(EngineAction::SeekDemuxer { target_ms: *target_ms });
                        proof {
                            assert(self@ =~= EngineModel { buffer: Seq::empty(), ..old(self)@ });
                        }
                    }
                },
                PlaybackCommand::SetSpeed(_) => {},
            },
            EngineInput::Opened(info) => {
                if matches!(self.state, PlayerState::Loading) {
                    let s = Session {
                        track_id: info.track_id,
                        sample_rate: info.sample_rate,
                        channels: info.channels,
                        frames_decoded: frames_of_ms(info.start_position_ms, info.sample_rate),
                        total_duration_ms: info.total_duration_ms,
                    };
                    self.session = Some(s);
                    self.state = PlayerState::Playing;
                    self.output.set_paused(false);
                    match info.total_duration_ms {
                        Some(d) => {
                            events.push(PlaybackEvent::DurationChanged(d));
                            events.push(PlaybackEvent::StateChanged(PlayerState::Playing));
                            proof {
                                assert(events@ =~= seq![
                                    PlaybackEvent::DurationChanged(d),
                                    PlaybackEvent::StateChanged(PlayerState::Playing),
                                ]);
                            }
                        },
                        None => {
                            events.push(PlaybackEvent::StateChanged(PlayerState::Playing));
                            proof {
                                assert(events@ =~= seq![
                                    PlaybackEvent::StateChanged(PlayerState::Playing),
                                ]);
                            }
                        },
                    }
                    proof {
                        assert(self@ =~= EngineModel {
                            state: PlayerState::Playing,
                            session: Some(s),
                            buffer: Seq::empty(),
                            paused: false,
                        });
                    }
                }
            },
            EngineInput::OpenFailed(msg) => {
                if matches!(self.state, PlayerState::Loading) {
                    self.state = PlayerState::Stopped;
                    events.push(PlaybackEvent::Error(msg.clone()));
                    events.push(PlaybackEvent::StateChanged(PlayerState::Stopped));
                    proof {
                        assert(self@ =~= stopped_model());
                    }
                }
            },
            EngineInput::SeekDone { target_ms, ok, message } => {
                if self.session.is_some() {
                    if *ok {
                        let s = self.session.as_ref().unwrap();
                        let s2 = Session {
                            frames_decoded: frames_of_ms(*target_ms, s.sample_rate),
                            ..*s
                        };
                        self.session = Some(s2);
                        events.push(PlaybackEvent::PositionUpdate(*target_ms));
                        proof {
                            assert(self@ =~= EngineModel { session: Some(s2), ..old(self)@ });
                            assert(events@ =~= seq![
                                PlaybackEvent::PositionUpdate(*target_ms),
                            ]);
                        }
                    } else {
                        events.push(PlaybackEvent::Error(message.clone()));
                    }
                }
            },
            EngineInput::Packet { track_id, samples, report_position } => {
                if matches!(self.state, PlayerState::Playing) && self.session.is_some() {
                    let s = *self.session.as_ref().unwrap();
                    if *track_id == s.track_id {
                        self.output.write_samples(samples);
                        let delta = (samples.len() as u64) / (s.channels as u64);
                        let nf = add_frames(s.frames_decoded, delta);
                        let s2 = Session { frames_decoded: nf, ..s };
                        self.session = Some(s2);
                        if *report_position {
                            let pos = ms_of_frames(nf, s.sample_rate);
                            events.push(PlaybackEvent::PositionUpdate(pos));
                            proof {
                                assert(events@ =~= seq![PlaybackEvent::PositionUpdate(pos)]);
                            }
                        }
                        proof {
                            assert((samples@.len() as nat) / (s.channels as nat) == delta as nat);
                            assert(self@ =~= EngineModel {
                                session: Some(s2),
                                buffer: old(self)@.buffer + samples@,
                                ..old(self)@
                            });
                        }
                    }
                }
            },
            EngineInput::DecodeError => {},
            EngineInput::FatalError(msg) => {
                if self.session.is_some() {
                    self.session = None;
                    self.state = PlayerState::Stopped;
                    self.output.clear_buffer();
                    self.output.set_paused(false);
                    events.push(PlaybackEvent::Error(msg.clone()));
                    events.push(PlaybackEvent::StateChanged(PlayerState::Stopped));
                    proof {
                        assert(self@ =~= stopped_model());
                    }
                }
            },
            EngineInput::EndOfStream => {
                if matches!(self.state, PlayerState::Playing) && self.session.is_some() {
                    if self.output.buffer_len() > 0 {
                        action = Some(EngineAction::Drain);
                    } else {
                        self.session = None;
                        self.state = PlayerState::Stopped;
                        self.output.set_paused(false);
                        events.push(PlaybackEvent::TrackEnded);
                        events.push(PlaybackEvent::StateChanged(PlayerState::Stopped));
                        proof {
                            assert(self@ =~= stopped_model());
                            assert(events@ =~= seq![
                                PlaybackEvent::TrackEnded,
                                PlaybackEvent::StateChanged(PlayerState::Stopped),
                            ]);
                        }
                    }
                }
            },
        }
        StepOutput { events, action }
    }
}

} // verus!
