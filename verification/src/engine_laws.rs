//! Proved laws of the playback engine.
//!
//! Each proof function here states a property of the transition relation
//! [`step_rel`](crate::engine::step_rel) that holds for every reachable
//! engine state, not just for chosen inputs.

use crate::engine::{
    input_ok, stopped_model, step_rel, wf, EngineAction, EngineInput, EngineModel, PlaybackCommand,
    PlaybackEvent, PlayerState, SessionInfo,
};
use crate::timecode::{spec_clamped_frames, spec_frames_of_ms, spec_ms_of_frames, MAX_FRAMES};
use vstd::arithmetic::div_mod::lemma_fundamental_div_mod;
use vstd::prelude::*;

verus! {

/// Number of live decode sessions in a state.
pub open spec fn session_count(m: EngineModel) -> int {
    if m.session is Some {
        1
    } else {
        0
    }
}

/// Every step from a well-formed state leads to a well-formed state, and
/// in every such state at most one session is alive: a `Play` drops the
/// old session before the open of the new one is even requested, so no
/// two decode loops can ever coexist.
pub proof fn lemma_step_preserves_wf(
    pre: EngineModel,
    input: EngineInput,
    post: EngineModel,
    events: Seq<PlaybackEvent>,
    action: Option<EngineAction>,
)
    requires
        wf(pre),
        input_ok(input),
        step_rel(pre, input, post, events, action),
    ensures
        wf(post),
        session_count(post) <= 1,
{
}

/// A run of the engine: a sequence of states linked step by step through
/// the transition relation by the given inputs, events and actions.
pub open spec fn spec_run(
    states: Seq<EngineModel>,
    inputs: Seq<EngineInput>,
    events: Seq<Seq<PlaybackEvent>>,
    actions: Seq<Option<EngineAction>>,
) -> bool {
    &&& states.len() == inputs.len() + 1
    &&& events.len() == inputs.len()
    &&& actions.len() == inputs.len()
    &&& forall|i: int|
        #![trigger inputs[i]]
        0 <= i < inputs.len() ==> input_ok(inputs[i]) && step_rel(
            states[i],
            inputs[i],
            states[i + 1],
            events[i],
            actions[i],
        )
}

/// Along any run that starts from a well-formed state, every state is
/// well formed and holds at most one live session — whatever the inputs,
/// no sequence of commands ever brings two decode sessions to life.
pub proof fn lemma_run_single_session(
    states: Seq<EngineModel>,
    inputs: Seq<EngineInput>,
    events: Seq<Seq<PlaybackEvent>>,
    actions: Seq<Option<EngineAction>>,
    i: int,
)
    requires
        spec_run(states, inputs, events, actions),
        wf(states[0]),
        0 <= i < states.len(),
    ensures
        wf(states[i]),
        session_count(states[i]) <= 1,
    decreases i,
{
    if i > 0 {
        lemma_run_single_session(states, inputs, events, actions, i - 1);
        lemma_step_preserves_wf(
            states[i - 1],
            inputs[i - 1],
            states[i],
            events[i - 1],
            actions[i - 1],
        );
    }
}

/// `Stop` from any state, well formed or not even that, always yields the
/// stopped state with no session and an empty sample queue, and announces
/// exactly the one state change.
pub proof fn lemma_stop_always_stops(
    pre: EngineModel,
    post: EngineModel,
    events: Seq<PlaybackEvent>,
    action: Option<EngineAction>,
)
    requires
        step_rel(pre, EngineInput::Command(PlaybackCommand::Stop), post, events, action),
    ensures
        post.state is Stopped,
        post.session is None,
        post.buffer.len() == 0,
        !post.paused,
        events == seq![PlaybackEvent::StateChanged(PlayerState::Stopped)],
        action is None,
{
}

/// `Pause` immediately followed by `Resume` restores the playing state and
/// leaves the session, and with it the decoded-frame counter that every
/// reported position is computed from, exactly as it was; the buffered
/// audio is untouched as well.
pub proof fn lemma_pause_resume_keeps_position(
    pre: EngineModel,
    mid: EngineModel,
    post: EngineModel,
    e1: Seq<PlaybackEvent>,
    a1: Option<EngineAction>,
    e2: Seq<PlaybackEvent>,
    a2: Option<EngineAction>,
)
    requires
        wf(pre),
        pre.state is Playing,
        step_rel(pre, EngineInput::Command(PlaybackCommand::Pause), mid, e1, a1),
        step_rel(mid, EngineInput::Command(PlaybackCommand::Resume), post, e2, a2),
    ensures
        post == pre,
{
    assert(post =~= pre);
}

/// End of stream never ends the track while audio is still buffered: the
/// engine only asks for a drain.  Once the buffer is empty it emits
/// exactly one `TrackEnded` followed by exactly one
/// `StateChanged(Stopped)` and drops the session.
pub proof fn lemma_end_of_stream_events(
    pre: EngineModel,
    post: EngineModel,
    events: Seq<PlaybackEvent>,
    action: Option<EngineAction>,
)
    requires
        wf(pre),
        pre.state is Playing,
        step_rel(pre, EngineInput::EndOfStream, post, events, action),
    ensures
        pre.buffer.len() == 0 ==> post == stopped_model() && events == seq![
            PlaybackEvent::TrackEnded,
            PlaybackEvent::StateChanged(PlayerState::Stopped),
        ],
        pre.buffer.len() > 0 ==> post == pre && events.len() == 0 && action == Some(
            EngineAction::Drain,
        ),
{
}

/// A successful seek reports the seek target itself as the new position,
/// immediately, and recomputes the frame counter from the target rather
/// than from zero.
pub proof fn lemma_seek_reports_target(
    pre: EngineModel,
    target_ms: u64,
    msg: String,
    post: EngineModel,
    events: Seq<PlaybackEvent>,
    action: Option<EngineAction>,
)
    requires
        pre.session is Some,
        step_rel(
            pre,
            EngineInput::SeekDone { target_ms, ok: true, message: msg },
            post,
            events,
            action,
        ),
    ensures
        events == seq![PlaybackEvent::PositionUpdate(target_ms)],
        post.session matches Some(s2) && s2.frames_decoded == spec_clamped_frames(
            target_ms as nat,
            pre.session->Some_0.sample_rate as nat,
        ),
        post.state == pre.state,
{
}

/// After a seek to `p` whose frame count is not clamped, the position
/// reported once the next packet of `k` frames is decoded differs from
/// `p` by at most that packet's own duration, plus integer-rounding slack
/// of one millisecond upward and one frame plus a millisecond downward.
/// In particular it is neither reset to zero nor stale.
pub proof fn lemma_position_after_seek_packet(p: u64, rate: u32, k: nat)
    requires
        1 <= rate,
        spec_frames_of_ms(p as nat, rate as nat) + k <= MAX_FRAMES as nat,
    ensures
        ({
            let f0 = spec_frames_of_ms(p as nat, rate as nat);
            let v = spec_ms_of_frames(f0 + k, rate as nat);
            &&& v <= p + spec_ms_of_frames(k, rate as nat) + 1
            &&& (p - v) * (rate as int) <= 1000 + rate
        }),
{
    let pi = p as int;
    let r = rate as int;
    let f0 = (pi * r) / 1000;
    let ki = k as int;
    let v = ((f0 + ki) * 1000) / r;
    let q = (ki * 1000) / r;
    lemma_fundamental_div_mod(pi * r, 1000);
    let r1 = (pi * r) % 1000;
    lemma_fundamental_div_mod((f0 + ki) * 1000, r);
    let r2 = ((f0 + ki) * 1000) % r;
    lemma_fundamental_div_mod(ki * 1000, r);
    let r3 = (ki * 1000) % r;
    assert(pi * r == 1000 * f0 + r1);
    assert((f0 + ki) * 1000 == r * v + r2);
    assert(ki * 1000 == r * q + r3);
    assert((f0 + ki) * 1000 == f0 * 1000 + ki * 1000) by (nonlinear_arith);
    assert(f0 * 1000 == 1000 * f0) by (nonlinear_arith);
    // r * v == pi * r - r1 + r * q + r3 - r2
    assert(r * v == pi * r + r * q + r3 - r1 - r2);
    // upper bound: r * v <= r * (pi + q + 1)
    assert(r3 < r && r2 >= 0 && r1 >= 0);
    assert(r * v < pi * r + r * q + r);
    assert(r * (pi + q + 1) == pi * r + r * q + r) by (nonlinear_arith);
    assert(r * v < r * (pi + q + 1));
    assert(v < pi + q + 1) by (nonlinear_arith)
        requires
            r * v < r * (pi + q + 1),
            r >= 1,
    ;
    // lower bound: r * (pi - v) <= 1000 + r
    assert(r1 < 1000 && r2 < r && r3 >= 0 && q >= 0 && r * q >= 0) by (nonlinear_arith)
        requires
            r1 < 1000,
            r2 < r,
            r3 >= 0,
            q >= 0,
            r >= 1,
            r1 == (pi * r) % 1000,
            r2 == ((f0 + ki) * 1000) % r,
            r3 == (ki * 1000) % r,
            ki >= 0,
    ;
    assert(r * v >= pi * r - r1 - r2);
    assert(r * v > pi * r - 1000 - r);
    assert((pi - v) * r == pi * r - r * v) by (nonlinear_arith);
    assert((pi - v) * r < 1000 + r);
}

/// The engine is deterministic: from equal states, equal open outcomes
/// produce equal events.  In particular, loading the same source twice
/// reports the same total duration both times.
pub proof fn lemma_duration_round_trip(
    pre1: EngineModel,
    pre2: EngineModel,
    info: SessionInfo,
    post1: EngineModel,
    post2: EngineModel,
    events1: Seq<PlaybackEvent>,
    events2: Seq<PlaybackEvent>,
    a1: Option<EngineAction>,
    a2: Option<EngineAction>,
)
    requires
        wf(pre1),
        wf(pre2),
        pre1.state is Loading,
        pre2.state is Loading,
        step_rel(pre1, EngineInput::Opened(info), post1, events1, a1),
        step_rel(pre2, EngineInput::Opened(info), post2, events2, a2),
    ensures
        events1 == events2,
        post1 == post2,
        info.total_duration_ms matches Some(d) ==> events1.len() == 2 && events1[0]
            == PlaybackEvent::DurationChanged(d),
{
}

} // verus!
