//! What holds of the tasks over their whole life.
//!
//! The state is shared: between two calls of a task anything else may have
//! changed it. So every law here is stated for one call on an arbitrary state,
//! or for a whole history of calls on arbitrary states.

use crate::backend::dynamic::approach_stepped;
use crate::backend::dynamic::dynamic_admitted;
use crate::backend::dynamic::dynamic_approach;
use crate::backend::dynamic::dynamic_labelled;
use crate::backend::dynamic::dynamic_stepped;
use crate::backend::dynamic::dynamic_stride;
use crate::backend::dynamic::dynamic_watch;
use crate::backend::dynamic::dynamic_wound;
use crate::backend::dynamic::stopped_result;
use crate::backend::dynamic::stride_for;
use crate::backend::dynamic::ApproachPhase;
use crate::backend::dynamic::DynamicPhase;
use crate::backend::dynamic::DynamicRun;
use crate::backend::dynamic::PreRotation;
use crate::backend::dynamic::DYNAMIC_BUDGET_NS;
use crate::backend::measurement::camera_lost;
use crate::backend::measurement::elapsed_ns;
use crate::backend::measurement::OFFSET_STEPS;
use crate::backend::measurement::SEARCH_BUDGET_NS;
use crate::backend::measurement::midpoint_of;
use crate::backend::measurement::next_index;
use crate::backend::measurement::nudge_for;
use crate::backend::measurement::search_admitted;
use crate::backend::measurement::search_begun;
use crate::backend::measurement::search_branch;
use crate::backend::measurement::search_center;
use crate::backend::measurement::search_kick;
use crate::backend::measurement::search_labelled;
use crate::backend::measurement::search_nudge;
use crate::backend::measurement::search_nudged;
use crate::backend::measurement::search_resumed;
use crate::backend::measurement::search_stepped;
use crate::backend::measurement::BracketSearch;
use crate::backend::measurement::Purpose;
use crate::backend::measurement::SearchPhase;
use crate::backend::motor::driven;
use crate::backend::motor::lost_notes;
use crate::backend::motor::settled;
use crate::backend::motor::motor_stepped;
use crate::backend::motor::with_position;
use crate::backend::motor::MotorTask;
use crate::backend::motor::motor_lost;
use crate::backend::motor::Mover;
use crate::backend::motor::Stepped;
use crate::backend::motor::Verdict;
use crate::backend::task::Action;
use crate::backend::task::Event;
use crate::backend::task::Observation;
use crate::backend::BackendState;
use crate::backend::MeasurementState;
use crate::communication::camera_note;
use crate::communication::fault_of;
use crate::communication::static_results_note;
use crate::communication::steps_note;
use crate::communication::DynamicResult;
use crate::communication::Rejection;
use crate::communication::StaticResult;
use crate::communication::TaskError;
use crate::communication::UpdateView;
use crate::protocol::displacement;
use crate::protocol::nudge_at;
use crate::protocol::AckOutcome;
use crate::protocol::MoveMode;
use crate::protocol::UnitCommand;
use crate::rotation::lemma_passage_arrives;
use crate::rotation::lemma_position_concat;
use crate::rotation::lemma_rotate_there_and_back;
use crate::rotation::lemma_rotation_arrives;
use crate::rotation::position_after;
use crate::rotation::rotation_script;
use crate::rotation::shifted;
use crate::protocol::STEPS_PER_DEGREE;
use crate::window::Label;
use crate::window::PredictionWindow;
use vstd::prelude::*;

verus! {

/// One call of a task: the state it found, what was seen, what had happened.
pub ghost struct Call {
    pub state: BackendState,
    pub observation: Observation,
    pub event: Event,
}

/// The step position moves only on an acknowledgment that was due, and then
/// by the steps of the command that was out; any other call leaves it as it
/// is, or forgets it together with the port.
pub proof fn lemma_position_moves_on_acknowledgment_only(
    mover: Mover,
    state: BackendState,
    event: Event,
)
    requires
        mover.wf(),
    ensures
        ({
            let d = driven(mover, state, event);
            let before = state.measurement.current_steps;
            let after = d.state.measurement.current_steps;
            let lost = after is None && !d.state.devices.serial_connected;
            if mover.awaits_reply() && event == Event::Reply(AckOutcome::Acked) {
                after == shifted(before, mover.script()[0].delta as int) || lost
            } else {
                after == before || lost
            }
        }),
{
    mover.lemma_driven(state, event);
}

/// A motor task after it was begun and then got `acks` acknowledgments in
/// a row, while nothing else touched the state and nobody set its token.
pub open spec fn motor_run(task: MotorTask, state: BackendState, acks: nat) -> Stepped<
    MotorTask,
    (),
>
    decreases acks,
{
    if acks == 0 {
        motor_stepped(task, state, false, Event::Resume)
    } else {
        let before = motor_run(task, state, (acks - 1) as nat);
        motor_stepped(before.task, before.state, false, Event::Reply(AckOutcome::Acked))
    }
}

/// A move is sent command by command, and the position follows the
/// acknowledgments: after `acks` of them it stands where the first `acks`
/// commands of the script take it, the next command's byte is out, and
/// after the last one the task ends well.
pub proof fn lemma_motor_run(task: MotorTask, state: BackendState, acks: nat)
    requires
        task.over is None,
        task.mover.wf(),
        !task.mover.awaits_reply(),
        state.devices.serial_connected,
        acks <= task.mover.script().len(),
    ensures
        ({
            let x = motor_run(task, state, acks);
            let script = task.mover.script();
            &&& x.state == with_position(
                state,
                position_after(state.measurement.current_steps, script.take(acks as int)),
            )
            &&& x.task.mover.wf()
            &&& x.task.mover.script() == script.skip(acks as int)
            &&& acks < script.len() ==> x.action == Action::Send(script[acks as int].byte)
                && x.task.over is None && x.task.mover.awaits_reply()
            &&& acks == script.len() ==> x.action == Action::Finished(Ok(()))
        }),
    decreases acks,
{
    let script = task.mover.script();
    let start = state.measurement.current_steps;
    if acks == 0 {
        task.mover.lemma_driven(state, Event::Resume);
    } else {
        let k = (acks - 1) as nat;
        lemma_motor_run(task, state, k);
        let before = motor_run(task, state, k);
        before.task.mover.lemma_driven(before.state, Event::Reply(AckOutcome::Acked));
        assert(script.take(acks as int) =~= script.take(k as int) + seq![script[k as int]]);
        lemma_position_concat(start, script.take(k as int), seq![script[k as int]]);
        let reached = position_after(start, script.take(k as int));
        let next = shifted(reached, script[k as int].delta as int);
        assert(seq![script[k as int]].drop_first() =~= Seq::<UnitCommand>::empty());
        assert(position_after(next, Seq::<UnitCommand>::empty()) == next);
    }
}

/// A relative move by `steps` that is acknowledged throughout, followed at
/// once by one by `-steps` that is acknowledged throughout, leaves the whole
/// state as it was: the step position returns to its value exactly.
pub proof fn lemma_rotate_relative_and_back(state: BackendState, steps: i32)
    requires
        state.devices.serial_connected,
        steps != i32::MIN,
        state.measurement.current_steps matches Some(p) ==> i32::MIN <= p + steps <= i32::MAX,
    ensures
        ({
            let reverse = state.rotation_direction_need_reverse;
            let out = MotorTask { mover: Mover::rotating(steps as int, reverse, false), over: None };
            let there = motor_run(out, state, rotation_script(steps as int, reverse).len());
            let back = MotorTask {
                mover: Mover::rotating(-(steps as int), reverse, false),
                over: None,
            };
            let home = motor_run(back, there.state, rotation_script(-(steps as int), reverse).len());
            &&& there.action == Action::Finished(Ok(()))
            &&& there.state == with_position(
                state,
                shifted(state.measurement.current_steps, steps as int),
            )
            &&& home.action == Action::Finished(Ok(()))
            &&& home.state == state
        }),
{
    let reverse = state.rotation_direction_need_reverse;
    let start = state.measurement.current_steps;
    let out = MotorTask { mover: Mover::rotating(steps as int, reverse, false), over: None };
    let back = MotorTask { mover: Mover::rotating(-(steps as int), reverse, false), over: None };
    Mover::lemma_scripts(steps, 0, 0, MoveMode::StepForward, reverse, false);
    Mover::lemma_scripts((-steps) as i32, 0, 0, MoveMode::StepForward, reverse, false);
    let script_out = rotation_script(steps as int, reverse);
    let script_back = rotation_script(-(steps as int), reverse);
    lemma_motor_run(out, state, script_out.len());
    assert(script_out.take(script_out.len() as int) =~= script_out);
    lemma_rotation_arrives(start, steps, reverse);
    let there = motor_run(out, state, script_out.len());
    lemma_motor_run(back, there.state, script_back.len());
    assert(script_back.take(script_back.len() as int) =~= script_back);
    lemma_rotate_there_and_back(start, steps, reverse, reverse);
    let home = motor_run(back, there.state, script_back.len());
}

/// The second boundary stands only where the first does.
pub open spec fn boundaries_in_order(m: BracketSearch) -> bool {
    m.boundary2 is Some ==> m.boundary1 is Some
}

/// The search after a history of calls.
pub open spec fn search_after(m: BracketSearch, calls: Seq<Call>) -> BracketSearch
    decreases calls.len(),
{
    if calls.len() == 0 {
        m
    } else {
        search_after(
            search_stepped(m, calls[0].state, calls[0].observation, calls[0].event).task,
            calls.drop_first(),
        )
    }
}

/// How the boundaries of a search may differ after a call: a second boundary
/// is noted only where a first one stands already, and where a first one is
/// noted the window and the reference phase are cleared, so that the second
/// approach starts afresh.
pub open spec fn noted_in_order(m: BracketSearch, after: BracketSearch) -> bool {
    &&& boundaries_in_order(m) ==> boundaries_in_order(after)
    &&& after.boundary2 is Some && after.boundary2 != m.boundary2 ==> m.boundary1 is Some
        && after.boundary1 == m.boundary1
    &&& after.boundary1 is Some && m.boundary1 is None ==> after.first is None && after.window
        == PredictionWindow::blank() && after.boundary2 == m.boundary2
}

proof fn lemma_nudged_in_order(
    m: BracketSearch,
    s: BackendState,
    mode: MoveMode,
    flip: bool,
    adopt: Option<Label>,
    notes: Seq<UpdateView>,
)
    ensures
        noted_in_order(m, search_nudged(m, s, mode, flip, adopt, notes).task),
{
}

proof fn lemma_nudge_in_order(
    m: BracketSearch,
    s: BackendState,
    mover: Mover,
    mode: MoveMode,
    flip: bool,
    adopt: Option<Label>,
    event: Event,
    notes: Seq<UpdateView>,
)
    ensures
        noted_in_order(m, search_nudge(m, s, mover, mode, flip, adopt, event, notes).task),
{
    let d = driven(mover, s, event);
    lemma_nudged_in_order(m, d.state, mode, flip, adopt, notes + d.notes);
}

proof fn lemma_branch_in_order(
    m: BracketSearch,
    s: BackendState,
    adopt: Option<Label>,
    notes: Seq<UpdateView>,
)
    ensures
        noted_in_order(m, search_branch(m, s, adopt, notes).task),
{
    lemma_nudge_in_order(
        m,
        s,
        Mover::nudging(
            nudge_for(m.window, m.first),
            s.rotation_direction_need_reverse,
            m.find_zero,
        ),
        nudge_for(m.window, m.first),
        m.window.flips_from(m.first),
        adopt,
        Event::Resume,
        notes,
    );
}

proof fn lemma_kick_in_order(
    m: BracketSearch,
    s: BackendState,
    mover: Mover,
    adopt: Option<Label>,
    event: Event,
    notes: Seq<UpdateView>,
)
    ensures
        noted_in_order(m, search_kick(m, s, mover, adopt, event, notes).task),
{
    let d = driven(mover, s, event);
    lemma_branch_in_order(m, d.state, adopt, notes + d.notes);
}

proof fn lemma_labelled_in_order(m: BracketSearch, s: BackendState, raw: Label)
    ensures
        noted_in_order(m, search_labelled(m, s, raw).task),
{
    let label = raw.spec_flipped_if(m.invert);
    let window = m.window.pushed(label);
    let seen = BracketSearch {
        window,
        first: if m.first is None {
            Some(label)
        } else {
            m.first
        },
        kicked: true,
        ..m
    };
    lemma_branch_in_order(seen, s, window.unanimous(), Seq::empty());
    lemma_kick_in_order(
        seen,
        s,
        Mover::rotating(
            if label == Label::Zero {
                STEPS_PER_DEGREE as int
            } else {
                -STEPS_PER_DEGREE
            },
            s.rotation_direction_need_reverse,
            m.find_zero,
        ),
        window.unanimous(),
        Event::Resume,
        Seq::empty(),
    );
}

proof fn lemma_begun_in_order(
    m: BracketSearch,
    s: BackendState,
    observation: Observation,
    notes: Seq<UpdateView>,
)
    ensures
        noted_in_order(m, search_begun(m, s, observation, notes).task),
{
}

proof fn lemma_center_in_order(
    m: BracketSearch,
    s: BackendState,
    observation: Observation,
    mover: Mover,
    event: Event,
    notes: Seq<UpdateView>,
)
    ensures
        noted_in_order(m, search_center(m, s, observation, mover, event, notes).task),
{
    let d = driven(mover, s, event);
    let rest = BracketSearch {
        runs_left: if m.runs_left > 1 {
            (m.runs_left - 1) as i32
        } else {
            0
        },
        ..m
    };
    lemma_begun_in_order(rest, d.state, observation, notes + d.notes);
    match d.state.measurement.current_steps {
        Some(p) => {
            let record = StaticResult {
                index: next_index(d.state.measurement.static_results@.len()),
                steps: p,
            };
            lemma_begun_in_order(
                rest,
                d.state,
                observation,
                notes + d.notes + seq![
                    static_results_note(d.state.measurement.static_results@.push(record)),
                ],
            );
        },
        None => {},
    }
}

proof fn lemma_resumed_in_order(
    m: BracketSearch,
    s: BackendState,
    observation: Observation,
    last: bool,
    adopt: Option<Label>,
)
    ensures
        noted_in_order(m, search_resumed(m, s, observation, last, adopt).task),
{
    let notes = if m.find_zero {
        Seq::empty()
    } else {
        seq![steps_note(s.measurement.current_steps)]
    };
    match (m.boundary1, m.boundary2, s.measurement.current_steps) {
        (Some(a), Some(b), Some(p)) => {
            lemma_center_in_order(
                m,
                s,
                observation,
                Mover::passing(
                    p as int,
                    midpoint_of(a as int, b as int),
                    s.rotation_direction_need_reverse,
                    m.find_zero,
                ),
                Event::Resume,
                notes,
            );
        },
        _ => {},
    }
}

/// One call of a bracket search notes a second boundary only where a first
/// one stands already, and where it notes a first one it clears the window
/// and the reference phase, so that the second approach starts afresh.
pub proof fn lemma_second_boundary_follows_first(
    m: BracketSearch,
    s: BackendState,
    observation: Observation,
    event: Event,
)
    ensures
        noted_in_order(m, search_stepped(m, s, observation, event).task),
{
    match m.phase {
        SearchPhase::Over(_) => {},
        SearchPhase::Ready => {
            lemma_begun_in_order(m, s, observation, Seq::empty());
        },
        SearchPhase::Watching => {
            match event {
                Event::Label(Some(raw)) => {
                    lemma_labelled_in_order(m, s, raw);
                },
                _ => {},
            }
        },
        SearchPhase::Moving { mover, purpose, adopt } => {
            match purpose {
                Purpose::Kick => {
                    lemma_kick_in_order(m, s, mover, adopt, event, Seq::empty());
                },
                Purpose::Nudge { mode, flip } => {
                    lemma_nudge_in_order(m, s, mover, mode, flip, adopt, event, Seq::empty());
                },
                Purpose::Offset => {},
                Purpose::Center => {
                    lemma_center_in_order(m, s, observation, mover, event, Seq::empty());
                },
            }
        },
        SearchPhase::Settling { pause_ms, last, adopt } => {
            match event {
                Event::Resume => {
                    lemma_resumed_in_order(m, s, observation, last, adopt);
                },
                _ => {},
            }
        },
    }
}

/// A bracket search never holds a second boundary without a first, whatever
/// the history of its calls and whatever the rest of the system did to the
/// state in between.
pub proof fn lemma_boundaries_stay_in_order(find_zero: bool, times: i32, calls: Seq<Call>)
    ensures
        boundaries_in_order(search_after(search_admitted(find_zero, times), calls)),
{
    lemma_order_is_kept(search_admitted(find_zero, times), calls);
}

proof fn lemma_order_is_kept(m: BracketSearch, calls: Seq<Call>)
    requires
        boundaries_in_order(m),
    ensures
        boundaries_in_order(search_after(m, calls)),
    decreases calls.len(),
{
    if calls.len() > 0 {
        lemma_second_boundary_follows_first(
            m,
            calls[0].state,
            calls[0].observation,
            calls[0].event,
        );
        lemma_order_is_kept(
            search_stepped(m, calls[0].state, calls[0].observation, calls[0].event).task,
            calls.drop_first(),
        );
    }
}

/// The resetting nudge that answers a consensus flip from a reference:
/// backward from a reference of zero, forward otherwise.
pub open spec fn reset_for(first: Option<Label>) -> MoveMode {
    if first == Some(Label::Zero) {
        MoveMode::ResetBackward
    } else {
        MoveMode::ResetForward
    }
}

/// The swing that follows the first boundary: away from the side that the
/// resetting nudge came from.
pub open spec fn swing_after(mode: MoveMode) -> int {
    if mode == MoveMode::ResetBackward {
        -OFFSET_STEPS
    } else {
        OFFSET_STEPS as int
    }
}

/// The first consensus flip of a run. A reading that makes the window flip
/// from the reference sends the resetting nudge, and touches neither the
/// state nor the boundaries. When the acknowledgment comes, the position
/// moves by the nudge; the place where the motor then stands is noted as the
/// first boundary, the reference and the window are cleared, and the swing to
/// the other side begins: its first byte goes out, and the search goes on.
/// Only a search that does not know where the motor stands ends there, with
/// `PositionUnknown`.
pub proof fn lemma_first_flip_notes_a_boundary(
    m: BracketSearch,
    s: BackendState,
    observation: Observation,
    raw: Label,
    later: Observation,
)
    requires
        m.phase is Watching,
        m.kicked,
        m.boundary1 is None,
        m.window.pushed(raw.spec_flipped_if(m.invert)).flips_from(m.first),
        s.devices.serial_connected,
        !observation.cancelled,
        !later.cancelled,
    ensures
        ({
            let mode = reset_for(m.first);
            let reverse = s.rotation_direction_need_reverse;
            let nudge = nudge_at(mode, reverse);
            let swing = rotation_script(swing_after(mode), reverse);
            let x = search_stepped(m, s, observation, Event::Label(Some(raw)));
            let y = search_stepped(x.task, x.state, later, Event::Reply(AckOutcome::Acked));
            &&& x.action == Action::Send(nudge.byte)
            &&& x.state == s
            &&& x.task.boundary1 is None
            &&& x.task.boundary2 == m.boundary2
            &&& shifted(s.measurement.current_steps, nudge.delta as int) is None ==> y.action
                == Action::Finished(Err(TaskError::PositionUnknown))
            &&& shifted(s.measurement.current_steps, nudge.delta as int) matches Some(p) ==> {
                &&& y.state == with_position(s, Some(p))
                &&& y.task.boundary1 == Some(p)
                &&& y.task.boundary2 == m.boundary2
                &&& y.task.first is None
                &&& y.task.window == PredictionWindow::blank()
                &&& swing.len() > 0
                &&& y.action == Action::Send(swing[0].byte)
                &&& y.task.phase matches SearchPhase::Moving { mover, purpose, .. } && purpose
                    == Purpose::Offset && mover.script() == swing
            }
        }),
{
    let mode = reset_for(m.first);
    let reverse = s.rotation_direction_need_reverse;
    let label = raw.spec_flipped_if(m.invert);
    let window = m.window.pushed(label);
    let seen = BracketSearch { window, kicked: true, ..m };
    assert(nudge_for(window, m.first) == mode);
    let nudging = Mover::nudging(mode, reverse, m.find_zero);
    Mover::lemma_scripts(OFFSET_STEPS, 0, 0, mode, reverse, m.find_zero);
    Mover::lemma_scripts((-OFFSET_STEPS) as i32, 0, 0, mode, reverse, m.find_zero);
    nudging.lemma_driven(s, Event::Resume);
    let x = search_stepped(m, s, observation, Event::Label(Some(raw)));
    assert(x == search_branch(seen, s, window.unanimous(), Seq::empty()));
    let out = driven(nudging, s, Event::Resume);
    out.mover.lemma_driven(s, Event::Reply(AckOutcome::Acked));
    let back = driven(out.mover, s, Event::Reply(AckOutcome::Acked));
    assert(out.mover.script().drop_first() =~= Seq::<UnitCommand>::empty());
    let swing = rotation_script(swing_after(mode), reverse);
    lemma_rotation_arrives(None, swing_after(mode) as i32, reverse);
    assert(swing.len() > 0) by {
        if swing.len() == 0 {
            assert(displacement(swing) == 0);
        }
    }
    let swinging = Mover::rotating(swing_after(mode), reverse, m.find_zero);
    swinging.lemma_driven(back.state, Event::Resume);
}

/// Whether a call finds the search at the head of a cycle, where it looks at
/// the token, the clock and the camera.
pub open spec fn search_polls(m: BracketSearch, event: Event) -> bool {
    match m.phase {
        SearchPhase::Ready => m.runs_left > 0,
        SearchPhase::Watching => !(event matches Event::Label(Some(_))),
        SearchPhase::Settling { last, .. } => !last && event == Event::Resume,
        _ => false,
    }
}

/// Whether the verdict that comes with a call says that the motor did not
/// acknowledge the byte that was out.
pub open spec fn verdict_lost(mover: Option<Mover>, event: Event) -> bool {
    &&& mover matches Some(m) && m.awaits_reply()
    &&& event is Reply
    &&& event != Event::Reply(AckOutcome::Acked)
}

/// A bracket search that finds its token set is over with that call,
/// wherever it stands. It ends as cancelled, or as a failed bracket search
/// if one boundary had been found; only a verdict that comes with the call
/// and is not the acknowledgment ends it as disconnected instead. It leaves
/// the register free for the next task, and it leaves the devices as they
/// are unless the motor was just lost.
pub proof fn lemma_search_stops_when_cancelled(
    m: BracketSearch,
    s: BackendState,
    observation: Observation,
    event: Event,
)
    requires
        observation.cancelled,
        !(m.phase is Over),
        m.phase is Ready ==> m.runs_left > 0,
    ensures
        ({
            let x = search_stepped(m, s, observation, event);
            let lost = verdict_lost(search_mover(m), event);
            &&& x.action == Action::Finished(
                Err(
                    if lost {
                        TaskError::MotorDisconnected(fault_of(event->Reply_0))
                    } else if m.phase is Ready || m.boundary1 is None {
                        TaskError::Cancelled
                    } else {
                        TaskError::BracketSearchFailed
                    },
                ),
            )
            &&& x.task.phase is Over
            &&& x.record is None
            &&& x.state.measurement.static_task_token is None
            &&& x.state.devices.camera_connected == s.devices.camera_connected
            &&& !lost ==> x.state.devices == s.devices
            &&& m.find_zero ==> x.state.measurement.current_steps is None
        }),
{
}

/// A motor task that finds its token set is over with that call. The
/// verdict on the byte that was out is taken first, so the position stays
/// true; the task ends well if that was the last command, as disconnected if
/// the verdict was not the acknowledgment, and as cancelled otherwise.
pub proof fn lemma_move_stops_when_cancelled(task: MotorTask, state: BackendState, event: Event)
    requires
        task.over is None,
        task.mover.wf(),
    ensures
        ({
            let x = motor_stepped(task, state, true, event);
            let acked = task.mover.awaits_reply() && event == Event::Reply(AckOutcome::Acked);
            &&& x.action is Finished
            &&& x.task.over is Some
            &&& x.state.devices.camera_connected == state.devices.camera_connected
            &&& acked ==> x.state == with_position(
                state,
                shifted(state.measurement.current_steps, task.mover.script()[0].delta as int),
            )
            &&& !acked && !verdict_lost(Some(task.mover), event) ==> x.state == state
            &&& x.action == Action::Finished(Ok(())) <==> !verdict_lost(Some(task.mover), event)
                && x.task.mover.script().len() == 0
        }),
{
    task.mover.lemma_settled(state, event);
}

/// A bracket search that finds the camera gone, or its frame slot empty, at
/// the head of a cycle is over with that call and ends with
/// `CameraUnavailable`: it does not wait for a frame that will not come.
pub proof fn lemma_search_fails_without_camera(
    m: BracketSearch,
    s: BackendState,
    observation: Observation,
    event: Event,
)
    requires
        search_polls(m, event),
        !observation.cancelled,
        !(m.phase is Ready) ==> observation.now_ns <= m.started_ns + 90_000_000_000,
        !s.devices.camera_connected || !observation.frame_ready,
    ensures
        ({
            let x = search_stepped(m, s, observation, event);
            &&& x.action == Action::Finished(Err(TaskError::CameraUnavailable))
            &&& !x.state.devices.camera_connected
            &&& x.state.measurement.static_task_token is None
        }),
{
}

/// The move that a bracket search is making, if it is making one.
pub open spec fn search_mover(m: BracketSearch) -> Option<Mover> {
    match m.phase {
        SearchPhase::Moving { mover, .. } => Some(mover),
        _ => None,
    }
}

/// A bracket search whose command is not acknowledged is over with that
/// call and ends with `MotorDisconnected`, not with a timeout: the port is
/// dropped, the position is forgotten, and the disconnect notification comes
/// first among the updates.
pub proof fn lemma_search_fails_without_motor(
    m: BracketSearch,
    s: BackendState,
    observation: Observation,
    outcome: AckOutcome,
)
    requires
        search_mover(m) matches Some(mover) && mover.awaits_reply(),
        !(outcome is Acked),
    ensures
        ({
            let x = search_stepped(m, s, observation, Event::Reply(outcome));
            &&& x.action == Action::Finished(Err(TaskError::MotorDisconnected(fault_of(outcome))))
            &&& !x.state.devices.serial_connected
            &&& x.state.measurement.current_steps is None
            &&& x.state.measurement.static_task_token is None
            &&& x.notes.len() >= 2
            &&& x.notes.subrange(0, 2) == lost_notes()
        }),
{
    let x = search_stepped(m, s, observation, Event::Reply(outcome));
}

/// The experiment is on its way home whenever it says so.
pub open spec fn homeward_holds(m: DynamicRun) -> bool {
    (m.phase is Homing || m.phase is Over) ==> m.homeward
}

/// The experiment after a history of calls.
pub open spec fn dynamic_after(m: DynamicRun, calls: Seq<Call>) -> DynamicRun
    decreases calls.len(),
{
    if calls.len() == 0 {
        m
    } else {
        dynamic_after(
            dynamic_stepped(m, calls[0].state, calls[0].observation, calls[0].event).task,
            calls.drop_first(),
        )
    }
}

/// Whether a move is under way that leads from where the motor stands to
/// the zero point: its byte is out, the port is open, and the commands not
/// yet acknowledged take the position to zero.
pub open spec fn homebound(mover: Mover, s: BackendState) -> bool {
    &&& mover.wf()
    &&& mover.awaits_reply()
    &&& s.devices.serial_connected
    &&& position_after(s.measurement.current_steps, mover.script()) == Some(0i32)
}

/// What a call that winds an experiment up with `result` comes to: the way
/// home is taken, the register is free, the task is over exactly if the call
/// says so, and it ends well only if the experiment did and the motor stands
/// at the zero point. A way home that is not over at once leads to the zero
/// point.
pub open spec fn winds_up(x: Stepped<DynamicRun, DynamicResult>, result: Result<(), TaskError>) -> bool {
    &&& x.record is None
    &&& x.task.homeward
    &&& x.state.measurement.dynamic_task_token is None
    &&& x.task.phase is Over || x.task.phase is Homing
    &&& x.action is Finished <==> x.task.phase is Over
    &&& x.task.phase matches DynamicPhase::Homing { mover, result: kept } ==> kept == result
        && homebound(mover, x.state)
    &&& x.action == Action::Finished(Ok(())) ==> result is Ok && x.state.measurement.current_steps
        == Some(0i32)
}

/// What a call that does not wind an experiment up comes to: the task goes
/// on, and the way home is not yet taken.
pub open spec fn goes_on(m: DynamicRun, x: Stepped<DynamicRun, DynamicResult>) -> bool {
    &&& x.task.homeward == m.homeward
    &&& !(x.task.phase is Over)
    &&& !(x.task.phase is Homing)
    &&& !(x.action is Finished)
}

proof fn lemma_wound(
    m: DynamicRun,
    s: BackendState,
    result: Result<(), TaskError>,
    notes: Seq<UpdateView>,
)
    ensures
        winds_up(dynamic_wound(m, s, result, notes), result),
{
    if let Some(p) = s.measurement.current_steps {
        let reverse = s.rotation_direction_need_reverse;
        let mover = Mover::passing(p as int, 0, reverse, false);
        let cleared = BackendState {
            measurement: MeasurementState { dynamic_task_token: None, ..s.measurement },
            ..s
        };
        Mover::lemma_scripts(0, p, 0, MoveMode::StepForward, reverse, false);
        mover.lemma_driven(cleared, Event::Resume);
        lemma_passage_arrives(p, 0, reverse);
    }
}

proof fn lemma_stride(
    m: DynamicRun,
    s: BackendState,
    mover: Mover,
    event: Event,
    notes: Seq<UpdateView>,
)
    ensures
        ({
            let x = dynamic_stride(m, s, mover, event, notes);
            goes_on(m, x) || (exists|error: TaskError| winds_up(x, Err(error)))
        }),
{
    let d = driven(mover, s, event);
    match d.verdict {
        Verdict::Failed(error) => {
            lemma_wound(m, d.state, Err(error), notes + d.notes);
        },
        _ => {},
    }
}

proof fn lemma_watch(
    m: DynamicRun,
    s: BackendState,
    observation: Observation,
    notes: Seq<UpdateView>,
)
    ensures
        ({
            let x = dynamic_watch(m, s, observation, notes);
            ||| goes_on(m, x)
            ||| exists|error: TaskError| winds_up(x, Err(error))
            ||| winds_up(x, Ok(())) && s.measurement.dynamic_results@.len()
                >= s.measurement.dynamic_params.sample_points
        }),
{
    let x = dynamic_watch(m, s, observation, notes);
    if s.measurement.dynamic_results@.len() >= s.measurement.dynamic_params.sample_points {
        lemma_wound(m, s, Ok(()), notes);
    } else if observation.cancelled {
        lemma_wound(m, s, Err(TaskError::Cancelled), notes);
    } else {
        match s.measurement.dynamic_time {
            None => {
                let error = TaskError::PreconditionRejected(Rejection::ClockNotStarted);
                lemma_wound(m, s, Err(error), notes);
            },
            Some(since) => {
                let told = notes + seq![
                    steps_note(s.measurement.current_steps),
                    camera_note(false),
                ];
                if elapsed_ns(observation.now_ns, since) > DYNAMIC_BUDGET_NS {
                    lemma_wound(m, s, Err(TaskError::SearchTimeout), notes);
                } else if !s.devices.camera_connected {
                    lemma_wound(m, s, Err(TaskError::CameraUnavailable), told);
                } else if !observation.frame_ready {
                    lemma_wound(m, camera_lost(s), Err(TaskError::CameraUnavailable), told);
                }
            },
        }
    }
}

proof fn lemma_labelled(
    m: DynamicRun,
    s: BackendState,
    observation: Observation,
    raw: Label,
    notes: Seq<UpdateView>,
)
    ensures
        ({
            let x = dynamic_labelled(m, s, observation, raw, notes);
            &&& x.record is Some ==> s.measurement.dynamic_results@.len()
                < s.measurement.dynamic_params.sample_points
            &&& {
                ||| goes_on(m, x)
                ||| exists|error: TaskError| winds_up(x, Err(error))
                ||| winds_up(x, Ok(())) && s.measurement.dynamic_results@.len()
                    >= s.measurement.dynamic_params.sample_points
            }
        }),
{
    let x = dynamic_labelled(m, s, observation, raw, notes);
    let label = raw.spec_flipped_if(m.invert);
    let first = if m.first is None {
        Some(label)
    } else {
        m.first
    };
    let window = m.window.pushed(label);
    let seen = DynamicRun { window, first, ..m };
    if window.flips_from(first) && s.measurement.dynamic_results@.len()
        >= s.measurement.dynamic_params.sample_points {
        lemma_wound(seen, s, Ok(()), notes);
    } else if window.flips_from(first) {
        match (s.measurement.current_steps, s.measurement.dynamic_time) {
            (Some(_), Some(_)) => {},
            (None, _) => {
                lemma_wound(seen, s, Err(TaskError::PositionUnknown), notes);
            },
            (Some(_), None) => {
                let error = TaskError::PreconditionRejected(Rejection::ClockNotStarted);
                lemma_wound(seen, s, Err(error), notes);
            },
        }
    }
}

proof fn lemma_approach(
    m: DynamicRun,
    s: BackendState,
    observation: Observation,
    approach: PreRotation,
    event: Event,
    notes: Seq<UpdateView>,
)
    ensures
        ({
            let x = dynamic_approach(m, s, observation, approach, event, notes);
            goes_on(m, x) || (exists|error: TaskError| winds_up(x, Err(error)))
        }),
{
    let a = approach_stepped(approach, s, observation, event, notes);
    match a.action {
        Action::Finished(Ok(_)) => {
            lemma_stride(m, a.state, stride_for(a.state), Event::Resume, a.notes);
        },
        Action::Finished(Err(error)) => {
            lemma_wound(m, a.state, Err(error), a.notes);
        },
        _ => {},
    }
}

/// One call of a dynamic experiment ends the task only by way of the
/// wind-up, which frees the register and takes the way back to the zero
/// point. It winds up well only when the list holds as many results as were
/// asked for, and it records a result only while the list holds fewer: left
/// to itself, the experiment ends well with exactly as many results as were
/// asked for.
pub proof fn lemma_dynamic_ends_homeward(
    m: DynamicRun,
    s: BackendState,
    observation: Observation,
    event: Event,
)
    requires
        homeward_holds(m),
    ensures
        ({
            let x = dynamic_stepped(m, s, observation, event);
            &&& homeward_holds(x.task)
            &&& x.action is Finished ==> x.task.phase is Over && x.task.homeward
            &&& !m.homeward && x.task.homeward ==> x.state.measurement.dynamic_task_token is None
            &&& !m.homeward && (x.task.phase matches DynamicPhase::Homing { result, .. }
                && result is Ok) ==> s.measurement.dynamic_results@.len()
                >= s.measurement.dynamic_params.sample_points
            &&& !m.homeward && x.action == Action::Finished(Ok(()))
                ==> s.measurement.dynamic_results@.len()
                >= s.measurement.dynamic_params.sample_points
            &&& x.record is Some ==> s.measurement.dynamic_results@.len()
                < s.measurement.dynamic_params.sample_points
        }),
{
    match m.phase {
        DynamicPhase::Over(_) => {},
        DynamicPhase::Approaching(approach) => {
            lemma_approach(m, s, observation, approach, event, Seq::empty());
        },
        DynamicPhase::Striding { mover } => {
            lemma_stride(m, s, mover, event, Seq::empty());
        },
        DynamicPhase::Watching => {
            match event {
                Event::Label(Some(raw)) => {
                    lemma_labelled(m, s, observation, raw, Seq::empty());
                },
                _ => {
                    lemma_watch(m, s, observation, Seq::empty());
                },
            }
        },
        DynamicPhase::Persisting => {
            match event {
                Event::Resume => {
                    lemma_stride(m, s, stride_for(s), Event::Resume, Seq::empty());
                },
                _ => {},
            }
        },
        DynamicPhase::Pausing { .. } => {
            match event {
                Event::Resume => {
                    lemma_watch(m, s, observation, Seq::empty());
                },
                _ => {},
            }
        },
        DynamicPhase::Homing { .. } => {},
    }
}

/// A dynamic experiment that is over has taken the way back to the zero
/// point, whatever the history of its calls and whatever the rest of the
/// system did to the state in between.
pub proof fn lemma_dynamic_always_heads_home(invert: bool, calls: Seq<Call>)
    ensures
        dynamic_after(dynamic_admitted(invert), calls).phase is Over ==> dynamic_after(
            dynamic_admitted(invert),
            calls,
        ).homeward,
{
    lemma_homeward_is_kept(dynamic_admitted(invert), calls);
}

proof fn lemma_homeward_is_kept(m: DynamicRun, calls: Seq<Call>)
    requires
        homeward_holds(m),
    ensures
        homeward_holds(dynamic_after(m, calls)),
    decreases calls.len(),
{
    if calls.len() > 0 {
        lemma_dynamic_ends_homeward(m, calls[0].state, calls[0].observation, calls[0].event);
        lemma_homeward_is_kept(
            dynamic_stepped(m, calls[0].state, calls[0].observation, calls[0].event).task,
            calls.drop_first(),
        );
    }
}

proof fn lemma_dynamic_call(m: DynamicRun, s: BackendState, observation: Observation, event: Event)
    requires
        !(m.phase is Over),
        !(m.phase is Homing),
    ensures
        ({
            let x = dynamic_stepped(m, s, observation, event);
            goes_on(m, x) || (exists|result: Result<(), TaskError>| winds_up(x, result))
        }),
{
    let x = dynamic_stepped(m, s, observation, event);
    match m.phase {
        DynamicPhase::Approaching(approach) => {
            lemma_approach(m, s, observation, approach, event, Seq::empty());
        },
        DynamicPhase::Striding { mover } => {
            if observation.cancelled {
                let a = settled(mover, s, event);
                let result = match a.fault {
                    Some(error) => Err(error),
                    None => stopped_result(a.state),
                };
                lemma_wound(m, a.state, result, a.notes);
                assert(winds_up(x, result));
            } else {
                lemma_stride(m, s, mover, event, Seq::empty());
            }
        },
        _ => {
            if observation.cancelled {
                lemma_wound(m, s, stopped_result(s), Seq::empty());
                assert(winds_up(x, stopped_result(s)));
            } else {
                match (m.phase, event) {
                    (DynamicPhase::Watching, Event::Label(Some(raw))) => {
                        lemma_labelled(m, s, observation, raw, Seq::empty());
                    },
                    (DynamicPhase::Watching, _) => {
                        lemma_watch(m, s, observation, Seq::empty());
                    },
                    (DynamicPhase::Persisting, Event::Resume) => {
                        lemma_stride(m, s, stride_for(s), Event::Resume, Seq::empty());
                    },
                    (DynamicPhase::Pausing { .. }, Event::Resume) => {
                        lemma_watch(m, s, observation, Seq::empty());
                    },
                    _ => {},
                }
            }
        },
    }
}

/// An experiment on its way home after further calls, each of which brings
/// the acknowledgment of the byte that was out, while nothing else touched
/// the state. `seen` is what the calls saw, the first call first: the token
/// may be set or not.
pub open spec fn homing_run(x: Stepped<DynamicRun, DynamicResult>, seen: Seq<Observation>) -> Stepped<
    DynamicRun,
    DynamicResult,
>
    decreases seen.len(),
{
    if seen.len() == 0 {
        x
    } else {
        homing_run(
            dynamic_stepped(x.task, x.state, seen[0], Event::Reply(AckOutcome::Acked)),
            seen.drop_first(),
        )
    }
}

proof fn lemma_home_acked(
    m: DynamicRun,
    s: BackendState,
    mover: Mover,
    result: Result<(), TaskError>,
    observation: Observation,
)
    requires
        m.phase == (DynamicPhase::Homing { mover, result }),
        homebound(mover, s),
    ensures
        ({
            let y = dynamic_stepped(m, s, observation, Event::Reply(AckOutcome::Acked));
            let script = mover.script();
            &&& script.len() > 0
            &&& y.state == with_position(
                s,
                shifted(s.measurement.current_steps, script[0].delta as int),
            )
            &&& script.len() > 1 ==> (y.task.phase matches DynamicPhase::Homing {
                mover: next,
                result: kept,
            } && kept == result && homebound(next, y.state) && next.script().len() == script.len()
                - 1)
            &&& script.len() == 1 ==> y.task.phase == DynamicPhase::Over(result) && y.action
                == Action::Finished(result) && y.state == with_position(s, Some(0i32))
        }),
{
    let script = mover.script();
    mover.lemma_driven(s, Event::Reply(AckOutcome::Acked));
    let moved = shifted(s.measurement.current_steps, script[0].delta as int);
    assert(position_after(s.measurement.current_steps, script) == position_after(
        moved,
        script.drop_first(),
    ));
    if script.len() == 1 {
        assert(position_after(moved, script.drop_first()) == moved);
    }
}

proof fn lemma_homing_run(
    x: Stepped<DynamicRun, DynamicResult>,
    mover: Mover,
    result: Result<(), TaskError>,
    seen: Seq<Observation>,
)
    requires
        x.task.phase == (DynamicPhase::Homing { mover, result }),
        homebound(mover, x.state),
        seen.len() == mover.script().len(),
    ensures
        ({
            let end = homing_run(x, seen);
            &&& end.task.phase == DynamicPhase::Over(result)
            &&& end.action == Action::Finished(result)
            &&& end.state == with_position(x.state, Some(0i32))
        }),
    decreases seen.len(),
{
    lemma_home_acked(x.task, x.state, mover, result, seen[0]);
    let y = dynamic_stepped(x.task, x.state, seen[0], Event::Reply(AckOutcome::Acked));
    assert(homing_run(x, seen) == homing_run(y, seen.drop_first()));
    if seen.len() == 1 {
        assert(homing_run(y, seen.drop_first()) == y);
    } else {
        let next = y.task.phase->Homing_mover;
        lemma_homing_run(y, next, result, seen.drop_first());
    }
}

/// An experiment ends well only with the motor at the zero point. And
/// whatever winds it up, with whatever result: if the way home is not over
/// at once, and every command of it is acknowledged while nothing else
/// touches the state, the task ends with the experiment's own result when
/// the last acknowledgment has come, and it leaves the motor at the zero
/// point and the rest of the state as the wind-up left it.
pub proof fn lemma_dynamic_returns_to_zero(
    m: DynamicRun,
    s: BackendState,
    observation: Observation,
    event: Event,
    seen: Seq<Observation>,
)
    requires
        !(m.phase is Over),
        !(m.phase is Homing),
    ensures
        ({
            let x = dynamic_stepped(m, s, observation, event);
            &&& x.action == Action::Finished(Ok(())) ==> x.state.measurement.current_steps == Some(
                0i32,
            )
            &&& x.task.phase matches DynamicPhase::Homing { mover, result } ==> (seen.len()
                == mover.script().len() ==> {
                let end = homing_run(x, seen);
                &&& end.task.phase == DynamicPhase::Over(result)
                &&& end.action == Action::Finished(result)
                &&& end.state == with_position(x.state, Some(0i32))
            })
        }),
{
    let x = dynamic_stepped(m, s, observation, event);
    lemma_dynamic_call(m, s, observation, event);
    if let DynamicPhase::Homing { mover, result } = x.task.phase {
        if seen.len() == mover.script().len() {
            lemma_homing_run(x, mover, result, seen);
        }
    }
}

/// Whether a call finds the experiment at the head of a cycle, where it
/// looks at the list, the token, the clock and the camera.
pub open spec fn dynamic_polls(m: DynamicRun, event: Event) -> bool {
    match m.phase {
        DynamicPhase::Watching => !(event matches Event::Label(Some(_))),
        DynamicPhase::Pausing { .. } => event == Event::Resume,
        DynamicPhase::Approaching(approach) => match approach.phase {
            ApproachPhase::Watching => !(event matches Event::Label(Some(_))),
            ApproachPhase::Settling { last, .. } => !last && event == Event::Resume,
            _ => false,
        },
        _ => false,
    }
}

/// A dynamic experiment that finds its token set winds up with that call,
/// wherever it stands short of the way home: it records nothing more, frees
/// the register and takes the way back to the zero point. The experiment's
/// own result is then good only if the list holds as many results as were
/// asked for. The stop touches neither the devices nor the results; and if
/// every command of the way home is acknowledged while nothing else touches
/// the state, the task returns with the motor at the zero point, the devices
/// and the results as they were, and the register free.
pub proof fn lemma_dynamic_stops_when_cancelled(
    m: DynamicRun,
    s: BackendState,
    observation: Observation,
    event: Event,
    seen: Seq<Observation>,
)
    requires
        observation.cancelled,
        !(m.phase is Over),
        !(m.phase is Homing),
        m.phase matches DynamicPhase::Approaching(approach) ==> !(approach.phase is Over),
    ensures
        ({
            let x = dynamic_stepped(m, s, observation, event);
            &&& x.task.homeward
            &&& x.task.phase is Homing || x.task.phase is Over
            &&& x.record is None
            &&& x.state.measurement.dynamic_task_token is None
            &&& x.state.measurement.dynamic_results == s.measurement.dynamic_results
            &&& x.state.devices.camera_connected == s.devices.camera_connected
            &&& x.task.phase matches DynamicPhase::Homing { mover, result } ==> {
                &&& result is Ok ==> !(m.phase is Approaching)
                    && s.measurement.dynamic_results@.len()
                    >= s.measurement.dynamic_params.sample_points
                &&& x.state.devices == s.devices
                &&& seen.len() == mover.script().len() ==> {
                    let end = homing_run(x, seen);
                    &&& end.action == Action::Finished(result)
                    &&& end.state == with_position(x.state, Some(0i32))
                }
            }
        }),
{
    let x = dynamic_stepped(m, s, observation, event);
    match m.phase {
        DynamicPhase::Approaching(approach) => {
            let a = approach_stepped(approach, s, observation, event, Seq::empty());
            match a.action {
                Action::Finished(Err(error)) => {
                    lemma_wound(m, a.state, Err(error), a.notes);
                },
                _ => {},
            }
        },
        DynamicPhase::Striding { mover } => {
            let a = settled(mover, s, event);
            lemma_wound(
                m,
                a.state,
                match a.fault {
                    Some(error) => Err(error),
                    None => stopped_result(a.state),
                },
                a.notes,
            );
        },
        _ => {
            lemma_wound(m, s, stopped_result(s), Seq::empty());
        },
    }
    if let DynamicPhase::Homing { mover, result } = x.task.phase {
        if seen.len() == mover.script().len() {
            lemma_homing_run(x, mover, result, seen);
        }
    }
}

/// A dynamic experiment that finds the camera gone, or its frame slot
/// empty, at the head of a cycle winds up with that call: the camera is
/// dropped, the experiment's own result is `CameraUnavailable`, and that is
/// what the task ends with, at once or after the way home.
pub proof fn lemma_dynamic_fails_without_camera(
    m: DynamicRun,
    s: BackendState,
    observation: Observation,
    event: Event,
)
    requires
        dynamic_polls(m, event),
        !observation.cancelled,
        !s.devices.camera_connected || !observation.frame_ready,
        match m.phase {
            DynamicPhase::Approaching(approach) => elapsed_ns(
                observation.now_ns,
                approach.started_ns,
            ) <= SEARCH_BUDGET_NS,
            _ => s.measurement.dynamic_results@.len() < s.measurement.dynamic_params.sample_points
                && (s.measurement.dynamic_time matches Some(since) && elapsed_ns(
                observation.now_ns,
                since,
            ) <= DYNAMIC_BUDGET_NS),
        },
    ensures
        ({
            let x = dynamic_stepped(m, s, observation, event);
            &&& x.task.homeward
            &&& !x.state.devices.camera_connected
            &&& x.state.measurement.dynamic_task_token is None
            &&& x.action is Finished ==> x.action == Action::Finished(
                Err(TaskError::CameraUnavailable),
            )
            &&& x.task.phase matches DynamicPhase::Homing { result, .. } ==> result == Err::<
                (),
                TaskError,
            >(TaskError::CameraUnavailable)
        }),
{
}

/// A dynamic experiment whose command is not acknowledged is over with that
/// call: the port is dropped, the position is forgotten, the disconnect
/// notification comes first among the updates, and with no position left
/// there is no way home to wait for. The task ends with `MotorDisconnected`,
/// unless the experiment had failed before and the motor was lost on the way
/// home: then it keeps the earlier error.
pub proof fn lemma_dynamic_fails_without_motor(
    m: DynamicRun,
    s: BackendState,
    observation: Observation,
    outcome: AckOutcome,
)
    requires
        match m.phase {
            DynamicPhase::Striding { mover } => mover.awaits_reply(),
            DynamicPhase::Homing { mover, .. } => mover.awaits_reply(),
            DynamicPhase::Approaching(approach) => approach.phase matches ApproachPhase::Moving {
                mover,
                ..
            } && mover.awaits_reply(),
            _ => false,
        },
        !(outcome is Acked),
    ensures
        ({
            let x = dynamic_stepped(m, s, observation, Event::Reply(outcome));
            &&& x.action == Action::Finished(
                match m.phase {
                    DynamicPhase::Homing { result: Err(earlier), .. } => Err(earlier),
                    _ => Err(TaskError::MotorDisconnected(fault_of(outcome))),
                },
            )
            &&& x.state.devices == motor_lost(s).devices
            &&& x.state.measurement.current_steps is None
            &&& x.notes.len() >= 2
            &&& x.notes.subrange(0, 2) == lost_notes()
        }),
{
    let x = dynamic_stepped(m, s, observation, Event::Reply(outcome));
}

} // verus!
