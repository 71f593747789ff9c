//! The bracket search: zero-point calibration and precision measurement.
//!
//! A run approaches the optical transition one nudge at a time until the
//! prediction window flips against the reference phase, notes the position,
//! swings about a degree past it, approaches again from the other side, and
//! comes to rest halfway between the two positions it noted. One approach
//! alone would be biased by backlash and by noise near the transition; the
//! two biases cancel.

use crate::backend::motor::driven;
use crate::backend::motor::settled;
use crate::backend::motor::with_position;
use crate::backend::motor::Mover;
use crate::backend::motor::Stepped;
use crate::backend::motor::Verdict;
use crate::backend::task::Action;
use crate::backend::task::ClassifyRequest;
use crate::backend::task::Event;
use crate::backend::task::Observation;
use crate::backend::task::Step;
use crate::backend::BackendState;
use crate::backend::DeviceState;
use crate::backend::MeasurementState;
use crate::communication::camera_note;
use crate::communication::emit;
use crate::communication::error_note;
use crate::communication::static_results_note;
use crate::communication::static_running_note;
use crate::communication::static_status_note;
use crate::communication::steps_note;
use crate::communication::views;
use crate::communication::DeviceUpdate;
use crate::communication::GeneralUpdate;
use crate::communication::MeasurementUpdate;
use crate::communication::Rejection;
use crate::communication::StaticNote;
use crate::communication::StaticResult;
use crate::communication::TaskError;
use crate::communication::Update;
use crate::communication::UpdateView;
use crate::protocol::MoveMode;
use crate::protocol::STEPS_PER_DEGREE;
use crate::token::share;
use crate::token::CancellationToken;
use crate::window::Label;
use crate::window::PredictionWindow;
use vstd::prelude::*;

verus! {

/// The time a search run may take, in nanoseconds: ninety seconds.
pub const SEARCH_BUDGET_NS: u64 = 90_000_000_000;

/// The swing past the first boundary, in steps: a little under one degree.
pub const OFFSET_STEPS: i32 = 700;

/// The pause after a resetting nudge, in milliseconds.
pub const PAUSE_AFTER_RESET_MS: u64 = 150;

/// The pause after a stepping nudge, in milliseconds.
pub const PAUSE_AFTER_STEP_MS: u64 = 5;

/// The time between two readings of a clock that does not run backwards.
pub open spec fn elapsed_ns(now: u64, since: u64) -> u64 {
    if now >= since {
        (now - since) as u64
    } else {
        0
    }
}

/// The time from `since` to `now`; none if the clock seems to have run
/// backwards.
pub fn elapsed(now: u64, since: u64) -> (ns: u64)
    ensures
        ns == elapsed_ns(now, since),
{
    if now >= since {
        now - since
    } else {
        0
    }
}

/// The request that the camera settings call for: the locked circle if the
/// lock is on, a fresh detection otherwise.
pub open spec fn request_for(s: BackendState) -> ClassifyRequest {
    ClassifyRequest {
        circle: if s.devices.camera_settings.lock_circle {
            s.devices.camera_settings.locked_circle
        } else {
            None
        },
        min_radius: s.devices.camera_settings.min_radius,
        max_radius: s.devices.camera_settings.max_radius,
    }
}

/// The request for the classification of the latest frame.
pub fn classify_request(state: &BackendState) -> (request: ClassifyRequest)
    ensures
        request == request_for(*state),
{
    ClassifyRequest {
        circle: if state.devices.camera_settings.lock_circle {
            state.devices.camera_settings.locked_circle
        } else {
            None
        },
        min_radius: state.devices.camera_settings.min_radius,
        max_radius: state.devices.camera_settings.max_radius,
    }
}

/// The state once the camera is lost.
pub open spec fn camera_lost(s: BackendState) -> BackendState {
    BackendState { devices: DeviceState { camera_connected: false, ..s.devices }, ..s }
}

/// Halfway between two positions, a half rounded away from zero.
pub open spec fn midpoint_of(a: int, b: int) -> int {
    let sum = a + b;
    if sum % 2 == 0 {
        sum / 2
    } else if sum > 0 {
        (sum + 1) / 2
    } else {
        (sum - 1) / 2
    }
}

/// The position halfway between two boundaries.
pub fn midpoint(a: i32, b: i32) -> (m: i32)
    ensures
        m == midpoint_of(a as int, b as int),
        a <= b ==> a <= m <= b,
        b <= a ==> b <= m <= a,
{
    let sum: i64 = a as i64 + b as i64;
    let half: i64 = if sum % 2 == 0 {
        sum / 2
    } else if sum > 0 {
        (sum + 1) / 2
    } else {
        -((1 - sum) / 2)
    };
    half as i32
}

/// The nudge that a window and a reference phase call for: on a consensus
/// flip the resetting nudge that takes back the overshoot, otherwise one step
/// towards the phase opposite the reference.
pub open spec fn nudge_for(window: PredictionWindow, first: Option<Label>) -> MoveMode {
    if window.flips_from(first) {
        if first == Some(Label::Zero) {
            MoveMode::ResetBackward
        } else {
            MoveMode::ResetForward
        }
    } else if first == Some(Label::One) {
        MoveMode::StepForward
    } else {
        MoveMode::StepBackward
    }
}

/// Chooses the nudge of a cycle.
pub fn choose_nudge(window: &PredictionWindow, first: Option<Label>) -> (mode: MoveMode)
    ensures
        mode == nudge_for(*window, first),
{
    if window.flipped(first) {
        match first {
            Some(Label::Zero) => MoveMode::ResetBackward,
            _ => MoveMode::ResetForward,
        }
    } else {
        match first {
            Some(Label::One) => MoveMode::StepForward,
            _ => MoveMode::StepBackward,
        }
    }
}

/// The index of the next result in a list of `len` results.
pub open spec fn next_index(len: nat) -> usize {
    if len < usize::MAX {
        (len + 1) as usize
    } else {
        usize::MAX
    }
}

/// What a move inside a search is for.
#[derive(Clone, Copy, Debug, PartialEq, Eq, Structural)]
pub enum Purpose {
    /// The first move of a run: one degree towards the transition.
    Kick,
    /// A nudge; `flip` says that it answers a consensus flip.
    Nudge { mode: MoveMode, flip: bool },
    /// The swing past the first boundary.
    Offset,
    /// The last move of a run, to the midpoint.
    Center,
}

/// Where a bracket search stands.
#[derive(Clone, Copy, Debug)]
pub enum SearchPhase {
    /// Admitted; the next call begins the first run.
    Ready,
    /// A frame is being classified.
    Watching,
    /// A move is on its way. `adopt` is the label that the window was
    /// unanimous on when the move was decided.
    Moving { mover: Mover, purpose: Purpose, adopt: Option<Label> },
    /// The pause after a move. `last` says that both boundaries are found.
    Settling { pause_ms: u64, last: bool, adopt: Option<Label> },
    /// The search is over.
    Over(Result<(), TaskError>),
}

/// A bracket search in progress.
#[derive(Clone, Copy, Debug)]
pub struct BracketSearch {
    /// Whether the search calibrates the zero point.
    pub find_zero: bool,
    /// Runs not yet completed, the current one included.
    pub runs_left: i32,
    /// The orientation flag, as it stood when the run began.
    pub invert: bool,
    /// When the run began.
    pub started_ns: u64,
    pub window: PredictionWindow,
    /// The reference phase.
    pub first: Option<Label>,
    /// Whether the run has made its first move.
    pub kicked: bool,
    pub boundary1: Option<i32>,
    pub boundary2: Option<i32>,
    pub phase: SearchPhase,
}

/// The end of a search, whatever came before. A zero calibration that went
/// well makes the place where the motor stands the new origin; one that
/// failed leaves no position at all. The position is reported, the task is
/// struck from the register, and the outside is told that no static
/// measurement runs.
pub open spec fn search_closed(
    m: BracketSearch,
    s: BackendState,
    result: Result<(), TaskError>,
    notes: Seq<UpdateView>,
) -> Stepped<BracketSearch, StaticResult> {
    let position = if m.find_zero {
        if result is Ok {
            Some(0i32)
        } else {
            None
        }
    } else {
        s.measurement.current_steps
    };
    Stepped {
        task: BracketSearch { phase: SearchPhase::Over(result), ..m },
        state: BackendState {
            measurement: MeasurementState {
                current_steps: position,
                static_task_token: None,
                ..s.measurement
            },
            ..s
        },
        action: Action::Finished(result),
        notes: notes + seq![steps_note(position), static_running_note(false)],
        record: None,
    }
}

/// The error of a run that is broken off by a stop or by its time budget.
pub open spec fn abort_error(m: BracketSearch, observation: Observation) -> TaskError {
    if m.boundary1 is Some {
        TaskError::BracketSearchFailed
    } else if observation.cancelled {
        TaskError::Cancelled
    } else {
        TaskError::SearchTimeout
    }
}

/// The head of a cycle: the run is broken off on a stop or when its budget
/// is spent, fails when the camera is gone or its frame slot is empty, and
/// otherwise asks for the latest frame to be classified.
pub open spec fn search_watch(
    m: BracketSearch,
    s: BackendState,
    observation: Observation,
    notes: Seq<UpdateView>,
) -> Stepped<BracketSearch, StaticResult> {
    if elapsed_ns(observation.now_ns, m.started_ns) > SEARCH_BUDGET_NS || observation.cancelled {
        search_closed(
            m,
            s,
            Err(abort_error(m, observation)),
            notes + seq![static_status_note(StaticNote::Aborted)],
        )
    } else if !s.devices.camera_connected {
        search_closed(m, s, Err(TaskError::CameraUnavailable), notes + seq![camera_note(false)])
    } else if !observation.frame_ready {
        search_closed(
            m,
            camera_lost(s),
            Err(TaskError::CameraUnavailable),
            notes + seq![camera_note(false)],
        )
    } else {
        Stepped {
            task: BracketSearch { phase: SearchPhase::Watching, ..m },
            state: s,
            action: Action::Classify(request_for(s)),
            notes,
            record: None,
        }
    }
}

/// The beginning of a run. With no run left the search ends well. A stop
/// seen now ends it before anything moves. Otherwise the run starts from a
/// blank window, and a zero calibration takes the place where the motor
/// stands as its provisional origin.
pub open spec fn search_begun(
    m: BracketSearch,
    s: BackendState,
    observation: Observation,
    notes: Seq<UpdateView>,
) -> Stepped<BracketSearch, StaticResult> {
    if m.runs_left <= 0 {
        search_closed(m, s, Ok(()), notes)
    } else if observation.cancelled {
        search_closed(
            m,
            s,
            Err(TaskError::Cancelled),
            notes + seq![static_status_note(StaticNote::Interrupted)],
        )
    } else {
        search_watch(
            BracketSearch {
                invert: s.rotation_direction_is_ama,
                started_ns: observation.now_ns,
                window: PredictionWindow::blank(),
                first: None,
                kicked: false,
                boundary1: None,
                boundary2: None,
                ..m
            },
            if m.find_zero {
                with_position(s, Some(0))
            } else {
                s
            },
            observation,
            notes,
        )
    }
}

/// The pause after a move.
pub open spec fn search_settling(
    m: BracketSearch,
    s: BackendState,
    pause_ms: u64,
    last: bool,
    adopt: Option<Label>,
    notes: Seq<UpdateView>,
) -> Stepped<BracketSearch, StaticResult> {
    Stepped {
        task: BracketSearch { phase: SearchPhase::Settling { pause_ms, last, adopt }, ..m },
        state: s,
        action: Action::Sleep(pause_ms),
        notes,
        record: None,
    }
}

/// A move inside a search, driven one step further: the next byte goes out,
/// or the motor is lost and the search ends, or the move has arrived.
pub open spec fn search_moving(
    m: BracketSearch,
    s: BackendState,
    mover: Mover,
    purpose: Purpose,
    adopt: Option<Label>,
    event: Event,
    notes: Seq<UpdateView>,
) -> Option<Stepped<BracketSearch, StaticResult>> {
    let d = driven(mover, s, event);
    match d.verdict {
        Verdict::Send(byte) => Some(
            Stepped {
                task: BracketSearch {
                    phase: SearchPhase::Moving { mover: d.mover, purpose, adopt },
                    ..m
                },
                state: d.state,
                action: Action::Send(byte),
                notes: notes + d.notes,
                record: None,
            },
        ),
        Verdict::Failed(error) => Some(search_closed(m, d.state, Err(error), notes + d.notes)),
        Verdict::Arrived => None,
    }
}

/// The swing past the first boundary; the pause follows its arrival.
pub open spec fn search_offset(
    m: BracketSearch,
    s: BackendState,
    mover: Mover,
    adopt: Option<Label>,
    event: Event,
    notes: Seq<UpdateView>,
) -> Stepped<BracketSearch, StaticResult> {
    match search_moving(m, s, mover, Purpose::Offset, adopt, event, notes) {
        Some(x) => x,
        None => {
            let d = driven(mover, s, event);
            search_settling(m, d.state, PAUSE_AFTER_RESET_MS, false, adopt, notes + d.notes)
        },
    }
}

/// What follows a nudge that has arrived.
///
/// A stepping nudge is followed by a short pause. A resetting nudge answers
/// a consensus flip, and the position it leaves the motor at is a boundary.
/// The first boundary of a run is noted, the reference and the window are
/// cleared, and the motor swings past the boundary to come back from the
/// other side. The second is noted only when the first stands, and ends the
/// approach. A boundary cannot be noted while the position is unknown.
pub open spec fn search_nudged(
    m: BracketSearch,
    s: BackendState,
    mode: MoveMode,
    flip: bool,
    adopt: Option<Label>,
    notes: Seq<UpdateView>,
) -> Stepped<BracketSearch, StaticResult> {
    if !flip {
        search_settling(m, s, PAUSE_AFTER_STEP_MS, false, adopt, notes)
    } else {
        match s.measurement.current_steps {
            None => search_closed(m, s, Err(TaskError::PositionUnknown), notes),
            Some(p) => if m.boundary1 is None {
                search_offset(
                    BracketSearch {
                        boundary1: Some(p),
                        first: None,
                        window: PredictionWindow::blank(),
                        ..m
                    },
                    s,
                    Mover::rotating(
                        if mode == MoveMode::ResetBackward {
                            -OFFSET_STEPS
                        } else {
                            OFFSET_STEPS as int
                        },
                        s.rotation_direction_need_reverse,
                        m.find_zero,
                    ),
                    adopt,
                    Event::Resume,
                    notes,
                )
            } else {
                search_settling(
                    BracketSearch { boundary2: Some(p), ..m },
                    s,
                    PAUSE_AFTER_RESET_MS,
                    true,
                    adopt,
                    notes,
                )
            },
        }
    }
}

/// A nudge, driven one step further.
pub open spec fn search_nudge(
    m: BracketSearch,
    s: BackendState,
    mover: Mover,
    mode: MoveMode,
    flip: bool,
    adopt: Option<Label>,
    event: Event,
    notes: Seq<UpdateView>,
) -> Stepped<BracketSearch, StaticResult> {
    match search_moving(m, s, mover, Purpose::Nudge { mode, flip }, adopt, event, notes) {
        Some(x) => x,
        None => {
            let d = driven(mover, s, event);
            search_nudged(m, d.state, mode, flip, adopt, notes + d.notes)
        },
    }
}

/// The decision of a cycle: the nudge that the window and the reference
/// call for is sent. The reversal flag is read now.
pub open spec fn search_branch(
    m: BracketSearch,
    s: BackendState,
    adopt: Option<Label>,
    notes: Seq<UpdateView>,
) -> Stepped<BracketSearch, StaticResult> {
    search_nudge(
        m,
        s,
        Mover::nudging(
            nudge_for(m.window, m.first),
            s.rotation_direction_need_reverse,
            m.find_zero,
        ),
        nudge_for(m.window, m.first),
        m.window.flips_from(m.first),
        adopt,
        Event::Resume,
        notes,
    )
}

/// The first move of a run, driven one step further; the decision of the
/// cycle follows its arrival.
pub open spec fn search_kick(
    m: BracketSearch,
    s: BackendState,
    mover: Mover,
    adopt: Option<Label>,
    event: Event,
    notes: Seq<UpdateView>,
) -> Stepped<BracketSearch, StaticResult> {
    match search_moving(m, s, mover, Purpose::Kick, adopt, event, notes) {
        Some(x) => x,
        None => {
            let d = driven(mover, s, event);
            search_branch(m, d.state, adopt, notes + d.notes)
        },
    }
}

/// A label has come in. The orientation flag is applied, the window takes
/// the reading, and the first reading after a blank reference becomes the
/// reference. The very first reading of a run also sends the motor one
/// degree on its way, forward on a zero and backward on a one, before the
/// cycle's nudge is decided.
pub open spec fn search_labelled(m: BracketSearch, s: BackendState, raw: Label) -> Stepped<
    BracketSearch,
    StaticResult,
> {
    let label = raw.spec_flipped_if(m.invert);
    let window = m.window.pushed(label);
    let seen = BracketSearch {
        window,
        first: if m.first is None {
            Some(label)
        } else {
            m.first
        },
        kicked: true,
        ..m
    };
    if !m.kicked {
        search_kick(
            seen,
            s,
            Mover::rotating(
                if label == Label::Zero {
                    STEPS_PER_DEGREE as int
                } else {
                    -STEPS_PER_DEGREE
                },
                s.rotation_direction_need_reverse,
                m.find_zero,
            ),
            window.unanimous(),
            Event::Resume,
            Seq::empty(),
        )
    } else {
        search_branch(seen, s, window.unanimous(), Seq::empty())
    }
}

/// A run has come to rest at the midpoint. A precision measurement appends
/// its result, numbered from one, and reports the list. Then the next run
/// begins, or the search ends well.
pub open spec fn search_centered(
    m: BracketSearch,
    s: BackendState,
    observation: Observation,
    notes: Seq<UpdateView>,
) -> Stepped<BracketSearch, StaticResult> {
    let rest = BracketSearch {
        runs_left: if m.runs_left > 1 {
            (m.runs_left - 1) as i32
        } else {
            0
        },
        ..m
    };
    if m.find_zero {
        if m.runs_left > 1 {
            search_begun(rest, s, observation, notes)
        } else {
            search_closed(rest, s, Ok(()), notes)
        }
    } else {
        match s.measurement.current_steps {
            None => search_closed(m, s, Err(TaskError::PositionUnknown), notes),
            Some(p) => {
                let record = StaticResult {
                    index: next_index(s.measurement.static_results@.len()),
                    steps: p,
                };
                let told = notes + seq![
                    static_results_note(s.measurement.static_results@.push(record)),
                ];
                let inner = if m.runs_left > 1 {
                    search_begun(rest, s, observation, told)
                } else {
                    search_closed(rest, s, Ok(()), told)
                };
                Stepped { record: Some(record), ..inner }
            },
        }
    }
}

/// The last move of a run, driven one step further.
pub open spec fn search_center(
    m: BracketSearch,
    s: BackendState,
    observation: Observation,
    mover: Mover,
    event: Event,
    notes: Seq<UpdateView>,
) -> Stepped<BracketSearch, StaticResult> {
    match search_moving(m, s, mover, Purpose::Center, None, event, notes) {
        Some(x) => x,
        None => {
            let d = driven(mover, s, event);
            search_centered(m, d.state, observation, notes + d.notes)
        },
    }
}

/// The pause is over. A precision measurement reports the position. With
/// both boundaries found the motor is sent to the point halfway between
/// them; otherwise a window that was unanimous names the new reference, and
/// the next cycle begins.
pub open spec fn search_resumed(
    m: BracketSearch,
    s: BackendState,
    observation: Observation,
    last: bool,
    adopt: Option<Label>,
) -> Stepped<BracketSearch, StaticResult> {
    let notes = if m.find_zero {
        Seq::empty()
    } else {
        seq![steps_note(s.measurement.current_steps)]
    };
    if last {
        match (m.boundary1, m.boundary2, s.measurement.current_steps) {
            (Some(a), Some(b), Some(p)) => search_center(
                m,
                s,
                observation,
                Mover::passing(
                    p as int,
                    midpoint_of(a as int, b as int),
                    s.rotation_direction_need_reverse,
                    m.find_zero,
                ),
                Event::Resume,
                notes,
            ),
            (Some(_), Some(_), None) => search_closed(
                m,
                s,
                Err(TaskError::PositionUnknown),
                notes,
            ),
            _ => search_closed(m, s, Err(TaskError::BracketSearchFailed), notes),
        }
    } else {
        search_watch(
            BracketSearch {
                first: if adopt is Some {
                    adopt
                } else {
                    m.first
                },
                ..m
            },
            s,
            observation,
            notes,
        )
    }
}

/// A search that finds its token set ends with that call. If a byte was
/// out and its verdict has come, the verdict is taken first, so that the
/// position stays true; a motor lost by it ends the search as disconnected.
/// Otherwise the search ends as every run does that is broken off.
pub open spec fn search_cancelled(
    m: BracketSearch,
    s: BackendState,
    observation: Observation,
    event: Event,
) -> Stepped<BracketSearch, StaticResult> {
    let aborted = seq![static_status_note(StaticNote::Aborted)];
    match m.phase {
        SearchPhase::Moving { mover, .. } => {
            let a = settled(mover, s, event);
            match a.fault {
                Some(error) => search_closed(m, a.state, Err(error), a.notes),
                None => search_closed(
                    m,
                    a.state,
                    Err(abort_error(m, observation)),
                    a.notes + aborted,
                ),
            }
        },
        _ => search_closed(m, s, Err(abort_error(m, observation)), aborted),
    }
}

/// What one call makes of a search.
///
/// A search that is over says so again. A search that has not begun
/// begins. A call that finds the token set ends the search. Otherwise: a
/// search that waits for a label takes one, and on anything else goes back to
/// the head of the cycle; a move takes the verdict on its byte; a pause ends
/// on `Resume` and is asked for again on anything else.
pub open spec fn search_stepped(
    m: BracketSearch,
    s: BackendState,
    observation: Observation,
    event: Event,
) -> Stepped<BracketSearch, StaticResult> {
    match m.phase {
        SearchPhase::Over(result) => Stepped {
            task: m,
            state: s,
            action: Action::Finished(result),
            notes: Seq::empty(),
            record: None,
        },
        SearchPhase::Ready => search_begun(m, s, observation, Seq::empty()),
        SearchPhase::Watching => if observation.cancelled {
            search_cancelled(m, s, observation, event)
        } else {
            match event {
                Event::Label(Some(raw)) => search_labelled(m, s, raw),
                _ => search_watch(m, s, observation, Seq::empty()),
            }
        },
        SearchPhase::Moving { mover, purpose, adopt } => if observation.cancelled {
            search_cancelled(m, s, observation, event)
        } else {
            match purpose {
                Purpose::Kick => search_kick(m, s, mover, adopt, event, Seq::empty()),
                Purpose::Nudge { mode, flip } => search_nudge(
                    m,
                    s,
                    mover,
                    mode,
                    flip,
                    adopt,
                    event,
                    Seq::empty(),
                ),
                Purpose::Offset => search_offset(m, s, mover, adopt, event, Seq::empty()),
                Purpose::Center => search_center(m, s, observation, mover, event, Seq::empty()),
            }
        },
        SearchPhase::Settling { pause_ms, last, adopt } => if observation.cancelled {
            search_cancelled(m, s, observation, event)
        } else {
            match event {
                Event::Resume => search_resumed(m, s, observation, last, adopt),
                _ => search_settling(m, s, pause_ms, last, adopt, Seq::empty()),
            }
        },
    }
}

/// Whether a task, a state, an action and a list of updates are what a step
/// says they are. The results that the step records are appended to the list
/// in the state.
pub open spec fn search_agrees(
    x: Stepped<BracketSearch, StaticResult>,
    before: BackendState,
    task: BracketSearch,
    state: BackendState,
    action: Action,
    updates: Seq<Update>,
) -> bool {
    &&& task == x.task
    &&& action == x.action
    &&& views(updates) == x.notes
    &&& state == BackendState {
        measurement: MeasurementState {
            static_results: state.measurement.static_results,
            ..x.state.measurement
        },
        ..x.state
    }
    &&& state.measurement.static_results@ == match x.record {
        Some(record) => before.measurement.static_results@.push(record),
        None => before.measurement.static_results@,
    }
}

/// Whether a task, a state, an action and a list of updates are exactly what
/// a step that records nothing says they are.
pub open spec fn search_is(
    x: Stepped<BracketSearch, StaticResult>,
    before: BackendState,
    task: BracketSearch,
    state: BackendState,
    action: Action,
    updates: Seq<Update>,
) -> bool {
    &&& task == x.task
    &&& state == x.state
    &&& action == x.action
    &&& views(updates) == x.notes
    &&& x.record is None
    &&& state.measurement.static_results == before.measurement.static_results
}

impl BracketSearch {
    fn close(
        &mut self,
        state: &mut BackendState,
        result: Result<(), TaskError>,
        updates: &mut Vec<Update>,
    ) -> (action: Action)
        ensures
            search_is(
                search_closed(*old(self), *old(state), result, views(old(updates)@)),
                *old(state),
                *final(self),
                *final(state),
                action,
                final(updates)@,
            ),
    {
        if self.find_zero {
            state.measurement.current_steps = if result.is_ok() {
                Some(0)
            } else {
                None
            };
        }
        let position: Option<i32> = state.measurement.current_steps;
        emit(updates, Update::Measurement(MeasurementUpdate::CurrentSteps(position)));
        state.measurement.static_task_token = None;
        emit(updates, Update::Measurement(MeasurementUpdate::StaticRunning(false)));
        self.phase = SearchPhase::Over(result);
        proof {
            assert(views(updates@) =~= views(old(updates)@) + seq![
                steps_note(position),
                static_running_note(false),
            ]);
        }
        Action::Finished(result)
    }

    fn watch(
        &mut self,
        state: &mut BackendState,
        observation: Observation,
        updates: &mut Vec<Update>,
    ) -> (action: Action)
        ensures
            search_is(
                search_watch(*old(self), *old(state), observation, views(old(updates)@)),
                *old(state),
                *final(self),
                *final(state),
                action,
                final(updates)@,
            ),
    {
        if elapsed(observation.now_ns, self.started_ns) > SEARCH_BUDGET_NS
            || observation.cancelled {
            let error: TaskError = if self.boundary1.is_some() {
                TaskError::BracketSearchFailed
            } else if observation.cancelled {
                TaskError::Cancelled
            } else {
                TaskError::SearchTimeout
            };
            emit(updates, Update::Measurement(MeasurementUpdate::StaticStatus(StaticNote::Aborted)));
            self.close(state, Err(error), updates)
        } else if !state.devices.camera_connected {
            emit(updates, Update::Device(DeviceUpdate::CameraConnectionStatus(false)));
            self.close(state, Err(TaskError::CameraUnavailable), updates)
        } else if !observation.frame_ready {
            state.devices.camera_connected = false;
            emit(updates, Update::Device(DeviceUpdate::CameraConnectionStatus(false)));
            self.close(state, Err(TaskError::CameraUnavailable), updates)
        } else {
            self.phase = SearchPhase::Watching;
            Action::Classify(classify_request(state))
        }
    }

    fn begin(
        &mut self,
        state: &mut BackendState,
        observation: Observation,
        updates: &mut Vec<Update>,
    ) -> (action: Action)
        ensures
            search_is(
                search_begun(*old(self), *old(state), observation, views(old(updates)@)),
                *old(state),
                *final(self),
                *final(state),
                action,
                final(updates)@,
            ),
    {
        if self.runs_left <= 0 {
            self.close(state, Ok(()), updates)
        } else if observation.cancelled {
            emit(
                updates,
                Update::Measurement(MeasurementUpdate::StaticStatus(StaticNote::Interrupted)),
            );
            self.close(state, Err(TaskError::Cancelled), updates)
        } else {
            self.invert = state.rotation_direction_is_ama;
            self.started_ns = observation.now_ns;
            self.window.reset();
            self.first = None;
            self.kicked = false;
            self.boundary1 = None;
            self.boundary2 = None;
            if self.find_zero {
                state.measurement.current_steps = Some(0);
            }
            self.watch(state, observation, updates)
        }
    }

    fn settle(&mut self, pause_ms: u64, last: bool, adopt: Option<Label>) -> (action: Action)
        ensures
            *final(self) == (BracketSearch {
                phase: SearchPhase::Settling { pause_ms, last, adopt },
                ..*old(self)
            }),
            action == Action::Sleep(pause_ms),
    {
        self.phase = SearchPhase::Settling { pause_ms, last, adopt };
        Action::Sleep(pause_ms)
    }

    /// Drives a move. `None` says that the move has arrived and that what
    /// follows is the caller's to decide.
    fn travel(
        &mut self,
        state: &mut BackendState,
        mover: Mover,
        purpose: Purpose,
        adopt: Option<Label>,
        event: Event,
        updates: &mut Vec<Update>,
    ) -> (action: Option<Action>)
        ensures
            match search_moving(
                *old(self),
                *old(state),
                mover,
                purpose,
                adopt,
                event,
                views(old(updates)@),
            ) {
                Some(x) => action matches Some(a) && search_is(
                    x,
                    *old(state),
                    *final(self),
                    *final(state),
                    a,
                    final(updates)@,
                ),
                None => action is None && *final(self) == *old(self) && *final(state) == driven(
                    mover,
                    *old(state),
                    event,
                ).state && views(final(updates)@) == views(old(updates)@) + driven(
                    mover,
                    *old(state),
                    event,
                ).notes,
            },
    {
        let mut mover = mover;
        match mover.drive(state, event, updates) {
            Verdict::Send(byte) => {
                self.phase = SearchPhase::Moving { mover, purpose, adopt };
                Some(Action::Send(byte))
            },
            Verdict::Failed(error) => Some(self.close(state, Err(error), updates)),
            Verdict::Arrived => None,
        }
    }

    fn offset(
        &mut self,
        state: &mut BackendState,
        mover: Mover,
        adopt: Option<Label>,
        event: Event,
        updates: &mut Vec<Update>,
    ) -> (action: Action)
        ensures
            search_is(
                search_offset(*old(self), *old(state), mover, adopt, event, views(old(updates)@)),
                *old(state),
                *final(self),
                *final(state),
                action,
                final(updates)@,
            ),
    {
        match self.travel(state, mover, Purpose::Offset, adopt, event, updates) {
            Some(action) => action,
            None => self.settle(PAUSE_AFTER_RESET_MS, false, adopt),
        }
    }

    fn nudged(
        &mut self,
        state: &mut BackendState,
        mode: MoveMode,
        flip: bool,
        adopt: Option<Label>,
        updates: &mut Vec<Update>,
    ) -> (action: Action)
        ensures
            search_is(
                search_nudged(*old(self), *old(state), mode, flip, adopt, views(old(updates)@)),
                *old(state),
                *final(self),
                *final(state),
                action,
                final(updates)@,
            ),
    {
        if !flip {
            return self.settle(PAUSE_AFTER_STEP_MS, false, adopt);
        }
        match state.measurement.current_steps {
            None => self.close(state, Err(TaskError::PositionUnknown), updates),
            Some(p) => {
                if self.boundary1.is_none() {
                    self.boundary1 = Some(p);
                    self.first = None;
                    self.window.reset();
                    let swing: i32 = match mode {
                        MoveMode::ResetBackward => -OFFSET_STEPS,
                        _ => OFFSET_STEPS,
                    };
                    let mover = Mover::rotation(
                        swing,
                        state.rotation_direction_need_reverse,
                        self.find_zero,
                    );
                    self.offset(state, mover, adopt, Event::Resume, updates)
                } else {
                    self.boundary2 = Some(p);
                    self.settle(PAUSE_AFTER_RESET_MS, true, adopt)
                }
            },
        }
    }

    fn nudge(
        &mut self,
        state: &mut BackendState,
        mover: Mover,
        mode: MoveMode,
        flip: bool,
        adopt: Option<Label>,
        event: Event,
        updates: &mut Vec<Update>,
    ) -> (action: Action)
        ensures
            search_is(
                search_nudge(
                    *old(self),
                    *old(state),
                    mover,
                    mode,
                    flip,
                    adopt,
                    event,
                    views(old(updates)@),
                ),
                *old(state),
                *final(self),
                *final(state),
                action,
                final(updates)@,
            ),
    {
        match self.travel(state, mover, Purpose::Nudge { mode, flip }, adopt, event, updates) {
            Some(action) => action,
            None => self.nudged(state, mode, flip, adopt, updates),
        }
    }

    fn branch(
        &mut self,
        state: &mut BackendState,
        adopt: Option<Label>,
        updates: &mut Vec<Update>,
    ) -> (action: Action)
        ensures
            search_is(
                search_branch(*old(self), *old(state), adopt, views(old(updates)@)),
                *old(state),
                *final(self),
                *final(state),
                action,
                final(updates)@,
            ),
    {
        let mode = choose_nudge(&self.window, self.first);
        let flip = self.window.flipped(self.first);
        let mover = Mover::nudge(mode, state.rotation_direction_need_reverse, self.find_zero);
        self.nudge(state, mover, mode, flip, adopt, Event::Resume, updates)
    }

    fn kick(
        &mut self,
        state: &mut BackendState,
        mover: Mover,
        adopt: Option<Label>,
        event: Event,
        updates: &mut Vec<Update>,
    ) -> (action: Action)
        ensures
            search_is(
                search_kick(*old(self), *old(state), mover, adopt, event, views(old(updates)@)),
                *old(state),
                *final(self),
                *final(state),
                action,
                final(updates)@,
            ),
    {
        match self.travel(state, mover, Purpose::Kick, adopt, event, updates) {
            Some(action) => action,
            None => self.branch(state, adopt, updates),
        }
    }

    fn labelled(&mut self, state: &mut BackendState, raw: Label, updates: &mut Vec<Update>) -> (action:
        Action)
        requires
            old(updates)@.len() == 0,
        ensures
            search_is(
                search_labelled(*old(self), *old(state), raw),
                *old(state),
                *final(self),
                *final(state),
                action,
                final(updates)@,
            ),
    {
        let label = raw.flipped_if(self.invert);
        self.window.push(label);
        let adopt = self.window.uniform();
        if self.first.is_none() {
            self.first = Some(label);
        }
        let fresh: bool = !self.kicked;
        self.kicked = true;
        if fresh {
            let steps: i32 = match label {
                Label::Zero => STEPS_PER_DEGREE,
                Label::One => -STEPS_PER_DEGREE,
            };
            let mover = Mover::rotation(
                steps,
                state.rotation_direction_need_reverse,
                self.find_zero,
            );
            self.kick(state, mover, adopt, Event::Resume, updates)
        } else {
            self.branch(state, adopt, updates)
        }
    }

    fn centered(
        &mut self,
        state: &mut BackendState,
        observation: Observation,
        updates: &mut Vec<Update>,
    ) -> (action: Action)
        ensures
            search_agrees(
                search_centered(*old(self), *old(state), observation, views(old(updates)@)),
                *old(state),
                *final(self),
                *final(state),
                action,
                final(updates)@,
            ),
    {
        let more: bool = self.runs_left > 1;
        if self.find_zero {
            self.runs_left = if more {
                self.runs_left - 1
            } else {
                0
            };
            if more {
                self.begin(state, observation, updates)
            } else {
                self.close(state, Ok(()), updates)
            }
        } else {
            match state.measurement.current_steps {
                None => self.close(state, Err(TaskError::PositionUnknown), updates),
                Some(p) => {
                    let len: usize = state.measurement.static_results.len();
                    let record = StaticResult {
                        index: if len < usize::MAX {
                            len + 1
                        } else {
                            usize::MAX
                        },
                        steps: p,
                    };
                    let mut list: Vec<StaticResult> = state.measurement.static_results.clone();
                    list.push(record);
                    emit(
                        updates,
                        Update::Measurement(MeasurementUpdate::StaticResults(list.clone())),
                    );
                    self.runs_left = if more {
                        self.runs_left - 1
                    } else {
                        0
                    };
                    let action = if more {
                        self.begin(state, observation, updates)
                    } else {
                        self.close(state, Ok(()), updates)
                    };
                    state.measurement.static_results = list;
                    action
                },
            }
        }
    }

    fn center(
        &mut self,
        state: &mut BackendState,
        observation: Observation,
        mover: Mover,
        event: Event,
        updates: &mut Vec<Update>,
    ) -> (action: Action)
        ensures
            search_agrees(
                search_center(
                    *old(self),
                    *old(state),
                    observation,
                    mover,
                    event,
                    views(old(updates)@),
                ),
                *old(state),
                *final(self),
                *final(state),
                action,
                final(updates)@,
            ),
    {
        match self.travel(state, mover, Purpose::Center, None, event, updates) {
            Some(action) => action,
            None => self.centered(state, observation, updates),
        }
    }

    fn resumed(
        &mut self,
        state: &mut BackendState,
        observation: Observation,
        last: bool,
        adopt: Option<Label>,
        updates: &mut Vec<Update>,
    ) -> (action: Action)
        requires
            old(updates)@.len() == 0,
        ensures
            search_agrees(
                search_resumed(*old(self), *old(state), observation, last, adopt),
                *old(state),
                *final(self),
                *final(state),
                action,
                final(updates)@,
            ),
    {
        if !self.find_zero {
            emit(
                updates,
                Update::Measurement(
                    MeasurementUpdate::CurrentSteps(state.measurement.current_steps),
                ),
            );
        }
        proof {
            let notes = if self.find_zero {
                Seq::empty()
            } else {
                seq![steps_note(state.measurement.current_steps)]
            };
            assert(views(updates@) =~= notes);
        }
        if last {
            match (self.boundary1, self.boundary2, state.measurement.current_steps) {
                (Some(a), Some(b), Some(p)) => {
                    let mover = Mover::passage(
                        p,
                        midpoint(a, b),
                        state.rotation_direction_need_reverse,
                        self.find_zero,
                    );
                    self.center(state, observation, mover, Event::Resume, updates)
                },
                (Some(_), Some(_), None) => self.close(
                    state,
                    Err(TaskError::PositionUnknown),
                    updates,
                ),
                _ => self.close(state, Err(TaskError::BracketSearchFailed), updates),
            }
        } else {
            if adopt.is_some() {
                self.first = adopt;
            }
            self.watch(state, observation, updates)
        }
    }

    fn cancel(
        &mut self,
        state: &mut BackendState,
        observation: Observation,
        event: Event,
        updates: &mut Vec<Update>,
    ) -> (action: Action)
        requires
            observation.cancelled,
            old(updates)@.len() == 0,
        ensures
            search_is(
                search_cancelled(*old(self), *old(state), observation, event),
                *old(state),
                *final(self),
                *final(state),
                action,
                final(updates)@,
            ),
    {
        let fault: Option<TaskError> = match self.phase {
            SearchPhase::Moving { mover, purpose: _, adopt: _ } => {
                let mut mover = mover;
                let fault = mover.settle(state, event, updates);
                fault
            },
            _ => None,
        };
        match fault {
            Some(error) => self.close(state, Err(error), updates),
            None => {
                let error: TaskError = if self.boundary1.is_some() {
                    TaskError::BracketSearchFailed
                } else {
                    TaskError::Cancelled
                };
                emit(updates, Update::Measurement(MeasurementUpdate::StaticStatus(StaticNote::Aborted)));
                self.close(state, Err(error), updates)
            },
        }
    }

    /// Says the next thing to do for the search, given what was seen and
    /// what happened. To be called under the lock.
    pub fn step(&mut self, state: &mut BackendState, observation: Observation, event: Event) -> (step:
        Step)
        ensures
            search_agrees(
                search_stepped(*old(self), *old(state), observation, event),
                *old(state),
                *final(self),
                *final(state),
                step.action,
                step.updates@,
            ),
    {
        let mut updates: Vec<Update> = Vec::new();
        assert(views(updates@) =~= Seq::empty());
        let action: Action = match self.phase {
            SearchPhase::Over(result) => Action::Finished(result),
            SearchPhase::Ready => self.begin(state, observation, &mut updates),
            SearchPhase::Watching => if observation.cancelled {
                self.cancel(state, observation, event, &mut updates)
            } else {
                match event {
                    Event::Label(Some(raw)) => self.labelled(state, raw, &mut updates),
                    _ => self.watch(state, observation, &mut updates),
                }
            },
            SearchPhase::Moving { mover, purpose, adopt } => if observation.cancelled {
                self.cancel(state, observation, event, &mut updates)
            } else {
                match purpose {
                    Purpose::Kick => self.kick(state, mover, adopt, event, &mut updates),
                    Purpose::Nudge { mode, flip } => self.nudge(
                        state,
                        mover,
                        mode,
                        flip,
                        adopt,
                        event,
                        &mut updates,
                    ),
                    Purpose::Offset => self.offset(state, mover, adopt, event, &mut updates),
                    Purpose::Center => self.center(state, observation, mover, event, &mut updates),
                }
            },
            SearchPhase::Settling { pause_ms, last, adopt } => if observation.cancelled {
                self.cancel(state, observation, event, &mut updates)
            } else {
                match event {
                    Event::Resume => self.resumed(state, observation, last, adopt, &mut updates),
                    _ => Action::Sleep(pause_ms),
                }
            },
        };
        Step { action, updates }
    }
}

/// A task that was let in, or the reason why it was not, with what the
/// outside is told either way.
pub struct Admission<T> {
    pub task: Result<T, TaskError>,
    pub updates: Vec<Update>,
}

/// The state with a static measurement registered.
pub open spec fn static_registered(s: BackendState, token: CancellationToken) -> BackendState {
    BackendState {
        measurement: MeasurementState { static_task_token: Some(token), ..s.measurement },
        ..s
    }
}

/// The search as it stands when it is let in.
pub open spec fn search_admitted(find_zero: bool, times: i32) -> BracketSearch {
    BracketSearch {
        find_zero,
        runs_left: times,
        invert: false,
        started_ns: 0,
        window: PredictionWindow::blank(),
        first: None,
        kicked: false,
        boundary1: None,
        boundary2: None,
        phase: SearchPhase::Ready,
    }
}

/// Why a static measurement cannot begin, if it cannot: the classifier, the
/// camera or the motor is missing, or a measurement is registered already.
pub open spec fn static_rejection(s: BackendState) -> Option<Rejection> {
    if !s.ready() {
        Some(Rejection::NotReady)
    } else if s.measuring() {
        Some(Rejection::Busy)
    } else {
        None
    }
}

/// Lets a bracket search in, or turns it away.
///
/// The search is turned away, with the state left as it is, when the
/// classifier, the camera or the motor is missing, or when a static or dynamic
/// measurement is registered already; the outside is told the reason and that
/// no static measurement runs. Otherwise the token is registered and the
/// outside is told that a static measurement runs. `find_zero` makes the
/// search a zero calibration of one run; `times` is the number of runs.
pub fn static_measurement(
    state: &mut BackendState,
    token: &CancellationToken,
    find_zero: bool,
    times: i32,
) -> (admission: Admission<BracketSearch>)
    ensures
        match static_rejection(*old(state)) {
            Some(why) => admission.task == Err::<BracketSearch, TaskError>(
                TaskError::PreconditionRejected(why),
            ) && *final(state) == *old(state) && views(admission.updates@) == seq![
                error_note(TaskError::PreconditionRejected(why)),
                static_running_note(false),
            ],
            None => admission.task == Ok::<BracketSearch, TaskError>(
                search_admitted(find_zero, times),
            ) && *final(state) == static_registered(*old(state), *token) && views(
                admission.updates@,
            ) == seq![static_running_note(true)],
        },
{
    let mut updates: Vec<Update> = Vec::new();
    let ready: bool = state.training.model_ready && state.devices.camera_connected
        && state.devices.serial_connected;
    let busy: bool = state.measurement.static_task_token.is_some()
        || state.measurement.dynamic_task_token.is_some();
    if !ready || busy {
        let error = TaskError::PreconditionRejected(
            if !ready {
                Rejection::NotReady
            } else {
                Rejection::Busy
            },
        );
        emit(&mut updates, Update::General(GeneralUpdate::Error(error)));
        emit(&mut updates, Update::Measurement(MeasurementUpdate::StaticRunning(false)));
        return Admission { task: Err(error), updates };
    }
    state.measurement.static_task_token = Some(share(token));
    emit(&mut updates, Update::Measurement(MeasurementUpdate::StaticRunning(true)));
    Admission {
        task: Ok(
            BracketSearch {
                find_zero,
                runs_left: times,
                invert: false,
                started_ns: 0,
                window: PredictionWindow::new(),
                first: None,
                kicked: false,
                boundary1: None,
                boundary2: None,
                phase: SearchPhase::Ready,
            },
        ),
        updates,
    }
}

} // verus!
