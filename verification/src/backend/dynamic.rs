//! Pre-rotation and the dynamic experiment.
//!
//! The dynamic experiment follows a transition that drifts with time. It first
//! finds the transition once, by pre-rotation. Then it turns the polarizer
//! ahead by a fixed stride and waits for the transition to catch up; each time
//! it does, the time and the position are recorded and the polarizer is turned
//! ahead again. However the experiment ends, the motor is sent back to the
//! zero point before the task is over.

use crate::backend::measurement::camera_lost;
use crate::backend::measurement::choose_nudge;
use crate::backend::measurement::classify_request;
use crate::backend::measurement::elapsed;
use crate::backend::measurement::elapsed_ns;
use crate::backend::measurement::next_index;
use crate::backend::measurement::nudge_for;
use crate::backend::measurement::request_for;
use crate::backend::measurement::Admission;
use crate::backend::measurement::PAUSE_AFTER_RESET_MS;
use crate::backend::measurement::PAUSE_AFTER_STEP_MS;
use crate::backend::measurement::SEARCH_BUDGET_NS;
use crate::backend::motor::driven;
use crate::backend::motor::settled;
use crate::backend::motor::Mover;
use crate::backend::motor::Stepped;
use crate::backend::motor::Verdict;
use crate::backend::task::Action;
use crate::backend::task::Event;
use crate::backend::task::Observation;
use crate::backend::task::Step;
use crate::backend::BackendState;
use crate::backend::MeasurementState;
use crate::communication::camera_note;
use crate::communication::dynamic_results_note;
use crate::communication::dynamic_running_note;
use crate::communication::dynamic_status_note;
use crate::communication::emit;
use crate::communication::error_note;
use crate::communication::steps_note;
use crate::communication::views;
use crate::communication::DeviceUpdate;
use crate::communication::DynamicNote;
use crate::communication::DynamicResult;
use crate::communication::GeneralUpdate;
use crate::communication::MeasurementUpdate;
use crate::communication::Rejection;
use crate::communication::TaskError;
use crate::communication::Update;
use crate::communication::UpdateView;
use crate::token::share;
use crate::token::CancellationToken;
use crate::window::Label;
use crate::window::PredictionWindow;
use vstd::prelude::*;

verus! {

/// The time a dynamic experiment may take on its clock, in nanoseconds: two
/// thousand seconds.
pub const DYNAMIC_BUDGET_NS: u64 = 2_000_000_000_000;

/// The pause between two readings of the dynamic experiment, in milliseconds.
pub const PAUSE_BETWEEN_READINGS_MS: u64 = 50;

/// The pause after a recorded transition, in milliseconds.
pub const PAUSE_AFTER_RECORD_MS: u64 = 150;

/// Where a pre-rotation stands.
#[derive(Clone, Copy, Debug)]
pub enum ApproachPhase {
    /// Not begun.
    Ready,
    /// A frame is being classified.
    Watching,
    /// A nudge is on its way; `flip` says that it answers a consensus flip.
    Moving { mover: Mover, flip: bool, adopt: Option<Label> },
    /// The pause after a nudge; `last` says that the flip has been found.
    Settling { pause_ms: u64, last: bool, adopt: Option<Label> },
    /// Pre-rotation is over.
    Over(Result<(), TaskError>),
}

/// A pre-rotation in progress: one approach to the transition, ended by the
/// first consensus flip.
#[derive(Clone, Copy, Debug)]
pub struct PreRotation {
    /// The orientation flag, as it stood when the approach began.
    pub invert: bool,
    /// When the approach began.
    pub started_ns: u64,
    pub window: PredictionWindow,
    /// The reference phase.
    pub first: Option<Label>,
    pub phase: ApproachPhase,
}

/// The end of a pre-rotation: the position is reported, whatever the result.
pub open spec fn approach_closed(
    m: PreRotation,
    s: BackendState,
    result: Result<(), TaskError>,
    notes: Seq<UpdateView>,
) -> Stepped<PreRotation, ()> {
    Stepped {
        task: PreRotation { phase: ApproachPhase::Over(result), ..m },
        state: s,
        action: Action::Finished(result),
        notes: notes + seq![steps_note(s.measurement.current_steps)],
        record: None,
    }
}

/// The head of a cycle of the approach: it is broken off on a stop or when
/// its ninety seconds are spent, fails when the camera is gone or its frame
/// slot is empty, and otherwise asks for the latest frame to be classified.
pub open spec fn approach_watch(
    m: PreRotation,
    s: BackendState,
    observation: Observation,
    notes: Seq<UpdateView>,
) -> Stepped<PreRotation, ()> {
    if observation.cancelled {
        approach_closed(m, s, Err(TaskError::Cancelled), notes)
    } else if elapsed_ns(observation.now_ns, m.started_ns) > SEARCH_BUDGET_NS {
        approach_closed(m, s, Err(TaskError::SearchTimeout), notes)
    } else if !s.devices.camera_connected {
        approach_closed(
            m,
            s,
            Err(TaskError::CameraUnavailable),
            notes + seq![dynamic_status_note(DynamicNote::CameraFault), camera_note(false)],
        )
    } else if !observation.frame_ready {
        approach_closed(
            m,
            camera_lost(s),
            Err(TaskError::CameraUnavailable),
            notes + seq![
                dynamic_status_note(DynamicNote::CameraFault),
                camera_note(false),
                steps_note(s.measurement.current_steps),
            ],
        )
    } else {
        Stepped {
            task: PreRotation { phase: ApproachPhase::Watching, ..m },
            state: s,
            action: Action::Classify(request_for(s)),
            notes,
            record: None,
        }
    }
}

/// The beginning of the approach. Without classifier, camera and motor it
/// ends at once.
pub open spec fn approach_begun(
    m: PreRotation,
    s: BackendState,
    observation: Observation,
    notes: Seq<UpdateView>,
) -> Stepped<PreRotation, ()> {
    if !s.ready() {
        approach_closed(m, s, Err(TaskError::PreconditionRejected(Rejection::NotReady)), notes)
    } else {
        approach_watch(
            PreRotation {
                invert: s.rotation_direction_is_ama,
                started_ns: observation.now_ns,
                window: PredictionWindow::blank(),
                first: None,
                ..m
            },
            s,
            observation,
            notes,
        )
    }
}

/// A nudge of the approach, driven one step further. A resetting nudge that
/// has arrived is followed by the long pause and ends the approach, a
/// stepping nudge by the short pause.
pub open spec fn approach_nudge(
    m: PreRotation,
    s: BackendState,
    mover: Mover,
    flip: bool,
    adopt: Option<Label>,
    event: Event,
    notes: Seq<UpdateView>,
) -> Stepped<PreRotation, ()> {
    let d = driven(mover, s, event);
    match d.verdict {
        Verdict::Send(byte) => Stepped {
            task: PreRotation { phase: ApproachPhase::Moving { mover: d.mover, flip, adopt }, ..m },
            state: d.state,
            action: Action::Send(byte),
            notes: notes + d.notes,
            record: None,
        },
        Verdict::Failed(error) => approach_closed(m, d.state, Err(error), notes + d.notes),
        Verdict::Arrived => {
            let pause_ms = if flip {
                PAUSE_AFTER_RESET_MS
            } else {
                PAUSE_AFTER_STEP_MS
            };
            Stepped {
                task: PreRotation {
                    phase: ApproachPhase::Settling { pause_ms, last: flip, adopt },
                    ..m
                },
                state: d.state,
                action: Action::Sleep(pause_ms),
                notes: notes + d.notes,
                record: None,
            }
        },
    }
}

/// A label has come in. The orientation flag is applied, the window takes
/// the reading and is reported, the first reading becomes the reference, and
/// the nudge that window and reference call for is sent.
pub open spec fn approach_labelled(
    m: PreRotation,
    s: BackendState,
    raw: Label,
    notes: Seq<UpdateView>,
) -> Stepped<PreRotation, ()> {
    let label = raw.spec_flipped_if(m.invert);
    let window = m.window.pushed(label);
    let first = if m.first is None {
        Some(label)
    } else {
        m.first
    };
    approach_nudge(
        PreRotation { window, first, ..m },
        s,
        Mover::nudging(nudge_for(window, first), s.rotation_direction_need_reverse, false),
        window.flips_from(first),
        window.unanimous(),
        Event::Resume,
        notes + seq![dynamic_status_note(DynamicNote::PreRotating(window))],
    )
}

/// The pause is over. The position is reported. After the flip the approach
/// ends well; otherwise a window that was unanimous names the new reference,
/// and the next cycle begins.
pub open spec fn approach_resumed(
    m: PreRotation,
    s: BackendState,
    observation: Observation,
    last: bool,
    adopt: Option<Label>,
    notes: Seq<UpdateView>,
) -> Stepped<PreRotation, ()> {
    let told = notes + seq![steps_note(s.measurement.current_steps)];
    if last {
        approach_closed(m, s, Ok(()), told)
    } else {
        approach_watch(
            PreRotation {
                first: if adopt is Some {
                    adopt
                } else {
                    m.first
                },
                ..m
            },
            s,
            observation,
            told,
        )
    }
}

/// A pre-rotation that finds its token set ends with that call, as
/// cancelled. If a byte was out and its verdict has come, the verdict is taken
/// first; a motor lost by it ends the pre-rotation as disconnected.
pub open spec fn approach_cancelled(
    m: PreRotation,
    s: BackendState,
    event: Event,
    notes: Seq<UpdateView>,
) -> Stepped<PreRotation, ()> {
    match m.phase {
        ApproachPhase::Moving { mover, .. } => {
            let a = settled(mover, s, event);
            approach_closed(
                m,
                a.state,
                Err(
                    match a.fault {
                        Some(error) => error,
                        None => TaskError::Cancelled,
                    },
                ),
                notes + a.notes,
            )
        },
        _ => approach_closed(m, s, Err(TaskError::Cancelled), notes),
    }
}

/// What one call makes of a pre-rotation.
///
/// A pre-rotation that is over says so again; one that has not begun
/// begins; a call that finds the token set ends it. Otherwise a label is
/// taken, or a nudge is driven, or a pause ends.
pub open spec fn approach_stepped(
    m: PreRotation,
    s: BackendState,
    observation: Observation,
    event: Event,
    notes: Seq<UpdateView>,
) -> Stepped<PreRotation, ()> {
    match m.phase {
        ApproachPhase::Over(result) => Stepped {
            task: m,
            state: s,
            action: Action::Finished(result),
            notes,
            record: None,
        },
        ApproachPhase::Ready => approach_begun(m, s, observation, notes),
        ApproachPhase::Watching => if observation.cancelled {
            approach_cancelled(m, s, event, notes)
        } else {
            match event {
                Event::Label(Some(raw)) => approach_labelled(m, s, raw, notes),
                _ => approach_watch(m, s, observation, notes),
            }
        },
        ApproachPhase::Moving { mover, flip, adopt } => if observation.cancelled {
            approach_cancelled(m, s, event, notes)
        } else {
            approach_nudge(m, s, mover, flip, adopt, event, notes)
        },
        ApproachPhase::Settling { pause_ms, last, adopt } => if observation.cancelled {
            approach_cancelled(m, s, event, notes)
        } else {
            match event {
                Event::Resume => approach_resumed(m, s, observation, last, adopt, notes),
                _ => Stepped {
                    task: m,
                    state: s,
                    action: Action::Sleep(pause_ms),
                    notes,
                    record: None,
                },
            }
        },
    }
}

/// Whether a task, a state, an action and a list of updates are what a step
/// of a pre-rotation says they are.
pub open spec fn approach_is(
    x: Stepped<PreRotation, ()>,
    before: BackendState,
    task: PreRotation,
    state: BackendState,
    action: Action,
    updates: Seq<Update>,
) -> bool {
    &&& task == x.task
    &&& state == x.state
    &&& action == x.action
    &&& views(updates) == x.notes
    &&& state.measurement.dynamic_results == before.measurement.dynamic_results
    &&& state.measurement.dynamic_task_token == before.measurement.dynamic_task_token
}

impl PreRotation {
    /// A pre-rotation that has not begun.
    pub open spec fn fresh() -> PreRotation {
        PreRotation {
            invert: false,
            started_ns: 0,
            window: PredictionWindow::blank(),
            first: None,
            phase: ApproachPhase::Ready,
        }
    }

    fn close(
        &mut self,
        state: &mut BackendState,
        result: Result<(), TaskError>,
        updates: &mut Vec<Update>,
    ) -> (action: Action)
        ensures
            approach_is(
                approach_closed(*old(self), *old(state), result, views(old(updates)@)),
                *old(state),
                *final(self),
                *final(state),
                action,
                final(updates)@,
            ),
    {
        emit(
            updates,
            Update::Measurement(MeasurementUpdate::CurrentSteps(state.measurement.current_steps)),
        );
        self.phase = ApproachPhase::Over(result);
        Action::Finished(result)
    }

    fn watch(
        &mut self,
        state: &mut BackendState,
        observation: Observation,
        updates: &mut Vec<Update>,
    ) -> (action: Action)
        ensures
            approach_is(
                approach_watch(*old(self), *old(state), observation, views(old(updates)@)),
                *old(state),
                *final(self),
                *final(state),
                action,
                final(updates)@,
            ),
    {
        let ghost notes0 = views(updates@);
        if observation.cancelled {
            self.close(state, Err(TaskError::Cancelled), updates)
        } else if elapsed(observation.now_ns, self.started_ns) > SEARCH_BUDGET_NS {
            self.close(state, Err(TaskError::SearchTimeout), updates)
        } else if !state.devices.camera_connected {
            emit(updates, Update::Measurement(MeasurementUpdate::DynamicStatus(DynamicNote::CameraFault)));
            emit(updates, Update::Device(DeviceUpdate::CameraConnectionStatus(false)));
            assert(views(updates@) =~= notes0 + seq![
                dynamic_status_note(DynamicNote::CameraFault),
                camera_note(false),
            ]);
            self.close(state, Err(TaskError::CameraUnavailable), updates)
        } else if !observation.frame_ready {
            emit(updates, Update::Measurement(MeasurementUpdate::DynamicStatus(DynamicNote::CameraFault)));
            emit(updates, Update::Device(DeviceUpdate::CameraConnectionStatus(false)));
            emit(
                updates,
                Update::Measurement(
                    MeasurementUpdate::CurrentSteps(state.measurement.current_steps),
                ),
            );
            assert(views(updates@) =~= notes0 + seq![
                dynamic_status_note(DynamicNote::CameraFault),
                camera_note(false),
                steps_note(state.measurement.current_steps),
            ]);
            state.devices.camera_connected = false;
            self.close(state, Err(TaskError::CameraUnavailable), updates)
        } else {
            self.phase = ApproachPhase::Watching;
            Action::Classify(classify_request(state))
        }
    }

    fn begin(
        &mut self,
        state: &mut BackendState,
        observation: Observation,
        updates: &mut Vec<Update>,
    ) -> (action: Action)
        ensures
            approach_is(
                approach_begun(*old(self), *old(state), observation, views(old(updates)@)),
                *old(state),
                *final(self),
                *final(state),
                action,
                final(updates)@,
            ),
    {
        let ready: bool = state.training.model_ready && state.devices.camera_connected
            && state.devices.serial_connected;
        if !ready {
            self.close(state, Err(TaskError::PreconditionRejected(Rejection::NotReady)), updates)
        } else {
            self.invert = state.rotation_direction_is_ama;
            self.started_ns = observation.now_ns;
            self.window.reset();
            self.first = None;
            self.watch(state, observation, updates)
        }
    }

    fn nudge(
        &mut self,
        state: &mut BackendState,
        mover: Mover,
        flip: bool,
        adopt: Option<Label>,
        event: Event,
        updates: &mut Vec<Update>,
    ) -> (action: Action)
        ensures
            approach_is(
                approach_nudge(
                    *old(self),
                    *old(state),
                    mover,
                    flip,
                    adopt,
                    event,
                    views(old(updates)@),
                ),
                *old(state),
                *final(self),
                *final(state),
                action,
                final(updates)@,
            ),
    {
        let mut mover = mover;
        match mover.drive(state, event, updates) {
            Verdict::Send(byte) => {
                self.phase = ApproachPhase::Moving { mover, flip, adopt };
                Action::Send(byte)
            },
            Verdict::Failed(error) => self.close(state, Err(error), updates),
            Verdict::Arrived => {
                let pause_ms: u64 = if flip {
                    PAUSE_AFTER_RESET_MS
                } else {
                    PAUSE_AFTER_STEP_MS
                };
                self.phase = ApproachPhase::Settling { pause_ms, last: flip, adopt };
                Action::Sleep(pause_ms)
            },
        }
    }

    fn labelled(&mut self, state: &mut BackendState, raw: Label, updates: &mut Vec<Update>) -> (action:
        Action)
        ensures
            approach_is(
                approach_labelled(*old(self), *old(state), raw, views(old(updates)@)),
                *old(state),
                *final(self),
                *final(state),
                action,
                final(updates)@,
            ),
    {
        let label = raw.flipped_if(self.invert);
        self.window.push(label);
        emit(
            updates,
            Update::Measurement(
                MeasurementUpdate::DynamicStatus(DynamicNote::PreRotating(self.window)),
            ),
        );
        if self.first.is_none() {
            self.first = Some(label);
        }
        let adopt = self.window.uniform();
        let mode = choose_nudge(&self.window, self.first);
        let flip = self.window.flipped(self.first);
        let mover = Mover::nudge(mode, state.rotation_direction_need_reverse, false);
        self.nudge(state, mover, flip, adopt, Event::Resume, updates)
    }

    fn resumed(
        &mut self,
        state: &mut BackendState,
        observation: Observation,
        last: bool,
        adopt: Option<Label>,
        updates: &mut Vec<Update>,
    ) -> (action: Action)
        ensures
            approach_is(
                approach_resumed(
                    *old(self),
                    *old(state),
                    observation,
                    last,
                    adopt,
                    views(old(updates)@),
                ),
                *old(state),
                *final(self),
                *final(state),
                action,
                final(updates)@,
            ),
    {
        emit(
            updates,
            Update::Measurement(MeasurementUpdate::CurrentSteps(state.measurement.current_steps)),
        );
        if last {
            self.close(state, Ok(()), updates)
        } else {
            if adopt.is_some() {
                self.first = adopt;
            }
            self.watch(state, observation, updates)
        }
    }

    fn cancel(&mut self, state: &mut BackendState, event: Event, updates: &mut Vec<Update>) -> (action:
        Action)
        ensures
            approach_is(
                approach_cancelled(*old(self), *old(state), event, views(old(updates)@)),
                *old(state),
                *final(self),
                *final(state),
                action,
                final(updates)@,
            ),
    {
        let fault: Option<TaskError> = match self.phase {
            ApproachPhase::Moving { mover, flip: _, adopt: _ } => {
                let mut mover = mover;
                mover.settle(state, event, updates)
            },
            _ => {
                None
            },
        };
        let error: TaskError = match fault {
            Some(error) => error,
            None => TaskError::Cancelled,
        };
        self.close(state, Err(error), updates)
    }

    /// Takes the approach one call further and appends what the outside is
    /// to be told to `updates`.
    pub fn advance(
        &mut self,
        state: &mut BackendState,
        observation: Observation,
        event: Event,
        updates: &mut Vec<Update>,
    ) -> (action: Action)
        ensures
            approach_is(
                approach_stepped(
                    *old(self),
                    *old(state),
                    observation,
                    event,
                    views(old(updates)@),
                ),
                *old(state),
                *final(self),
                *final(state),
                action,
                final(updates)@,
            ),
    {
        match self.phase {
            ApproachPhase::Over(result) => Action::Finished(result),
            ApproachPhase::Ready => self.begin(state, observation, updates),
            ApproachPhase::Watching => if observation.cancelled {
                self.cancel(state, event, updates)
            } else {
                match event {
                    Event::Label(Some(raw)) => self.labelled(state, raw, updates),
                    _ => self.watch(state, observation, updates),
                }
            },
            ApproachPhase::Moving { mover, flip, adopt } => if observation.cancelled {
                self.cancel(state, event, updates)
            } else {
                self.nudge(state, mover, flip, adopt, event, updates)
            },
            ApproachPhase::Settling { pause_ms, last, adopt } => if observation.cancelled {
                self.cancel(state, event, updates)
            } else {
                match event {
                    Event::Resume => self.resumed(state, observation, last, adopt, updates),
                    _ => Action::Sleep(pause_ms),
                }
            },
        }
    }

    /// Says the next thing to do for the approach, given what was seen and
    /// what happened. To be called under the lock.
    pub fn step(&mut self, state: &mut BackendState, observation: Observation, event: Event) -> (step:
        Step)
        ensures
            approach_is(
                approach_stepped(*old(self), *old(state), observation, event, Seq::empty()),
                *old(state),
                *final(self),
                *final(state),
                step.action,
                step.updates@,
            ),
    {
        let mut updates: Vec<Update> = Vec::new();
        assert(views(updates@) =~= Seq::empty());
        let action = self.advance(state, observation, event, &mut updates);
        Step { action, updates }
    }
}

/// Begins a pre-rotation. Whether classifier, camera and motor are there is
/// looked at on its first call.
pub fn pre_rotation() -> (task: PreRotation)
    ensures
        task == PreRotation::fresh(),
{
    PreRotation {
        invert: false,
        started_ns: 0,
        window: PredictionWindow::new(),
        first: None,
        phase: ApproachPhase::Ready,
    }
}

/// Where a dynamic experiment stands.
#[derive(Clone, Copy, Debug)]
pub enum DynamicPhase {
    /// The transition is being found for the first time.
    Approaching(PreRotation),
    /// The polarizer is being turned ahead by one stride.
    Striding { mover: Mover },
    /// A frame is being classified.
    Watching,
    /// A new result is being handed to the result sink.
    Persisting,
    /// The pause between two readings.
    Pausing { pause_ms: u64 },
    /// The motor is on its way back to the zero point; `result` is how the
    /// experiment itself ended.
    Homing { mover: Mover, result: Result<(), TaskError> },
    /// The task is over.
    Over(Result<(), TaskError>),
}

/// A dynamic experiment in progress.
#[derive(Clone, Copy, Debug)]
pub struct DynamicRun {
    /// The orientation flag, as it stood when the task was let in.
    pub invert: bool,
    pub window: PredictionWindow,
    /// The reference phase.
    pub first: Option<Label>,
    /// Whether the experiment has wound up: the register is cleared and the
    /// way back to the zero point has been taken.
    pub homeward: bool,
    pub phase: DynamicPhase,
}

/// How a task ends whose experiment ended with `result` and whose way home
/// then failed with `error`: with the experiment's own error if it had one,
/// and with the error of the way home otherwise.
pub open spec fn or_else_error(result: Result<(), TaskError>, error: TaskError) -> Result<
    (),
    TaskError,
> {
    match result {
        Err(own) => Err(own),
        Ok(_) => Err(error),
    }
}

/// The end of a task whose way home failed.
pub fn or_else(result: Result<(), TaskError>, error: TaskError) -> (end: Result<(), TaskError>)
    ensures
        end == or_else_error(result, error),
{
    match result {
        Err(own) => Err(own),
        Ok(_) => Err(error),
    }
}

/// The way back to the zero point, driven one step further. The task ends
/// with the experiment's own result when the motor has arrived. When the
/// motor is lost on the way, it ends with the experiment's own error if it
/// had one, and with the motor's fault otherwise.
pub open spec fn dynamic_home(
    m: DynamicRun,
    s: BackendState,
    mover: Mover,
    result: Result<(), TaskError>,
    event: Event,
    notes: Seq<UpdateView>,
) -> Stepped<DynamicRun, DynamicResult> {
    let d = driven(mover, s, event);
    let end: Option<Result<(), TaskError>> = match d.verdict {
        Verdict::Send(_) => None,
        Verdict::Failed(error) => Some(or_else_error(result, error)),
        Verdict::Arrived => Some(result),
    };
    Stepped {
        task: DynamicRun {
            phase: match end {
                Some(r) => DynamicPhase::Over(r),
                None => DynamicPhase::Homing { mover: d.mover, result },
            },
            ..m
        },
        state: d.state,
        action: match d.verdict {
            Verdict::Send(byte) => Action::Send(byte),
            Verdict::Failed(error) => Action::Finished(or_else_error(result, error)),
            Verdict::Arrived => Action::Finished(result),
        },
        notes: notes + d.notes,
        record: None,
    }
}

/// The experiment winds up, whatever ended it. The results and the position
/// are reported, the task is struck from the register, the outside is told
/// that no dynamic measurement runs, and the motor is sent to the zero point.
/// Without a known position there is no way back: the task ends at once,
/// with the experiment's own error if it had one and with `PositionUnknown`
/// otherwise.
pub open spec fn dynamic_wound(
    m: DynamicRun,
    s: BackendState,
    result: Result<(), TaskError>,
    notes: Seq<UpdateView>,
) -> Stepped<DynamicRun, DynamicResult> {
    let told = notes + seq![
        dynamic_results_note(s.measurement.dynamic_results@),
        steps_note(s.measurement.current_steps),
        dynamic_running_note(false),
    ];
    let cleared = BackendState {
        measurement: MeasurementState { dynamic_task_token: None, ..s.measurement },
        ..s
    };
    let home = DynamicRun { homeward: true, ..m };
    match s.measurement.current_steps {
        None => Stepped {
            task: DynamicRun {
                phase: DynamicPhase::Over(or_else_error(result, TaskError::PositionUnknown)),
                ..home
            },
            state: cleared,
            action: Action::Finished(or_else_error(result, TaskError::PositionUnknown)),
            notes: told,
            record: None,
        },
        Some(p) => dynamic_home(
            home,
            cleared,
            Mover::passing(p as int, 0, s.rotation_direction_need_reverse, false),
            result,
            Event::Resume,
            told,
        ),
    }
}

/// The head of a cycle of the experiment. It winds up well once the list
/// holds as many results as were asked for; it winds up on a stop, and when
/// the experiment clock shows more than its budget; it winds up when the
/// camera is gone or its frame slot is empty. Otherwise the latest frame is
/// classified.
pub open spec fn dynamic_watch(
    m: DynamicRun,
    s: BackendState,
    observation: Observation,
    notes: Seq<UpdateView>,
) -> Stepped<DynamicRun, DynamicResult> {
    if s.measurement.dynamic_results@.len() >= s.measurement.dynamic_params.sample_points {
        dynamic_wound(m, s, Ok(()), notes)
    } else if observation.cancelled {
        dynamic_wound(m, s, Err(TaskError::Cancelled), notes)
    } else {
        match s.measurement.dynamic_time {
            None => dynamic_wound(
                m,
                s,
                Err(TaskError::PreconditionRejected(Rejection::ClockNotStarted)),
                notes,
            ),
            Some(since) => if elapsed_ns(observation.now_ns, since) > DYNAMIC_BUDGET_NS {
                dynamic_wound(m, s, Err(TaskError::SearchTimeout), notes)
            } else if !s.devices.camera_connected {
                dynamic_wound(
                    m,
                    s,
                    Err(TaskError::CameraUnavailable),
                    notes + seq![steps_note(s.measurement.current_steps), camera_note(false)],
                )
            } else if !observation.frame_ready {
                dynamic_wound(
                    m,
                    camera_lost(s),
                    Err(TaskError::CameraUnavailable),
                    notes + seq![steps_note(s.measurement.current_steps), camera_note(false)],
                )
            } else {
                Stepped {
                    task: DynamicRun { phase: DynamicPhase::Watching, ..m },
                    state: s,
                    action: Action::Classify(request_for(s)),
                    notes,
                    record: None,
                }
            },
        }
    }
}

/// One stride ahead, driven one step further. Once it has arrived the window
/// and the reference are cleared and the experiment pauses before it reads
/// again. The motor lost on the way winds the experiment up.
pub open spec fn dynamic_stride(
    m: DynamicRun,
    s: BackendState,
    mover: Mover,
    event: Event,
    notes: Seq<UpdateView>,
) -> Stepped<DynamicRun, DynamicResult> {
    let d = driven(mover, s, event);
    match d.verdict {
        Verdict::Send(byte) => Stepped {
            task: DynamicRun { phase: DynamicPhase::Striding { mover: d.mover }, ..m },
            state: d.state,
            action: Action::Send(byte),
            notes: notes + d.notes,
            record: None,
        },
        Verdict::Failed(error) => dynamic_wound(m, d.state, Err(error), notes + d.notes),
        Verdict::Arrived => Stepped {
            task: DynamicRun {
                window: PredictionWindow::blank(),
                first: None,
                phase: DynamicPhase::Pausing { pause_ms: PAUSE_AFTER_RECORD_MS },
                ..m
            },
            state: d.state,
            action: Action::Sleep(PAUSE_AFTER_RECORD_MS),
            notes: notes + d.notes,
            record: None,
        },
    }
}

/// The stride that the parameters ask for, from where the motor stands.
pub open spec fn stride_for(s: BackendState) -> Mover {
    Mover::rotating(
        s.measurement.dynamic_params.step_steps as int,
        s.rotation_direction_need_reverse,
        false,
    )
}

/// A label has come in. The orientation flag is applied, the first reading
/// after a blank reference becomes the reference, and the window takes the
/// reading. On a consensus flip the transition has caught up: its time on the
/// experiment clock and the position are recorded under the next index, the
/// list is reported, and the result sink is asked to take it. Nothing is
/// recorded into a list that is full already: the experiment winds up
/// instead. Without a flip the experiment pauses before it reads again.
pub open spec fn dynamic_labelled(
    m: DynamicRun,
    s: BackendState,
    observation: Observation,
    raw: Label,
    notes: Seq<UpdateView>,
) -> Stepped<DynamicRun, DynamicResult> {
    let label = raw.spec_flipped_if(m.invert);
    let first = if m.first is None {
        Some(label)
    } else {
        m.first
    };
    let window = m.window.pushed(label);
    let seen = DynamicRun { window, first, ..m };
    if !window.flips_from(first) {
        Stepped {
            task: DynamicRun {
                phase: DynamicPhase::Pausing { pause_ms: PAUSE_BETWEEN_READINGS_MS },
                ..seen
            },
            state: s,
            action: Action::Sleep(PAUSE_BETWEEN_READINGS_MS),
            notes,
            record: None,
        }
    } else if s.measurement.dynamic_results@.len() >= s.measurement.dynamic_params.sample_points {
        dynamic_wound(seen, s, Ok(()), notes)
    } else {
        match (s.measurement.current_steps, s.measurement.dynamic_time) {
            (Some(p), Some(since)) => {
                let record = DynamicResult {
                    index: next_index(s.measurement.dynamic_results@.len()),
                    time_ns: elapsed_ns(observation.now_ns, since),
                    steps: p,
                };
                Stepped {
                    task: DynamicRun { phase: DynamicPhase::Persisting, ..seen },
                    state: s,
                    action: Action::Persist,
                    notes: notes + seq![
                        dynamic_results_note(s.measurement.dynamic_results@.push(record)),
                    ],
                    record: Some(record),
                }
            },
            (None, _) => dynamic_wound(seen, s, Err(TaskError::PositionUnknown), notes),
            (Some(_), None) => dynamic_wound(
                seen,
                s,
                Err(TaskError::PreconditionRejected(Rejection::ClockNotStarted)),
                notes,
            ),
        }
    }
}

/// The pre-rotation of the experiment, taken one call further. When it ends
/// well the first stride follows at once; when it fails the experiment winds
/// up.
pub open spec fn dynamic_approach(
    m: DynamicRun,
    s: BackendState,
    observation: Observation,
    approach: PreRotation,
    event: Event,
    notes: Seq<UpdateView>,
) -> Stepped<DynamicRun, DynamicResult> {
    let x = approach_stepped(approach, s, observation, event, notes);
    match x.action {
        Action::Finished(Ok(_)) => dynamic_stride(
            m,
            x.state,
            stride_for(x.state),
            Event::Resume,
            x.notes,
        ),
        Action::Finished(Err(error)) => dynamic_wound(m, x.state, Err(error), x.notes),
        other => Stepped {
            task: DynamicRun { phase: DynamicPhase::Approaching(x.task), ..m },
            state: x.state,
            action: other,
            notes: x.notes,
            record: None,
        },
    }
}

/// How an experiment ends that is stopped: well if the list holds as many
/// results as were asked for, as cancelled otherwise.
pub open spec fn stopped_result(s: BackendState) -> Result<(), TaskError> {
    if s.measurement.dynamic_results@.len() >= s.measurement.dynamic_params.sample_points {
        Ok(())
    } else {
        Err(TaskError::Cancelled)
    }
}

/// An experiment that finds its token set winds up with that call. If a
/// byte was out and its verdict has come, the verdict is taken first; a motor
/// lost by it winds the experiment up as disconnected.
pub open spec fn dynamic_cancelled(m: DynamicRun, s: BackendState, event: Event) -> Stepped<
    DynamicRun,
    DynamicResult,
> {
    match m.phase {
        DynamicPhase::Striding { mover } => {
            let a = settled(mover, s, event);
            dynamic_wound(
                m,
                a.state,
                match a.fault {
                    Some(error) => Err(error),
                    None => stopped_result(a.state),
                },
                a.notes,
            )
        },
        _ => dynamic_wound(m, s, stopped_result(s), Seq::empty()),
    }
}

/// What one call makes of a dynamic experiment.
///
/// An experiment that is over says so again. The way home is driven to
/// its end whether the token is set or not. During pre-rotation the call is
/// the pre-rotation's. Otherwise a call that finds the token set winds the
/// experiment up; and if it is not set, a stride is driven, a label is taken,
/// the hand-over to the result sink is followed by the next stride, or a
/// pause ends.
pub open spec fn dynamic_stepped(
    m: DynamicRun,
    s: BackendState,
    observation: Observation,
    event: Event,
) -> Stepped<DynamicRun, DynamicResult> {
    match m.phase {
        DynamicPhase::Over(result) => Stepped {
            task: m,
            state: s,
            action: Action::Finished(result),
            notes: Seq::empty(),
            record: None,
        },
        DynamicPhase::Approaching(approach) => dynamic_approach(
            m,
            s,
            observation,
            approach,
            event,
            Seq::empty(),
        ),
        DynamicPhase::Homing { mover, result } => dynamic_home(
            m,
            s,
            mover,
            result,
            event,
            Seq::empty(),
        ),
        DynamicPhase::Striding { mover } => if observation.cancelled {
            dynamic_cancelled(m, s, event)
        } else {
            dynamic_stride(m, s, mover, event, Seq::empty())
        },
        DynamicPhase::Watching => if observation.cancelled {
            dynamic_cancelled(m, s, event)
        } else {
            match event {
                Event::Label(Some(raw)) => dynamic_labelled(m, s, observation, raw, Seq::empty()),
                _ => dynamic_watch(m, s, observation, Seq::empty()),
            }
        },
        DynamicPhase::Persisting => if observation.cancelled {
            dynamic_cancelled(m, s, event)
        } else {
            match event {
                Event::Resume => dynamic_stride(m, s, stride_for(s), Event::Resume, Seq::empty()),
                _ => Stepped {
                    task: m,
                    state: s,
                    action: Action::Persist,
                    notes: Seq::empty(),
                    record: None,
                },
            }
        },
        DynamicPhase::Pausing { pause_ms } => if observation.cancelled {
            dynamic_cancelled(m, s, event)
        } else {
            match event {
                Event::Resume => dynamic_watch(m, s, observation, Seq::empty()),
                _ => Stepped {
                    task: m,
                    state: s,
                    action: Action::Sleep(pause_ms),
                    notes: Seq::empty(),
                    record: None,
                },
            }
        },
    }
}

/// Whether a task, a state, an action and a list of updates are what a step
/// of a dynamic experiment says they are. The result that the step records
/// is appended to the list in the state.
pub open spec fn dynamic_agrees(
    x: Stepped<DynamicRun, DynamicResult>,
    before: BackendState,
    task: DynamicRun,
    state: BackendState,
    action: Action,
    updates: Seq<Update>,
) -> bool {
    &&& task == x.task
    &&& action == x.action
    &&& views(updates) == x.notes
    &&& state == BackendState {
        measurement: MeasurementState {
            dynamic_results: state.measurement.dynamic_results,
            ..x.state.measurement
        },
        ..x.state
    }
    &&& state.measurement.dynamic_results@ == match x.record {
        Some(record) => before.measurement.dynamic_results@.push(record),
        None => before.measurement.dynamic_results@,
    }
}

/// Whether a task, a state, an action and a list of updates are exactly what
/// a step that records nothing says they are.
pub open spec fn dynamic_is(
    x: Stepped<DynamicRun, DynamicResult>,
    before: BackendState,
    task: DynamicRun,
    state: BackendState,
    action: Action,
    updates: Seq<Update>,
) -> bool {
    &&& task == x.task
    &&& state == x.state
    &&& action == x.action
    &&& views(updates) == x.notes
    &&& x.record is None
    &&& state.measurement.dynamic_results == before.measurement.dynamic_results
}

impl DynamicRun {
    fn home(
        &mut self,
        state: &mut BackendState,
        mover: Mover,
        result: Result<(), TaskError>,
        event: Event,
        updates: &mut Vec<Update>,
    ) -> (action: Action)
        ensures
            dynamic_is(
                dynamic_home(*old(self), *old(state), mover, result, event, views(old(updates)@)),
                *old(state),
                *final(self),
                *final(state),
                action,
                final(updates)@,
            ),
    {
        let mut mover = mover;
        match mover.drive(state, event, updates) {
            Verdict::Send(byte) => {
                self.phase = DynamicPhase::Homing { mover, result };
                Action::Send(byte)
            },
            Verdict::Failed(error) => {
                let end = or_else(result, error);
                self.phase = DynamicPhase::Over(end);
                Action::Finished(end)
            },
            Verdict::Arrived => {
                self.phase = DynamicPhase::Over(result);
                Action::Finished(result)
            },
        }
    }

    fn wind_up(
        &mut self,
        state: &mut BackendState,
        result: Result<(), TaskError>,
        updates: &mut Vec<Update>,
    ) -> (action: Action)
        ensures
            dynamic_is(
                dynamic_wound(*old(self), *old(state), result, views(old(updates)@)),
                *old(state),
                *final(self),
                *final(state),
                action,
                final(updates)@,
            ),
    {
        let ghost notes0 = views(updates@);
        emit(
            updates,
            Update::Measurement(
                MeasurementUpdate::DynamicResults(state.measurement.dynamic_results.clone()),
            ),
        );
        state.measurement.dynamic_task_token = None;
        emit(
            updates,
            Update::Measurement(MeasurementUpdate::CurrentSteps(state.measurement.current_steps)),
        );
        emit(updates, Update::Measurement(MeasurementUpdate::DynamicRunning(false)));
        assert(views(updates@) =~= notes0 + seq![
            dynamic_results_note(state.measurement.dynamic_results@),
            steps_note(state.measurement.current_steps),
            dynamic_running_note(false),
        ]);
        self.homeward = true;
        match state.measurement.current_steps {
            None => {
                let end = or_else(result, TaskError::PositionUnknown);
                self.phase = DynamicPhase::Over(end);
                Action::Finished(end)
            },
            Some(p) => {
                let mover = Mover::passage(p, 0, state.rotation_direction_need_reverse, false);
                self.home(state, mover, result, Event::Resume, updates)
            },
        }
    }

    fn watch(
        &mut self,
        state: &mut BackendState,
        observation: Observation,
        updates: &mut Vec<Update>,
    ) -> (action: Action)
        ensures
            dynamic_is(
                dynamic_watch(*old(self), *old(state), observation, views(old(updates)@)),
                *old(state),
                *final(self),
                *final(state),
                action,
                final(updates)@,
            ),
    {
        let ghost notes0 = views(updates@);
        let wanted: u32 = state.measurement.dynamic_params.sample_points;
        if full(state.measurement.dynamic_results.len(), wanted) {
            return self.wind_up(state, Ok(()), updates);
        }
        if observation.cancelled {
            return self.wind_up(state, Err(TaskError::Cancelled), updates);
        }
        let since: u64 = match state.measurement.dynamic_time {
            None => {
                return self.wind_up(
                    state,
                    Err(TaskError::PreconditionRejected(Rejection::ClockNotStarted)),
                    updates,
                );
            },
            Some(since) => since,
        };
        if elapsed(observation.now_ns, since) > DYNAMIC_BUDGET_NS {
            self.wind_up(state, Err(TaskError::SearchTimeout), updates)
        } else if !state.devices.camera_connected || !observation.frame_ready {
            emit(
                updates,
                Update::Measurement(
                    MeasurementUpdate::CurrentSteps(state.measurement.current_steps),
                ),
            );
            emit(updates, Update::Device(DeviceUpdate::CameraConnectionStatus(false)));
            assert(views(updates@) =~= notes0 + seq![
                steps_note(state.measurement.current_steps),
                camera_note(false),
            ]);
            if state.devices.camera_connected {
                state.devices.camera_connected = false;
            }
            self.wind_up(state, Err(TaskError::CameraUnavailable), updates)
        } else {
            self.phase = DynamicPhase::Watching;
            Action::Classify(classify_request(state))
        }
    }

    fn stride(
        &mut self,
        state: &mut BackendState,
        mover: Mover,
        event: Event,
        updates: &mut Vec<Update>,
    ) -> (action: Action)
        ensures
            dynamic_is(
                dynamic_stride(*old(self), *old(state), mover, event, views(old(updates)@)),
                *old(state),
                *final(self),
                *final(state),
                action,
                final(updates)@,
            ),
    {
        let mut mover = mover;
        match mover.drive(state, event, updates) {
            Verdict::Send(byte) => {
                self.phase = DynamicPhase::Striding { mover };
                Action::Send(byte)
            },
            Verdict::Failed(error) => self.wind_up(state, Err(error), updates),
            Verdict::Arrived => {
                self.window.reset();
                self.first = None;
                self.phase = DynamicPhase::Pausing { pause_ms: PAUSE_AFTER_RECORD_MS };
                Action::Sleep(PAUSE_AFTER_RECORD_MS)
            },
        }
    }

    fn labelled(
        &mut self,
        state: &mut BackendState,
        observation: Observation,
        raw: Label,
        updates: &mut Vec<Update>,
    ) -> (action: Action)
        ensures
            dynamic_agrees(
                dynamic_labelled(*old(self), *old(state), observation, raw, views(old(updates)@)),
                *old(state),
                *final(self),
                *final(state),
                action,
                final(updates)@,
            ),
    {
        let label = raw.flipped_if(self.invert);
        if self.first.is_none() {
            self.first = Some(label);
        }
        self.window.push(label);
        if !self.window.flipped(self.first) {
            self.phase = DynamicPhase::Pausing { pause_ms: PAUSE_BETWEEN_READINGS_MS };
            return Action::Sleep(PAUSE_BETWEEN_READINGS_MS);
        }
        if full(
            state.measurement.dynamic_results.len(),
            state.measurement.dynamic_params.sample_points,
        ) {
            return self.wind_up(state, Ok(()), updates);
        }
        match (state.measurement.current_steps, state.measurement.dynamic_time) {
            (Some(p), Some(since)) => {
                let len: usize = state.measurement.dynamic_results.len();
                let record = DynamicResult {
                    index: if len < usize::MAX {
                        len + 1
                    } else {
                        usize::MAX
                    },
                    time_ns: elapsed(observation.now_ns, since),
                    steps: p,
                };
                state.measurement.dynamic_results.push(record);
                emit(
                    updates,
                    Update::Measurement(
                        MeasurementUpdate::DynamicResults(
                            state.measurement.dynamic_results.clone(),
                        ),
                    ),
                );
                self.phase = DynamicPhase::Persisting;
                Action::Persist
            },
            (None, _) => self.wind_up(state, Err(TaskError::PositionUnknown), updates),
            (Some(_), None) => self.wind_up(
                state,
                Err(TaskError::PreconditionRejected(Rejection::ClockNotStarted)),
                updates,
            ),
        }
    }

    fn approach(
        &mut self,
        state: &mut BackendState,
        observation: Observation,
        approach: PreRotation,
        event: Event,
        updates: &mut Vec<Update>,
    ) -> (action: Action)
        ensures
            dynamic_is(
                dynamic_approach(
                    *old(self),
                    *old(state),
                    observation,
                    approach,
                    event,
                    views(old(updates)@),
                ),
                *old(state),
                *final(self),
                *final(state),
                action,
                final(updates)@,
            ),
    {
        let mut approach = approach;
        match approach.advance(state, observation, event, updates) {
            Action::Finished(Ok(_)) => {
                let mover = Mover::rotation(
                    state.measurement.dynamic_params.step_steps,
                    state.rotation_direction_need_reverse,
                    false,
                );
                self.stride(state, mover, Event::Resume, updates)
            },
            Action::Finished(Err(error)) => self.wind_up(state, Err(error), updates),
            other => {
                self.phase = DynamicPhase::Approaching(approach);
                other
            },
        }
    }

    fn cancel(&mut self, state: &mut BackendState, event: Event, updates: &mut Vec<Update>) -> (action:
        Action)
        requires
            old(updates)@.len() == 0,
        ensures
            dynamic_is(
                dynamic_cancelled(*old(self), *old(state), event),
                *old(state),
                *final(self),
                *final(state),
                action,
                final(updates)@,
            ),
    {
        let fault: Option<TaskError> = match self.phase {
            DynamicPhase::Striding { mover } => {
                let mut mover = mover;
                let fault = mover.settle(state, event, updates);
                fault
            },
            _ => None,
        };
        let result: Result<(), TaskError> = match fault {
            Some(error) => Err(error),
            None => if full(
                state.measurement.dynamic_results.len(),
                state.measurement.dynamic_params.sample_points,
            ) {
                Ok(())
            } else {
                Err(TaskError::Cancelled)
            },
        };
        self.wind_up(state, result, updates)
    }

    /// Says the next thing to do for the experiment, given what was seen and
    /// what happened. To be called under the lock.
    pub fn step(&mut self, state: &mut BackendState, observation: Observation, event: Event) -> (step:
        Step)
        ensures
            dynamic_agrees(
                dynamic_stepped(*old(self), *old(state), observation, event),
                *old(state),
                *final(self),
                *final(state),
                step.action,
                step.updates@,
            ),
    {
        let mut updates: Vec<Update> = Vec::new();
        assert(views(updates@) =~= Seq::empty());
        let action: Action = match self.phase {
            DynamicPhase::Over(result) => Action::Finished(result),
            DynamicPhase::Approaching(approach) => self.approach(
                state,
                observation,
                approach,
                event,
                &mut updates,
            ),
            DynamicPhase::Homing { mover, result } => self.home(
                state,
                mover,
                result,
                event,
                &mut updates,
            ),
            DynamicPhase::Striding { mover } => if observation.cancelled {
                self.cancel(state, event, &mut updates)
            } else {
                self.stride(state, mover, event, &mut updates)
            },
            DynamicPhase::Watching => if observation.cancelled {
                self.cancel(state, event, &mut updates)
            } else {
                match event {
                    Event::Label(Some(raw)) => self.labelled(state, observation, raw, &mut updates),
                    _ => self.watch(state, observation, &mut updates),
                }
            },
            DynamicPhase::Persisting => if observation.cancelled {
                self.cancel(state, event, &mut updates)
            } else {
                match event {
                    Event::Resume => {
                        let mover = Mover::rotation(
                            state.measurement.dynamic_params.step_steps,
                            state.rotation_direction_need_reverse,
                            false,
                        );
                        self.stride(state, mover, Event::Resume, &mut updates)
                    },
                    _ => Action::Persist,
                }
            },
            DynamicPhase::Pausing { pause_ms } => if observation.cancelled {
                self.cancel(state, event, &mut updates)
            } else {
                match event {
                    Event::Resume => self.watch(state, observation, &mut updates),
                    _ => Action::Sleep(pause_ms),
                }
            },
        };
        Step { action, updates }
    }
}

/// Whether a list of `len` results holds as many as were asked for.
pub fn full(len: usize, wanted: u32) -> (b: bool)
    ensures
        b == (len >= wanted),
{
    match u32_of(len) {
        Some(n) => n >= wanted,
        None => true,
    }
}

/// A length as `u32`, where it fits.
pub fn u32_of(len: usize) -> (n: Option<u32>)
    ensures
        match n {
            Some(v) => v == len,
            None => len > u32::MAX,
        },
{
    if len <= 0xffff_ffff {
        Some(len as u32)
    } else {
        None
    }
}

/// The state with a dynamic measurement registered.
pub open spec fn dynamic_registered(s: BackendState, token: CancellationToken) -> BackendState {
    BackendState {
        measurement: MeasurementState { dynamic_task_token: Some(token), ..s.measurement },
        ..s
    }
}

/// The experiment as it stands when it is let in.
pub open spec fn dynamic_admitted(invert: bool) -> DynamicRun {
    DynamicRun {
        invert,
        window: PredictionWindow::blank(),
        first: None,
        homeward: false,
        phase: DynamicPhase::Approaching(PreRotation::fresh()),
    }
}

/// Why a dynamic experiment cannot begin, if it cannot: the classifier, the
/// camera or the motor is missing; no zero point stands; the experiment clock
/// has not been started; or a measurement is registered already.
pub open spec fn dynamic_rejection(s: BackendState) -> Option<Rejection> {
    if !s.ready() {
        Some(Rejection::NotReady)
    } else if s.measurement.current_steps is None {
        Some(Rejection::NotZeroed)
    } else if s.measurement.dynamic_time is None {
        Some(Rejection::ClockNotStarted)
    } else if s.measuring() {
        Some(Rejection::Busy)
    } else {
        None
    }
}

/// Lets a dynamic experiment in, or turns it away.
///
/// It is turned away, with the state left as it is, for the first reason of
/// `dynamic_rejection` that holds; the outside is told the reason and that no
/// dynamic measurement runs. Otherwise the token is registered, the outside is
/// told that a dynamic measurement runs, and the orientation flag is read for
/// the whole experiment.
pub fn run_dynamic_experiment_loop(state: &mut BackendState, token: &CancellationToken) -> (admission:
    Admission<DynamicRun>)
    ensures
        match dynamic_rejection(*old(state)) {
            Some(why) => admission.task == Err::<DynamicRun, TaskError>(
                TaskError::PreconditionRejected(why),
            ) && *final(state) == *old(state) && views(admission.updates@) == seq![
                error_note(TaskError::PreconditionRejected(why)),
                dynamic_running_note(false),
            ],
            None => admission.task == Ok::<DynamicRun, TaskError>(
                dynamic_admitted(old(state).rotation_direction_is_ama),
            ) && *final(state) == dynamic_registered(*old(state), *token) && views(
                admission.updates@,
            ) == seq![dynamic_running_note(true)],
        },
{
    let mut updates: Vec<Update> = Vec::new();
    let ready: bool = state.training.model_ready && state.devices.camera_connected
        && state.devices.serial_connected;
    let busy: bool = state.measurement.static_task_token.is_some()
        || state.measurement.dynamic_task_token.is_some();
    let why: Option<Rejection> = if !ready {
        Some(Rejection::NotReady)
    } else if state.measurement.current_steps.is_none() {
        Some(Rejection::NotZeroed)
    } else if state.measurement.dynamic_time.is_none() {
        Some(Rejection::ClockNotStarted)
    } else if busy {
        Some(Rejection::Busy)
    } else {
        None
    };
    if let Some(why) = why {
        let error = TaskError::PreconditionRejected(why);
        emit(&mut updates, Update::General(GeneralUpdate::Error(error)));
        emit(&mut updates, Update::Measurement(MeasurementUpdate::DynamicRunning(false)));
        return Admission { task: Err(error), updates };
    }
    state.measurement.dynamic_task_token = Some(share(token));
    emit(&mut updates, Update::Measurement(MeasurementUpdate::DynamicRunning(true)));
    Admission {
        task: Ok(
            DynamicRun {
                invert: state.rotation_direction_is_ama,
                window: PredictionWindow::new(),
                first: None,
                homeward: false,
                phase: DynamicPhase::Approaching(pre_rotation()),
            },
        ),
        updates,
    }
}

} // verus!
