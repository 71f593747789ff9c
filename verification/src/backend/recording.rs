//! Recording a data set: the motor sweeps out and back while processed frames
//! are saved at thirty frames a second.

use crate::backend::measurement::classify_request;
use crate::backend::measurement::elapsed;
use crate::backend::measurement::elapsed_ns;
use crate::backend::measurement::request_for;
use crate::backend::measurement::Admission;
use crate::backend::measurement::camera_lost;
use crate::backend::motor::Mover;
use crate::backend::motor::MotorTask;
use crate::backend::task::ClassifyRequest;
use crate::backend::BackendState;
use crate::backend::RecordingState;
use crate::communication::camera_note;
use crate::communication::emit;
use crate::communication::error_note;
use crate::communication::recording_note;
use crate::communication::views;
use crate::communication::DeviceUpdate;
use crate::communication::GeneralUpdate;
use crate::communication::RecordingStatus;
use crate::communication::RecordingUpdate;
use crate::communication::Rejection;
use crate::communication::TaskError;
use crate::communication::Update;
use crate::communication::UpdateView;
use crate::rotation::rotation_script;
use crate::text::digits_of;
use crate::text::padded;
use crate::text::zero_padded;
use crate::token::share;
use crate::token::CancellationToken;
use vstd::prelude::*;
use vstd::string::StringExecFns;

verus! {

/// The time between two saved frames, in nanoseconds: a thirtieth of a
/// second, in whole microseconds.
pub const FRAME_INTERVAL_NS: u64 = 33_333_000;

/// The wait before the clock is looked at again, in milliseconds.
pub const RECORDING_WAIT_MS: u64 = 5;

/// What the caller has seen just before it asks a recording what to do.
#[derive(Clone, Copy, Debug, PartialEq, Eq, Structural)]
pub struct RecordingObservation {
    /// A monotonic clock, in nanoseconds.
    pub now_ns: u64,
    /// Whether the recording's cancellation token was found set.
    pub cancelled: bool,
    /// Whether the camera's frame slot holds a frame.
    pub frame_ready: bool,
    /// Whether the motor has finished its sweep.
    pub sweep_finished: bool,
}

/// What the caller is to do for a recording before it asks again.
#[derive(Clone, Copy, Debug, PartialEq, Eq, Structural)]
pub enum RecordingAction {
    /// Wait so many milliseconds.
    Wait(u64),
    /// Process the latest frame and save it under this number; then say
    /// whether that worked.
    Capture { request: ClassifyRequest, number: u32 },
    /// The recording is over.
    Finished,
}

/// A recording in progress.
#[derive(Clone, Copy, Debug, PartialEq, Eq, Structural)]
pub struct Recording {
    /// Whether the data set is the one of the MAM convention.
    pub mam: bool,
    /// The size of the sweep, in steps.
    pub num: i32,
    /// Frames saved so far.
    pub saved: u32,
    /// When the recording began.
    pub started_ns: u64,
    /// When the last frame was taken.
    pub last_frame_ns: u64,
    pub over: bool,
}

/// What a recording answers, with what the outside is to be told.
pub struct RecordingStep {
    pub action: RecordingAction,
    pub updates: Vec<Update>,
}

/// The state with a recording registered and its step count at zero.
pub open spec fn recording_registered(s: BackendState, token: CancellationToken) -> BackendState {
    BackendState {
        recording: RecordingState { cancellation_token: Some(token), steps_moved: 0 },
        ..s
    }
}

/// The state with no recording registered.
pub open spec fn recording_cleared(s: BackendState) -> BackendState {
    BackendState { recording: RecordingState { cancellation_token: None, ..s.recording }, ..s }
}

/// Why a recording cannot begin, if it cannot: one is registered already,
/// the camera is missing, or the motor is.
pub open spec fn recording_rejection(s: BackendState) -> Option<Rejection> {
    if s.recording.cancellation_token is Some {
        Some(Rejection::Busy)
    } else if !s.devices.camera_connected {
        Some(Rejection::NoCamera)
    } else if !s.devices.serial_connected {
        Some(Rejection::NoMotor)
    } else {
        None
    }
}

/// Lets a recording in, or turns it away.
///
/// A second recording beside a registered one is turned away without a
/// word. Without camera or motor the recording is turned away and the
/// outside is told why. Otherwise the token is registered, the count of
/// steps moved starts at zero, and the outside is told that the recording
/// has started.
pub fn record_video_loop(
    state: &mut BackendState,
    token: &CancellationToken,
    mam: bool,
    num: i32,
    now_ns: u64,
) -> (admission: Admission<Recording>)
    ensures
        match recording_rejection(*old(state)) {
            Some(why) => admission.task == Err::<Recording, TaskError>(
                TaskError::PreconditionRejected(why),
            ) && *final(state) == *old(state) && views(admission.updates@) == if why
                == Rejection::Busy {
                Seq::empty()
            } else {
                seq![error_note(TaskError::PreconditionRejected(why))]
            },
            None => admission.task == Ok::<Recording, TaskError>(
                Recording {
                    mam,
                    num,
                    saved: 0,
                    started_ns: now_ns,
                    last_frame_ns: now_ns,
                    over: false,
                },
            ) && *final(state) == recording_registered(*old(state), *token) && views(
                admission.updates@,
            ) == seq![recording_note(RecordingStatus::Started)],
        },
{
    let mut updates: Vec<Update> = Vec::new();
    if state.recording.cancellation_token.is_some() {
        return Admission {
            task: Err(TaskError::PreconditionRejected(Rejection::Busy)),
            updates,
        };
    }
    if !state.devices.camera_connected || !state.devices.serial_connected {
        let error = TaskError::PreconditionRejected(
            if !state.devices.camera_connected {
                Rejection::NoCamera
            } else {
                Rejection::NoMotor
            },
        );
        emit(&mut updates, Update::General(GeneralUpdate::Error(error)));
        return Admission { task: Err(error), updates };
    }
    state.recording.cancellation_token = Some(share(token));
    state.recording.steps_moved = 0;
    emit(&mut updates, Update::Recording(RecordingUpdate::StatusUpdate(RecordingStatus::Started)));
    Admission {
        task: Ok(
            Recording { mam, num, saved: 0, started_ns: now_ns, last_frame_ns: now_ns, over: false },
        ),
        updates,
    }
}

/// The name of the folder that a data set is saved in.
pub fn dataset_folder(mam: bool) -> (name: String)
    ensures
        name@ == if mam {
            "dataset0"@
        } else {
            "dataset1"@
        },
{
    if mam {
        "dataset0".to_string()
    } else {
        "dataset1".to_string()
    }
}

/// The digits of a frame's number in the name of its file: five at least.
pub const FRAME_NUMBER_WIDTH: usize = 5;

/// The name of the file that a frame is saved in.
pub open spec fn frame_file_name_of(number: u32) -> Seq<char> {
    "frame_"@ + padded(digits_of(number as nat), FRAME_NUMBER_WIDTH as nat) + ".png"@
}

/// The name of the file that the frame of a number is saved in: `frame_`,
/// the number with zeros in front up to five digits, and `.png`.
pub fn frame_file_name(number: u32) -> (name: String)
    ensures
        name@ == frame_file_name_of(number),
{
    let mut name = String::from_str("frame_");
    let digits = zero_padded(number, FRAME_NUMBER_WIDTH);
    name.append(digits.as_str());
    name.append(".png");
    name
}

/// What the motor is sent during a recording: out by `num` steps and back
/// again for the one convention, back first and then out for the other.
pub open spec fn sweep_steps(mam: bool, num: int, first_leg: bool) -> int {
    if mam == first_leg {
        num
    } else {
        -num
    }
}

impl Recording {
    /// Begins one leg of the sweep. The reversal flag is read once, now.
    pub fn sweep_leg(&self, state: &BackendState, first_leg: bool) -> (task: MotorTask)
        ensures
            task.over is None,
            !task.mover.awaits_reply(),
            !task.mover.is_quiet(),
            task.mover.script() == rotation_script(
                sweep_steps(self.mam, self.num as int, first_leg),
                state.rotation_direction_need_reverse,
            ),
    {
        let reverse = state.rotation_direction_need_reverse;
        let mover = if self.mam == first_leg {
            Mover::passage(0, self.num, reverse, false)
        } else {
            Mover::passage(self.num, 0, reverse, false)
        };
        MotorTask { mover, over: None }
    }

    /// The end of a recording: the outside is told, and the register is
    /// cleared.
    pub open spec fn closed(self, s: BackendState, notes: Seq<UpdateView>) -> (
        Recording,
        BackendState,
        RecordingAction,
        Seq<UpdateView>,
    ) {
        (
            Recording { over: true, ..self },
            recording_cleared(s),
            RecordingAction::Finished,
            notes + seq![recording_note(RecordingStatus::Finished)],
        )
    }

    /// What a recording does when it is asked.
    ///
    /// It ends on a stop, and when the motor has finished its sweep. Less
    /// than a frame interval after the last frame it waits. With no frame in
    /// the slot the camera is lost and the recording ends. Otherwise the
    /// frame is taken, to be saved under the next number.
    pub open spec fn ticked(self, s: BackendState, observation: RecordingObservation) -> (
        Recording,
        BackendState,
        RecordingAction,
        Seq<UpdateView>,
    ) {
        if self.over {
            (self, s, RecordingAction::Finished, Seq::empty())
        } else if observation.cancelled || observation.sweep_finished {
            self.closed(s, Seq::empty())
        } else if elapsed_ns(observation.now_ns, self.last_frame_ns) < FRAME_INTERVAL_NS {
            (self, s, RecordingAction::Wait(RECORDING_WAIT_MS), Seq::empty())
        } else if !s.devices.camera_connected || !observation.frame_ready {
            (Recording { last_frame_ns: observation.now_ns, ..self }).closed(
                camera_lost(s),
                seq![camera_note(false)],
            )
        } else {
            (
                Recording { last_frame_ns: observation.now_ns, ..self },
                s,
                RecordingAction::Capture {
                    request: request_for(s),
                    number: if self.saved < u32::MAX {
                        (self.saved + 1) as u32
                    } else {
                        u32::MAX
                    },
                },
                Seq::empty(),
            )
        }
    }

    fn close(&mut self, state: &mut BackendState, updates: &mut Vec<Update>) -> (action:
        RecordingAction)
        ensures
            (*final(self), *final(state), action, views(final(updates)@)) == old(self).closed(
                *old(state),
                views(old(updates)@),
            ),
    {
        emit(updates, Update::Recording(RecordingUpdate::StatusUpdate(RecordingStatus::Finished)));
        state.recording.cancellation_token = None;
        self.over = true;
        RecordingAction::Finished
    }

    /// Says the next thing to do for the recording. To be called under the
    /// lock, at the head of every round.
    pub fn tick(&mut self, state: &mut BackendState, observation: RecordingObservation) -> (step:
        RecordingStep)
        ensures
            (*final(self), *final(state), step.action, views(step.updates@)) == old(self).ticked(
                *old(state),
                observation,
            ),
    {
        let mut updates: Vec<Update> = Vec::new();
        if self.over {
            return RecordingStep { action: RecordingAction::Finished, updates };
        }
        if observation.cancelled || observation.sweep_finished {
            let action = self.close(state, &mut updates);
            return RecordingStep { action, updates };
        }
        if elapsed(observation.now_ns, self.last_frame_ns) < FRAME_INTERVAL_NS {
            return RecordingStep { action: RecordingAction::Wait(RECORDING_WAIT_MS), updates };
        }
        self.last_frame_ns = observation.now_ns;
        if !state.devices.camera_connected || !observation.frame_ready {
            state.devices.camera_connected = false;
            emit(&mut updates, Update::Device(DeviceUpdate::CameraConnectionStatus(false)));
            let action = self.close(state, &mut updates);
            return RecordingStep { action, updates };
        }
        let number: u32 = if self.saved < u32::MAX {
            self.saved + 1
        } else {
            u32::MAX
        };
        RecordingStep {
            action: RecordingAction::Capture { request: classify_request(state), number },
            updates,
        }
    }

    /// Takes note of a frame: one that was processed and saved counts, one
    /// in which no circle was found is skipped. The outside is told how long
    /// the recording has run.
    pub fn frame_done(&mut self, saved: bool, now_ns: u64) -> (updates: Vec<Update>)
        ensures
            *final(self) == (Recording {
                saved: if saved && old(self).saved < u32::MAX {
                    (old(self).saved + 1) as u32
                } else {
                    old(self).saved
                },
                ..*old(self)
            }),
            views(updates@) == seq![
                recording_note(
                    RecordingStatus::InProgress {
                        elapsed_ns: elapsed_ns(now_ns, old(self).started_ns),
                    },
                ),
            ],
    {
        let mut updates: Vec<Update> = Vec::new();
        if saved && self.saved < u32::MAX {
            self.saved = self.saved + 1;
        }
        emit(
            &mut updates,
            Update::Recording(
                RecordingUpdate::StatusUpdate(
                    RecordingStatus::InProgress { elapsed_ns: elapsed(now_ns, self.started_ns) },
                ),
            ),
        );
        assert(views(updates@) =~= seq![
            recording_note(
                RecordingStatus::InProgress { elapsed_ns: elapsed_ns(now_ns, old(self).started_ns) },
            ),
        ]);
        updates
    }
}

} // verus!
