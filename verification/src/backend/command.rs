//! What each command does to the shared state, and what it leaves to do.
//!
//! A handler runs under the lock and never waits for a device. Where a
//! command needs a device, the handler hands back a job: a task to run, or a
//! request that only the owner of the device handles can meet.

use crate::backend::camera::disconnect_camera;
use crate::backend::dynamic::dynamic_admitted;
use crate::backend::dynamic::dynamic_registered;
use crate::backend::dynamic::dynamic_rejection;
use crate::backend::dynamic::run_dynamic_experiment_loop;
use crate::backend::dynamic::DynamicRun;
use crate::backend::measurement::camera_lost;
use crate::backend::measurement::search_admitted;
use crate::backend::measurement::static_measurement;
use crate::backend::measurement::static_registered;
use crate::backend::measurement::static_rejection;
use crate::backend::measurement::BracketSearch;
use crate::backend::motor::precision_rotate;
use crate::backend::motor::precision_rotate_to;
use crate::backend::motor::return_to_zero;
use crate::backend::motor::Mover;
use crate::backend::motor::MotorTask;
use crate::backend::recording::record_video_loop;
use crate::backend::recording::recording_registered;
use crate::backend::recording::recording_rejection;
use crate::backend::recording::Recording;
use crate::backend::BackendState;
use crate::backend::CameraSettings;
use crate::backend::DeviceState;
use crate::backend::MeasurementState;
use crate::backend::TrainingState;
use crate::communication::camera_note;
use crate::communication::dynamic_results_note;
use crate::communication::dynamic_running_note;
use crate::communication::emit;
use crate::communication::error_note;
use crate::communication::model_ready_note;
use crate::communication::recording_note;
use crate::communication::serial_note;
use crate::communication::start_time_note;
use crate::communication::static_results_note;
use crate::communication::static_running_note;
use crate::communication::static_status_note;
use crate::communication::status_note;
use crate::communication::training_status_note;
use crate::communication::views;
use crate::communication::CameraCommand;
use crate::communication::Command;
use crate::communication::DeviceCommand;
use crate::communication::DeviceUpdate;
use crate::communication::DynamicMeasureCommand;
use crate::communication::GeneralCommand;
use crate::communication::GeneralNote;
use crate::communication::GeneralUpdate;
use crate::communication::MeasurementUpdate;
use crate::communication::RecordingStatus;
use crate::communication::Rejection;
use crate::communication::StaticMeasureCommand;
use crate::communication::StaticNote;
use crate::communication::TaskError;
use crate::communication::TrainingCommand;
use crate::communication::TrainingNote;
use crate::communication::TrainingUpdate;
use crate::communication::Update;
use crate::communication::UpdateView;
use crate::token::share;
use crate::token::CancellationToken;
use std::path::PathBuf;
use vstd::prelude::*;

verus! {

/// What a command leaves to do once its handler is through.
#[derive(Debug)]
pub enum Job {
    /// Nothing: the command is done.
    Nothing,
    /// List the serial ports and report them.
    ListPorts,
    /// Open this port, then call [`serial_opened`].
    OpenPort { port: String, baud_rate: u32 },
    /// Send the heartbeat byte and log whether it was acknowledged.
    TestPort,
    /// Run a move.
    Rotate(MotorTask),
    /// Run a bracket search.
    Search(BracketSearch),
    /// Run a dynamic experiment.
    Dynamic(DynamicRun),
    /// Run a recording into this folder.
    Record { recording: Recording, save_path: PathBuf },
    /// Probe the cameras and report them.
    ListCameras,
    /// Start a capture session on this camera.
    OpenCamera { index: usize },
    /// Hand the command to the classifier's keeper.
    Train(TrainingCommand),
    /// Write the static results to this file.
    SaveStatic { path: PathBuf },
}

/// What a handler answers: how the command went so far, what is left to
/// do, what the outside is to be told, and the token to raise. An error has
/// been told already.
pub struct Handling {
    pub result: Result<(), TaskError>,
    pub job: Job,
    pub updates: Vec<Update>,
    /// The token of the task that the command stops. The caller raises it.
    pub raise: Option<CancellationToken>,
}

/// Whether a handling is the plain one: it went well, with this job and
/// these updates, and stops no task.
pub open spec fn went_well(h: Handling, job: Job, notes: Seq<UpdateView>) -> bool {
    h.result is Ok && h.job == job && views(h.updates@) == notes && h.raise is None
}

/// Whether a handling is a failure: nothing is left to do, no task is
/// stopped, and the outside has been told this much.
pub open spec fn turned_away(h: Handling, error: TaskError, notes: Seq<UpdateView>) -> bool {
    h.result == Err::<(), TaskError>(error) && h.job == Job::Nothing && views(h.updates@) == notes
        && h.raise is None
}

/// Whether a handling is a refusal: nothing is left to do, and the outside
/// has been told the reason.
pub open spec fn refused(h: Handling, error: TaskError) -> bool {
    turned_away(h, error, seq![error_note(error)])
}

/// Whether a handling is the stopping of a task: it goes well, nothing is
/// left to do or to tell, and the token to raise is the registered one. With
/// no task registered there is none to raise.
pub open spec fn stopping(h: Handling, running: Option<CancellationToken>) -> bool {
    h.result is Ok && h.job == Job::Nothing && views(h.updates@) == Seq::<UpdateView>::empty()
        && h.raise == running
}

fn done(updates: Vec<Update>) -> (h: Handling)
    ensures
        went_well(h, Job::Nothing, views(updates@)),
{
    Handling { result: Ok(()), job: Job::Nothing, updates, raise: None }
}

fn refuse(error: TaskError) -> (h: Handling)
    ensures
        refused(h, error),
{
    let mut updates: Vec<Update> = Vec::new();
    emit(&mut updates, Update::General(GeneralUpdate::Error(error)));
    Handling { result: Err(error), job: Job::Nothing, updates, raise: None }
}

/// What a task's end tells the outside: an error is surfaced as an error; a
/// cooperative stop leaves a status and no error; a good end is silent.
pub open spec fn end_notes(result: Result<(), TaskError>) -> Seq<UpdateView> {
    match result {
        Ok(_) => Seq::empty(),
        Err(TaskError::Cancelled) => seq![status_note(GeneralNote::Stopped)],
        Err(error) => seq![error_note(error)],
    }
}

/// Turns the end of a task into what the outside is told. Nothing a task
/// ends with stops the dispatcher.
pub fn report(result: Result<(), TaskError>) -> (updates: Vec<Update>)
    ensures
        views(updates@) == end_notes(result),
{
    let mut updates: Vec<Update> = Vec::new();
    match result {
        Ok(_) => {},
        Err(error) => {
            if error.is_surfaced() {
                emit(&mut updates, Update::General(GeneralUpdate::Error(error)));
            } else {
                emit(&mut updates, Update::General(GeneralUpdate::StatusMessage(GeneralNote::Stopped)));
            }
        },
    }
    updates
}

/// The shutdown command is the dispatcher's own business: a handler has
/// nothing to do for it.
pub fn handle_general(cmd: GeneralCommand, state: &mut BackendState) -> (h: Handling)
    ensures
        *final(state) == *old(state),
        went_well(h, Job::Nothing, Seq::empty()),
{
    let updates: Vec<Update> = Vec::new();
    assert(views(updates@) =~= Seq::empty());
    match cmd {
        GeneralCommand::Shutdown => done(updates),
    }
}

/// The state with the motor flag set.
pub open spec fn with_serial(s: BackendState, on: bool) -> BackendState {
    BackendState { devices: DeviceState { serial_connected: on, ..s.devices }, ..s }
}

/// The state with other camera settings.
pub open spec fn with_settings(s: BackendState, settings: CameraSettings) -> BackendState {
    BackendState { devices: DeviceState { camera_settings: settings, ..s.devices }, ..s }
}

/// Takes note of how the opening of the serial port went. An open port is
/// registered and reported; a failure ends the command with `ConnectFailed`.
pub fn serial_opened(state: &mut BackendState, opened: bool) -> (h: Handling)
    ensures
        opened ==> *final(state) == with_serial(*old(state), true) && went_well(
            h,
            Job::Nothing,
            seq![serial_note(true)],
        ),
        !opened ==> *final(state) == *old(state) && refused(h, TaskError::ConnectFailed),
{
    if opened {
        let mut updates: Vec<Update> = Vec::new();
        state.devices.serial_connected = true;
        emit(&mut updates, Update::Device(DeviceUpdate::SerialConnectionStatus(true)));
        done(updates)
    } else {
        refuse(TaskError::ConnectFailed)
    }
}

/// What a device command does.
///
/// - Listing ports, opening one and testing one are left as jobs. Opening
///   drops the port that was open; testing needs an open port.
/// - Disconnecting drops the port and reports it.
/// - The two orientation flags are set.
/// - A relative move is planned from the reversal flag as it stands. An
///   absolute move needs a zero point, and so does nothing without one.
/// - A recording, a zero calibration: see [`record_video_loop`] and
///   [`static_measurement`]. The recording is of the MAM convention when its
///   mode is `MAM`.
/// - Stopping a recording hands back its token, if one is registered, to be
///   raised.
/// - The return to zero is refused while a measurement is registered.
pub fn handle_device(
    cmd: DeviceCommand,
    state: &mut BackendState,
    token: &CancellationToken,
    now_ns: u64,
) -> (h: Handling)
    ensures
        device_handled(cmd, *old(state), *token, now_ns, *final(state), h),
{
    let updates: Vec<Update> = Vec::new();
    assert(views(updates@) =~= Seq::empty());
    match cmd {
        DeviceCommand::RefreshSerialPorts => Handling {
            result: Ok(()),
            job: Job::ListPorts,
            updates,
            raise: None,
        },
        DeviceCommand::ConnectSerial { port, baud_rate } => {
            state.devices.serial_connected = false;
            Handling { result: Ok(()), job: Job::OpenPort { port, baud_rate }, updates, raise: None }
        },
        DeviceCommand::DisconnectSerial => {
            let mut updates = updates;
            state.devices.serial_connected = false;
            emit(&mut updates, Update::Device(DeviceUpdate::SerialConnectionStatus(false)));
            done(updates)
        },
        DeviceCommand::TestSerial => {
            if state.devices.serial_connected {
                Handling { result: Ok(()), job: Job::TestPort, updates, raise: None }
            } else {
                refuse(TaskError::PreconditionRejected(Rejection::NoMotor))
            }
        },
        DeviceCommand::SetRotationDirection(is_ama) => {
            state.rotation_direction_is_ama = is_ama;
            done(updates)
        },
        DeviceCommand::SetRotationReverse(reverse) => {
            state.rotation_direction_need_reverse = reverse;
            done(updates)
        },
        DeviceCommand::RotateMotor { steps } => Handling {
            result: Ok(()),
            job: Job::Rotate(precision_rotate(state, steps)),
            updates,
            raise: None,
        },
        DeviceCommand::RotateTo { steps } => {
            match precision_rotate_to(state, steps) {
                Ok(task) => Handling { result: Ok(()), job: Job::Rotate(task), updates, raise: None },
                Err(_) => refuse(TaskError::PreconditionRejected(Rejection::NotZeroed)),
            }
        },
        DeviceCommand::FindZeroPoint => {
            let admission = static_measurement(state, token, true, 1);
            match admission.task {
                Ok(search) => Handling {
                    result: Ok(()),
                    job: Job::Search(search),
                    updates: admission.updates,
                    raise: None,
                },
                Err(error) => Handling {
                    result: Err(error),
                    job: Job::Nothing,
                    updates: admission.updates,
                    raise: None,
                },
            }
        },
        DeviceCommand::ReturnToZero => {
            if state.measurement.static_task_token.is_none()
                && state.measurement.dynamic_task_token.is_none() {
                match return_to_zero(state) {
                    Some(task) => Handling { result: Ok(()), job: Job::Rotate(task), updates, raise: None },
                    None => done(updates),
                }
            } else {
                refuse(TaskError::PreconditionRejected(Rejection::MeasurementRunning))
            }
        },
        DeviceCommand::StartRecording { mode, save_path, num } => {
            let mam: bool = mode == "MAM".to_string();
            let admission = record_video_loop(state, token, mam, num, now_ns);
            match admission.task {
                Ok(recording) => Handling {
                    result: Ok(()),
                    job: Job::Record { recording, save_path },
                    updates: admission.updates,
                    raise: None,
                },
                Err(error) => Handling {
                    result: Err(error),
                    job: Job::Nothing,
                    updates: admission.updates,
                    raise: None,
                },
            }
        },
        DeviceCommand::StopRecording => {
            let raise: Option<CancellationToken> = match &state.recording.cancellation_token {
                Some(running) => Some(share(running)),
                None => None,
            };
            Handling { result: Ok(()), job: Job::Nothing, updates, raise }
        },
    }
}

/// What [`handle_device`] makes of a command, a state and a token.
pub open spec fn device_handled(
    cmd: DeviceCommand,
    s: BackendState,
    token: CancellationToken,
    now_ns: u64,
    t: BackendState,
    h: Handling,
) -> bool {
    match cmd {
        DeviceCommand::RefreshSerialPorts => t == s && went_well(h, Job::ListPorts, Seq::empty()),
        DeviceCommand::ConnectSerial { port, baud_rate } => t == with_serial(s, false)
            && went_well(h, Job::OpenPort { port, baud_rate }, Seq::empty()),
        DeviceCommand::DisconnectSerial => t == with_serial(s, false) && went_well(
            h,
            Job::Nothing,
            seq![serial_note(false)],
        ),
        DeviceCommand::TestSerial => t == s && if s.devices.serial_connected {
            went_well(h, Job::TestPort, Seq::empty())
        } else {
            refused(h, TaskError::PreconditionRejected(Rejection::NoMotor))
        },
        DeviceCommand::SetRotationDirection(is_ama) => t == (BackendState {
            rotation_direction_is_ama: is_ama,
            ..s
        }) && went_well(h, Job::Nothing, Seq::empty()),
        DeviceCommand::SetRotationReverse(reverse) => t == (BackendState {
            rotation_direction_need_reverse: reverse,
            ..s
        }) && went_well(h, Job::Nothing, Seq::empty()),
        DeviceCommand::RotateMotor { steps } => t == s && went_well(
            h,
            Job::Rotate(
                MotorTask {
                    mover: Mover::rotating(steps as int, s.rotation_direction_need_reverse, false),
                    over: None,
                },
            ),
            Seq::empty(),
        ),
        DeviceCommand::RotateTo { steps } => t == s && match s.measurement.current_steps {
            Some(from) => went_well(
                h,
                Job::Rotate(
                    MotorTask {
                        mover: Mover::passing(
                            from as int,
                            steps as int,
                            s.rotation_direction_need_reverse,
                            false,
                        ),
                        over: None,
                    },
                ),
                Seq::empty(),
            ),
            None => refused(h, TaskError::PreconditionRejected(Rejection::NotZeroed)),
        },
        DeviceCommand::FindZeroPoint => match static_rejection(s) {
            Some(why) => t == s && turned_away(
                h,
                TaskError::PreconditionRejected(why),
                seq![error_note(TaskError::PreconditionRejected(why)), static_running_note(false)],
            ),
            None => t == static_registered(s, token) && went_well(
                h,
                Job::Search(search_admitted(true, 1)),
                seq![static_running_note(true)],
            ),
        },
        DeviceCommand::ReturnToZero => t == s && if s.measuring() {
            refused(h, TaskError::PreconditionRejected(Rejection::MeasurementRunning))
        } else {
            match s.measurement.current_steps {
                Some(from) => went_well(
                    h,
                    Job::Rotate(
                        MotorTask {
                            mover: Mover::passing(
                                from as int,
                                0,
                                s.rotation_direction_need_reverse,
                                false,
                            ),
                            over: None,
                        },
                    ),
                    Seq::empty(),
                ),
                None => went_well(h, Job::Nothing, Seq::empty()),
            }
        },
        DeviceCommand::StartRecording { mode, save_path, num } => match recording_rejection(s) {
            Some(why) => t == s && turned_away(
                h,
                TaskError::PreconditionRejected(why),
                if why == Rejection::Busy {
                    Seq::empty()
                } else {
                    seq![error_note(TaskError::PreconditionRejected(why))]
                },
            ),
            None => t == recording_registered(s, token) && went_well(
                h,
                Job::Record {
                    recording: Recording {
                        mam: mode@ == "MAM"@,
                        num,
                        saved: 0,
                        started_ns: now_ns,
                        last_frame_ns: now_ns,
                        over: false,
                    },
                    save_path,
                },
                seq![recording_note(RecordingStatus::Started)],
            ),
        },
        DeviceCommand::StopRecording => t == s && stopping(h, s.recording.cancellation_token),
    }
}

/// A radius as the detector takes it: the unsigned value read as a signed
/// one of the same width.
pub open spec fn radius_of(r: u32) -> i32 {
    if r <= i32::MAX {
        r as i32
    } else {
        (r - 0x1_0000_0000) as i32
    }
}

/// Reads a radius as the detector takes it.
pub fn radius(r: u32) -> (out: i32)
    ensures
        out == radius_of(r),
{
    if r <= 0x7fff_ffff {
        r as i32
    } else {
        (r as i64 - 0x1_0000_0000) as i32
    }
}

/// What [`handle_camera`] makes of a command and a state.
pub open spec fn camera_handled(cmd: CameraCommand, s: BackendState, t: BackendState, h: Handling) -> bool {
    match cmd {
        CameraCommand::RefreshCameras => t == s && went_well(
            h,
            Job::ListCameras,
            Seq::empty(),
        ),
        CameraCommand::Connect { index } => t == camera_lost(s)
            && went_well(h, Job::OpenCamera { index }, Seq::empty()),
        CameraCommand::Disconnect => t == camera_lost(s) && went_well(
            h,
            Job::Nothing,
            seq![camera_note(false)],
        ),
        CameraCommand::SetHoughCircleRadius { min, max } => t == with_settings(
            s,
            CameraSettings {
                min_radius: radius_of(min),
                max_radius: radius_of(max),
                ..s.devices.camera_settings
            },
        ) && went_well(h, Job::Nothing, Seq::empty()),
        CameraCommand::SetLock(on) => t == with_settings(
            s,
            CameraSettings { lock_circle: on, ..s.devices.camera_settings },
        ) && went_well(h, Job::Nothing, Seq::empty()),
    }
}

/// What a camera command does.
///
/// - Listing cameras and opening one are left as jobs. Opening drops the
///   session that was running, so that the old capture loop is gone before
///   the new one starts.
/// - Disconnecting drops the session and reports it.
/// - The radius bounds and the circle lock are set.
pub fn handle_camera(cmd: CameraCommand, state: &mut BackendState) -> (h: Handling)
    ensures
        camera_handled(cmd, *old(state), *final(state), h),
{
    let updates: Vec<Update> = Vec::new();
    assert(views(updates@) =~= Seq::empty());
    match cmd {
        CameraCommand::RefreshCameras => Handling {
            result: Ok(()),
            job: Job::ListCameras,
            updates,
            raise: None,
        },
        CameraCommand::Connect { index } => {
            disconnect_camera(state);
            Handling { result: Ok(()), job: Job::OpenCamera { index }, updates, raise: None }
        },
        CameraCommand::Disconnect => {
            let mut updates = updates;
            disconnect_camera(state);
            emit(&mut updates, Update::Device(DeviceUpdate::CameraConnectionStatus(false)));
            done(updates)
        },
        CameraCommand::SetHoughCircleRadius { min, max } => {
            state.devices.camera_settings.min_radius = radius(min);
            state.devices.camera_settings.max_radius = radius(max);
            done(updates)
        },
        CameraCommand::SetLock(on) => {
            state.devices.camera_settings.lock_circle = on;
            done(updates)
        },
    }
}

/// What [`handle_training`] makes of a command and a state.
pub open spec fn training_handled(
    cmd: TrainingCommand,
    s: BackendState,
    t: BackendState,
    h: Handling,
) -> bool {
    &&& h.result is Ok
    &&& h.job == Job::Train(cmd)
    &&& h.raise is None
    &&& match cmd {
        TrainingCommand::ResetModel => t == (BackendState {
            training: TrainingState { model_ready: false },
            ..s
        }) && views(h.updates@) == seq![
            model_ready_note(false),
            training_status_note(TrainingNote::NoModel),
        ],
        _ => t == s && views(h.updates@) == Seq::<UpdateView>::empty(),
    }
}

/// What a training command does. Resetting the classifier is done here:
/// the model is struck from the state, and the outside is told that none is
/// at hand. Every training command is handed on to the classifier's keeper,
/// who holds the data sets and the model itself.
pub fn handle_training(cmd: TrainingCommand, state: &mut BackendState) -> (h: Handling)
    ensures
        training_handled(cmd, *old(state), *final(state), h),
{
    let mut updates: Vec<Update> = Vec::new();
    assert(views(updates@) =~= Seq::empty());
    match &cmd {
        TrainingCommand::ResetModel => {
            state.training.model_ready = false;
            emit(&mut updates, Update::Training(TrainingUpdate::ModelReady(false)));
            emit(&mut updates, Update::Training(TrainingUpdate::TrainingStatus(TrainingNote::NoModel)));
            assert(views(updates@) =~= seq![
                model_ready_note(false),
                training_status_note(TrainingNote::NoModel),
            ]);
        },
        _ => {},
    }
    Handling { result: Ok(()), job: Job::Train(cmd), updates, raise: None }
}

/// Takes note of a classifier that was fitted, or of the lack of one.
pub fn model_fitted(state: &mut BackendState, ready: bool) -> (updates: Vec<Update>)
    ensures
        *final(state) == (BackendState {
            training: TrainingState { model_ready: ready },
            ..*old(state)
        }),
        views(updates@) == seq![model_ready_note(ready)],
{
    let mut updates: Vec<Update> = Vec::new();
    state.training.model_ready = ready;
    emit(&mut updates, Update::Training(TrainingUpdate::ModelReady(ready)));
    updates
}

/// Whether a state is another one but for its list of static results.
pub open spec fn but_static_results(t: BackendState, s: BackendState) -> bool {
    t == BackendState {
        measurement: MeasurementState {
            static_results: t.measurement.static_results,
            ..s.measurement
        },
        ..s
    }
}

/// Whether a state is another one but for its list of dynamic results.
pub open spec fn but_dynamic_results(t: BackendState, s: BackendState) -> bool {
    t == BackendState {
        measurement: MeasurementState {
            dynamic_results: t.measurement.dynamic_results,
            ..s.measurement
        },
        ..s
    }
}

/// What [`handle_static_measure`] makes of a command and a state.
pub open spec fn static_handled(cmd: StaticMeasureCommand, s: BackendState, token: CancellationToken, t: BackendState, h: Handling) -> bool {
    match cmd {
        StaticMeasureCommand::RunSingleMeasurement { time } => match static_rejection(
            s,
        ) {
            Some(why) => t == s && turned_away(
                h,
                TaskError::PreconditionRejected(why),
                seq![error_note(TaskError::PreconditionRejected(why)), static_running_note(false)],
            ),
            None => t == static_registered(s, token) && went_well(
                h,
                Job::Search(search_admitted(false, time)),
                seq![static_running_note(true)],
            ),
        },
        StaticMeasureCommand::SaveResults { path } => t == s && if s.measurement.static_results@.len() == 0 {
            went_well(h, Job::Nothing, Seq::empty())
        } else {
            went_well(
                h,
                Job::SaveStatic { path },
                seq![static_status_note(StaticNote::Saved)],
            )
        },
        StaticMeasureCommand::ClearResults => but_static_results(t, s)
            && t.measurement.static_results@.len() == 0 && went_well(
            h,
            Job::Nothing,
            seq![static_results_note(Seq::empty())],
        ),
        StaticMeasureCommand::Stop => t == s && stopping(h, s.measurement.static_task_token),
    }
}

/// What a command of the static measurement does.
///
/// - A precision measurement of `time` runs: see [`static_measurement`].
/// - Saving is left as a job unless there is nothing to save, and is
///   reported as done at once.
/// - Clearing empties the list and reports the empty list.
/// - Stopping hands back the token of the static measurement, if one is
///   registered, to be raised. The register stays as it is: the measurement
///   frees it when it ends.
pub fn handle_static_measure(
    cmd: StaticMeasureCommand,
    state: &mut BackendState,
    token: &CancellationToken,
) -> (h: Handling)
    ensures
        static_handled(cmd, *old(state), *token, *final(state), h),
{
    let mut updates: Vec<Update> = Vec::new();
    assert(views(updates@) =~= Seq::empty());
    match cmd {
        StaticMeasureCommand::RunSingleMeasurement { time } => {
            let admission = static_measurement(state, token, false, time);
            match admission.task {
                Ok(search) => Handling {
                    result: Ok(()),
                    job: Job::Search(search),
                    updates: admission.updates,
                    raise: None,
                },
                Err(error) => Handling {
                    result: Err(error),
                    job: Job::Nothing,
                    updates: admission.updates,
                    raise: None,
                },
            }
        },
        StaticMeasureCommand::SaveResults { path } => {
            if state.measurement.static_results.len() == 0 {
                done(updates)
            } else {
                emit(
                    &mut updates,
                    Update::Measurement(MeasurementUpdate::StaticStatus(StaticNote::Saved)),
                );
                Handling { result: Ok(()), job: Job::SaveStatic { path }, updates, raise: None }
            }
        },
        StaticMeasureCommand::ClearResults => {
            state.measurement.static_results.clear();
            emit(&mut updates, Update::Measurement(MeasurementUpdate::StaticResults(Vec::new())));
            done(updates)
        },
        StaticMeasureCommand::Stop => {
            let raise: Option<CancellationToken> = match &state.measurement.static_task_token {
                Some(running) => Some(share(running)),
                None => None,
            };
            Handling { result: Ok(()), job: Job::Nothing, updates, raise }
        },
    }
}

/// What [`handle_dynamic_measure`] makes of a command and a state.
pub open spec fn dynamic_handled(cmd: DynamicMeasureCommand, s: BackendState, token: CancellationToken, now_ns: u64, t: BackendState, h: Handling) -> bool {
    match cmd {
        DynamicMeasureCommand::Start => match dynamic_rejection(s) {
            Some(why) => t == s && turned_away(
                h,
                TaskError::PreconditionRejected(why),
                seq![error_note(TaskError::PreconditionRejected(why)), dynamic_running_note(false)],
            ),
            None => t == dynamic_registered(s, token) && went_well(
                h,
                Job::Dynamic(dynamic_admitted(s.rotation_direction_is_ama)),
                seq![dynamic_running_note(true)],
            ),
        },
        DynamicMeasureCommand::UpdateParams { params } => t == (BackendState {
            measurement: MeasurementState {
                dynamic_params: params,
                ..s.measurement
            },
            ..s
        }) && went_well(h, Job::Nothing, Seq::empty()),
        DynamicMeasureCommand::Stop => t == s && stopping(h, s.measurement.dynamic_task_token),
        DynamicMeasureCommand::StartNew => if s.measurement.dynamic_task_token
            is None {
            &&& but_dynamic_results(
                t,
                BackendState {
                    measurement: MeasurementState {
                        dynamic_time: Some(now_ns),
                        ..s.measurement
                    },
                    ..s
                },
            )
            &&& t.measurement.dynamic_results@.len() == 0
            &&& went_well(
                h,
                Job::Nothing,
                seq![dynamic_results_note(Seq::empty()), start_time_note(Some(now_ns))],
            )
        } else {
            t == s && went_well(h, Job::Nothing, Seq::empty())
        },
        DynamicMeasureCommand::ClearResults => but_dynamic_results(t, s)
            && t.measurement.dynamic_results@.len() == 0 && went_well(
            h,
            Job::Nothing,
            seq![dynamic_results_note(Seq::empty())],
        ),
    }
}

/// What a command of the dynamic measurement does.
///
/// - Starting: see [`run_dynamic_experiment_loop`].
/// - New parameters replace the old ones.
/// - Stopping hands back the token of the dynamic measurement, if one is
///   registered, to be raised. The register stays as it is: the experiment
///   frees it when it ends.
/// - Starting anew, while no dynamic measurement is registered, empties the
///   list and starts the experiment clock at the present reading; both are
///   reported. While one is registered it does nothing.
/// - Clearing empties the list and reports the empty list.
pub fn handle_dynamic_measure(
    cmd: DynamicMeasureCommand,
    state: &mut BackendState,
    token: &CancellationToken,
    now_ns: u64,
) -> (h: Handling)
    ensures
        dynamic_handled(cmd, *old(state), *token, now_ns, *final(state), h),
{
    let mut updates: Vec<Update> = Vec::new();
    assert(views(updates@) =~= Seq::empty());
    match cmd {
        DynamicMeasureCommand::Start => {
            let admission = run_dynamic_experiment_loop(state, token);
            match admission.task {
                Ok(run) => Handling {
                    result: Ok(()),
                    job: Job::Dynamic(run),
                    updates: admission.updates,
                    raise: None,
                },
                Err(error) => Handling {
                    result: Err(error),
                    job: Job::Nothing,
                    updates: admission.updates,
                    raise: None,
                },
            }
        },
        DynamicMeasureCommand::UpdateParams { params } => {
            state.measurement.dynamic_params = params;
            done(updates)
        },
        DynamicMeasureCommand::Stop => {
            let raise: Option<CancellationToken> = match &state.measurement.dynamic_task_token {
                Some(running) => Some(share(running)),
                None => None,
            };
            Handling { result: Ok(()), job: Job::Nothing, updates, raise }
        },
        DynamicMeasureCommand::StartNew => {
            if state.measurement.dynamic_task_token.is_none() {
                state.measurement.dynamic_results.clear();
                state.measurement.dynamic_time = Some(now_ns);
                emit(
                    &mut updates,
                    Update::Measurement(MeasurementUpdate::DynamicResults(Vec::new())),
                );
                emit(
                    &mut updates,
                    Update::Measurement(MeasurementUpdate::StartTime(Some(now_ns))),
                );
                assert(views(updates@) =~= seq![
                    dynamic_results_note(Seq::empty()),
                    start_time_note(Some(now_ns)),
                ]);
            }
            done(updates)
        },
        DynamicMeasureCommand::ClearResults => {
            state.measurement.dynamic_results.clear();
            emit(
                &mut updates,
                Update::Measurement(MeasurementUpdate::DynamicResults(Vec::new())),
            );
            done(updates)
        },
    }
}

/// What handling a command makes of a state: what the handler of its kind
/// makes of it.
pub open spec fn command_handled(
    command: Command,
    s: BackendState,
    token: CancellationToken,
    now_ns: u64,
    t: BackendState,
    h: Handling,
) -> bool {
    match command {
        Command::General(_) => t == s && went_well(h, Job::Nothing, Seq::empty()),
        Command::Device(cmd) => device_handled(cmd, s, token, now_ns, t, h),
        Command::Camera(cmd) => camera_handled(cmd, s, t, h),
        Command::Training(cmd) => training_handled(cmd, s, t, h),
        Command::StaticMeasure(cmd) => static_handled(cmd, s, token, t, h),
        Command::DynamicMeasure(cmd) => dynamic_handled(cmd, s, token, now_ns, t, h),
    }
}

} // verus!
