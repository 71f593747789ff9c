//! The messages between the control core and whoever drives it.
//!
//! Commands come in, updates go out. Both are closed sums, so a new message
//! is a change that every match has to take note of. Status and error
//! messages are values, not text: `text` renders the ones that have a fixed
//! wording.

use crate::protocol::AckOutcome;
use crate::window::PredictionWindow;
use std::path::PathBuf;
use vstd::prelude::*;

verus! {

/// `std::path::PathBuf`: a path that the core hands through and never reads.
#[verifier::external_type_specification]
#[verifier::external_body]
pub struct ExPathBuf(PathBuf);

/// `PathBuf::clone`: the copy is the same path.
pub assume_specification[ <PathBuf as Clone>::clone ](path: &PathBuf) -> (copy: PathBuf)
    ensures
        copy == *path,
;

/// A command to the control core.
#[derive(Debug, Clone)]
pub enum Command {
    General(GeneralCommand),
    Device(DeviceCommand),
    Camera(CameraCommand),
    Training(TrainingCommand),
    StaticMeasure(StaticMeasureCommand),
    DynamicMeasure(DynamicMeasureCommand),
}

/// Commands to the dispatcher itself.
#[derive(Debug, Clone)]
pub enum GeneralCommand {
    Shutdown,
}

/// Commands for the motor and for recording.
#[derive(Debug, Clone)]
pub enum DeviceCommand {
    RefreshSerialPorts,
    ConnectSerial { port: String, baud_rate: u32 },
    DisconnectSerial,
    TestSerial,
    /// `true` for the AMA convention, `false` for MAM.
    SetRotationDirection(bool),
    SetRotationReverse(bool),
    RotateMotor { steps: i32 },
    RotateTo { steps: i32 },
    FindZeroPoint,
    ReturnToZero,
    StartRecording { mode: String, save_path: PathBuf, num: i32 },
    StopRecording,
}

/// Commands for the camera.
#[derive(Debug, Clone)]
pub enum CameraCommand {
    RefreshCameras,
    Connect { index: usize },
    Disconnect,
    SetHoughCircleRadius { min: u32, max: u32 },
    SetLock(bool),
}

/// Commands for the classifier and its data sets.
#[derive(Debug, Clone)]
pub enum TrainingCommand {
    LoadRecordedDataset { path: PathBuf },
    TrainModel { show_roc: bool, show_cm: bool },
    SaveModel { path: PathBuf },
    LoadModel { path: PathBuf },
    ExportDataset { path: PathBuf },
    ResetModel,
    LoadPersistentDataset { path: PathBuf },
    ResetPersistentDataset,
    ResetRecordedDataset,
}

/// Commands of the static measurement.
#[derive(Debug, Clone)]
pub enum StaticMeasureCommand {
    RunSingleMeasurement { time: i32 },
    SaveResults { path: PathBuf },
    ClearResults,
    Stop,
}

/// Commands of the dynamic measurement.
#[derive(Debug, Clone)]
pub enum DynamicMeasureCommand {
    Start,
    UpdateParams { params: DynamicExpParams },
    Stop,
    StartNew,
    ClearResults,
}

/// How the angles are transformed before the kinetics fit.
#[derive(Debug, Clone, Copy, PartialEq, Eq, Structural)]
pub enum RegressionMode {
    Linear,
    Log,
    Inverse,
}

/// What the dynamic experiment is run with. The step angle is held in motor
/// steps, already rounded.
#[derive(Debug, Clone)]
pub struct DynamicExpParams {
    pub path: PathBuf,
    pub step_steps: i32,
    pub sample_points: u32,
}

/// One precision measurement. The angle is `steps` over
/// [`crate::protocol::STEPS_PER_DEGREE`].
#[derive(Clone, Copy, Debug, PartialEq, Eq, Structural)]
pub struct StaticResult {
    pub index: usize,
    pub steps: i32,
}

/// One transition of the dynamic experiment, with the time on the experiment
/// clock in nanoseconds.
#[derive(Clone, Copy, Debug, PartialEq, Eq, Structural)]
pub struct DynamicResult {
    pub index: usize,
    pub time_ns: u64,
    pub steps: i32,
}

/// What a file dialog was opened for, with the path that was chosen.
pub enum FileDialogResult {
    StartRecording(PathBuf),
    RecordedDataset(PathBuf),
    PersistentDataset(PathBuf),
    SaveStaticResults(PathBuf),
    SaveDynamicExperiment(PathBuf),
    LoadDataProcessingFile(PathBuf),
}

/// Why a task was turned away before it began.
#[derive(Clone, Copy, Debug, PartialEq, Eq, Structural)]
pub enum Rejection {
    /// The classifier, the camera or the motor is missing.
    NotReady,
    /// A static or dynamic measurement is registered already.
    Busy,
    /// No zero calibration has been made.
    NotZeroed,
    /// The experiment clock has not been started.
    ClockNotStarted,
    /// No camera is connected.
    NoCamera,
    /// No motor is connected.
    NoMotor,
    /// A measurement runs and has to be stopped first.
    MeasurementRunning,
}

/// How the motor was lost.
#[derive(Clone, Copy, Debug, PartialEq, Eq, Structural)]
pub enum MotorFault {
    /// There was no open port when a command was due.
    PortClosed,
    /// The reply was not the acknowledgment.
    Garbled,
    /// No reply came in time.
    TimedOut,
    /// The port failed.
    Failed,
}

/// The ways a task ends other than well.
#[derive(Clone, Copy, Debug, PartialEq, Eq, Structural)]
pub enum TaskError {
    MotorDisconnected(MotorFault),
    CameraUnavailable,
    NoCircleFound,
    SearchTimeout,
    Cancelled,
    /// A search ended with one boundary found and the other missing.
    BracketSearchFailed,
    /// The step position was needed and is not known.
    PositionUnknown,
    /// The serial port could not be opened.
    ConnectFailed,
    PreconditionRejected(Rejection),
}

/// The fault that a failed command stands for.
pub open spec fn fault_of(outcome: AckOutcome) -> MotorFault {
    match outcome {
        AckOutcome::Garbled => MotorFault::Garbled,
        AckOutcome::TimedOut => MotorFault::TimedOut,
        _ => MotorFault::Failed,
    }
}

/// The fault that a failed command stands for.
pub fn motor_fault(outcome: AckOutcome) -> (fault: MotorFault)
    ensures
        fault == fault_of(outcome),
{
    match outcome {
        AckOutcome::Garbled => MotorFault::Garbled,
        AckOutcome::TimedOut => MotorFault::TimedOut,
        _ => MotorFault::Failed,
    }
}

impl Rejection {
    /// The wording shown to the operator.
    pub open spec fn spec_text(self) -> Seq<char> {
        match self {
            Rejection::NotReady => "设备或模型未就绪"@,
            Rejection::Busy => "已经有测量任务在进行"@,
            Rejection::NotZeroed => "未归零"@,
            Rejection::ClockNotStarted => "请先开始计时"@,
            Rejection::NoCamera => "相机未连接"@,
            Rejection::NoMotor => "未连接串口"@,
            Rejection::MeasurementRunning => "请先停止测量任务"@,
        }
    }

    /// The wording shown to the operator.
    pub fn text(&self) -> (s: String)
        ensures
            s@ == self.spec_text(),
    {
        match self {
            Rejection::NotReady => "设备或模型未就绪".to_string(),
            Rejection::Busy => "已经有测量任务在进行".to_string(),
            Rejection::NotZeroed => "未归零".to_string(),
            Rejection::ClockNotStarted => "请先开始计时".to_string(),
            Rejection::NoCamera => "相机未连接".to_string(),
            Rejection::NoMotor => "未连接串口".to_string(),
            Rejection::MeasurementRunning => "请先停止测量任务".to_string(),
        }
    }
}

impl TaskError {
    /// Whether the error is shown to the operator as an error. A cooperative
    /// stop is not: it leaves an informational status at most.
    pub open spec fn spec_is_surfaced(&self) -> bool {
        !(*self is Cancelled)
    }

    /// Whether the error is shown to the operator as an error.
    #[verifier::when_used_as_spec(spec_is_surfaced)]
    pub fn is_surfaced(&self) -> (b: bool)
        ensures
            b == self.spec_is_surfaced(),
    {
        match self {
            TaskError::Cancelled => false,
            _ => true,
        }
    }

    /// The wording shown to the operator.
    pub open spec fn spec_text(self) -> Seq<char> {
        match self {
            TaskError::MotorDisconnected(MotorFault::PortClosed) => "执行失败，请重新连接串口并找零点：串口断开"@,
            TaskError::MotorDisconnected(MotorFault::Garbled) => "执行失败，请重新连接串口并找零点（回复异常）"@,
            TaskError::MotorDisconnected(MotorFault::TimedOut) => "执行失败，请重新连接串口并找零点（超时）"@,
            TaskError::MotorDisconnected(MotorFault::Failed) => "执行失败，请重新连接串口并找零点（未知错误）"@,
            TaskError::CameraUnavailable => "相机异常"@,
            TaskError::NoCircleFound => "找不到圆"@,
            TaskError::SearchTimeout => "超时"@,
            TaskError::Cancelled => "测试被用户中断"@,
            TaskError::BracketSearchFailed => "双向逼近失败"@,
            TaskError::PositionUnknown => "没有定义零点"@,
            TaskError::ConnectFailed => "连接失败"@,
            TaskError::PreconditionRejected(why) => why.spec_text(),
        }
    }

    /// The wording shown to the operator.
    pub fn text(&self) -> (s: String)
        ensures
            s@ == self.spec_text(),
    {
        match self {
            TaskError::MotorDisconnected(MotorFault::PortClosed) => "执行失败，请重新连接串口并找零点：串口断开".to_string(),
            TaskError::MotorDisconnected(MotorFault::Garbled) => "执行失败，请重新连接串口并找零点（回复异常）".to_string(),
            TaskError::MotorDisconnected(MotorFault::TimedOut) => "执行失败，请重新连接串口并找零点（超时）".to_string(),
            TaskError::MotorDisconnected(MotorFault::Failed) => "执行失败，请重新连接串口并找零点（未知错误）".to_string(),
            TaskError::CameraUnavailable => "相机异常".to_string(),
            TaskError::NoCircleFound => "找不到圆".to_string(),
            TaskError::SearchTimeout => "超时".to_string(),
            TaskError::Cancelled => "测试被用户中断".to_string(),
            TaskError::BracketSearchFailed => "双向逼近失败".to_string(),
            TaskError::PositionUnknown => "没有定义零点".to_string(),
            TaskError::ConnectFailed => "连接失败".to_string(),
            TaskError::PreconditionRejected(why) => why.text(),
        }
    }
}

/// Informational notes of the static measurement.
#[derive(Clone, Copy, Debug, PartialEq, Eq, Structural)]
pub enum StaticNote {
    /// A stop was observed before a run began.
    Interrupted,
    /// A run was broken off by a stop or by its time budget.
    Aborted,
    /// The results were handed to the result sink.
    Saved,
}

/// Informational notes of the dynamic measurement.
#[derive(Clone, Copy, Debug, PartialEq, Eq, Structural)]
pub enum DynamicNote {
    /// The camera stopped delivering frames.
    CameraFault,
    /// Pre-rotation goes on; the window is the one just decided on.
    PreRotating(PredictionWindow),
}

/// Notes on the classifier.
#[derive(Clone, Copy, Debug, PartialEq, Eq, Structural)]
pub enum TrainingNote {
    NoModel,
    EmptyDataset,
}

/// Informational notes that belong to no device and no measurement.
#[derive(Clone, Copy, Debug, PartialEq, Eq, Structural)]
pub enum GeneralNote {
    /// A task ended on a cooperative stop.
    Stopped,
}

/// Updates that belong to no device and no measurement.
#[derive(Clone, Copy, Debug, PartialEq, Eq, Structural)]
pub enum GeneralUpdate {
    StatusMessage(GeneralNote),
    Error(TaskError),
}

/// How far a recording is.
#[derive(Clone, Copy, Debug, PartialEq, Eq, Structural)]
pub enum RecordingStatus {
    Started,
    InProgress { elapsed_ns: u64 },
    Finished,
}

/// Updates of a recording.
#[derive(Clone, Copy, Debug, PartialEq, Eq, Structural)]
pub enum RecordingUpdate {
    StatusUpdate(RecordingStatus),
}

/// Updates on the devices.
#[derive(Clone, Debug, PartialEq, Eq)]
pub enum DeviceUpdate {
    SerialPortsList(Vec<String>),
    SerialConnectionStatus(bool),
    CameraList(Vec<String>),
    CameraConnectionStatus(bool),
}

/// Updates on the classifier.
#[derive(Clone, Copy, Debug, PartialEq, Eq, Structural)]
pub enum TrainingUpdate {
    TrainingStatus(TrainingNote),
    ModelReady(bool),
}

/// Updates of the measurements.
#[derive(Clone, Debug, PartialEq, Eq)]
pub enum MeasurementUpdate {
    StaticStatus(StaticNote),
    StaticRunning(bool),
    StaticResults(Vec<StaticResult>),
    DynamicStatus(DynamicNote),
    DynamicResults(Vec<DynamicResult>),
    DynamicRunning(bool),
    CurrentSteps(Option<i32>),
    /// The reading of the clock at which the experiment clock was started.
    StartTime(Option<u64>),
}

/// An update from the control core.
#[derive(Clone, Debug, PartialEq, Eq)]
pub enum Update {
    General(GeneralUpdate),
    Device(DeviceUpdate),
    Recording(RecordingUpdate),
    Training(TrainingUpdate),
    Measurement(MeasurementUpdate),
}

/// What a device update says, with lists as sequences.
pub ghost enum DeviceUpdateView {
    SerialPortsList(Seq<Seq<char>>),
    SerialConnectionStatus(bool),
    CameraList(Seq<Seq<char>>),
    CameraConnectionStatus(bool),
}

/// What a measurement update says, with lists as sequences.
pub ghost enum MeasurementUpdateView {
    StaticStatus(StaticNote),
    StaticRunning(bool),
    StaticResults(Seq<StaticResult>),
    DynamicStatus(DynamicNote),
    DynamicResults(Seq<DynamicResult>),
    DynamicRunning(bool),
    CurrentSteps(Option<i32>),
    StartTime(Option<u64>),
}

/// What an update says, with lists as sequences.
pub ghost enum UpdateView {
    General(GeneralUpdate),
    Device(DeviceUpdateView),
    Recording(RecordingUpdate),
    Training(TrainingUpdate),
    Measurement(MeasurementUpdateView),
}

impl View for DeviceUpdate {
    type V = DeviceUpdateView;

    open spec fn view(&self) -> DeviceUpdateView {
        match self {
            DeviceUpdate::SerialPortsList(names) => DeviceUpdateView::SerialPortsList(
                names@.map_values(|name: String| name@),
            ),
            DeviceUpdate::SerialConnectionStatus(on) => DeviceUpdateView::SerialConnectionStatus(
                *on,
            ),
            DeviceUpdate::CameraList(names) => DeviceUpdateView::CameraList(
                names@.map_values(|name: String| name@),
            ),
            DeviceUpdate::CameraConnectionStatus(on) => DeviceUpdateView::CameraConnectionStatus(
                *on,
            ),
        }
    }
}

impl View for MeasurementUpdate {
    type V = MeasurementUpdateView;

    open spec fn view(&self) -> MeasurementUpdateView {
        match self {
            MeasurementUpdate::StaticStatus(note) => MeasurementUpdateView::StaticStatus(*note),
            MeasurementUpdate::StaticRunning(on) => MeasurementUpdateView::StaticRunning(*on),
            MeasurementUpdate::StaticResults(list) => MeasurementUpdateView::StaticResults(list@),
            MeasurementUpdate::DynamicStatus(note) => MeasurementUpdateView::DynamicStatus(*note),
            MeasurementUpdate::DynamicResults(list) => MeasurementUpdateView::DynamicResults(
                list@,
            ),
            MeasurementUpdate::DynamicRunning(on) => MeasurementUpdateView::DynamicRunning(*on),
            MeasurementUpdate::CurrentSteps(steps) => MeasurementUpdateView::CurrentSteps(*steps),
            MeasurementUpdate::StartTime(at) => MeasurementUpdateView::StartTime(*at),
        }
    }
}

impl View for Update {
    type V = UpdateView;

    open spec fn view(&self) -> UpdateView {
        match self {
            Update::General(u) => UpdateView::General(*u),
            Update::Device(u) => UpdateView::Device(u@),
            Update::Recording(u) => UpdateView::Recording(*u),
            Update::Training(u) => UpdateView::Training(*u),
            Update::Measurement(u) => UpdateView::Measurement(u@),
        }
    }
}

/// What a list of updates says, in order.
pub open spec fn views(updates: Seq<Update>) -> Seq<UpdateView> {
    updates.map_values(|u: Update| u@)
}

/// The update that reports the step position.
pub open spec fn steps_note(steps: Option<i32>) -> UpdateView {
    UpdateView::Measurement(MeasurementUpdateView::CurrentSteps(steps))
}

/// The update that reports whether the motor is connected.
pub open spec fn serial_note(on: bool) -> UpdateView {
    UpdateView::Device(DeviceUpdateView::SerialConnectionStatus(on))
}

/// The update that reports whether the camera is connected.
pub open spec fn camera_note(on: bool) -> UpdateView {
    UpdateView::Device(DeviceUpdateView::CameraConnectionStatus(on))
}

/// The update that surfaces an error.
pub open spec fn error_note(error: TaskError) -> UpdateView {
    UpdateView::General(GeneralUpdate::Error(error))
}

/// The update that carries an informational note.
pub open spec fn status_note(note: GeneralNote) -> UpdateView {
    UpdateView::General(GeneralUpdate::StatusMessage(note))
}

/// The update that reports the start of the experiment clock.
pub open spec fn start_time_note(at: Option<u64>) -> UpdateView {
    UpdateView::Measurement(MeasurementUpdateView::StartTime(at))
}

/// The update that reports whether a classifier is at hand.
pub open spec fn model_ready_note(on: bool) -> UpdateView {
    UpdateView::Training(TrainingUpdate::ModelReady(on))
}

/// The update that carries a note on the classifier.
pub open spec fn training_status_note(note: TrainingNote) -> UpdateView {
    UpdateView::Training(TrainingUpdate::TrainingStatus(note))
}

/// The update that reports how far a recording is.
pub open spec fn recording_note(status: RecordingStatus) -> UpdateView {
    UpdateView::Recording(RecordingUpdate::StatusUpdate(status))
}

/// The update that reports whether a static measurement runs.
pub open spec fn static_running_note(on: bool) -> UpdateView {
    UpdateView::Measurement(MeasurementUpdateView::StaticRunning(on))
}

/// The update that reports whether a dynamic measurement runs.
pub open spec fn dynamic_running_note(on: bool) -> UpdateView {
    UpdateView::Measurement(MeasurementUpdateView::DynamicRunning(on))
}

/// The update that carries a note of the static measurement.
pub open spec fn static_status_note(note: StaticNote) -> UpdateView {
    UpdateView::Measurement(MeasurementUpdateView::StaticStatus(note))
}

/// The update that carries a note of the dynamic measurement.
pub open spec fn dynamic_status_note(note: DynamicNote) -> UpdateView {
    UpdateView::Measurement(MeasurementUpdateView::DynamicStatus(note))
}

/// The update that reports the static results.
pub open spec fn static_results_note(list: Seq<StaticResult>) -> UpdateView {
    UpdateView::Measurement(MeasurementUpdateView::StaticResults(list))
}

/// The update that reports the dynamic results.
pub open spec fn dynamic_results_note(list: Seq<DynamicResult>) -> UpdateView {
    UpdateView::Measurement(MeasurementUpdateView::DynamicResults(list))
}

/// Appends one update to a list that is being collected.
pub fn emit(updates: &mut Vec<Update>, update: Update)
    ensures
        views(final(updates)@) == views(old(updates)@).push(update@),
        views(final(updates)@) == views(old(updates)@) + seq![update@],
{
    updates.push(update);
}

} // verus!
