//! The shared state of the control core and the tasks that work on it.
//!
//! The state is one plain struct. Whoever drives the core keeps it behind one
//! lock, next to the device handles themselves, and calls a task only while
//! holding that lock; every call is short and never waits for a device.

pub mod camera;
pub mod command;
pub mod dispatcher;
pub mod dynamic;
pub mod laws;
pub mod measurement;
pub mod model;
pub mod motor;
pub mod recording;
pub mod serial;
pub mod task;

use crate::communication::DynamicExpParams;
use crate::communication::DynamicResult;
use crate::communication::StaticResult;
use crate::token::new_token;
use crate::token::CancellationToken;
use std::path::PathBuf;
use vstd::prelude::*;

verus! {

/// `PathBuf::new`: the empty path.
pub assume_specification[ PathBuf::new ]() -> (path: PathBuf);

/// Where the indicator circle is in a frame, in pixels.
#[derive(Clone, Copy, Debug, PartialEq, Eq, Structural)]
pub struct CircleLocation {
    pub center_x: i32,
    pub center_y: i32,
    pub radius: i32,
}

/// How the indicator circle is looked for.
#[derive(Clone, Copy, Debug, PartialEq, Eq, Structural)]
pub struct CameraSettings {
    pub lock_circle: bool,
    pub locked_circle: Option<CircleLocation>,
    pub min_radius: i32,
    pub max_radius: i32,
}

/// Which devices are there. The handles themselves are kept by the caller;
/// a flag that goes down here tells it to drop the handle.
pub struct DeviceState {
    pub camera_connected: bool,
    pub serial_connected: bool,
    pub camera_settings: CameraSettings,
}

/// The recording that runs, if one does.
pub struct RecordingState {
    pub cancellation_token: Option<CancellationToken>,
    /// Steps the motor has moved while recording.
    pub steps_moved: i32,
}

/// What the core knows of the classifier.
pub struct TrainingState {
    /// Whether a fitted classifier is at hand.
    pub model_ready: bool,
}

/// The step position, the results, and the measurements that are
/// registered.
pub struct MeasurementState {
    /// The calibrated step position; `None` while no zero point stands.
    pub current_steps: Option<i32>,
    pub static_results: Vec<StaticResult>,
    pub static_task_token: Option<CancellationToken>,
    pub dynamic_results: Vec<DynamicResult>,
    pub dynamic_task_token: Option<CancellationToken>,
    /// The clock reading at which the experiment clock was started.
    pub dynamic_time: Option<u64>,
    pub dynamic_params: DynamicExpParams,
}

/// The shared state of the control core.
pub struct BackendState {
    pub devices: DeviceState,
    pub recording: RecordingState,
    pub training: TrainingState,
    pub measurement: MeasurementState,
    pub rotation_direction_is_ama: bool,
    pub rotation_direction_need_reverse: bool,
    pub shutdown_signal: CancellationToken,
}

impl BackendState {
    /// Whether a static or a dynamic measurement is registered.
    pub open spec fn measuring(self) -> bool {
        self.measurement.static_task_token is Some || self.measurement.dynamic_task_token is Some
    }

    /// Whether classifier, camera and motor are all there.
    pub open spec fn ready(self) -> bool {
        self.training.model_ready && self.devices.camera_connected
            && self.devices.serial_connected
    }

    /// The state at start-up: nothing connected, nothing measured, no zero
    /// point, circles of 30 to 45 pixels looked for, twelve samples half a
    /// degree apart.
    pub fn new() -> (s: BackendState)
        ensures
            !s.devices.camera_connected,
            !s.devices.serial_connected,
            s.devices.camera_settings == (CameraSettings {
                lock_circle: false,
                locked_circle: None,
                min_radius: 30,
                max_radius: 45,
            }),
            s.recording.cancellation_token is None,
            s.recording.steps_moved == 0,
            !s.training.model_ready,
            s.measurement.current_steps is None,
            s.measurement.static_results@.len() == 0,
            s.measurement.dynamic_results@.len() == 0,
            s.measurement.static_task_token is None,
            s.measurement.dynamic_task_token is None,
            s.measurement.dynamic_time is None,
            s.measurement.dynamic_params.step_steps == -373,
            s.measurement.dynamic_params.sample_points == 12,
            !s.rotation_direction_is_ama,
            !s.rotation_direction_need_reverse,
    {
        BackendState {
            devices: DeviceState {
                camera_connected: false,
                serial_connected: false,
                camera_settings: CameraSettings {
                    lock_circle: false,
                    locked_circle: None,
                    min_radius: 30,
                    max_radius: 45,
                },
            },
            recording: RecordingState { cancellation_token: None, steps_moved: 0 },
            training: TrainingState { model_ready: false },
            measurement: MeasurementState {
                current_steps: None,
                static_results: Vec::new(),
                static_task_token: None,
                dynamic_results: Vec::new(),
                dynamic_task_token: None,
                dynamic_time: None,
                dynamic_params: DynamicExpParams {
                    path: PathBuf::new(),
                    step_steps: -373,
                    sample_points: 12,
                },
            },
            rotation_direction_is_ama: false,
            rotation_direction_need_reverse: false,
            shutdown_signal: new_token(),
        }
    }
}

} // verus!
