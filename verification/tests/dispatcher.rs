use polarimeter::backend::command::handle_camera;
use polarimeter::backend::command::handle_device;
use polarimeter::backend::command::handle_dynamic_measure;
use polarimeter::backend::command::handle_general;
use polarimeter::backend::command::handle_static_measure;
use polarimeter::backend::command::handle_training;
use polarimeter::backend::command::model_fitted;
use polarimeter::backend::command::radius;
use polarimeter::backend::command::report;
use polarimeter::backend::command::serial_opened;
use polarimeter::backend::command::Job;
use polarimeter::backend::dispatcher::backend_loop;
use polarimeter::backend::dispatcher::dispatch_command;
use polarimeter::backend::dispatcher::is_listed;
use polarimeter::backend::dispatcher::Dispatcher;
use polarimeter::backend::dispatcher::Monitor;
use polarimeter::backend::dispatcher::Reception;
use polarimeter::backend::task::Action;
use polarimeter::backend::task::Event;
use polarimeter::backend::task::Observation;
use polarimeter::backend::BackendState;
use polarimeter::communication::CameraCommand;
use polarimeter::communication::Command;
use polarimeter::communication::DeviceCommand;
use polarimeter::communication::DeviceUpdate;
use polarimeter::communication::DynamicExpParams;
use polarimeter::communication::DynamicMeasureCommand;
use polarimeter::communication::DynamicResult;
use polarimeter::communication::GeneralCommand;
use polarimeter::communication::GeneralNote;
use polarimeter::communication::GeneralUpdate;
use polarimeter::communication::MeasurementUpdate;
use polarimeter::communication::MotorFault;
use polarimeter::communication::RecordingStatus;
use polarimeter::communication::RecordingUpdate;
use polarimeter::communication::Rejection;
use polarimeter::communication::StaticMeasureCommand;
use polarimeter::communication::StaticNote;
use polarimeter::communication::StaticResult;
use polarimeter::communication::TaskError;
use polarimeter::communication::TrainingCommand;
use polarimeter::communication::TrainingNote;
use polarimeter::communication::TrainingUpdate;
use polarimeter::communication::Update;
use polarimeter::protocol::AckOutcome;
use polarimeter::token::is_signalled;
use polarimeter::token::new_token;
use polarimeter::token::share;
use polarimeter::token::signal;
use std::path::PathBuf;
use std::sync::Arc;

fn ready(position: Option<i32>) -> BackendState {
    let mut state = BackendState::new();
    state.devices.serial_connected = true;
    state.devices.camera_connected = true;
    state.training.model_ready = true;
    state.measurement.current_steps = position;
    state
}

fn steps(position: Option<i32>) -> Update {
    Update::Measurement(MeasurementUpdate::CurrentSteps(position))
}

fn error(e: TaskError) -> Update {
    Update::General(GeneralUpdate::Error(e))
}

fn first_byte(job: Job, state: &mut BackendState) -> Action {
    match job {
        Job::Rotate(mut task) => task.step(state, false, Event::Resume).action,
        other => panic!("no move: {:?}", other),
    }
}

#[test]
fn the_state_starts_empty() {
    let state = BackendState::new();
    assert!(!state.devices.camera_connected);
    assert!(!state.devices.serial_connected);
    assert!(!state.devices.camera_settings.lock_circle);
    assert_eq!(state.devices.camera_settings.locked_circle, None);
    assert_eq!(state.devices.camera_settings.min_radius, 30);
    assert_eq!(state.devices.camera_settings.max_radius, 45);
    assert!(state.recording.cancellation_token.is_none());
    assert_eq!(state.recording.steps_moved, 0);
    assert!(!state.training.model_ready);
    assert_eq!(state.measurement.current_steps, None);
    assert!(state.measurement.static_results.is_empty());
    assert!(state.measurement.dynamic_results.is_empty());
    assert_eq!(state.measurement.dynamic_time, None);
    assert_eq!(state.measurement.dynamic_params.sample_points, 12);
    assert_eq!(state.measurement.dynamic_params.step_steps, -373);
    assert_eq!(state.measurement.dynamic_params.path, PathBuf::new());
    assert!(!state.rotation_direction_is_ama);
    assert!(!state.rotation_direction_need_reverse);
    assert!(!is_signalled(&state.shutdown_signal));
}

#[test]
fn tokens_are_shared_flags() {
    let token = new_token();
    let other = share(&token);
    assert!(!is_signalled(&token));
    assert!(!is_signalled(&other));
    signal(&other);
    assert!(is_signalled(&token));
    assert!(!is_signalled(&new_token()));
}

#[test]
fn shutdown_raises_the_signal_and_starts_nothing() {
    let mut dispatcher = Dispatcher::new();
    let mut state = ready(Some(0));
    dispatcher.register(&new_token());
    let reception =
        backend_loop(&mut dispatcher, &mut state, Command::General(GeneralCommand::Shutdown), &vec![0], 0);
    // the signal to raise is the global one; raising it is left to the caller
    assert!(!is_signalled(&state.shutdown_signal));
    match reception {
        Reception::Shutdown { raise } => {
            assert!(Arc::ptr_eq(&raise, &state.shutdown_signal));
            signal(&raise);
        }
        _ => panic!("no shutdown"),
    }
    assert!(is_signalled(&state.shutdown_signal));
    assert_eq!(dispatcher.active_tasks.len(), 1);
}

#[test]
fn stop_through_the_dispatcher_hands_back_the_running_token() {
    let mut dispatcher = Dispatcher::new();
    let mut state = ready(Some(0));
    let reception = backend_loop(
        &mut dispatcher,
        &mut state,
        Command::StaticMeasure(StaticMeasureCommand::RunSingleMeasurement { time: 1 }),
        &vec![],
        0,
    );
    let running = match reception {
        Reception::Spawn { token, raise, job, .. } => {
            assert!(raise.is_none());
            assert!(matches!(job, Job::Search(_)));
            token
        }
        _ => panic!("no worker"),
    };
    let reception = backend_loop(
        &mut dispatcher,
        &mut state,
        Command::StaticMeasure(StaticMeasureCommand::Stop),
        &vec![],
        0,
    );
    match reception {
        Reception::Spawn { id, token, raise, job, updates } => {
            assert_eq!(id, 1);
            assert!(matches!(job, Job::Nothing));
            assert!(updates.is_empty());
            let raise = raise.expect("a token to raise");
            assert!(Arc::ptr_eq(&raise, &running));
            assert!(!Arc::ptr_eq(&raise, &token));
            assert!(!Arc::ptr_eq(&raise, &state.shutdown_signal));
        }
        _ => panic!("no worker"),
    }
    // the register is freed by the measurement, not by the stop
    assert!(Arc::ptr_eq(state.measurement.static_task_token.as_ref().unwrap(), &running));
    // a stop of the other kind of measurement has nothing to raise
    let reception = backend_loop(
        &mut dispatcher,
        &mut state,
        Command::DynamicMeasure(DynamicMeasureCommand::Stop),
        &vec![],
        0,
    );
    assert!(matches!(reception, Reception::Spawn { raise: None, job: Job::Nothing, .. }));
}

#[test]
fn every_other_command_gets_a_worker_and_a_token() {
    let mut dispatcher = Dispatcher::new();
    let mut state = ready(Some(0));
    let mut tokens = Vec::new();
    for expected in 0..3u64 {
        let reception = backend_loop(
            &mut dispatcher,
            &mut state,
            Command::Device(DeviceCommand::RotateMotor { steps: 7 }),
            &vec![],
            0,
        );
        match reception {
            Reception::Spawn { id, token, job, updates, raise } => {
                assert_eq!(id, expected);
                assert!(raise.is_none());
                assert!(!is_signalled(&token));
                assert!(matches!(job, Job::Rotate(_)));
                assert!(updates.is_empty());
                tokens.push(token);
            }
            _ => panic!("no worker"),
        }
    }
    assert_eq!(dispatcher.active_tasks.iter().map(|t| t.id).collect::<Vec<u64>>(), vec![0, 1, 2]);
    // each worker has a token of its own
    signal(&tokens[1]);
    assert!(!is_signalled(&dispatcher.active_tasks[0].cancellation_token));
    assert!(is_signalled(&dispatcher.active_tasks[1].cancellation_token));
    assert!(!is_signalled(&dispatcher.active_tasks[2].cancellation_token));
}

#[test]
fn finished_workers_are_pruned_before_the_next_one_starts() {
    let mut dispatcher = Dispatcher::new();
    let mut state = ready(Some(0));
    for _ in 0..4 {
        dispatcher.register(&new_token());
    }
    let reception = backend_loop(
        &mut dispatcher,
        &mut state,
        Command::Camera(CameraCommand::SetLock(true)),
        &vec![2, 0, 9],
        0,
    );
    assert!(matches!(reception, Reception::Spawn { id: 4, .. }));
    assert_eq!(dispatcher.active_tasks.iter().map(|t| t.id).collect::<Vec<u64>>(), vec![1, 3, 4]);
    assert!(state.devices.camera_settings.lock_circle);
}

#[test]
fn static_measurement_beside_a_dynamic_one_is_rejected_synchronously() {
    let mut dispatcher = Dispatcher::new();
    let mut state = ready(Some(321));
    state.measurement.dynamic_task_token = Some(new_token());
    let reception = backend_loop(
        &mut dispatcher,
        &mut state,
        Command::StaticMeasure(StaticMeasureCommand::RunSingleMeasurement { time: 1 }),
        &vec![],
        0,
    );
    match reception {
        Reception::Rejected { error: e, updates } => {
            assert_eq!(e, TaskError::PreconditionRejected(Rejection::Busy));
            assert_eq!(
                updates,
                vec![
                    error(TaskError::PreconditionRejected(Rejection::Busy)),
                    Update::Measurement(MeasurementUpdate::StaticRunning(false)),
                ]
            );
        }
        _ => panic!("not rejected"),
    }
    // no worker, no token registered, no change to the position
    assert!(dispatcher.active_tasks.is_empty());
    assert_eq!(dispatcher.next_id, 0);
    assert!(state.measurement.static_task_token.is_none());
    assert!(state.measurement.dynamic_task_token.is_some());
    assert_eq!(state.measurement.current_steps, Some(321));
}

#[test]
fn shut_down_signals_and_lists_every_worker() {
    let mut dispatcher = Dispatcher::new();
    let mut state = ready(Some(0));
    let tokens: Vec<_> = (0..3).map(|_| new_token()).collect();
    for token in &tokens {
        dispatcher.register(token);
    }
    let stopped = dispatcher.shut_down(&mut state);
    assert_eq!(stopped.iter().map(|t| t.id).collect::<Vec<u64>>(), vec![0, 1, 2]);
    // every worker comes back with its own token, for the caller to raise
    for (task, token) in stopped.iter().zip(&tokens) {
        assert!(Arc::ptr_eq(&task.cancellation_token, token));
        assert!(!Arc::ptr_eq(&task.cancellation_token, &state.shutdown_signal));
    }
    for task in &stopped {
        signal(&task.cancellation_token);
    }
    assert!(tokens.iter().all(is_signalled));
    assert!(dispatcher.active_tasks.is_empty());
    // the camera session is gone
    assert!(!state.devices.camera_connected);
    assert!(state.devices.serial_connected);
}

#[test]
fn listing() {
    assert!(is_listed(&vec![3, 1, 2], 1));
    assert!(!is_listed(&vec![3, 1, 2], 0));
    assert!(!is_listed(&vec![], 0));
}

#[test]
fn the_end_of_a_task_is_reported() {
    assert!(report(Ok(())).is_empty());
    assert_eq!(report(Err(TaskError::SearchTimeout)), vec![error(TaskError::SearchTimeout)]);
    assert_eq!(
        report(Err(TaskError::MotorDisconnected(MotorFault::Garbled))),
        vec![error(TaskError::MotorDisconnected(MotorFault::Garbled))]
    );
    // a cooperative stop is no error
    assert_eq!(
        report(Err(TaskError::Cancelled)),
        vec![Update::General(GeneralUpdate::StatusMessage(GeneralNote::Stopped))]
    );
    assert!(!TaskError::Cancelled.is_surfaced());
    assert!(TaskError::CameraUnavailable.is_surfaced());
}

#[test]
fn error_texts() {
    assert_eq!(TaskError::PreconditionRejected(Rejection::NotReady).text(), "设备或模型未就绪");
    assert_eq!(TaskError::PreconditionRejected(Rejection::Busy).text(), "已经有测量任务在进行");
    assert_eq!(TaskError::PreconditionRejected(Rejection::NotZeroed).text(), "未归零");
    assert_eq!(TaskError::PreconditionRejected(Rejection::ClockNotStarted).text(), "请先开始计时");
    assert_eq!(Rejection::NoCamera.text(), "相机未连接");
    assert_eq!(Rejection::NoMotor.text(), "未连接串口");
    assert_eq!(Rejection::MeasurementRunning.text(), "请先停止测量任务");
    assert_eq!(TaskError::MotorDisconnected(MotorFault::TimedOut).text(), "执行失败，请重新连接串口并找零点（超时）");
    assert_eq!(TaskError::MotorDisconnected(MotorFault::Garbled).text(), "执行失败，请重新连接串口并找零点（回复异常）");
    assert_eq!(TaskError::MotorDisconnected(MotorFault::Failed).text(), "执行失败，请重新连接串口并找零点（未知错误）");
    assert_eq!(TaskError::MotorDisconnected(MotorFault::PortClosed).text(), "执行失败，请重新连接串口并找零点：串口断开");
    assert_eq!(TaskError::CameraUnavailable.text(), "相机异常");
    assert_eq!(TaskError::NoCircleFound.text(), "找不到圆");
    assert_eq!(TaskError::BracketSearchFailed.text(), "双向逼近失败");
    assert_eq!(TaskError::PositionUnknown.text(), "没有定义零点");
    assert_eq!(TaskError::ConnectFailed.text(), "连接失败");
    assert_eq!(TaskError::SearchTimeout.text(), "超时");
    assert_eq!(TaskError::Cancelled.text(), "测试被用户中断");
}

#[test]
fn general_command_leaves_nothing_to_do() {
    let mut state = ready(Some(1));
    let h = handle_general(GeneralCommand::Shutdown, &mut state);
    assert_eq!(h.result, Ok(()));
    assert!(matches!(h.job, Job::Nothing));
    assert!(h.updates.is_empty());
}

#[test]
fn serial_commands() {
    let token = new_token();
    let mut state = ready(Some(5));
    let h = handle_device(DeviceCommand::RefreshSerialPorts, &mut state, &token, 0);
    assert!(matches!(h.job, Job::ListPorts));

    let h = handle_device(
        DeviceCommand::ConnectSerial { port: "COM3".to_string(), baud_rate: 9600 },
        &mut state,
        &token,
        0,
    );
    match h.job {
        Job::OpenPort { port, baud_rate } => {
            assert_eq!(port, "COM3");
            assert_eq!(baud_rate, 9600);
        }
        other => panic!("{:?}", other),
    }
    // the old port is dropped before the new one is opened
    assert!(!state.devices.serial_connected);
    let h = serial_opened(&mut state, false);
    assert_eq!(h.result, Err(TaskError::ConnectFailed));
    assert_eq!(h.updates, vec![error(TaskError::ConnectFailed)]);
    assert!(!state.devices.serial_connected);
    let h = serial_opened(&mut state, true);
    assert_eq!(h.result, Ok(()));
    assert_eq!(h.updates, vec![Update::Device(DeviceUpdate::SerialConnectionStatus(true))]);
    assert!(state.devices.serial_connected);

    let h = handle_device(DeviceCommand::TestSerial, &mut state, &token, 0);
    assert!(matches!(h.job, Job::TestPort));
    let h = handle_device(DeviceCommand::DisconnectSerial, &mut state, &token, 0);
    assert_eq!(h.updates, vec![Update::Device(DeviceUpdate::SerialConnectionStatus(false))]);
    assert!(!state.devices.serial_connected);
    assert_eq!(state.measurement.current_steps, Some(5));
    let h = handle_device(DeviceCommand::TestSerial, &mut state, &token, 0);
    assert_eq!(h.result, Err(TaskError::PreconditionRejected(Rejection::NoMotor)));
    assert!(matches!(h.job, Job::Nothing));
}

#[test]
fn orientation_flags_are_set() {
    let token = new_token();
    let mut state = ready(None);
    handle_device(DeviceCommand::SetRotationDirection(true), &mut state, &token, 0);
    assert!(state.rotation_direction_is_ama);
    assert!(!state.rotation_direction_need_reverse);
    handle_device(DeviceCommand::SetRotationReverse(true), &mut state, &token, 0);
    assert!(state.rotation_direction_need_reverse);
    handle_device(DeviceCommand::SetRotationDirection(false), &mut state, &token, 0);
    assert!(!state.rotation_direction_is_ama);
    assert!(state.rotation_direction_need_reverse);
}

#[test]
fn rotation_commands() {
    let token = new_token();
    let mut state = ready(Some(100));
    let h = handle_device(DeviceCommand::RotateMotor { steps: -746 }, &mut state, &token, 0);
    assert_eq!(first_byte(h.job, &mut state), Action::Send(61));
    let h = handle_device(DeviceCommand::RotateTo { steps: 846 }, &mut state, &token, 0);
    assert_eq!(first_byte(h.job, &mut state), Action::Send(60));
    let h = handle_device(DeviceCommand::ReturnToZero, &mut state, &token, 0);
    assert_eq!(first_byte(h.job, &mut state), Action::Send(57));

    let mut state = ready(None);
    let h = handle_device(DeviceCommand::RotateTo { steps: 846 }, &mut state, &token, 0);
    assert_eq!(h.result, Err(TaskError::PreconditionRejected(Rejection::NotZeroed)));
    assert_eq!(h.updates, vec![error(TaskError::PreconditionRejected(Rejection::NotZeroed))]);
    let h = handle_device(DeviceCommand::ReturnToZero, &mut state, &token, 0);
    assert_eq!(h.result, Ok(()));
    assert!(matches!(h.job, Job::Nothing));
}

#[test]
fn return_to_zero_waits_for_measurements() {
    let token = new_token();
    let mut state = ready(Some(100));
    state.measurement.static_task_token = Some(new_token());
    let h = handle_device(DeviceCommand::ReturnToZero, &mut state, &token, 0);
    assert_eq!(h.result, Err(TaskError::PreconditionRejected(Rejection::MeasurementRunning)));
    assert!(matches!(h.job, Job::Nothing));
    assert_eq!(h.updates, vec![error(TaskError::PreconditionRejected(Rejection::MeasurementRunning))]);
}

#[test]
fn find_zero_point_is_a_search_of_one_run() {
    let token = new_token();
    let mut state = ready(None);
    let h = handle_device(DeviceCommand::FindZeroPoint, &mut state, &token, 0);
    match h.job {
        Job::Search(search) => {
            assert!(search.find_zero);
            assert_eq!(search.runs_left, 1);
        }
        other => panic!("{:?}", other),
    }
    assert!(state.measurement.static_task_token.is_some());
    signal(&token);
    assert!(is_signalled(state.measurement.static_task_token.as_ref().unwrap()));
}

#[test]
fn recording_commands() {
    let token = new_token();
    let mut state = ready(Some(0));
    let start = |mode: &str| DeviceCommand::StartRecording {
        mode: mode.to_string(),
        save_path: PathBuf::from("/tmp/data"),
        num: 3000,
    };
    let h = handle_device(start("MAM"), &mut state, &token, 77);
    match h.job {
        Job::Record { recording, save_path } => {
            assert!(recording.mam);
            assert_eq!(recording.num, 3000);
            assert_eq!(recording.started_ns, 77);
            assert_eq!(save_path, PathBuf::from("/tmp/data"));
        }
        other => panic!("{:?}", other),
    }
    assert_eq!(h.updates, vec![Update::Recording(RecordingUpdate::StatusUpdate(RecordingStatus::Started))]);
    assert!(state.recording.cancellation_token.is_some());

    // a second recording is ignored
    let h = handle_device(start("AMA"), &mut state, &new_token(), 78);
    assert!(matches!(h.job, Job::Nothing));
    assert!(h.updates.is_empty());
    assert_eq!(h.result, Err(TaskError::PreconditionRejected(Rejection::Busy)));

    let h = handle_device(DeviceCommand::StopRecording, &mut state, &new_token(), 79);
    assert_eq!(h.result, Ok(()));
    assert!(matches!(h.job, Job::Nothing));
    assert!(h.updates.is_empty());
    let raise = h.raise.expect("a token to raise");
    assert!(Arc::ptr_eq(&raise, &token));
    assert!(state.recording.cancellation_token.is_some());
    assert!(!is_signalled(&token));
    signal(&raise);
    assert!(is_signalled(&token));

    state.recording.cancellation_token = None;
    let h = handle_device(DeviceCommand::StopRecording, &mut state, &new_token(), 79);
    assert_eq!(h.result, Ok(()));
    assert!(h.raise.is_none());

    let h = handle_device(start("AMA"), &mut state, &new_token(), 80);
    assert!(matches!(h.job, Job::Record { recording, .. } if !recording.mam));
    state.recording.cancellation_token = None;
    let h = handle_device(start("mam"), &mut state, &new_token(), 80);
    assert!(matches!(h.job, Job::Record { recording, .. } if !recording.mam));

    state.recording.cancellation_token = None;
    state.devices.camera_connected = false;
    let h = handle_device(start("MAM"), &mut state, &new_token(), 81);
    assert_eq!(h.result, Err(TaskError::PreconditionRejected(Rejection::NoCamera)));
    state.devices.camera_connected = true;
    state.devices.serial_connected = false;
    let h = handle_device(start("MAM"), &mut state, &new_token(), 81);
    assert_eq!(h.result, Err(TaskError::PreconditionRejected(Rejection::NoMotor)));
    assert!(state.recording.cancellation_token.is_none());
}

#[test]
fn camera_commands() {
    let mut state = ready(None);
    let h = handle_camera(CameraCommand::RefreshCameras, &mut state);
    assert!(matches!(h.job, Job::ListCameras));
    let h = handle_camera(CameraCommand::Connect { index: 2 }, &mut state);
    assert!(matches!(h.job, Job::OpenCamera { index: 2 }));
    assert!(!state.devices.camera_connected);
    state.devices.camera_connected = true;
    let h = handle_camera(CameraCommand::Disconnect, &mut state);
    assert_eq!(h.updates, vec![Update::Device(DeviceUpdate::CameraConnectionStatus(false))]);
    assert!(!state.devices.camera_connected);
    handle_camera(CameraCommand::SetHoughCircleRadius { min: 12, max: 80 }, &mut state);
    assert_eq!(state.devices.camera_settings.min_radius, 12);
    assert_eq!(state.devices.camera_settings.max_radius, 80);
    handle_camera(CameraCommand::SetLock(true), &mut state);
    assert!(state.devices.camera_settings.lock_circle);
    handle_camera(CameraCommand::SetLock(false), &mut state);
    assert!(!state.devices.camera_settings.lock_circle);
}

#[test]
fn radius_is_read_as_signed() {
    assert_eq!(radius(0), 0);
    assert_eq!(radius(45), 45);
    assert_eq!(radius(i32::MAX as u32), i32::MAX);
    assert_eq!(radius(i32::MAX as u32 + 1), i32::MIN);
    assert_eq!(radius(u32::MAX), -1);
    for r in [0u32, 7, 1 << 31, u32::MAX - 5] {
        assert_eq!(radius(r), r as i32);
    }
}

#[test]
fn training_commands() {
    let mut state = ready(None);
    let h = handle_training(TrainingCommand::TrainModel { show_roc: false, show_cm: true }, &mut state);
    assert!(matches!(h.job, Job::Train(TrainingCommand::TrainModel { show_roc: false, show_cm: true })));
    assert!(h.updates.is_empty());
    assert!(state.training.model_ready);
    let h = handle_training(TrainingCommand::ResetModel, &mut state);
    assert!(matches!(h.job, Job::Train(TrainingCommand::ResetModel)));
    assert!(!state.training.model_ready);
    assert_eq!(
        h.updates,
        vec![
            Update::Training(TrainingUpdate::ModelReady(false)),
            Update::Training(TrainingUpdate::TrainingStatus(TrainingNote::NoModel)),
        ]
    );
    assert_eq!(model_fitted(&mut state, true), vec![Update::Training(TrainingUpdate::ModelReady(true))]);
    assert!(state.training.model_ready);
}

#[test]
fn static_measure_commands() {
    let token = new_token();
    let mut state = ready(Some(0));
    let h = handle_static_measure(StaticMeasureCommand::SaveResults { path: PathBuf::from("a.xlsx") }, &mut state, &token);
    assert!(matches!(h.job, Job::Nothing));
    assert!(h.updates.is_empty());
    state.measurement.static_results.push(StaticResult { index: 1, steps: 5 });
    let h = handle_static_measure(StaticMeasureCommand::SaveResults { path: PathBuf::from("a.xlsx") }, &mut state, &token);
    assert!(matches!(h.job, Job::SaveStatic { .. }));
    assert_eq!(h.updates, vec![Update::Measurement(MeasurementUpdate::StaticStatus(StaticNote::Saved))]);

    let h = handle_static_measure(StaticMeasureCommand::ClearResults, &mut state, &token);
    assert!(state.measurement.static_results.is_empty());
    assert_eq!(h.updates, vec![Update::Measurement(MeasurementUpdate::StaticResults(vec![]))]);

    // with no measurement registered a stop has nothing to raise
    let h = handle_static_measure(StaticMeasureCommand::Stop, &mut state, &token);
    assert_eq!(h.result, Ok(()));
    assert!(h.raise.is_none());
    let h = handle_static_measure(StaticMeasureCommand::RunSingleMeasurement { time: 3 }, &mut state, &token);
    assert!(matches!(h.job, Job::Search(search) if !search.find_zero && search.runs_left == 3));
    assert!(h.raise.is_none());
    let position = state.measurement.current_steps;
    let h = handle_static_measure(StaticMeasureCommand::Stop, &mut state, &new_token());
    assert_eq!(h.result, Ok(()));
    assert!(matches!(h.job, Job::Nothing));
    assert!(h.updates.is_empty());
    let raise = h.raise.expect("a token to raise");
    assert!(Arc::ptr_eq(&raise, &token));
    // the register and the position stay as they are
    assert!(Arc::ptr_eq(state.measurement.static_task_token.as_ref().unwrap(), &token));
    assert_eq!(state.measurement.current_steps, position);
    assert!(!is_signalled(&token));
    signal(&raise);
    assert!(is_signalled(&token));
}

#[test]
fn dynamic_measure_commands() {
    let token = new_token();
    let mut state = ready(Some(0));
    let h = handle_dynamic_measure(DynamicMeasureCommand::Start, &mut state, &token, 5);
    assert_eq!(h.result, Err(TaskError::PreconditionRejected(Rejection::ClockNotStarted)));

    state.measurement.dynamic_results.push(DynamicResult { index: 1, time_ns: 2, steps: 3 });
    let h = handle_dynamic_measure(DynamicMeasureCommand::StartNew, &mut state, &token, 1234);
    assert!(state.measurement.dynamic_results.is_empty());
    assert_eq!(state.measurement.dynamic_time, Some(1234));
    assert_eq!(
        h.updates,
        vec![
            Update::Measurement(MeasurementUpdate::DynamicResults(vec![])),
            Update::Measurement(MeasurementUpdate::StartTime(Some(1234))),
        ]
    );

    let params = DynamicExpParams { path: PathBuf::from("run.xlsx"), step_steps: 100, sample_points: 3 };
    handle_dynamic_measure(DynamicMeasureCommand::UpdateParams { params }, &mut state, &token, 0);
    assert_eq!(state.measurement.dynamic_params.step_steps, 100);
    assert_eq!(state.measurement.dynamic_params.sample_points, 3);
    assert_eq!(state.measurement.dynamic_params.path, PathBuf::from("run.xlsx"));

    let h = handle_dynamic_measure(DynamicMeasureCommand::Start, &mut state, &token, 5);
    assert!(matches!(h.job, Job::Dynamic(_)));
    assert_eq!(h.updates, vec![Update::Measurement(MeasurementUpdate::DynamicRunning(true))]);

    // while the experiment runs, starting anew does nothing
    state.measurement.dynamic_results.push(DynamicResult { index: 1, time_ns: 2, steps: 3 });
    let h = handle_dynamic_measure(DynamicMeasureCommand::StartNew, &mut state, &new_token(), 9999);
    assert!(h.updates.is_empty());
    assert_eq!(state.measurement.dynamic_time, Some(1234));
    assert_eq!(state.measurement.dynamic_results.len(), 1);

    assert!(!is_signalled(&token));
    let h = handle_dynamic_measure(DynamicMeasureCommand::Stop, &mut state, &new_token(), 0);
    assert_eq!(h.result, Ok(()));
    let raise = h.raise.expect("a token to raise");
    assert!(Arc::ptr_eq(&raise, &token));
    assert!(Arc::ptr_eq(state.measurement.dynamic_task_token.as_ref().unwrap(), &token));
    signal(&raise);
    assert!(is_signalled(&token));

    let h = handle_dynamic_measure(DynamicMeasureCommand::ClearResults, &mut state, &new_token(), 0);
    assert!(state.measurement.dynamic_results.is_empty());
    assert_eq!(h.updates, vec![Update::Measurement(MeasurementUpdate::DynamicResults(vec![]))]);
}

#[test]
fn commands_go_to_the_handler_of_their_kind() {
    let token = new_token();
    let mut state = ready(Some(0));
    let h = dispatch_command(Command::Camera(CameraCommand::SetLock(true)), &mut state, &token, 0);
    assert_eq!(h.result, Ok(()));
    assert!(state.devices.camera_settings.lock_circle);
    let h = dispatch_command(Command::Device(DeviceCommand::SetRotationReverse(true)), &mut state, &token, 0);
    assert_eq!(h.result, Ok(()));
    assert!(state.rotation_direction_need_reverse);
    let h = dispatch_command(Command::DynamicMeasure(DynamicMeasureCommand::StartNew), &mut state, &token, 42);
    assert_eq!(h.result, Ok(()));
    assert_eq!(state.measurement.dynamic_time, Some(42));
    let h = dispatch_command(Command::Training(TrainingCommand::ResetModel), &mut state, &token, 0);
    assert!(matches!(h.job, Job::Train(_)));
    let h = dispatch_command(Command::StaticMeasure(StaticMeasureCommand::ClearResults), &mut state, &token, 0);
    assert_eq!(h.updates.len(), 1);
    let h = dispatch_command(Command::General(GeneralCommand::Shutdown), &mut state, &token, 0);
    assert!(matches!(h.job, Job::Nothing));
}

fn look(monitor: &mut Monitor, state: &mut BackendState, frame_ready: bool, event: Event) -> (Action, Vec<Update>) {
    let step = monitor.step(state, Observation { now_ns: 0, cancelled: false, frame_ready }, event);
    (step.action, step.updates)
}

#[test]
fn the_monitor_beats_every_tenth_look() {
    let mut monitor = Monitor::new();
    let mut state = ready(Some(7));
    for tick in 1..=25u64 {
        assert_eq!(monitor.ticks, tick);
        let (action, updates) = look(&mut monitor, &mut state, true, Event::Resume);
        assert!(updates.is_empty());
        if tick % 10 == 0 {
            assert_eq!(action, Action::Send(77));
            let (action, updates) = look(&mut monitor, &mut state, true, Event::Reply(AckOutcome::Acked));
            assert_eq!(action, Action::Sleep(1000));
            assert!(updates.is_empty());
        } else {
            assert_eq!(action, Action::Sleep(1000));
        }
    }
    assert_eq!(state.measurement.current_steps, Some(7));
}

#[test]
fn a_missed_heartbeat_loses_the_motor() {
    let mut monitor = Monitor { ticks: 10, beating: false, over: false };
    let mut state = ready(Some(7));
    let (action, _) = look(&mut monitor, &mut state, true, Event::Resume);
    assert_eq!(action, Action::Send(77));
    let (action, updates) = look(&mut monitor, &mut state, true, Event::Reply(AckOutcome::TimedOut));
    assert_eq!(action, Action::Sleep(1000));
    assert_eq!(updates, vec![Update::Device(DeviceUpdate::SerialConnectionStatus(false)), steps(None)]);
    assert!(!state.devices.serial_connected);
    assert_eq!(state.measurement.current_steps, None);
    assert_eq!(monitor.ticks, 11);
}

#[test]
fn the_monitor_reports_missing_devices_at_every_look() {
    let mut monitor = Monitor::new();
    let mut state = BackendState::new();
    state.measurement.current_steps = Some(3);
    for _ in 0..2 {
        let (action, updates) = look(&mut monitor, &mut state, false, Event::Resume);
        assert_eq!(action, Action::Sleep(1000));
        assert_eq!(
            updates,
            vec![
                Update::Device(DeviceUpdate::SerialConnectionStatus(false)),
                steps(None),
                Update::Device(DeviceUpdate::CameraConnectionStatus(false)),
            ]
        );
        assert_eq!(state.measurement.current_steps, None);
    }
}

#[test]
fn the_monitor_drops_a_camera_without_frames() {
    let mut monitor = Monitor::new();
    let mut state = ready(Some(3));
    let (_, updates) = look(&mut monitor, &mut state, false, Event::Resume);
    assert_eq!(updates, vec![Update::Device(DeviceUpdate::CameraConnectionStatus(false))]);
    assert!(!state.devices.camera_connected);
    assert!(state.devices.serial_connected);
    assert_eq!(state.measurement.current_steps, Some(3));
}

#[test]
fn the_monitor_stops_on_its_token() {
    let mut monitor = Monitor::new();
    let mut state = ready(Some(3));
    let step = monitor.step(&mut state, Observation { now_ns: 0, cancelled: true, frame_ready: true }, Event::Resume);
    assert_eq!(step.action, Action::Finished(Ok(())));
    assert!(monitor.over);
    let (action, _) = look(&mut monitor, &mut state, true, Event::Resume);
    assert_eq!(action, Action::Finished(Ok(())));
}

#[test]
fn a_stopped_monitor_still_judges_its_heartbeat() {
    let mut monitor = Monitor { ticks: 10, beating: false, over: false };
    let mut state = ready(Some(7));
    let (action, _) = look(&mut monitor, &mut state, true, Event::Resume);
    assert_eq!(action, Action::Send(77));
    let step = monitor.step(
        &mut state,
        Observation { now_ns: 0, cancelled: true, frame_ready: true },
        Event::Reply(AckOutcome::Garbled),
    );
    assert_eq!(step.action, Action::Finished(Ok(())));
    assert_eq!(step.updates, vec![Update::Device(DeviceUpdate::SerialConnectionStatus(false)), steps(None)]);
    assert!(!state.devices.serial_connected);
}
