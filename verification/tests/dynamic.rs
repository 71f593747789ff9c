use polarimeter::backend::dynamic::pre_rotation;
use polarimeter::backend::dynamic::run_dynamic_experiment_loop;
use polarimeter::backend::dynamic::DynamicPhase;
use polarimeter::backend::dynamic::DynamicRun;
use polarimeter::backend::dynamic::DYNAMIC_BUDGET_NS;
use polarimeter::backend::measurement::SEARCH_BUDGET_NS;
use polarimeter::backend::task::Action;
use polarimeter::backend::task::Event;
use polarimeter::backend::task::Observation;
use polarimeter::backend::task::Step;
use polarimeter::backend::BackendState;
use polarimeter::communication::DeviceUpdate;
use polarimeter::communication::DynamicNote;
use polarimeter::communication::DynamicResult;
use polarimeter::communication::GeneralUpdate;
use polarimeter::communication::MeasurementUpdate;
use polarimeter::communication::MotorFault;
use polarimeter::communication::Rejection;
use polarimeter::communication::TaskError;
use polarimeter::communication::Update;
use polarimeter::protocol::AckOutcome;
use polarimeter::token::new_token;
use polarimeter::window::Label;
use polarimeter::window::PredictionWindow;
use std::collections::VecDeque;

const Z: Option<Label> = Some(Label::Zero);
const O: Option<Label> = Some(Label::One);

fn ready(position: Option<i32>) -> BackendState {
    let mut state = BackendState::new();
    state.devices.serial_connected = true;
    state.devices.camera_connected = true;
    state.training.model_ready = true;
    state.measurement.current_steps = position;
    state.measurement.dynamic_time = Some(0);
    state
}

fn steps(position: Option<i32>) -> Update {
    Update::Measurement(MeasurementUpdate::CurrentSteps(position))
}

fn running(on: bool) -> Update {
    Update::Measurement(MeasurementUpdate::DynamicRunning(on))
}

fn admitted(state: &mut BackendState) -> DynamicRun {
    let admission = run_dynamic_experiment_loop(state, &new_token());
    assert_eq!(admission.updates, vec![running(true)]);
    assert!(state.measurement.dynamic_task_token.is_some());
    admission.task.unwrap()
}

struct Rig {
    state: BackendState,
    now_ns: u64,
    cancelled: bool,
    frame_ready: bool,
    labels: VecDeque<Option<Label>>,
    fail_at: Option<usize>,
    sent: Vec<u8>,
    updates: Vec<Update>,
    sleeps: Vec<u64>,
    persisted: Vec<usize>,
}

impl Rig {
    fn new(state: BackendState, labels: &[Option<Label>]) -> Rig {
        Rig {
            state,
            now_ns: 1_000_000_000,
            cancelled: false,
            frame_ready: true,
            labels: labels.iter().cloned().collect(),
            fail_at: None,
            sent: Vec::new(),
            updates: Vec::new(),
            sleeps: Vec::new(),
            persisted: Vec::new(),
        }
    }

    fn step(&mut self, run: &mut DynamicRun, event: Event) -> Step {
        let observation =
            Observation { now_ns: self.now_ns, cancelled: self.cancelled, frame_ready: self.frame_ready };
        run.step(&mut self.state, observation, event)
    }

    fn run(&mut self, run: &mut DynamicRun) -> Option<Result<(), TaskError>> {
        let mut event = Event::Resume;
        for _ in 0..100_000 {
            let step = self.step(run, event);
            self.updates.extend(step.updates);
            match step.action {
                Action::Send(byte) => {
                    event = if self.fail_at == Some(self.sent.len()) {
                        Event::Reply(AckOutcome::TimedOut)
                    } else {
                        Event::Reply(AckOutcome::Acked)
                    };
                    self.sent.push(byte);
                }
                Action::Classify(_) => match self.labels.pop_front() {
                    Some(label) => event = Event::Label(label),
                    None => return None,
                },
                Action::Sleep(ms) => {
                    self.sleeps.push(ms);
                    self.now_ns += ms * 1_000_000;
                    event = Event::Resume;
                }
                Action::Persist => {
                    self.persisted.push(self.state.measurement.dynamic_results.len());
                    event = Event::Resume;
                }
                Action::Finished(result) => return Some(result),
            }
        }
        panic!("the experiment does not end");
    }
}

const APPROACH: [Option<Label>; 4] = [Z, O, O, O];

#[test]
fn twelve_transitions_and_home() {
    let mut state = ready(Some(0));
    assert_eq!(state.measurement.dynamic_params.sample_points, 12);
    assert_eq!(state.measurement.dynamic_params.step_steps, (-0.5f32 * 746.0).round() as i32);
    let mut run = admitted(&mut state);
    let mut labels: Vec<Option<Label>> = APPROACH.to_vec();
    for _ in 0..12 {
        labels.extend(APPROACH);
    }
    let mut rig = Rig::new(state, &labels);
    let result = rig.run(&mut run);
    assert_eq!(result, Some(Ok(())));

    let results = &rig.state.measurement.dynamic_results;
    assert_eq!(results.len(), 12);
    for (i, r) in results.iter().enumerate() {
        assert_eq!(r.index, i + 1);
        assert_eq!(r.steps, -379 - 373 * i as i32);
    }
    assert_eq!(results[11].index, 12);
    assert!(results.windows(2).all(|w| w[0].time_ns < w[1].time_ns));
    assert_eq!(rig.persisted, (1..=12).collect::<Vec<usize>>());

    // pre-rotation, the first stride, twelve strides after the results, and the way home
    let mut expected = vec![53, 53, 53, 55, 59];
    for _ in 0..12 {
        expected.push(59);
    }
    expected.extend([62, 60, 58, 68, 68, 68, 68, 68, 68]);
    assert_eq!(rig.sent, expected);
    assert_eq!(rig.state.measurement.current_steps, Some(0));
    assert!(rig.state.measurement.dynamic_task_token.is_none());
    assert!(run.homeward);
    assert_eq!(rig.updates.last(), Some(&steps(Some(0))));
    assert!(rig.updates.contains(&running(false)));
}

#[test]
fn first_result_carries_the_clock() {
    let mut state = ready(Some(0));
    state.measurement.dynamic_time = Some(400_000_000);
    let mut run = admitted(&mut state);
    let mut labels: Vec<Option<Label>> = APPROACH.to_vec();
    labels.extend(APPROACH);
    let mut rig = Rig::new(state, &labels);
    assert_eq!(rig.run(&mut run), None);
    // 5 + 5 + 5 + 150 ms of pre-rotation, 150 ms after the stride, three pauses of 50 ms
    let expected_now = 1_000_000_000 + (15 + 150 + 150 + 150) * 1_000_000;
    assert_eq!(
        rig.state.measurement.dynamic_results,
        vec![DynamicResult { index: 1, time_ns: expected_now - 400_000_000, steps: -379 }]
    );
    let seconds = rig.state.measurement.dynamic_results[0].time_ns as f64 / 1e9;
    assert!((seconds - 1.065).abs() < 1e-9);
    assert!(rig.updates.contains(&Update::Measurement(MeasurementUpdate::DynamicResults(vec![DynamicResult {
        index: 1,
        time_ns: expected_now - 400_000_000,
        steps: -379,
    }]))));
}

#[test]
fn pre_rotation_reports_its_window() {
    let mut state = ready(Some(0));
    let mut approach = pre_rotation();
    let observation = Observation { now_ns: 5, cancelled: false, frame_ready: true };
    let step = approach.step(&mut state, observation, Event::Resume);
    assert!(matches!(step.action, Action::Classify(_)));
    assert!(step.updates.is_empty());
    let step = approach.step(&mut state, observation, Event::Label(Z));
    assert_eq!(step.action, Action::Send(53));
    let mut window = PredictionWindow::new();
    window.push(Label::Zero);
    assert_eq!(
        step.updates,
        vec![Update::Measurement(MeasurementUpdate::DynamicStatus(DynamicNote::PreRotating(window)))]
    );
    let step = approach.step(&mut state, observation, Event::Reply(AckOutcome::Acked));
    assert_eq!(step.action, Action::Sleep(5));
    assert_eq!(step.updates, vec![steps(Some(-6))]);
    let step = approach.step(&mut state, observation, Event::Resume);
    assert!(matches!(step.action, Action::Classify(_)));
    assert_eq!(step.updates, vec![steps(Some(-6))]);
}

#[test]
fn pre_rotation_stops_at_the_first_flip() {
    let mut state = ready(Some(0));
    let mut approach = pre_rotation();
    let mut labels: VecDeque<Option<Label>> = [O, Z, Z, Z].into_iter().collect();
    let mut sent = Vec::new();
    let mut event = Event::Resume;
    let mut now = 0;
    let result = loop {
        let step =
            approach.step(&mut state, Observation { now_ns: now, cancelled: false, frame_ready: true }, event);
        match step.action {
            Action::Send(byte) => {
                sent.push(byte);
                event = Event::Reply(AckOutcome::Acked);
            }
            Action::Classify(_) => event = Event::Label(labels.pop_front().unwrap()),
            Action::Sleep(ms) => {
                now += ms * 1_000_000;
                event = Event::Resume;
            }
            Action::Finished(result) => break result,
            Action::Persist => panic!(),
        }
    };
    assert_eq!(result, Ok(()));
    assert_eq!(sent, vec![51, 51, 51, 114]);
    assert_eq!(state.measurement.current_steps, Some(6));
}

#[test]
fn pre_rotation_without_devices_ends_at_once() {
    let mut state = ready(Some(4));
    state.training.model_ready = false;
    let mut approach = pre_rotation();
    let step = approach.step(
        &mut state,
        Observation { now_ns: 0, cancelled: false, frame_ready: true },
        Event::Resume,
    );
    assert_eq!(step.action, Action::Finished(Err(TaskError::PreconditionRejected(Rejection::NotReady))));
    assert_eq!(step.updates, vec![steps(Some(4))]);
}

#[test]
fn pre_rotation_times_out_after_ninety_seconds() {
    let mut state = ready(Some(4));
    let mut approach = pre_rotation();
    let step = approach.step(
        &mut state,
        Observation { now_ns: 10, cancelled: false, frame_ready: true },
        Event::Resume,
    );
    assert!(matches!(step.action, Action::Classify(_)));
    let step = approach.step(
        &mut state,
        Observation { now_ns: 10 + SEARCH_BUDGET_NS, cancelled: false, frame_ready: true },
        Event::Label(None),
    );
    assert!(matches!(step.action, Action::Classify(_)));
    let step = approach.step(
        &mut state,
        Observation { now_ns: 11 + SEARCH_BUDGET_NS, cancelled: false, frame_ready: true },
        Event::Label(None),
    );
    assert_eq!(step.action, Action::Finished(Err(TaskError::SearchTimeout)));
    assert_eq!(step.updates, vec![steps(Some(4))]);
}

#[test]
fn cancellation_stops_early_and_still_goes_home() {
    let mut state = ready(Some(0));
    let mut run = admitted(&mut state);
    let mut labels: Vec<Option<Label>> = APPROACH.to_vec();
    for _ in 0..3 {
        labels.extend(APPROACH);
    }
    labels.push(Z);
    let mut rig = Rig::new(state, &labels);
    assert_eq!(rig.run(&mut run), None);
    assert_eq!(rig.state.measurement.dynamic_results.len(), 3);
    rig.cancelled = true;
    rig.sent.clear();
    rig.updates.clear();
    let result = rig.run_from(&mut run, Event::Label(None));
    assert_eq!(result, Some(Err(TaskError::Cancelled)));
    assert_eq!(rig.state.measurement.dynamic_results.len(), 3);
    // -379 - 3 * 373 = -1498, and back: 746 + 746 + 6
    assert_eq!(rig.sent, vec![60, 60, 68, 68, 68, 68, 68, 68]);
    assert_eq!(rig.state.measurement.current_steps, Some(0));
    assert!(rig.state.measurement.dynamic_task_token.is_none());
    assert_eq!(
        &rig.updates[..3],
        &[
            Update::Measurement(MeasurementUpdate::DynamicResults(rig.state.measurement.dynamic_results.clone())),
            steps(Some(-1498)),
            running(false),
        ]
    );
}

impl Rig {
    fn run_from(&mut self, run: &mut DynamicRun, first: Event) -> Option<Result<(), TaskError>> {
        let step = self.step(run, first);
        self.updates.extend(step.updates);
        let mut event = match step.action {
            Action::Finished(result) => return Some(result),
            Action::Send(byte) => {
                self.sent.push(byte);
                Event::Reply(AckOutcome::Acked)
            }
            Action::Sleep(ms) => {
                self.now_ns += ms * 1_000_000;
                Event::Resume
            }
            other => panic!("unexpected {:?}", other),
        };
        loop {
            let step = self.step(run, event);
            self.updates.extend(step.updates);
            match step.action {
                Action::Finished(result) => return Some(result),
                Action::Send(byte) => {
                    self.sent.push(byte);
                    event = Event::Reply(AckOutcome::Acked);
                }
                other => panic!("unexpected {:?}", other),
            }
        }
    }
}

#[test]
fn the_experiment_clock_bounds_the_run() {
    let mut state = ready(Some(0));
    let mut run = admitted(&mut state);
    let mut labels: Vec<Option<Label>> = APPROACH.to_vec();
    labels.push(Z);
    let mut rig = Rig::new(state, &labels);
    assert_eq!(rig.run(&mut run), None);
    rig.now_ns = DYNAMIC_BUDGET_NS;
    let step = rig.step(&mut run, Event::Label(None));
    assert!(matches!(step.action, Action::Classify(_)));
    rig.now_ns = DYNAMIC_BUDGET_NS + 1;
    let result = rig.run_from(&mut run, Event::Label(None));
    assert_eq!(result, Some(Err(TaskError::SearchTimeout)));
    assert_eq!(rig.state.measurement.current_steps, Some(0));
    assert!(rig.state.measurement.dynamic_results.is_empty());
}

#[test]
fn a_full_list_ends_the_run_before_it_reads() {
    let mut state = ready(Some(0));
    state.measurement.dynamic_params.sample_points = 0;
    let mut run = admitted(&mut state);
    let mut rig = Rig::new(state, &APPROACH);
    let result = rig.run(&mut run);
    assert_eq!(result, Some(Ok(())));
    assert!(rig.state.measurement.dynamic_results.is_empty());
    assert_eq!(rig.state.measurement.current_steps, Some(0));
}

#[test]
fn motor_lost_during_a_stride_ends_as_disconnected() {
    let mut state = ready(Some(0));
    let mut run = admitted(&mut state);
    let mut rig = Rig::new(state, &APPROACH);
    rig.fail_at = Some(4);
    let result = rig.run(&mut run);
    assert_eq!(result, Some(Err(TaskError::MotorDisconnected(MotorFault::TimedOut))));
    assert_eq!(rig.state.measurement.current_steps, None);
    assert!(!rig.state.devices.serial_connected);
    assert!(rig.state.measurement.dynamic_task_token.is_none());
    assert!(run.homeward);
    let tail = &rig.updates[rig.updates.len() - 5..];
    assert_eq!(
        tail,
        &[
            Update::Device(DeviceUpdate::SerialConnectionStatus(false)),
            steps(None),
            Update::Measurement(MeasurementUpdate::DynamicResults(vec![])),
            steps(None),
            running(false),
        ]
    );
}

#[test]
fn motor_lost_on_the_way_home_after_a_good_run() {
    let mut state = ready(Some(0));
    state.measurement.dynamic_params.sample_points = 0;
    let mut run = admitted(&mut state);
    let mut rig = Rig::new(state, &APPROACH);
    rig.fail_at = Some(5);
    let result = rig.run(&mut run);
    assert_eq!(result, Some(Err(TaskError::MotorDisconnected(MotorFault::TimedOut))));
    assert_eq!(rig.state.measurement.current_steps, None);
}

#[test]
fn camera_lost_during_the_run_goes_home_first() {
    let mut state = ready(Some(0));
    let mut run = admitted(&mut state);
    let mut labels: Vec<Option<Label>> = APPROACH.to_vec();
    labels.push(Z);
    let mut rig = Rig::new(state, &labels);
    assert_eq!(rig.run(&mut run), None);
    rig.frame_ready = false;
    rig.sent.clear();
    let result = rig.run_from(&mut run, Event::Label(None));
    assert_eq!(result, Some(Err(TaskError::CameraUnavailable)));
    assert!(!rig.state.devices.camera_connected);
    assert_eq!(rig.sent, vec![58, 68, 68, 68, 68, 68, 68]);
    assert_eq!(rig.state.measurement.current_steps, Some(0));
}

#[test]
fn camera_lost_during_pre_rotation() {
    let mut state = ready(Some(0));
    let mut run = admitted(&mut state);
    let mut rig = Rig::new(state, &[]);
    rig.frame_ready = false;
    let result = rig.run(&mut run);
    assert_eq!(result, Some(Err(TaskError::CameraUnavailable)));
    assert_eq!(
        rig.updates,
        vec![
            Update::Measurement(MeasurementUpdate::DynamicStatus(DynamicNote::CameraFault)),
            Update::Device(DeviceUpdate::CameraConnectionStatus(false)),
            steps(Some(0)),
            steps(Some(0)),
            Update::Measurement(MeasurementUpdate::DynamicResults(vec![])),
            steps(Some(0)),
            running(false),
        ]
    );
    assert!(matches!(run.phase, DynamicPhase::Over(_)));
}

#[test]
fn the_stride_follows_the_parameters() {
    let mut state = ready(Some(0));
    state.measurement.dynamic_params.step_steps = 746;
    state.measurement.dynamic_params.sample_points = 1;
    let mut run = admitted(&mut state);
    let mut labels: Vec<Option<Label>> = APPROACH.to_vec();
    labels.extend(APPROACH);
    let mut rig = Rig::new(state, &labels);
    assert_eq!(rig.run(&mut run), Some(Ok(())));
    assert_eq!(&rig.sent[4..6], &[60, 60]);
    assert_eq!(rig.state.measurement.dynamic_results[0].steps, 740);
}

#[test]
fn a_dynamic_run_is_turned_away() {
    let reject = |state: &mut BackendState, why: Rejection| {
        let before = state.measurement.current_steps;
        let admission = run_dynamic_experiment_loop(state, &new_token());
        assert_eq!(admission.task.err(), Some(TaskError::PreconditionRejected(why)));
        assert_eq!(
            admission.updates,
            vec![Update::General(GeneralUpdate::Error(TaskError::PreconditionRejected(why))), running(false)]
        );
        assert!(state.measurement.dynamic_task_token.is_none());
        assert_eq!(state.measurement.current_steps, before);
    };
    let mut state = ready(Some(0));
    state.devices.camera_connected = false;
    reject(&mut state, Rejection::NotReady);
    let mut state = ready(None);
    reject(&mut state, Rejection::NotZeroed);
    let mut state = ready(Some(0));
    state.measurement.dynamic_time = None;
    reject(&mut state, Rejection::ClockNotStarted);
    let mut state = ready(Some(0));
    state.measurement.static_task_token = Some(new_token());
    reject(&mut state, Rejection::Busy);
}

#[test]
fn cancellation_during_a_stride_takes_the_verdict_and_goes_home() {
    let mut state = ready(Some(0));
    let mut run = admitted(&mut state);
    let mut rig = Rig::new(state, &APPROACH);
    // run up to the first byte of the first stride
    let mut event = Event::Resume;
    loop {
        let step = rig.step(&mut run, event);
        event = match step.action {
            Action::Send(59) => break,
            Action::Send(_) => Event::Reply(AckOutcome::Acked),
            Action::Classify(_) => Event::Label(rig.labels.pop_front().unwrap()),
            Action::Sleep(_) => Event::Resume,
            other => panic!("unexpected {:?}", other),
        };
    }
    assert_eq!(rig.state.measurement.current_steps, Some(-6));
    rig.cancelled = true;
    let result = rig.run_from(&mut run, Event::Reply(AckOutcome::Acked));
    assert_eq!(result, Some(Err(TaskError::Cancelled)));
    // the stride was made, and undone on the way home
    assert_eq!(rig.sent, vec![58, 68, 68, 68, 68, 68, 68]);
    assert_eq!(rig.state.measurement.current_steps, Some(0));
    assert!(run.homeward);
}

#[test]
fn cancellation_during_pre_rotation() {
    let mut state = ready(Some(0));
    let mut run = admitted(&mut state);
    let mut rig = Rig::new(state, &[Z, O]);
    assert_eq!(rig.run(&mut run), None);
    rig.cancelled = true;
    rig.sent.clear();
    let result = rig.run_from(&mut run, Event::Label(O));
    assert_eq!(result, Some(Err(TaskError::Cancelled)));
    // two steps backward are twelve steps to go home: one of seven and five of one
    assert_eq!(rig.sent, vec![66, 68, 68, 68, 68, 68]);
    assert_eq!(rig.state.measurement.current_steps, Some(0));
}

#[test]
fn the_way_home_is_not_stopped() {
    let mut state = ready(Some(0));
    state.measurement.dynamic_params.sample_points = 0;
    let mut run = admitted(&mut state);
    let mut rig = Rig::new(state, &APPROACH);
    rig.cancelled = false;
    let mut event = Event::Resume;
    // run until the experiment is on its way home
    loop {
        let step = rig.step(&mut run, event);
        if matches!(run.phase, DynamicPhase::Homing { .. }) {
            break;
        }
        event = match step.action {
            Action::Send(_) => Event::Reply(AckOutcome::Acked),
            Action::Classify(_) => Event::Label(rig.labels.pop_front().unwrap()),
            Action::Sleep(_) => Event::Resume,
            other => panic!("unexpected {:?}", other),
        };
    }
    rig.cancelled = true;
    let result = rig.run_from(&mut run, Event::Reply(AckOutcome::Acked));
    assert_eq!(result, Some(Ok(())));
    assert_eq!(rig.state.measurement.current_steps, Some(0));
}
