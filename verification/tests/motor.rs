use polarimeter::backend::motor::precision_rotate;
use polarimeter::backend::motor::precision_rotate_to;
use polarimeter::backend::motor::return_to_zero;
use polarimeter::backend::motor::step_move;
use polarimeter::backend::motor::MotorTask;
use polarimeter::backend::task::Action;
use polarimeter::backend::task::Event;
use polarimeter::backend::BackendState;
use polarimeter::communication::DeviceUpdate;
use polarimeter::communication::MeasurementUpdate;
use polarimeter::communication::MotorFault;
use polarimeter::communication::TaskError;
use polarimeter::communication::Update;
use polarimeter::protocol::AckOutcome;
use polarimeter::protocol::MoveMode;
use polarimeter::protocol::STEPS_PER_DEGREE;

fn connected(position: Option<i32>) -> BackendState {
    let mut state = BackendState::new();
    state.devices.serial_connected = true;
    state.measurement.current_steps = position;
    state
}

fn steps(position: Option<i32>) -> Update {
    Update::Measurement(MeasurementUpdate::CurrentSteps(position))
}

fn lost() -> Vec<Update> {
    vec![Update::Device(DeviceUpdate::SerialConnectionStatus(false)), steps(None)]
}

/// Runs a task to its end; the command with the number `fail_at` gets `failure` for a verdict.
fn run(
    task: &mut MotorTask,
    state: &mut BackendState,
    fail_at: Option<usize>,
    failure: AckOutcome,
) -> (Vec<u8>, Vec<Update>, Result<(), TaskError>) {
    let mut sent = Vec::new();
    let mut updates = Vec::new();
    let mut event = Event::Resume;
    loop {
        let step = task.step(state, false, event);
        updates.extend(step.updates);
        match step.action {
            Action::Send(byte) => {
                event = if fail_at == Some(sent.len()) {
                    Event::Reply(failure)
                } else {
                    Event::Reply(AckOutcome::Acked)
                };
                sent.push(byte);
            }
            Action::Finished(result) => return (sent, updates, result),
            other => panic!("a motor task asked for {:?}", other),
        }
    }
}

#[test]
fn rotate_one_degree_from_zero() {
    let mut state = connected(Some(0));
    let mut task = precision_rotate(&state, 746);

    let step = task.step(&mut state, false, Event::Resume);
    assert_eq!(step.action, Action::Send(60));
    assert!(step.updates.is_empty());
    assert_eq!(state.measurement.current_steps, Some(0));

    let step = task.step(&mut state, false, Event::Reply(AckOutcome::Acked));
    assert_eq!(step.action, Action::Finished(Ok(())));
    assert_eq!(step.updates, vec![steps(Some(746))]);
    assert_eq!(state.measurement.current_steps, Some(746));

    let angle = state.measurement.current_steps.unwrap() as f32 / STEPS_PER_DEGREE as f32;
    assert_eq!(format!("{:.2}", angle), "1.00");
}

#[test]
fn every_unit_command_is_followed_by_an_update() {
    let mut state = connected(Some(0));
    let mut task = precision_rotate(&state, 5000);
    let (sent, updates, result) = run(&mut task, &mut state, None, AckOutcome::Failed);
    assert_eq!(result, Ok(()));
    assert_eq!(sent, vec![62, 60, 58, 56, 56, 68]);
    assert_eq!(
        updates,
        vec![
            steps(Some(3730)),
            steps(Some(4476)),
            steps(Some(4849)),
            steps(Some(4924)),
            steps(Some(4999)),
            steps(Some(5000)),
        ]
    );
}

#[test]
fn there_and_back_returns_to_the_start() {
    for start in [Some(0), Some(-17), Some(123_456), None] {
        for n in [0, 1, -1, 746, -746, 5000, -4999, 1_000_003] {
            for (out, back) in [(false, false), (true, true), (false, true), (true, false)] {
                let mut state = connected(start);
                state.rotation_direction_need_reverse = out;
                let mut task = precision_rotate(&state, n);
                let (_, _, result) = run(&mut task, &mut state, None, AckOutcome::Failed);
                assert_eq!(result, Ok(()));
                assert_eq!(state.measurement.current_steps, start.map(|p| p + n));
                state.rotation_direction_need_reverse = back;
                let mut task = precision_rotate(&state, -n);
                let (_, _, result) = run(&mut task, &mut state, None, AckOutcome::Failed);
                assert_eq!(result, Ok(()));
                assert_eq!(state.measurement.current_steps, start);
            }
        }
    }
}

#[test]
fn reversal_changes_bytes_not_position() {
    let mut state = connected(Some(0));
    state.rotation_direction_need_reverse = true;
    let mut task = precision_rotate(&state, 746);
    let (sent, _, result) = run(&mut task, &mut state, None, AckOutcome::Failed);
    assert_eq!(result, Ok(()));
    assert_eq!(sent, vec![61]);
    assert_eq!(state.measurement.current_steps, Some(746));
}

#[test]
fn reversal_is_read_when_the_move_is_planned() {
    let mut state = connected(Some(0));
    let mut task = precision_rotate(&state, 1492);
    state.rotation_direction_need_reverse = true;
    let (sent, _, _) = run(&mut task, &mut state, None, AckOutcome::Failed);
    assert_eq!(sent, vec![60, 60]);
}

#[test]
fn position_moves_only_on_acknowledgment() {
    let mut state = connected(Some(10));
    let mut task = precision_rotate(&state, 7);
    let step = task.step(&mut state, false, Event::Resume);
    assert_eq!(step.action, Action::Send(66));
    assert_eq!(state.measurement.current_steps, Some(10));
    // asking again without a verdict repeats the request and moves nothing
    let step = task.step(&mut state, false, Event::Resume);
    assert_eq!(step.action, Action::Send(66));
    assert!(step.updates.is_empty());
    assert_eq!(state.measurement.current_steps, Some(10));
    let step = task.step(&mut state, false, Event::Reply(AckOutcome::Acked));
    assert_eq!(step.action, Action::Finished(Ok(())));
    assert_eq!(state.measurement.current_steps, Some(17));
}

#[test]
fn a_verdict_nobody_waits_for_is_ignored() {
    let mut state = connected(Some(10));
    let mut task = precision_rotate(&state, 7);
    let step = task.step(&mut state, false, Event::Reply(AckOutcome::Acked));
    assert_eq!(step.action, Action::Send(66));
    assert_eq!(state.measurement.current_steps, Some(10));
    let mut task = precision_rotate(&state, 7);
    let step = task.step(&mut state, false, Event::Reply(AckOutcome::TimedOut));
    assert_eq!(step.action, Action::Send(66));
    assert!(state.devices.serial_connected);
}

#[test]
fn a_failed_command_loses_motor_and_position() {
    for (failure, fault) in [
        (AckOutcome::Garbled, MotorFault::Garbled),
        (AckOutcome::TimedOut, MotorFault::TimedOut),
        (AckOutcome::Failed, MotorFault::Failed),
    ] {
        let mut state = connected(Some(0));
        let mut task = precision_rotate(&state, 5000);
        let (sent, updates, result) = run(&mut task, &mut state, Some(2), failure);
        assert_eq!(result, Err(TaskError::MotorDisconnected(fault)));
        assert_eq!(sent, vec![62, 60, 58]);
        assert_eq!(state.measurement.current_steps, None);
        assert!(!state.devices.serial_connected);
        let mut expected = vec![steps(Some(3730)), steps(Some(4476))];
        expected.extend(lost());
        assert_eq!(updates, expected);
        // a task that is over stays over
        let step = task.step(&mut state, false, Event::Resume);
        assert_eq!(step.action, Action::Finished(Err(TaskError::MotorDisconnected(fault))));
        assert!(step.updates.is_empty());
    }
}

#[test]
fn no_port_no_command() {
    let mut state = connected(Some(5));
    state.devices.serial_connected = false;
    let mut task = precision_rotate(&state, 100);
    let (sent, updates, result) = run(&mut task, &mut state, None, AckOutcome::Failed);
    assert!(sent.is_empty());
    assert_eq!(result, Err(TaskError::MotorDisconnected(MotorFault::PortClosed)));
    assert_eq!(updates, lost());
    assert_eq!(state.measurement.current_steps, None);
}

#[test]
fn a_port_that_closes_between_commands_ends_the_move() {
    let mut state = connected(Some(0));
    let mut task = precision_rotate(&state, 1492);
    let step = task.step(&mut state, false, Event::Resume);
    assert_eq!(step.action, Action::Send(60));
    state.devices.serial_connected = false;
    let step = task.step(&mut state, false, Event::Reply(AckOutcome::Acked));
    assert_eq!(step.action, Action::Finished(Err(TaskError::MotorDisconnected(MotorFault::PortClosed))));
    let mut expected = vec![steps(Some(746))];
    expected.extend(lost());
    assert_eq!(step.updates, expected);
    assert_eq!(state.measurement.current_steps, None);
}

#[test]
fn an_empty_move_needs_no_port() {
    let mut state = connected(Some(5));
    state.devices.serial_connected = false;
    let mut task = precision_rotate(&state, 0);
    let (sent, updates, result) = run(&mut task, &mut state, None, AckOutcome::Failed);
    assert!(sent.is_empty());
    assert!(updates.is_empty());
    assert_eq!(result, Ok(()));
    assert_eq!(state.measurement.current_steps, Some(5));
}

#[test]
fn absolute_move_needs_a_zero_point() {
    let state = connected(None);
    assert_eq!(precision_rotate_to(&state, 100).err(), Some(TaskError::PositionUnknown));
}

#[test]
fn absolute_move_goes_to_the_target() {
    for (from, to) in [(0, 746), (100, -50), (-3000, 3000), (42, 42), (i32::MIN, i32::MAX), (i32::MAX, -1)] {
        let mut state = connected(Some(from));
        let mut task = precision_rotate_to(&state, to).unwrap();
        if (to as i64 - from as i64).abs() > 10_000_000 {
            // far apart: look at the first command only
            let step = task.step(&mut state, false, Event::Resume);
            assert_eq!(step.action, Action::Send(if to > from { 62 } else { 63 }));
            continue;
        }
        let (_, _, result) = run(&mut task, &mut state, None, AckOutcome::Failed);
        assert_eq!(result, Ok(()));
        assert_eq!(state.measurement.current_steps, Some(to));
    }
}

#[test]
fn return_to_zero_without_zero_point_is_nothing() {
    let state = connected(None);
    assert!(return_to_zero(&state).is_none());
}

#[test]
fn return_to_zero_undoes_the_position() {
    for from in [1, -1, 746, -5000, 123_457] {
        let mut state = connected(Some(from));
        let mut task = return_to_zero(&state).unwrap();
        let (sent, _, result) = run(&mut task, &mut state, None, AckOutcome::Failed);
        assert_eq!(result, Ok(()));
        assert!(!sent.is_empty());
        assert_eq!(state.measurement.current_steps, Some(0));
    }
}

#[test]
fn nudges_move_by_six_or_twelve() {
    for (mode, byte, delta) in [
        (MoveMode::StepForward, 51, 6),
        (MoveMode::StepBackward, 53, -6),
        (MoveMode::ResetForward, 114, -12),
        (MoveMode::ResetBackward, 55, 12),
    ] {
        let mut state = connected(Some(100));
        let mut task = step_move(&state, mode);
        let (sent, updates, result) = run(&mut task, &mut state, None, AckOutcome::Failed);
        assert_eq!(result, Ok(()));
        assert_eq!(sent, vec![byte]);
        assert_eq!(state.measurement.current_steps, Some(100 + delta));
        assert_eq!(updates, vec![steps(Some(100 + delta))]);
    }
}

#[test]
fn a_failed_nudge_loses_the_motor() {
    let mut state = connected(Some(100));
    let mut task = step_move(&state, MoveMode::StepForward);
    let (_, updates, result) = run(&mut task, &mut state, Some(0), AckOutcome::TimedOut);
    assert_eq!(result, Err(TaskError::MotorDisconnected(MotorFault::TimedOut)));
    assert_eq!(updates, lost());
    assert_eq!(state.measurement.current_steps, None);
}

#[test]
fn a_position_past_the_counter_is_forgotten() {
    let mut state = connected(Some(i32::MAX - 3));
    let mut task = step_move(&state, MoveMode::StepForward);
    let (_, updates, result) = run(&mut task, &mut state, None, AckOutcome::Failed);
    assert_eq!(result, Ok(()));
    assert_eq!(state.measurement.current_steps, None);
    assert_eq!(updates, vec![steps(None)]);
    assert!(state.devices.serial_connected);
}

#[test]
fn unknown_position_stays_unknown() {
    let mut state = connected(None);
    let mut task = precision_rotate(&state, 746);
    let (sent, updates, result) = run(&mut task, &mut state, None, AckOutcome::Failed);
    assert_eq!(result, Ok(()));
    assert_eq!(sent, vec![60]);
    assert_eq!(state.measurement.current_steps, None);
    assert_eq!(updates, vec![steps(None)]);
}

#[test]
fn a_stopped_move_ends_at_once_and_keeps_the_position_true() {
    let mut state = connected(Some(0));
    let mut task = precision_rotate(&state, 5000);
    assert_eq!(task.step(&mut state, false, Event::Resume).action, Action::Send(62));
    assert_eq!(task.step(&mut state, false, Event::Reply(AckOutcome::Acked)).action, Action::Send(60));
    // the token is found set when the verdict on the second byte comes back
    let step = task.step(&mut state, true, Event::Reply(AckOutcome::Acked));
    assert_eq!(step.action, Action::Finished(Err(TaskError::Cancelled)));
    assert_eq!(step.updates, vec![steps(Some(4476))]);
    assert_eq!(state.measurement.current_steps, Some(4476));
    assert!(state.devices.serial_connected);
    let step = task.step(&mut state, false, Event::Resume);
    assert_eq!(step.action, Action::Finished(Err(TaskError::Cancelled)));
}

#[test]
fn a_move_stopped_after_its_last_command_has_ended_well() {
    let mut state = connected(Some(0));
    let mut task = precision_rotate(&state, 746);
    assert_eq!(task.step(&mut state, false, Event::Resume).action, Action::Send(60));
    let step = task.step(&mut state, true, Event::Reply(AckOutcome::Acked));
    assert_eq!(step.action, Action::Finished(Ok(())));
    assert_eq!(state.measurement.current_steps, Some(746));
}

#[test]
fn a_move_stopped_before_it_began_sends_nothing() {
    let mut state = connected(Some(3));
    let mut task = precision_rotate(&state, 746);
    let step = task.step(&mut state, true, Event::Resume);
    assert_eq!(step.action, Action::Finished(Err(TaskError::Cancelled)));
    assert!(step.updates.is_empty());
    assert_eq!(state.measurement.current_steps, Some(3));
}

#[test]
fn a_failed_verdict_counts_even_when_the_move_is_stopped() {
    let mut state = connected(Some(0));
    let mut task = precision_rotate(&state, 5000);
    assert_eq!(task.step(&mut state, false, Event::Resume).action, Action::Send(62));
    let step = task.step(&mut state, true, Event::Reply(AckOutcome::Garbled));
    assert_eq!(step.action, Action::Finished(Err(TaskError::MotorDisconnected(MotorFault::Garbled))));
    assert_eq!(step.updates, lost());
    assert_eq!(state.measurement.current_steps, None);
}
