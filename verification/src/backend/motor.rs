//! The motor driver: moves, nudges, and what an acknowledgment or its absence
//! does to the shared state.
//!
//! A command is sent only while a port is open, and the step position moves
//! only on an acknowledgment. Any failure drops the port, forgets the position
//! and tells the outside, in that order, before the task that sent the
//! command learns of it.

use crate::backend::task::Action;
use crate::backend::task::Event;
use crate::backend::task::Step;
use crate::backend::BackendState;
use crate::backend::DeviceState;
use crate::backend::MeasurementState;
use crate::communication::emit;
use crate::communication::fault_of;
use crate::communication::motor_fault;
use crate::communication::serial_note;
use crate::communication::steps_note;
use crate::communication::views;
use crate::communication::DeviceUpdate;
use crate::communication::MeasurementUpdate;
use crate::communication::MotorFault;
use crate::communication::TaskError;
use crate::communication::Update;
use crate::communication::UpdateView;
use crate::protocol::nudge;
use crate::protocol::nudge_at;
use crate::protocol::AckOutcome;
use crate::protocol::MoveMode;
use crate::protocol::UnitCommand;
use crate::rotation::rotation_script;
use crate::rotation::shift;
use crate::rotation::shifted;
use crate::rotation::Rotation;
use vstd::prelude::*;

verus! {

/// The state once the motor is lost: no port, no position.
pub open spec fn motor_lost(s: BackendState) -> BackendState {
    BackendState {
        devices: DeviceState { serial_connected: false, ..s.devices },
        measurement: MeasurementState { current_steps: None, ..s.measurement },
        ..s
    }
}

/// The state with another step position.
pub open spec fn with_position(s: BackendState, position: Option<i32>) -> BackendState {
    BackendState {
        measurement: MeasurementState { current_steps: position, ..s.measurement },
        ..s
    }
}

/// The disconnect notification: the motor is gone, and so is the position.
pub open spec fn lost_notes() -> Seq<UpdateView> {
    seq![serial_note(false), steps_note(None)]
}

/// The report of a new position, unless the move is a quiet one.
pub open spec fn arrival_notes(position: Option<i32>, quiet: bool) -> Seq<UpdateView> {
    if quiet {
        Seq::empty()
    } else {
        seq![steps_note(position)]
    }
}

/// Drops the motor: the port flag goes down, the position is forgotten, and
/// the disconnect notification is queued.
pub fn lose_motor(state: &mut BackendState, updates: &mut Vec<Update>)
    ensures
        *final(state) == motor_lost(*old(state)),
        views(final(updates)@) == views(old(updates)@) + lost_notes(),
{
    state.devices.serial_connected = false;
    emit(updates, Update::Device(DeviceUpdate::SerialConnectionStatus(false)));
    state.measurement.current_steps = None;
    emit(updates, Update::Measurement(MeasurementUpdate::CurrentSteps(None)));
}

/// What a move asks for once it has been driven one step further.
#[derive(Clone, Copy, Debug, PartialEq, Eq, Structural)]
pub enum Verdict {
    /// Send this byte and come back with the verdict on it.
    Send(u8),
    /// Every command of the move has been acknowledged.
    Arrived,
    /// The motor is lost.
    Failed(TaskError),
}

/// What is left of a move.
#[derive(Clone, Copy, Debug)]
pub enum Course {
    Ladder(Rotation),
    Single(UnitCommand),
    Complete,
}

/// A move in progress: a coarse move down the ladder, or one nudge.
#[derive(Clone, Copy, Debug)]
pub struct Mover {
    course: Course,
    awaiting: bool,
    quiet: bool,
}

impl Mover {
    #[verifier::type_invariant]
    spec fn inv(self) -> bool {
        self.awaiting ==> self.script().len() > 0
    }

    /// The commands not yet acknowledged, next one first.
    pub closed spec fn script(self) -> Seq<UnitCommand> {
        match self.course {
            Course::Ladder(rotation) => rotation.script(),
            Course::Single(command) => seq![command],
            Course::Complete => Seq::empty(),
        }
    }

    /// Whether the move is one that the functions of this module make: a
    /// byte is out only while a command is left.
    pub closed spec fn wf(self) -> bool {
        &&& self.inv()
        &&& self.course matches Course::Ladder(rotation) ==> rotation.wf()
    }

    /// Whether a byte has been handed out and its verdict is due.
    pub closed spec fn awaits_reply(self) -> bool {
        self.awaiting
    }

    /// Whether the move keeps its position reports to itself.
    pub closed spec fn is_quiet(self) -> bool {
        self.quiet
    }

    /// A coarse move by `steps`, not yet begun.
    pub closed spec fn rotating(steps: int, reverse: bool, quiet: bool) -> Mover {
        Mover { course: Course::Ladder(Rotation::planned(steps, reverse)), awaiting: false, quiet }
    }

    /// A coarse move from one position to another, not yet begun.
    pub closed spec fn passing(from: int, to: int, reverse: bool, quiet: bool) -> Mover {
        Mover {
            course: Course::Ladder(Rotation::spanning(from, to, reverse)),
            awaiting: false,
            quiet,
        }
    }

    /// One nudge, not yet sent.
    pub closed spec fn nudging(mode: MoveMode, reverse: bool, quiet: bool) -> Mover {
        Mover { course: Course::Single(nudge_at(mode, reverse)), awaiting: false, quiet }
    }

    /// The move after it was polled: a byte is out exactly if a command is
    /// left and a port is open.
    pub closed spec fn polled(self, connected: bool) -> Mover {
        Mover { awaiting: self.script().len() > 0 && connected, ..self }
    }

    /// The move after the acknowledgment of the byte that was out.
    pub closed spec fn acked(self) -> Mover {
        Mover {
            course: match self.course {
                Course::Ladder(rotation) => Course::Ladder(rotation.advanced()),
                _ => Course::Complete,
            },
            awaiting: false,
            ..self
        }
    }

    /// The move after the byte that was out has failed.
    pub closed spec fn failed(self) -> Mover {
        Mover { awaiting: false, ..self }
    }

    /// What the scripts of the moves above are.
    pub proof fn lemma_scripts(
        steps: i32,
        from: i32,
        to: i32,
        mode: MoveMode,
        reverse: bool,
        quiet: bool,
    )
        ensures
            Mover::rotating(steps as int, reverse, quiet).script() == rotation_script(
                steps as int,
                reverse,
            ),
            Mover::passing(from as int, to as int, reverse, quiet).script() == rotation_script(
                to - from,
                reverse,
            ),
            Mover::nudging(mode, reverse, quiet).script() == seq![nudge_at(mode, reverse)],
            !Mover::rotating(steps as int, reverse, quiet).awaits_reply(),
            !Mover::passing(from as int, to as int, reverse, quiet).awaits_reply(),
            !Mover::nudging(mode, reverse, quiet).awaits_reply(),
            Mover::rotating(steps as int, reverse, quiet).is_quiet() == quiet,
            Mover::passing(from as int, to as int, reverse, quiet).is_quiet() == quiet,
            Mover::nudging(mode, reverse, quiet).is_quiet() == quiet,
            Mover::rotating(steps as int, reverse, quiet).wf(),
            Mover::passing(from as int, to as int, reverse, quiet).wf(),
            Mover::nudging(mode, reverse, quiet).wf(),
    {
        Rotation::lemma_spanning(0, steps as int, reverse);
        Rotation::lemma_spanning(from as int, to as int, reverse);
    }

    /// What taking a verdict does to a move: an acknowledgment that was due
    /// strikes the first command, and nothing else changes the script. No
    /// byte is out afterwards unless the event was no verdict at all.
    pub proof fn lemma_settled(self, state: BackendState, event: Event)
        requires
            self.wf(),
        ensures
            ({
                let a = settled(self, state, event);
                let acked = self.awaits_reply() && event == Event::Reply(AckOutcome::Acked);
                &&& a.mover.wf()
                &&& a.mover.is_quiet() == self.is_quiet()
                &&& self.awaits_reply() ==> self.script().len() > 0
                &&& a.mover.script() == if acked {
                    self.script().drop_first()
                } else {
                    self.script()
                }
                &&& a.mover.awaits_reply() == (self.awaits_reply() && !(event is Reply))
            }),
    {
        if let Course::Ladder(rotation) = self.course {
            rotation.lemma_advanced();
        }
    }

    /// What driving a move does to its script: an acknowledgment that was
    /// due strikes the first command, and nothing else changes the script. A
    /// byte is out afterwards exactly if the verdict hands one out, and that
    /// byte is the one of the first command left.
    pub proof fn lemma_driven(self, state: BackendState, event: Event)
        requires
            self.wf(),
        ensures
            ({
                let d = driven(self, state, event);
                let acked = self.awaits_reply() && event == Event::Reply(AckOutcome::Acked);
                &&& d.mover.wf()
                &&& d.mover.is_quiet() == self.is_quiet()
                &&& self.awaits_reply() ==> self.script().len() > 0
                &&& d.mover.script() == if acked {
                    self.script().drop_first()
                } else {
                    self.script()
                }
                &&& d.verdict is Send <==> d.mover.awaits_reply()
                &&& d.verdict matches Verdict::Send(byte) ==> d.mover.script().len() > 0
                    && byte == d.mover.script()[0].byte
                &&& d.verdict is Arrived ==> d.mover.script().len() == 0
            }),
    {
        if let Course::Ladder(rotation) = self.course {
            rotation.lemma_advanced();
        }
    }

    /// A coarse move by `steps`.
    pub fn rotation(steps: i32, reverse: bool, quiet: bool) -> (m: Mover)
        ensures
            m == Mover::rotating(steps as int, reverse, quiet),
            m.wf(),
            m.script() == rotation_script(steps as int, reverse),
            !m.awaits_reply(),
            m.is_quiet() == quiet,
    {
        Mover { course: Course::Ladder(Rotation::new(steps, reverse)), awaiting: false, quiet }
    }

    /// A coarse move from one position to another.
    pub fn passage(from: i32, to: i32, reverse: bool, quiet: bool) -> (m: Mover)
        ensures
            m == Mover::passing(from as int, to as int, reverse, quiet),
            m.wf(),
            m.script() == rotation_script(to - from, reverse),
            !m.awaits_reply(),
            m.is_quiet() == quiet,
    {
        Mover {
            course: Course::Ladder(Rotation::between(from, to, reverse)),
            awaiting: false,
            quiet,
        }
    }

    /// One nudge.
    pub fn nudge(mode: MoveMode, reverse: bool, quiet: bool) -> (m: Mover)
        ensures
            m == Mover::nudging(mode, reverse, quiet),
            m.wf(),
            m.script() == seq![nudge_at(mode, reverse)],
            !m.awaits_reply(),
            m.is_quiet() == quiet,
    {
        Mover { course: Course::Single(nudge(mode, reverse)), awaiting: false, quiet }
    }

    /// Whether every command of the move has been acknowledged.
    pub fn is_complete(&self) -> (done: bool)
        ensures
            done == (self.script().len() == 0),
    {
        self.head().is_none()
    }

    fn head(&self) -> (next: Option<UnitCommand>)
        ensures
            next == if self.script().len() > 0 {
                Some(self.script()[0])
            } else {
                None
            },
    {
        match &self.course {
            Course::Ladder(rotation) => rotation.head(),
            Course::Single(command) => Some(*command),
            Course::Complete => None,
        }
    }

    /// Takes the verdict on the byte that was out, if the event is one.
    pub fn settle(
        &mut self,
        state: &mut BackendState,
        event: Event,
        updates: &mut Vec<Update>,
    ) -> (fault: Option<TaskError>)
        ensures
            *final(self) == settled(*old(self), *old(state), event).mover,
            *final(state) == settled(*old(self), *old(state), event).state,
            views(final(updates)@) == views(old(updates)@) + settled(
                *old(self),
                *old(state),
                event,
            ).notes,
            fault == settled(*old(self), *old(state), event).fault,
            final(self).is_quiet() == old(self).is_quiet(),
            old(self).awaits_reply() ==> old(self).script().len() > 0,
            final(self).script() == if old(self).awaits_reply() && event == Event::Reply(
                AckOutcome::Acked,
            ) {
                old(self).script().drop_first()
            } else {
                old(self).script()
            },
    {
        proof {
            use_type_invariant(&*self);
        }
        if !self.awaiting {
            return None;
        }
        match event {
            Event::Reply(AckOutcome::Acked) => {
                let delta: i32 = match self.head() {
                    Some(command) => command.delta,
                    None => 0,
                };
                let next: Course = match self.course {
                    Course::Ladder(rotation) => {
                        let mut rotation = rotation;
                        rotation.advance();
                        Course::Ladder(rotation)
                    },
                    _ => Course::Complete,
                };
                *self = Mover { course: next, awaiting: false, quiet: self.quiet };
                let moved: Option<i32> = shift(state.measurement.current_steps, delta);
                state.measurement.current_steps = moved;
                if !self.quiet {
                    emit(updates, Update::Measurement(MeasurementUpdate::CurrentSteps(moved)));
                }
                None
            },
            Event::Reply(outcome) => {
                *self = Mover { course: self.course, awaiting: false, quiet: self.quiet };
                lose_motor(state, updates);
                Some(TaskError::MotorDisconnected(motor_fault(outcome)))
            },
            _ => None,
        }
    }

    /// Drives the move one step further, under the lock: the verdict on
    /// the byte that was out is taken, and unless the motor was lost by it
    /// the next byte is handed out, if one is left.
    pub fn drive(
        &mut self,
        state: &mut BackendState,
        event: Event,
        updates: &mut Vec<Update>,
    ) -> (verdict: Verdict)
        ensures
            *final(self) == driven(*old(self), *old(state), event).mover,
            *final(state) == driven(*old(self), *old(state), event).state,
            views(final(updates)@) == views(old(updates)@) + driven(
                *old(self),
                *old(state),
                event,
            ).notes,
            verdict == driven(*old(self), *old(state), event).verdict,
            final(self).is_quiet() == old(self).is_quiet(),
            verdict is Send <==> final(self).awaits_reply(),
            old(self).awaits_reply() ==> old(self).script().len() > 0,
            final(self).script() == if old(self).awaits_reply() && event == Event::Reply(
                AckOutcome::Acked,
            ) {
                old(self).script().drop_first()
            } else {
                old(self).script()
            },
    {
        if let Some(error) = self.settle(state, event, updates) {
            return Verdict::Failed(error);
        }
        match self.head() {
            None => {
                *self = Mover { course: self.course, awaiting: false, quiet: self.quiet };
                Verdict::Arrived
            },
            Some(command) => {
                if state.devices.serial_connected {
                    *self = Mover { course: self.course, awaiting: true, quiet: self.quiet };
                    Verdict::Send(command.byte)
                } else {
                    *self = Mover { course: self.course, awaiting: false, quiet: self.quiet };
                    lose_motor(state, updates);
                    Verdict::Failed(TaskError::MotorDisconnected(MotorFault::PortClosed))
                }
            },
        }
    }
}

/// A move, the state and the updates after one call of `drive`.
pub ghost struct Driven {
    pub mover: Mover,
    pub state: BackendState,
    pub notes: Seq<UpdateView>,
    pub verdict: Verdict,
}

/// A move, the state and the updates once the verdict on the byte that was
/// out has been taken.
pub ghost struct Settled {
    pub mover: Mover,
    pub state: BackendState,
    pub notes: Seq<UpdateView>,
    /// How the motor was lost, if the verdict was not the acknowledgment.
    pub fault: Option<TaskError>,
}

/// What taking a verdict makes of a move and the state. A verdict counts
/// only while a byte is out. On the acknowledgment the position moves by the
/// command's steps, the new position is reported unless the move is quiet,
/// and the command is struck. On any other verdict the motor is lost.
pub open spec fn settled(mover: Mover, state: BackendState, event: Event) -> Settled {
    if mover.awaits_reply() && event == Event::Reply(AckOutcome::Acked) {
        let moved = with_position(
            state,
            shifted(state.measurement.current_steps, mover.script()[0].delta as int),
        );
        Settled {
            mover: mover.acked(),
            state: moved,
            notes: arrival_notes(moved.measurement.current_steps, mover.is_quiet()),
            fault: None,
        }
    } else if mover.awaits_reply() && event is Reply {
        Settled {
            mover: mover.failed(),
            state: motor_lost(state),
            notes: lost_notes(),
            fault: Some(TaskError::MotorDisconnected(fault_of(event->Reply_0))),
        }
    } else {
        Settled { mover, state, notes: Seq::empty(), fault: None }
    }
}

/// What `drive` makes of a move, the state and an event: the verdict is
/// taken, and unless the motor was lost by it the move is polled. With
/// nothing left the move has arrived; with a command left and a port open
/// the command's byte is handed out; with a command left and no port the
/// motor is lost.
pub open spec fn driven(mover: Mover, state: BackendState, event: Event) -> Driven {
    let a = settled(mover, state, event);
    match a.fault {
        Some(error) => Driven {
            mover: a.mover,
            state: a.state,
            notes: a.notes,
            verdict: Verdict::Failed(error),
        },
        None => if a.mover.script().len() == 0 {
            Driven {
                mover: a.mover.polled(a.state.devices.serial_connected),
                state: a.state,
                notes: a.notes,
                verdict: Verdict::Arrived,
            }
        } else if a.state.devices.serial_connected {
            Driven {
                mover: a.mover.polled(true),
                state: a.state,
                notes: a.notes,
                verdict: Verdict::Send(a.mover.script()[0].byte),
            }
        } else {
            Driven {
                mover: a.mover.polled(false),
                state: motor_lost(a.state),
                notes: a.notes + lost_notes(),
                verdict: Verdict::Failed(TaskError::MotorDisconnected(MotorFault::PortClosed)),
            }
        },
    }
}

/// A task, the state, the action and the updates after one call of a task.
pub ghost struct Stepped<T, R> {
    pub task: T,
    pub state: BackendState,
    pub action: Action,
    pub notes: Seq<UpdateView>,
    /// The result that the call adds to its list in the state, if any. The
    /// list in `state` is the one from before the call.
    pub record: Option<R>,
}

/// A motor task on its own: one move, run to its end.
#[derive(Clone, Copy, Debug)]
pub struct MotorTask {
    pub mover: Mover,
    /// How the task ended, once it has.
    pub over: Option<Result<(), TaskError>>,
}

/// How a move ends that is stopped: well if nothing was left of it, as
/// cancelled otherwise.
pub open spec fn stopped_end(left: Seq<UnitCommand>) -> Result<(), TaskError> {
    if left.len() == 0 {
        Ok(())
    } else {
        Err(TaskError::Cancelled)
    }
}

/// What one call makes of a motor task. A task that is over says so again
/// and changes nothing. A call that finds the task's token set takes the
/// verdict on the byte that was out and ends the task. Otherwise the move is
/// driven, and the task ends when the move has arrived or the motor is lost.
pub open spec fn motor_stepped(
    task: MotorTask,
    state: BackendState,
    cancelled: bool,
    event: Event,
) -> Stepped<MotorTask, ()> {
    match task.over {
        Some(end) => Stepped {
            task,
            state,
            action: Action::Finished(end),
            notes: Seq::empty(),
            record: None,
        },
        None => if cancelled {
            let a = settled(task.mover, state, event);
            let end = match a.fault {
                Some(error) => Err(error),
                None => stopped_end(a.mover.script()),
            };
            Stepped {
                task: MotorTask { mover: a.mover, over: Some(end) },
                state: a.state,
                action: Action::Finished(end),
                notes: a.notes,
                record: None,
            }
        } else {
            let d = driven(task.mover, state, event);
            match d.verdict {
                Verdict::Send(byte) => Stepped {
                    task: MotorTask { mover: d.mover, over: None },
                    state: d.state,
                    action: Action::Send(byte),
                    notes: d.notes,
                    record: None,
                },
                Verdict::Arrived => Stepped {
                    task: MotorTask { mover: d.mover, over: Some(Ok(())) },
                    state: d.state,
                    action: Action::Finished(Ok(())),
                    notes: d.notes,
                    record: None,
                },
                Verdict::Failed(error) => Stepped {
                    task: MotorTask { mover: d.mover, over: Some(Err(error)) },
                    state: d.state,
                    action: Action::Finished(Err(error)),
                    notes: d.notes,
                    record: None,
                },
            }
        },
    }
}

impl MotorTask {
    /// Says the next thing to do for the move, given whether the task's
    /// token was found set and what happened.
    pub fn step(&mut self, state: &mut BackendState, cancelled: bool, event: Event) -> (step: Step)
        ensures
            *final(self) == motor_stepped(*old(self), *old(state), cancelled, event).task,
            *final(state) == motor_stepped(*old(self), *old(state), cancelled, event).state,
            step.action == motor_stepped(*old(self), *old(state), cancelled, event).action,
            views(step.updates@) == motor_stepped(*old(self), *old(state), cancelled, event).notes,
            step.action is Finished <==> final(self).over is Some,
    {
        let mut updates: Vec<Update> = Vec::new();
        if let Some(end) = self.over {
            return Step { action: Action::Finished(end), updates };
        }
        let mut mover = self.mover;
        if cancelled {
            let fault = mover.settle(state, event, &mut updates);
            let end: Result<(), TaskError> = match fault {
                Some(error) => Err(error),
                None => if mover.is_complete() {
                    Ok(())
                } else {
                    Err(TaskError::Cancelled)
                },
            };
            self.mover = mover;
            self.over = Some(end);
            return Step { action: Action::Finished(end), updates };
        }
        let verdict = mover.drive(state, event, &mut updates);
        self.mover = mover;
        let action: Action = match verdict {
            Verdict::Send(byte) => Action::Send(byte),
            Verdict::Arrived => {
                self.over = Some(Ok(()));
                Action::Finished(Ok(()))
            },
            Verdict::Failed(error) => {
                self.over = Some(Err(error));
                Action::Finished(Err(error))
            },
        };
        Step { action, updates }
    }
}

/// Begins a move by `steps` relative to where the motor stands. The reversal
/// flag is read once, now. Every new position is reported.
pub fn precision_rotate(state: &BackendState, steps: i32) -> (task: MotorTask)
    ensures
        task == (MotorTask {
            mover: Mover::rotating(steps as int, state.rotation_direction_need_reverse, false),
            over: None,
        }),
        task.mover.script() == rotation_script(
            steps as int,
            state.rotation_direction_need_reverse,
        ),
{
    MotorTask {
        mover: Mover::rotation(steps, state.rotation_direction_need_reverse, false),
        over: None,
    }
}

/// Begins a move to an absolute step position. Without a zero calibration
/// there is no such position, and the move is refused.
pub fn precision_rotate_to(state: &BackendState, steps: i32) -> (task: Result<
    MotorTask,
    TaskError,
>)
    ensures
        match state.measurement.current_steps {
            Some(from) => task matches Ok(t) && t == (MotorTask {
                mover: Mover::passing(
                    from as int,
                    steps as int,
                    state.rotation_direction_need_reverse,
                    false,
                ),
                over: None,
            }) && t.mover.script() == rotation_script(
                steps - from,
                state.rotation_direction_need_reverse,
            ),
            None => task == Err::<MotorTask, TaskError>(TaskError::PositionUnknown),
        },
{
    match state.measurement.current_steps {
        Some(from) => Ok(
            MotorTask {
                mover: Mover::passage(from, steps, state.rotation_direction_need_reverse, false),
                over: None,
            },
        ),
        None => Err(TaskError::PositionUnknown),
    }
}

/// Begins the move back to the zero point. Where no zero point stands there
/// is nothing to do.
pub fn return_to_zero(state: &BackendState) -> (task: Option<MotorTask>)
    ensures
        match state.measurement.current_steps {
            Some(from) => task matches Some(t) && t == (MotorTask {
                mover: Mover::passing(
                    from as int,
                    0,
                    state.rotation_direction_need_reverse,
                    false,
                ),
                over: None,
            }) && t.mover.script() == rotation_script(
                0 - from,
                state.rotation_direction_need_reverse,
            ),
            None => task is None,
        },
{
    match state.measurement.current_steps {
        Some(from) => Some(
            MotorTask {
                mover: Mover::passage(from, 0, state.rotation_direction_need_reverse, false),
                over: None,
            },
        ),
        None => None,
    }
}

/// Begins one nudge. The reversal flag is read once, now.
pub fn step_move(state: &BackendState, mode: MoveMode) -> (task: MotorTask)
    ensures
        task == (MotorTask {
            mover: Mover::nudging(mode, state.rotation_direction_need_reverse, false),
            over: None,
        }),
        task.mover.script() == seq![nudge_at(mode, state.rotation_direction_need_reverse)],
{
    MotorTask {
        mover: Mover::nudge(mode, state.rotation_direction_need_reverse, false),
        over: None,
    }
}

} // verus!
