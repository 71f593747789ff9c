//! The task dispatcher and the health monitor.
//!
//! The dispatcher takes one command at a time. The shutdown command starts
//! no worker: it hands back the global signal, to be raised. Every other
//! command is handled under the lock; if it is not turned away, a worker with
//! a token of its own is registered for whatever the handler left to do. At
//! shutdown the camera session goes first; then every registered worker is
//! handed back, to have its token raised and to be waited for.
//!
//! The dispatcher decides which token is raised. The store itself is the
//! caller's, who holds the threads.
//!
//! The monitor looks at the devices once a second, whatever else runs.

use crate::backend::command::command_handled;
use crate::backend::command::handle_camera;
use crate::backend::command::handle_device;
use crate::backend::command::handle_dynamic_measure;
use crate::backend::command::handle_general;
use crate::backend::command::handle_static_measure;
use crate::backend::command::handle_training;
use crate::backend::command::Handling;
use crate::backend::command::Job;
use crate::backend::measurement::camera_lost;
use crate::backend::motor::lose_motor;
use crate::backend::motor::lost_notes;
use crate::backend::motor::motor_lost;
use crate::backend::task::Action;
use crate::backend::task::Event;
use crate::backend::task::Observation;
use crate::backend::task::Step;
use crate::backend::BackendState;
use crate::communication::camera_note;
use crate::communication::emit;
use crate::communication::views;
use crate::communication::Command;
use crate::communication::DeviceUpdate;
use crate::communication::GeneralCommand;
use crate::communication::TaskError;
use crate::communication::Update;
use crate::communication::UpdateView;
use crate::protocol::AckOutcome;
use crate::protocol::HEARTBEAT;
use crate::token::new_token;
use crate::token::share;
use crate::token::CancellationToken;
use vstd::prelude::*;

verus! {

/// A worker that the dispatcher has started: its number, by which the
/// caller knows the thread, and the token that stops it.
pub struct BackgroundTask {
    pub id: u64,
    pub cancellation_token: CancellationToken,
}

/// The dispatcher's register of workers.
pub struct Dispatcher {
    pub active_tasks: Vec<BackgroundTask>,
    /// The number that the next worker gets.
    pub next_id: u64,
}

/// What the dispatcher makes of one command.
pub enum Reception {
    /// Raise this signal, the global one, and leave the receive loop.
    Shutdown { raise: CancellationToken },
    /// The command was turned away: no worker is started.
    Rejected { error: TaskError, updates: Vec<Update> },
    /// Raise the token of the task that the command stops, if there is one.
    /// Start a worker under this number and token, to send the updates and
    /// do the job.
    Spawn {
        id: u64,
        token: CancellationToken,
        job: Job,
        updates: Vec<Update>,
        raise: Option<CancellationToken>,
    },
}

/// Hands a command to the handler of its kind.
pub fn dispatch_command(
    command: Command,
    state: &mut BackendState,
    token: &CancellationToken,
    now_ns: u64,
) -> (h: Handling)
    ensures
        command_handled(command, *old(state), *token, now_ns, *final(state), h),
        h.result is Err ==> h.job == Job::Nothing && h.raise is None,
{
    match command {
        Command::General(cmd) => handle_general(cmd, state),
        Command::Device(cmd) => handle_device(cmd, state, token, now_ns),
        Command::Camera(cmd) => handle_camera(cmd, state),
        Command::Training(cmd) => handle_training(cmd, state),
        Command::StaticMeasure(cmd) => handle_static_measure(cmd, state, token),
        Command::DynamicMeasure(cmd) => handle_dynamic_measure(cmd, state, token, now_ns),
    }
}

/// The workers that are left once the finished ones are struck, in their
/// old order.
pub open spec fn surviving(tasks: Seq<BackgroundTask>, finished: Seq<u64>) -> Seq<BackgroundTask>
    decreases tasks.len(),
{
    if tasks.len() == 0 {
        Seq::empty()
    } else if finished.contains(tasks.last().id) {
        surviving(tasks.drop_last(), finished)
    } else {
        surviving(tasks.drop_last(), finished).push(tasks.last())
    }
}

/// Whether a number is in a list.
pub fn is_listed(list: &Vec<u64>, id: u64) -> (found: bool)
    ensures
        found == list@.contains(id),
{
    let mut i: usize = 0;
    while i < list.len()
        invariant
            i <= list.len(),
            forall|j: int| 0 <= j < i ==> list@[j] != id,
        decreases list.len() - i,
    {
        if list[i] == id {
            return true;
        }
        i = i + 1;
    }
    false
}

/// The number after this one; the last number is its own successor.
pub open spec fn following(id: u64) -> u64 {
    if id < u64::MAX {
        (id + 1) as u64
    } else {
        id
    }
}

impl Dispatcher {
    /// A dispatcher with no worker in its register.
    pub fn new() -> (d: Dispatcher)
        ensures
            d.active_tasks@.len() == 0,
            d.next_id == 0,
    {
        Dispatcher { active_tasks: Vec::new(), next_id: 0 }
    }

    /// Strikes the workers that have finished from the register.
    pub fn prune(&mut self, finished: &Vec<u64>)
        ensures
            final(self).active_tasks@ == surviving(old(self).active_tasks@, finished@),
            final(self).next_id == old(self).next_id,
    {
        let mut kept: Vec<BackgroundTask> = Vec::new();
        let mut i: usize = 0;
        while i < self.active_tasks.len()
            invariant
                i <= self.active_tasks.len(),
                *self == *old(self),
                kept@ == surviving(self.active_tasks@.take(i as int), finished@),
            decreases self.active_tasks.len() - i,
        {
            let task = &self.active_tasks[i];
            proof {
                let upto = self.active_tasks@.take(i + 1);
                assert(upto.drop_last() =~= self.active_tasks@.take(i as int));
                assert(upto.last() == self.active_tasks@[i as int]);
            }
            if !is_listed(finished, task.id) {
                kept.push(
                    BackgroundTask {
                        id: task.id,
                        cancellation_token: share(&task.cancellation_token),
                    },
                );
            }
            i = i + 1;
        }
        proof {
            assert(self.active_tasks@.take(i as int) =~= self.active_tasks@);
        }
        self.active_tasks = kept;
    }

    /// Registers a worker under the next number, with the token that stops
    /// it.
    pub fn register(&mut self, token: &CancellationToken) -> (id: u64)
        ensures
            id == old(self).next_id,
            final(self).next_id == following(old(self).next_id),
            final(self).active_tasks@ == old(self).active_tasks@.push(
                BackgroundTask { id, cancellation_token: *token },
            ),
    {
        let id: u64 = self.next_id;
        self.active_tasks.push(BackgroundTask { id, cancellation_token: share(token) });
        self.next_id = if id < u64::MAX {
            id + 1
        } else {
            id
        };
        id
    }

    /// The end of the dispatcher. The camera session is torn down first.
    /// The workers that come back are all that were registered, in the order
    /// of registration: the caller raises the token of every one of them,
    /// and then waits for each. The register is left empty.
    pub fn shut_down(&mut self, state: &mut BackendState) -> (stopped: Vec<BackgroundTask>)
        ensures
            *final(state) == camera_lost(*old(state)),
            stopped@ == old(self).active_tasks@,
            final(self).active_tasks@.len() == 0,
            final(self).next_id == old(self).next_id,
    {
        state.devices.camera_connected = false;
        let mut stopped: Vec<BackgroundTask> = Vec::new();
        let mut i: usize = 0;
        while i < self.active_tasks.len()
            invariant
                i <= self.active_tasks.len(),
                *self == *old(self),
                stopped@ == self.active_tasks@.take(i as int),
            decreases self.active_tasks.len() - i,
        {
            let task = &self.active_tasks[i];
            stopped.push(
                BackgroundTask { id: task.id, cancellation_token: share(&task.cancellation_token) },
            );
            proof {
                assert(self.active_tasks@.take(i + 1) =~= self.active_tasks@.take(i as int).push(
                    self.active_tasks@[i as int],
                ));
            }
            i = i + 1;
        }
        proof {
            assert(self.active_tasks@.take(i as int) =~= self.active_tasks@);
        }
        self.active_tasks = Vec::new();
        stopped
    }
}

/// One turn of the backend loop: what the dispatcher does with a command.
///
/// On the shutdown command the global signal is handed back to be raised,
/// and nothing else happens: no worker is started, and register and state
/// stay as they are. For every other command the finished workers are struck
/// from the register and the command is handled under a fresh token. A
/// command that is turned away starts no worker and leaves the register
/// pruned. Otherwise the worker is registered under the next number; where
/// the command stops a task, that task's token is handed back to be raised.
pub fn backend_loop(
    dispatcher: &mut Dispatcher,
    state: &mut BackendState,
    command: Command,
    finished: &Vec<u64>,
    now_ns: u64,
) -> (reception: Reception)
    ensures
        command matches Command::General(GeneralCommand::Shutdown) <==> reception is Shutdown,
        reception matches Reception::Shutdown { raise } ==> raise == old(state).shutdown_signal
            && *final(dispatcher) == *old(dispatcher) && *final(state) == *old(state),
        reception is Rejected ==> final(dispatcher).active_tasks@ == surviving(
            old(dispatcher).active_tasks@,
            finished@,
        ) && final(dispatcher).next_id == old(dispatcher).next_id,
        reception matches Reception::Spawn { id, token, .. } ==> id == old(dispatcher).next_id
            && final(dispatcher).next_id == following(id) && final(dispatcher).active_tasks@
            == surviving(old(dispatcher).active_tasks@, finished@).push(
            BackgroundTask { id, cancellation_token: token },
        ),
        reception matches Reception::Spawn { token, job, updates, raise, .. } ==> command_handled(
            command,
            *old(state),
            token,
            now_ns,
            *final(state),
            Handling { result: Ok(()), job, updates, raise },
        ),
        reception matches Reception::Rejected { error, updates } ==> exists|token: CancellationToken|
            command_handled(
                command,
                *old(state),
                token,
                now_ns,
                *final(state),
                Handling { result: Err(error), job: Job::Nothing, updates, raise: None },
            ),
{
    if let Command::General(GeneralCommand::Shutdown) = command {
        return Reception::Shutdown { raise: share(&state.shutdown_signal) };
    }
    dispatcher.prune(finished);
    let token = new_token();
    let handling = dispatch_command(command, state, &token, now_ns);
    match handling.result {
        Err(error) => Reception::Rejected { error, updates: handling.updates },
        Ok(_) => {
            let id: u64 = dispatcher.register(&token);
            Reception::Spawn {
                id,
                token,
                job: handling.job,
                updates: handling.updates,
                raise: handling.raise,
            }
        },
    }
}

/// The time between two looks of the monitor, in milliseconds.
pub const MONITOR_PERIOD_MS: u64 = 1000;

/// Every how many looks the monitor sends a heartbeat.
pub const HEARTBEAT_EVERY: u64 = 10;

/// The health monitor.
#[derive(Clone, Copy, Debug, PartialEq, Eq, Structural)]
pub struct Monitor {
    /// The number of the look that is due, from one.
    pub ticks: u64,
    /// Whether the heartbeat is out and its verdict is due.
    pub beating: bool,
    pub over: bool,
}

/// The second half of a look: the camera. A session that is gone is
/// reported; one whose frame slot is empty is dropped and reported. Then the
/// monitor rests for a second.
pub open spec fn monitor_rested(
    m: Monitor,
    s: BackendState,
    observation: Observation,
    notes: Seq<UpdateView>,
) -> (Monitor, BackendState, Action, Seq<UpdateView>) {
    (
        Monitor { ticks: following(m.ticks), beating: false, ..m },
        if observation.frame_ready {
            s
        } else {
            camera_lost(s)
        },
        Action::Sleep(MONITOR_PERIOD_MS),
        if s.devices.camera_connected && observation.frame_ready {
            notes
        } else {
            notes + seq![camera_note(false)]
        },
    )
}

/// What one call makes of the monitor.
///
/// A call that finds the monitor's token set ends it; a heartbeat whose
/// verdict has come is still judged. Otherwise the monitor looks at the motor
/// first. Without a port the position is forgotten and the disconnect is
/// reported, look after look. With a port, every tenth look sends the
/// heartbeat byte; any verdict on it but the acknowledgment loses the motor.
/// Then it looks at the camera.
pub open spec fn monitor_stepped(
    m: Monitor,
    s: BackendState,
    observation: Observation,
    event: Event,
) -> (Monitor, BackendState, Action, Seq<UpdateView>) {
    let missed = m.beating && event is Reply && event != Event::Reply(AckOutcome::Acked);
    if m.over {
        (m, s, Action::Finished(Ok(())), Seq::empty())
    } else if observation.cancelled {
        (
            Monitor { over: true, beating: false, ..m },
            if missed {
                motor_lost(s)
            } else {
                s
            },
            Action::Finished(Ok(())),
            if missed {
                lost_notes()
            } else {
                Seq::empty()
            },
        )
    } else if m.beating {
        match event {
            Event::Reply(AckOutcome::Acked) => monitor_rested(m, s, observation, Seq::empty()),
            Event::Reply(_) => monitor_rested(m, motor_lost(s), observation, lost_notes()),
            _ => (m, s, Action::Send(HEARTBEAT), Seq::empty()),
        }
    } else if !s.devices.serial_connected {
        monitor_rested(m, motor_lost(s), observation, lost_notes())
    } else if m.ticks % HEARTBEAT_EVERY == 0 {
        (Monitor { beating: true, ..m }, s, Action::Send(HEARTBEAT), Seq::empty())
    } else {
        monitor_rested(m, s, observation, Seq::empty())
    }
}

impl Monitor {
    /// The monitor before its first look.
    pub fn new() -> (m: Monitor)
        ensures
            m == (Monitor { ticks: 1, beating: false, over: false }),
    {
        Monitor { ticks: 1, beating: false, over: false }
    }

    fn rest(
        &mut self,
        state: &mut BackendState,
        observation: Observation,
        updates: &mut Vec<Update>,
    ) -> (action: Action)
        ensures
            (*final(self), *final(state), action, views(final(updates)@)) == monitor_rested(
                *old(self),
                *old(state),
                observation,
                views(old(updates)@),
            ),
    {
        if !state.devices.camera_connected || !observation.frame_ready {
            if !observation.frame_ready {
                state.devices.camera_connected = false;
            }
            emit(updates, Update::Device(DeviceUpdate::CameraConnectionStatus(false)));
        }
        self.ticks = if self.ticks < u64::MAX {
            self.ticks + 1
        } else {
            self.ticks
        };
        self.beating = false;
        Action::Sleep(MONITOR_PERIOD_MS)
    }

    /// Says the next thing to do for the monitor. To be called under the
    /// lock.
    pub fn step(&mut self, state: &mut BackendState, observation: Observation, event: Event) -> (step:
        Step)
        ensures
            (*final(self), *final(state), step.action, views(step.updates@)) == monitor_stepped(
                *old(self),
                *old(state),
                observation,
                event,
            ),
    {
        let mut updates: Vec<Update> = Vec::new();
        assert(views(updates@) =~= Seq::empty());
        if self.over {
            return Step { action: Action::Finished(Ok(())), updates };
        }
        if observation.cancelled {
            if self.beating {
                match event {
                    Event::Reply(AckOutcome::Acked) => {},
                    Event::Reply(_) => {
                        lose_motor(state, &mut updates);
                        assert(views(updates@) =~= lost_notes());
                    },
                    _ => {},
                }
            }
            self.over = true;
            self.beating = false;
            return Step { action: Action::Finished(Ok(())), updates };
        }
        if self.beating {
            let action: Action = match event {
                Event::Reply(AckOutcome::Acked) => self.rest(state, observation, &mut updates),
                Event::Reply(_) => {
                    lose_motor(state, &mut updates);
                    assert(views(updates@) =~= lost_notes());
                    self.rest(state, observation, &mut updates)
                },
                _ => Action::Send(HEARTBEAT),
            };
            return Step { action, updates };
        }
        let action: Action = if !state.devices.serial_connected {
            lose_motor(state, &mut updates);
            assert(views(updates@) =~= lost_notes());
            self.rest(state, observation, &mut updates)
        } else if self.ticks % HEARTBEAT_EVERY == 0 {
            self.beating = true;
            Action::Send(HEARTBEAT)
        } else {
            self.rest(state, observation, &mut updates)
        };
        Step { action, updates }
    }
}

} // verus!
