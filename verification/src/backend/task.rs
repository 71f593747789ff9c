//! What every task has in common: how it is told what happened, and how it
//! answers what to do next.

use crate::backend::CircleLocation;
use crate::communication::TaskError;
use crate::communication::Update;
use crate::protocol::AckOutcome;
use crate::window::Label;
use vstd::prelude::*;

verus! {

/// What the caller has seen just before it calls a task, under the lock.
#[derive(Clone, Copy, Debug, PartialEq, Eq, Structural)]
pub struct Observation {
    /// A monotonic clock, in nanoseconds.
    pub now_ns: u64,
    /// Whether the task's cancellation token was found set.
    pub cancelled: bool,
    /// Whether the camera's frame slot holds a frame.
    pub frame_ready: bool,
}

/// How a frame is to be classified.
#[derive(Clone, Copy, Debug, PartialEq, Eq, Structural)]
pub struct ClassifyRequest {
    /// The locked circle to cut out; `None` asks for a fresh detection.
    pub circle: Option<CircleLocation>,
    pub min_radius: i32,
    pub max_radius: i32,
}

/// What the caller is to do for a task before it calls again.
#[derive(Clone, Copy, Debug, PartialEq, Eq)]
pub enum Action {
    /// Write this byte to the motor, read one line, come back with the verdict.
    Send(u8),
    /// Classify the latest frame and come back with the label.
    Classify(ClassifyRequest),
    /// Wait so many milliseconds.
    Sleep(u64),
    /// Hand the dynamic results to the result sink.
    Persist,
    /// The task is over.
    Finished(Result<(), TaskError>),
}

/// What happened since the last call.
#[derive(Clone, Copy, Debug, PartialEq, Eq, Structural)]
pub enum Event {
    /// The task is started, or the wait or the hand-over asked for is done.
    Resume,
    /// The verdict on the byte that was sent.
    Reply(AckOutcome),
    /// The label that the classifier gave the frame, or `None` where no
    /// circle was found.
    Label(Option<Label>),
}

/// The answer of a task: what to do, and what to tell the outside.
pub struct Step {
    pub action: Action,
    pub updates: Vec<Update>,
}

} // verus!
