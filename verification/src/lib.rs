//! Control core of a motorized polarimeter.
//!
//! A stepper motor turns a polarizer, a camera watches the field of view, and a
//! binary classifier says whether a frame is bright or dark. This crate holds
//! the decisions of that loop: the motor wire protocol, the bookkeeping of the
//! step position, the bracket search that finds an optical transition, the
//! periodic experiment that follows it, and the dispatcher that admits and
//! stops tasks. Talking to the devices is left to the caller: every task is a
//! state machine that is told what happened and answers what to do next.

pub mod backend;
pub mod communication;
pub mod protocol;
pub mod rotation;
pub mod text;
pub mod token;
pub mod window;
