//! The output-multiplexing protocol's messages: everything a worker tells
//! the shared channel, and what counts as a worker's terminal message.

use vstd::prelude::*;
use crate::framer::LineEnding;

verus! {

/// One event from one worker. Messages are transient: produced by workers,
/// consumed exactly once by the policy engine and the consumer behind it.
pub enum OutputMessagePayload {
    /// The worker's process was spawned.
    Start,
    /// The worker's process exited; the code is absent when the process was
    /// terminated abnormally rather than exiting normally.
    Done(Option<i32>),
    /// One framed chunk of the process's standard output.
    Stdout(LineEnding, Vec<u8>),
    /// One framed chunk of the process's standard error.
    Stderr(LineEnding, Vec<u8>),
    /// The worker failed: spawning failed, or a stream broke while being
    /// drained. A worker's error is its terminal message.
    Error(String),
}

/// A payload that ends a worker's message sequence.
pub open spec fn is_terminal_payload(p: OutputMessagePayload) -> bool {
    p is Done || p is Error
}

impl OutputMessagePayload {
    /// Whether this payload is a worker's terminal message.
    pub fn is_terminal(&self) -> (r: bool)
        ensures
            r == is_terminal_payload(*self),
    {
        match self {
            OutputMessagePayload::Done(_) => true,
            OutputMessagePayload::Error(_) => true,
            _ => false,
        }
    }
}

/// A payload tagged with the worker it came from: the worker's position in
/// registration order, and its name for display.
pub struct OutputMessage {
    pub index: usize,
    pub name: String,
    pub message: OutputMessagePayload,
}

} // verus!
