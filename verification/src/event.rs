//! The events an engine emits over the lifetime of its child process.

use vstd::prelude::*;

verus! {

/// Exit status of the child process, as plain values.
///
/// `success` is whether the platform reported a successful exit;
/// `code` is the numeric exit code, where one exists.
#[derive(Debug, Clone, Copy, PartialEq, Eq)]
pub struct ExitStatus {
    pub success: bool,
    pub code: Option<i32>,
}

/// One step of the child process's observable lifecycle.
#[derive(Debug, Clone, PartialEq, Eq)]
pub enum Event {
    /// The child was spawned; carries the command and its arguments.
    /// Emitted exactly once, before every other event.
    CommandStart(String, Vec<String>),
    /// Bytes read from the pty, in the order they were read.
    Output(Vec<u8>),
    /// The child exited; emitted exactly once, after the last `Output`.
    CommandExit(ExitStatus),
    /// A terminal-size change `(rows, cols)` was detected and recorded.
    Resize(u16, u16),
}

/// Mathematical image of an [`Event`], over sequences.
pub ghost enum EventV {
    CommandStart(Seq<char>, Seq<Seq<char>>),
    Output(Seq<u8>),
    CommandExit(ExitStatus),
    Resize(u16, u16),
}

impl View for Event {
    type V = EventV;

    open spec fn view(&self) -> EventV {
        match self {
            Event::CommandStart(cmd, args) => EventV::CommandStart(cmd@, args.deep_view()),
            Event::Output(bytes) => EventV::Output(bytes@),
            Event::CommandExit(status) => EventV::CommandExit(*status),
            Event::Resize(rows, cols) => EventV::Resize(*rows, *cols),
        }
    }
}

} // verus!
