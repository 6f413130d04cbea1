//! Failures of the engine's sub-operations.

use vstd::prelude::*;

verus! {

/// Why the engine failed.
///
/// Each variant names the sub-operation whose probe failed. `code` carries
/// the raw OS error code that the host observed, where one was available.
#[derive(Debug, Clone, PartialEq, Eq)]
pub enum Error {
    /// The pty device could not be opened.
    OpenPty { code: Option<i32> },
    /// Probing the child for its exit status failed.
    ProcessExitPoll { code: Option<i32> },
    /// A read from the pty master failed, and the failure did not mean
    /// that the slave side hung up.
    ReadPty { code: Option<i32> },
    /// A read from the caller-supplied input source failed.
    ReadTerminal { code: Option<i32> },
    /// Applying a pending size change to the pty failed.
    ResizePty { code: Option<i32> },
    /// The child process could not be spawned; `cmd` is the command that
    /// was attempted.
    SpawnProcess { cmd: String, code: Option<i32> },
    /// A write into the pty master failed.
    WritePty { code: Option<i32> },
    /// The terminal-size signal source failed.
    Resize { code: Option<i32> },
}

/// Mathematical image of an [`Error`]: the same variants, with the
/// attempted command as a sequence of characters.
pub ghost enum ErrorV {
    OpenPty { code: Option<i32> },
    ProcessExitPoll { code: Option<i32> },
    ReadPty { code: Option<i32> },
    ReadTerminal { code: Option<i32> },
    ResizePty { code: Option<i32> },
    SpawnProcess { cmd: Seq<char>, code: Option<i32> },
    WritePty { code: Option<i32> },
    Resize { code: Option<i32> },
}

impl View for Error {
    type V = ErrorV;

    open spec fn view(&self) -> ErrorV {
        match self {
            Error::OpenPty { code } => ErrorV::OpenPty { code: *code },
            Error::ProcessExitPoll { code } => ErrorV::ProcessExitPoll { code: *code },
            Error::ReadPty { code } => ErrorV::ReadPty { code: *code },
            Error::ReadTerminal { code } => ErrorV::ReadTerminal { code: *code },
            Error::ResizePty { code } => ErrorV::ResizePty { code: *code },
            Error::SpawnProcess { cmd, code } => ErrorV::SpawnProcess {
                cmd: cmd@,
                code: *code,
            },
            Error::WritePty { code } => ErrorV::WritePty { code: *code },
            Error::Resize { code } => ErrorV::Resize { code: *code },
        }
    }
}

} // verus!
