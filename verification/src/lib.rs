//! A pseudo-terminal process driver, modelled as a verified state machine.
//!
//! The engine owns the bookkeeping for a child process attached to a pty:
//! which sub-operation to attempt next, how buffered input moves toward the
//! pty, and when the lifecycle events (`CommandStart`, `Output`,
//! `CommandExit`, `Resize`) may be emitted. The actual probes of the
//! operating system (opening the pty, spawning the child, non-blocking reads
//! and writes, exit polling, resize signals) are performed by the embedding
//! host, which asks the engine what to do next with [`process::Process::advance`]
//! and hands back each probe's outcome with [`process::Process::resume`].

pub mod error;
pub mod event;
pub mod process;
pub mod resize;
pub mod runs;

pub use error::Error;
pub use event::Event;
pub use event::ExitStatus;
pub use process::Process;
pub use resize::ResizingProcess;
