//! The process engine: a verified state machine over pty sub-operations.
//!
//! The engine never touches the operating system itself. Instead it keeps
//! the state of the child process's lifecycle, and runs the fixed-priority
//! scan over its six sub-operations (command start, command exit, resize,
//! read from the input source, write into the pty, read from the pty).
//! Whenever a sub-operation needs to probe a real resource, the engine
//! hands the host an [`Action`] and waits; the host performs the probe and
//! answers with a [`Reply`], upon which the engine takes its verified
//! transition and either asks for the next probe or concludes the tick.
//!
//! The spec functions [`scan_from`] and [`apply_reply`] are the
//! mathematical statement of that machine; `advance` and `resume` are
//! proved to implement them exactly.

use vstd::prelude::*;

use crate::error::{Error, ErrorV};
use crate::event::{Event, EventV, ExitStatus};
use std::collections::VecDeque;

verus! {

/// The end-of-transmission marker byte, queued for the child when the
/// input source is exhausted.
pub const EOT: u8 = 4;

/// A probe of a real resource that the engine asks the host to perform.
#[derive(Debug, Clone, PartialEq, Eq)]
pub enum Action {
    /// Open the pty master device.
    OpenPty,
    /// Spawn the child process attached to the pty's slave side.
    Spawn,
    /// Probe the child for its exit status, without blocking.
    PollExit,
    /// Apply the recorded terminal size `(rows, cols)` to the pty device.
    ApplyResize(u16, u16),
    /// One non-blocking read from the caller-supplied input source.
    ReadInput,
    /// One non-blocking write of the given bytes into the pty; the host
    /// reports how many of them the pty accepted.
    WritePty(Vec<u8>),
    /// One non-blocking read from the pty master.
    ReadPty,
    /// One non-blocking probe of the terminal-size signal source.
    /// Requested by the resizing engine only, never by the process engine.
    PollSignal,
}

/// Mathematical image of an [`Action`].
pub ghost enum ActionV {
    OpenPty,
    Spawn,
    PollExit,
    ApplyResize(u16, u16),
    ReadInput,
    WritePty(Seq<u8>),
    ReadPty,
    PollSignal,
}

impl View for Action {
    type V = ActionV;

    open spec fn view(&self) -> ActionV {
        match self {
            Action::OpenPty => ActionV::OpenPty,
            Action::Spawn => ActionV::Spawn,
            Action::PollExit => ActionV::PollExit,
            Action::ApplyResize(rows, cols) => ActionV::ApplyResize(*rows, *cols),
            Action::ReadInput => ActionV::ReadInput,
            Action::WritePty(bytes) => ActionV::WritePty(bytes@),
            Action::ReadPty => ActionV::ReadPty,
            Action::PollSignal => ActionV::PollSignal,
        }
    }
}

/// The outcome of the probe the host performed, handed back to the engine.
#[derive(Debug, Clone, PartialEq, Eq)]
pub enum Reply {
    /// `OpenPty` succeeded.
    Opened,
    /// `Spawn` succeeded.
    Spawned,
    /// `PollExit` found that the child exited with this status.
    Exited(ExitStatus),
    /// `ApplyResize` succeeded.
    Resized,
    /// `ReadInput` read these bytes; an empty read means the input source
    /// is exhausted.
    Input(Vec<u8>),
    /// `WritePty` wrote this many bytes into the pty.
    Wrote(usize),
    /// `ReadPty` read these bytes; an empty read means nothing was ready.
    Output(Vec<u8>),
    /// `ReadPty` failed because the slave side hung up: end of output,
    /// not an error.
    Hangup,
    /// `PollSignal` found a new terminal size `(rows, cols)`.
    /// Meaningful to the resizing engine only.
    Signal(u16, u16),
    /// The probe found its resource not ready; nothing was done.
    Blocked,
    /// The probe failed, with the raw OS error code where one was
    /// available.
    Failed(Option<i32>),
}

/// Mathematical image of a [`Reply`].
pub ghost enum ReplyV {
    Opened,
    Spawned,
    Exited(ExitStatus),
    Resized,
    Input(Seq<u8>),
    Wrote(usize),
    Output(Seq<u8>),
    Hangup,
    Signal(u16, u16),
    Blocked,
    Failed(Option<i32>),
}

impl View for Reply {
    type V = ReplyV;

    open spec fn view(&self) -> ReplyV {
        match self {
            Reply::Opened => ReplyV::Opened,
            Reply::Spawned => ReplyV::Spawned,
            Reply::Exited(status) => ReplyV::Exited(*status),
            Reply::Resized => ReplyV::Resized,
            Reply::Input(bytes) => ReplyV::Input(bytes@),
            Reply::Wrote(n) => ReplyV::Wrote(*n),
            Reply::Output(bytes) => ReplyV::Output(bytes@),
            Reply::Hangup => ReplyV::Hangup,
            Reply::Signal(rows, cols) => ReplyV::Signal(*rows, *cols),
            Reply::Blocked => ReplyV::Blocked,
            Reply::Failed(code) => ReplyV::Failed(*code),
        }
    }
}

/// How one tick of the engine concluded.
#[derive(Debug, Clone, PartialEq, Eq)]
pub enum Outcome {
    /// The tick produced this event.
    Event(Event),
    /// The event stream is over: the child exited and `CommandExit` was
    /// already emitted. Every later tick concludes the same way.
    Exhausted,
    /// No sub-operation could make progress; the host must wait until a
    /// watched resource becomes ready and then advance again.
    Suspend,
    /// A sub-operation failed fatally. The engine must not be advanced
    /// again.
    Fail(Error),
}

/// Mathematical image of an [`Outcome`].
pub ghost enum OutcomeV {
    Event(EventV),
    Exhausted,
    Suspend,
    Fail(ErrorV),
}

impl View for Outcome {
    type V = OutcomeV;

    open spec fn view(&self) -> OutcomeV {
        match self {
            Outcome::Event(event) => OutcomeV::Event(event@),
            Outcome::Exhausted => OutcomeV::Exhausted,
            Outcome::Suspend => OutcomeV::Suspend,
            Outcome::Fail(error) => OutcomeV::Fail(error@),
        }
    }
}

/// What one call of `advance` or `resume` reports to the host: either the
/// next probe to perform, or the conclusion of the tick.
#[derive(Debug, Clone, PartialEq, Eq)]
pub enum Step {
    /// Perform this probe and hand its outcome to `resume`.
    Need(Action),
    /// The tick is over, with this outcome.
    Tick(Outcome),
}

/// Mathematical image of a [`Step`].
pub ghost enum StepV {
    Need(ActionV),
    Tick(OutcomeV),
}

impl View for Step {
    type V = StepV;

    open spec fn view(&self) -> StepV {
        match self {
            Step::Need(action) => StepV::Need(action@),
            Step::Tick(outcome) => StepV::Tick(outcome@),
        }
    }
}

/// Which probe, if any, the engine is currently waiting on.
#[derive(Debug, Clone, Copy, PartialEq, Eq)]
pub enum Phase {
    /// Between ticks, or mid-scan with no probe outstanding.
    Idle,
    /// Waiting for the outcome of `OpenPty`.
    AwaitOpen,
    /// Waiting for the outcome of `Spawn`.
    AwaitSpawn,
    /// Waiting for the outcome of `PollExit`.
    AwaitExit,
    /// Waiting for the outcome of `ApplyResize`.
    AwaitResize,
    /// Waiting for the outcome of `ReadInput`.
    AwaitInput,
    /// Waiting for the outcome of `WritePty`.
    AwaitWrite,
    /// Waiting for the outcome of `ReadPty`.
    AwaitOutput,
}

/// Mathematical state of a process engine.
#[verifier::ext_equal]
pub ghost struct ProcState {
    /// The command to spawn.
    pub cmd: Seq<char>,
    /// Its arguments.
    pub args: Seq<Seq<char>>,
    /// Bytes read from the input source and not yet written into the pty,
    /// oldest first.
    pub pending: Seq<u8>,
    /// The pty master device has been opened.
    pub pty_open: bool,
    /// The child was spawned and `CommandStart` was emitted.
    pub started: bool,
    /// The child's exit was observed and `CommandExit` was emitted.
    pub exited: bool,
    /// The input source reported exhaustion; it is never read again.
    pub stdin_closed: bool,
    /// The pty reported hangup; it is never read again, and the exit
    /// probe has become meaningful.
    pub stdout_closed: bool,
    /// The most recent resize request not yet applied to the pty.
    pub needs_resize: Option<(u16, u16)>,
    /// The probe the engine is waiting on, if any.
    pub phase: Phase,
    /// A fatal failure was reported; the engine must not be advanced.
    pub failed: bool,
}

impl ProcState {
    /// Well-formedness: the monotone flags are consistent with one
    /// another, and with the probe the engine is waiting on.
    pub open spec fn wf(self) -> bool {
        &&& (self.started ==> self.pty_open)
        &&& (self.exited ==> self.started && self.stdout_closed)
        &&& (self.stdout_closed ==> self.started)
        &&& (self.stdin_closed ==> self.started)
        &&& (!self.started ==> self.pending.len() == 0)
        &&& (self.exited ==> self.phase is Idle)
        &&& (self.failed ==> self.phase is Idle)
        &&& (self.phase is AwaitOpen ==> !self.started && !self.pty_open)
        &&& (self.phase is AwaitSpawn ==> !self.started && self.pty_open)
        &&& (self.phase is AwaitExit ==> self.stdout_closed && !self.exited)
        &&& (self.phase is AwaitResize ==> self.started && !self.exited
            && self.needs_resize is Some)
        &&& (self.phase is AwaitInput ==> self.started && !self.exited && !self.stdin_closed)
        &&& (self.phase is AwaitWrite ==> self.started && !self.exited
            && self.pending.len() > 0)
        &&& (self.phase is AwaitOutput ==> self.started && !self.stdout_closed)
    }
}

/// The state after a fatal failure, paired with the report of it.
pub open spec fn fail_state(s: ProcState, e: ErrorV) -> (ProcState, StepV) {
    (
        ProcState { phase: Phase::Idle, failed: true, ..s },
        StepV::Tick(OutcomeV::Fail(e)),
    )
}

/// One scan over the six sub-operations in their fixed priority order,
/// starting at step `from` (0 = command start, 1 = command exit,
/// 2 = resize, 3 = read from the input source, 4 = write into the pty,
/// 5 = read from the pty). The first sub-operation whose guard holds
/// determines the probe the engine waits on; if none does, the tick
/// concludes `Suspend`, or `Exhausted` once the child has exited.
pub open spec fn scan_from(s: ProcState, from: int) -> (ProcState, StepV) {
    if from <= 0 && !s.started {
        if !s.pty_open {
            (ProcState { phase: Phase::AwaitOpen, ..s }, StepV::Need(ActionV::OpenPty))
        } else {
            (ProcState { phase: Phase::AwaitSpawn, ..s }, StepV::Need(ActionV::Spawn))
        }
    } else if from <= 1 && s.exited {
        (ProcState { phase: Phase::Idle, ..s }, StepV::Tick(OutcomeV::Exhausted))
    } else if from <= 1 && s.stdout_closed {
        (ProcState { phase: Phase::AwaitExit, ..s }, StepV::Need(ActionV::PollExit))
    } else if from <= 2 && s.needs_resize is Some {
        (
            ProcState { phase: Phase::AwaitResize, ..s },
            StepV::Need(ActionV::ApplyResize(s.needs_resize.unwrap().0, s.needs_resize.unwrap().1)),
        )
    } else if from <= 3 && !s.exited && !s.stdin_closed {
        (ProcState { phase: Phase::AwaitInput, ..s }, StepV::Need(ActionV::ReadInput))
    } else if from <= 4 && !s.exited && s.pending.len() > 0 {
        (ProcState { phase: Phase::AwaitWrite, ..s }, StepV::Need(ActionV::WritePty(s.pending)))
    } else if from <= 5 && !s.stdout_closed {
        (ProcState { phase: Phase::AwaitOutput, ..s }, StepV::Need(ActionV::ReadPty))
    } else {
        (ProcState { phase: Phase::Idle, ..s }, StepV::Tick(OutcomeV::Suspend))
    }
}

/// Which replies answer the probe the engine is waiting on. `resume` may
/// only be handed a fitting reply.
pub open spec fn reply_fits(s: ProcState, r: ReplyV) -> bool {
    match s.phase {
        Phase::Idle => false,
        Phase::AwaitOpen => r is Opened || r is Failed,
        Phase::AwaitSpawn => r is Spawned || r is Failed,
        Phase::AwaitExit => r is Exited || r is Blocked || r is Failed,
        Phase::AwaitResize => r is Resized || r is Blocked || r is Failed,
        Phase::AwaitInput => r is Input || r is Blocked || r is Failed,
        Phase::AwaitWrite => (r matches ReplyV::Wrote(n) && n <= s.pending.len())
            || r is Blocked || r is Failed,
        Phase::AwaitOutput => r is Output || r is Hangup || r is Blocked || r is Failed,
    }
}

/// The transition the engine makes when the host hands back `r` as the
/// outcome of the probe it was waiting on. A sub-operation that made
/// progress without producing an event restarts the scan from the top;
/// one that found its resource not ready lets the scan continue with the
/// next sub-operation; an event, exhaustion or a failure concludes the
/// tick at once.
pub open spec fn apply_reply(s: ProcState, r: ReplyV) -> (ProcState, StepV) {
    let idle = ProcState { phase: Phase::Idle, ..s };
    match s.phase {
        // Not reached: `resume` may only be called while a probe is
        // outstanding.
        Phase::Idle => (s, StepV::Tick(OutcomeV::Suspend)),
        Phase::AwaitOpen => match r {
            ReplyV::Failed(code) => fail_state(s, ErrorV::OpenPty { code }),
            _ => scan_from(ProcState { pty_open: true, phase: Phase::Idle, ..s }, 0),
        },
        Phase::AwaitSpawn => match r {
            ReplyV::Failed(code) => fail_state(s, ErrorV::SpawnProcess { cmd: s.cmd, code }),
            _ => (
                ProcState { started: true, phase: Phase::Idle, ..s },
                StepV::Tick(OutcomeV::Event(EventV::CommandStart(s.cmd, s.args))),
            ),
        },
        Phase::AwaitExit => match r {
            ReplyV::Exited(status) => (
                ProcState { exited: true, phase: Phase::Idle, ..s },
                StepV::Tick(OutcomeV::Event(EventV::CommandExit(status))),
            ),
            ReplyV::Failed(code) => fail_state(s, ErrorV::ProcessExitPoll { code }),
            _ => scan_from(idle, 2),
        },
        Phase::AwaitResize => match r {
            ReplyV::Resized => scan_from(
                ProcState { needs_resize: None, phase: Phase::Idle, ..s },
                0,
            ),
            ReplyV::Failed(code) => fail_state(s, ErrorV::ResizePty { code }),
            _ => scan_from(idle, 3),
        },
        Phase::AwaitInput => match r {
            ReplyV::Input(bytes) => if bytes.len() > 0 {
                scan_from(
                    ProcState { pending: s.pending + bytes, phase: Phase::Idle, ..s },
                    0,
                )
            } else {
                scan_from(
                    ProcState {
                        pending: s.pending.push(EOT),
                        stdin_closed: true,
                        phase: Phase::Idle,
                        ..s
                    },
                    0,
                )
            },
            ReplyV::Failed(code) => fail_state(s, ErrorV::ReadTerminal { code }),
            _ => scan_from(idle, 4),
        },
        Phase::AwaitWrite => match r {
            ReplyV::Wrote(n) => scan_from(
                ProcState { pending: s.pending.skip(n as int), phase: Phase::Idle, ..s },
                0,
            ),
            ReplyV::Failed(code) => fail_state(s, ErrorV::WritePty { code }),
            _ => scan_from(idle, 5),
        },
        Phase::AwaitOutput => match r {
            ReplyV::Output(bytes) => if bytes.len() > 0 {
                (idle, StepV::Tick(OutcomeV::Event(EventV::Output(bytes))))
            } else {
                scan_from(idle, 6)
            },
            ReplyV::Hangup => scan_from(
                ProcState { stdout_closed: true, phase: Phase::Idle, ..s },
                0,
            ),
            ReplyV::Failed(code) => fail_state(s, ErrorV::ReadPty { code }),
            _ => scan_from(idle, 6),
        },
    }
}

/// Any single transition the engine can make: an `advance` from an idle,
/// unfailed state (`r == None`), or a `resume` with a fitting reply.
pub open spec fn steps_to(s: ProcState, r: Option<ReplyV>, s2: ProcState, out: StepV) -> bool {
    match r {
        None => s.phase is Idle && !s.failed && (s2, out) == scan_from(s, 0),
        Some(rv) => reply_fits(s, rv) && (s2, out) == apply_reply(s, rv),
    }
}

/// A child process driven on a pseudo-terminal, as an event stream.
///
/// `R` is the caller-supplied input source; the engine only stores it and
/// hands it back through [`Process::input`] — every read of it is a probe
/// the host performs.
pub struct Process<R> {
    input: R,
    input_buf: VecDeque<u8>,
    cmd: String,
    args: Vec<String>,
    pty_open: bool,
    started: bool,
    exited: bool,
    stdin_closed: bool,
    stdout_closed: bool,
    needs_resize: Option<(u16, u16)>,
    phase: Phase,
    failed: bool,
}

impl<R> View for Process<R> {
    type V = ProcState;

    closed spec fn view(&self) -> ProcState {
        ProcState {
            cmd: self.cmd@,
            args: self.args.deep_view(),
            pending: self.input_buf@,
            pty_open: self.pty_open,
            started: self.started,
            exited: self.exited,
            stdin_closed: self.stdin_closed,
            stdout_closed: self.stdout_closed,
            needs_resize: self.needs_resize,
            phase: self.phase,
            failed: self.failed,
        }
    }
}

impl<R> Process<R> {
    /// The caller-supplied input source held by the engine.
    pub closed spec fn input_src(&self) -> R {
        self.input
    }

    /// Creates an engine for `cmd` with arguments `args`, reading the
    /// child's standard input from `input`. No probe is performed: the
    /// pty is opened and the child spawned only when the engine is first
    /// advanced.
    pub fn new(cmd: &str, args: &[String], input: R) -> (p: Self)
        ensures
            p@ == (ProcState {
                cmd: cmd@,
                args: args.deep_view(),
                pending: Seq::<u8>::empty(),
                pty_open: false,
                started: false,
                exited: false,
                stdin_closed: false,
                stdout_closed: false,
                needs_resize: None,
                phase: Phase::Idle,
                failed: false,
            }),
            p@.wf(),
            p.input_src() == input,
    {
        let p = Process {
            input,
            input_buf: VecDeque::new(),
            cmd: cmd.to_owned(),
            args: clone_string_slice(args),
            pty_open: false,
            started: false,
            exited: false,
            stdin_closed: false,
            stdout_closed: false,
            needs_resize: None,
            phase: Phase::Idle,
            failed: false,
        };
        proof {
            assert(p@ =~= ProcState {
                cmd: cmd@,
                args: args.deep_view(),
                pending: Seq::<u8>::empty(),
                pty_open: false,
                started: false,
                exited: false,
                stdin_closed: false,
                stdout_closed: false,
                needs_resize: None,
                phase: Phase::Idle,
                failed: false,
            });
        }
        p
    }

    /// Records a resize request for the pty. A later request overwrites
    /// an earlier one that has not been applied yet: only the most recent
    /// size is ever applied.
    pub fn resize(&mut self, rows: u16, cols: u16)
        requires
            old(self)@.wf(),
            old(self)@.phase is Idle,
        ensures
            final(self)@ == (ProcState { needs_resize: Some((rows, cols)), ..old(self)@ }),
            final(self)@.wf(),
            final(self).input_src() == old(self).input_src(),
    {
        self.needs_resize = Some((rows, cols));
        proof {
            assert(self@ =~= ProcState { needs_resize: Some((rows, cols)), ..old(self)@ });
        }
    }

    /// A mutable reference to the input source handed to [`Process::new`],
    /// for the host to read from or to inject bytes into. The engine's
    /// own state is untouched, whatever the host does through it.
    pub fn input(&mut self) -> (r: &mut R)
        ensures
            *r == old(self).input_src(),
            final(self).input_src() == *final(r),
            final(self)@ == old(self)@,
    {
        &mut self.input
    }

    /// Begins or continues a tick: scans the sub-operations from the top
    /// and reports the first probe needed, or the tick's conclusion.
    pub fn advance(&mut self) -> (step: Step)
        requires
            old(self)@.wf(),
            old(self)@.phase is Idle,
            !old(self)@.failed,
        ensures
            final(self)@.wf(),
            final(self)@ == scan_from(old(self)@, 0).0,
            step@ == scan_from(old(self)@, 0).1,
            final(self).input_src() == old(self).input_src(),
    {
        self.scan(0)
    }

    /// Hands the engine the outcome of the probe it was waiting on; the
    /// engine takes its transition and reports the next probe or the
    /// tick's conclusion.
    pub fn resume(&mut self, r: Reply) -> (step: Step)
        requires
            old(self)@.wf(),
            reply_fits(old(self)@, r@),
        ensures
            final(self)@.wf(),
            final(self)@ == apply_reply(old(self)@, r@).0,
            step@ == apply_reply(old(self)@, r@).1,
            final(self).input_src() == old(self).input_src(),
    {
        match self.phase {
            Phase::Idle => {
                // Excluded by `reply_fits`.
                proof {
                    assert(false);
                }
                Step::Tick(Outcome::Suspend)
            }
            Phase::AwaitOpen => match r {
                Reply::Failed(code) => self.fail_step(Error::OpenPty { code }),
                _ => {
                    self.pty_open = true;
                    self.phase = Phase::Idle;
                    self.scan(0)
                }
            },
            Phase::AwaitSpawn => match r {
                Reply::Failed(code) => {
                    let cmd = self.cmd.clone();
                    self.fail_step(Error::SpawnProcess { cmd, code })
                }
                _ => {
                    self.started = true;
                    self.phase = Phase::Idle;
                    let cmd = self.cmd.clone();
                    let args_slice = self.args.as_slice();
                    let args = clone_string_slice(args_slice);
                    proof {
                        assert(args.deep_view() =~= self.args.deep_view());
                    }
                    Step::Tick(Outcome::Event(Event::CommandStart(cmd, args)))
                }
            },
            Phase::AwaitExit => match r {
                Reply::Exited(status) => {
                    self.exited = true;
                    self.phase = Phase::Idle;
                    Step::Tick(Outcome::Event(Event::CommandExit(status)))
                }
                Reply::Failed(code) => self.fail_step(Error::ProcessExitPoll { code }),
                _ => {
                    self.phase = Phase::Idle;
                    self.scan(2)
                },
            },
            Phase::AwaitResize => match r {
                Reply::Resized => {
                    self.needs_resize = None;
                    self.phase = Phase::Idle;
                    self.scan(0)
                }
                Reply::Failed(code) => self.fail_step(Error::ResizePty { code }),
                _ => {
                    self.phase = Phase::Idle;
                    self.scan(3)
                },
            },
            Phase::AwaitInput => match r {
                Reply::Input(bytes) => {
                    if bytes.len() > 0 {
                        push_all(&mut self.input_buf, &bytes);
                    } else {
                        self.input_buf.push_back(EOT);
                        self.stdin_closed = true;
                    }
                    self.phase = Phase::Idle;
                    self.scan(0)
                }
                Reply::Failed(code) => self.fail_step(Error::ReadTerminal { code }),
                _ => {
                    self.phase = Phase::Idle;
                    self.scan(4)
                },
            },
            Phase::AwaitWrite => match r {
                Reply::Wrote(n) => {
                    drop_front(&mut self.input_buf, n);
                    self.phase = Phase::Idle;
                    self.scan(0)
                }
                Reply::Failed(code) => self.fail_step(Error::WritePty { code }),
                _ => {
                    self.phase = Phase::Idle;
                    self.scan(5)
                },
            },
            Phase::AwaitOutput => match r {
                Reply::Output(bytes) => {
                    if bytes.len() > 0 {
                        self.phase = Phase::Idle;
                        Step::Tick(Outcome::Event(Event::Output(bytes)))
                    } else {
                        self.phase = Phase::Idle;
                        self.scan(6)
                    }
                }
                Reply::Hangup => {
                    self.stdout_closed = true;
                    self.phase = Phase::Idle;
                    self.scan(0)
                }
                Reply::Failed(code) => self.fail_step(Error::ReadPty { code }),
                _ => {
                    self.phase = Phase::Idle;
                    self.scan(6)
                },
            },
        }
    }

    /// Latches the failure and concludes the tick with it.
    fn fail_step(&mut self, e: Error) -> (step: Step)
        ensures
            final(self)@ == fail_state(old(self)@, e@).0,
            step@ == fail_state(old(self)@, e@).1,
            final(self).input_src() == old(self).input_src(),
    {
        self.phase = Phase::Idle;
        self.failed = true;
        proof {
            assert(self@ =~= fail_state(old(self)@, e@).0);
        }
        Step::Tick(Outcome::Fail(e))
    }

    /// The executable scan: mirrors [`scan_from`] step by step.
    fn scan(&mut self, from: u8) -> (step: Step)
        requires
            old(self)@.wf(),
            old(self)@.phase is Idle,
            !old(self)@.failed,
            from >= 1 ==> old(self)@.started && !old(self)@.exited,
        ensures
            final(self)@.wf(),
            final(self)@ == scan_from(old(self)@, from as int).0,
            step@ == scan_from(old(self)@, from as int).1,
            final(self).input_src() == old(self).input_src(),
    {
        if from <= 0 && !self.started {
            if !self.pty_open {
                self.phase = Phase::AwaitOpen;
                Step::Need(Action::OpenPty)
            } else {
                self.phase = Phase::AwaitSpawn;
                Step::Need(Action::Spawn)
            }
        } else if from <= 1 && self.exited {
            self.phase = Phase::Idle;
            Step::Tick(Outcome::Exhausted)
        } else if from <= 1 && self.stdout_closed {
            self.phase = Phase::AwaitExit;
            Step::Need(Action::PollExit)
        } else if from <= 2 && self.needs_resize.is_some() {
            let (rows, cols) = self.needs_resize.unwrap();
            self.phase = Phase::AwaitResize;
            Step::Need(Action::ApplyResize(rows, cols))
        } else if from <= 3 && !self.exited && !self.stdin_closed {
            self.phase = Phase::AwaitInput;
            Step::Need(Action::ReadInput)
        } else if from <= 4 && !self.exited && self.input_buf.len() > 0 {
            let bytes = deque_to_vec(&self.input_buf);
            self.phase = Phase::AwaitWrite;
            Step::Need(Action::WritePty(bytes))
        } else if from <= 5 && !self.stdout_closed {
            self.phase = Phase::AwaitOutput;
            Step::Need(Action::ReadPty)
        } else {
            self.phase = Phase::Idle;
            Step::Tick(Outcome::Suspend)
        }
    }
}

/// Copies a slice of strings into a new vector, keeping every character.
fn clone_string_slice(v: &[String]) -> (r: Vec<String>)
    ensures
        r.deep_view() == v.deep_view(),
{
    let mut r: Vec<String> = Vec::new();
    let mut i: usize = 0;
    while i < v.len()
        invariant
            i <= v@.len(),
            r@.len() == i,
            forall|j: int| 0 <= j < i ==> r@[j]@ == v@[j]@,
        decreases v@.len() - i,
    {
        r.push(v[i].clone());
        i += 1;
    }
    proof {
        assert(r.deep_view() =~= v.deep_view());
    }
    r
}

/// Copies the contents of the byte queue, oldest first, into a vector.
fn deque_to_vec(q: &VecDeque<u8>) -> (v: Vec<u8>)
    ensures
        v@ == q@,
{
    let mut v: Vec<u8> = Vec::new();
    let mut i: usize = 0;
    while i < q.len()
        invariant
            i <= q@.len(),
            v@ == q@.subrange(0, i as int),
        decreases q@.len() - i,
    {
        v.push(q[i]);
        proof {
            assert(v@ =~= q@.subrange(0, i + 1 as int));
        }
        i += 1;
    }
    proof {
        assert(v@ =~= q@);
    }
    v
}

/// Appends all of `bytes` to the back of the queue, in order.
fn push_all(q: &mut VecDeque<u8>, bytes: &Vec<u8>)
    ensures
        final(q)@ == old(q)@ + bytes@,
{
    let mut i: usize = 0;
    while i < bytes.len()
        invariant
            i <= bytes@.len(),
            q@ == old(q)@ + bytes@.subrange(0, i as int),
        decreases bytes@.len() - i,
    {
        q.push_back(bytes[i]);
        proof {
            assert(q@ =~= old(q)@ + bytes@.subrange(0, i + 1 as int));
        }
        i += 1;
    }
    proof {
        assert(q@ =~= old(q)@ + bytes@);
    }
}

/// Removes the `n` oldest bytes from the front of the queue.
fn drop_front(q: &mut VecDeque<u8>, n: usize)
    requires
        n <= old(q)@.len(),
    ensures
        final(q)@ == old(q)@.skip(n as int),
{
    let mut i: usize = 0;
    while i < n
        invariant
            i <= n,
            n <= old(q)@.len(),
            q@ == old(q)@.skip(i as int),
        decreases n - i,
    {
        q.pop_front();
        proof {
            assert(q@ =~= old(q)@.skip(i + 1 as int));
        }
        i += 1;
    }
    proof {
        assert(q@ =~= old(q)@.skip(n as int));
    }
}

// The laws of the machine. Each proof function below states a property of
// every single transition (`steps_to`); together with the monotonicity of
// the flags they pin down the shape of every run: one `CommandStart`
// first, then output, then exactly one `CommandExit`, and nothing after.

/// LAW: no transition un-sets a flag. Once the engine has opened the pty,
/// started, closed stdin or stdout, observed the exit or failed, it stays
/// so forever.
pub proof fn lemma_flags_monotone(s: ProcState, r: Option<ReplyV>, s2: ProcState, out: StepV)
    requires
        s.wf(),
        steps_to(s, r, s2, out),
    ensures
        s.pty_open ==> s2.pty_open,
        s.started ==> s2.started,
        s.exited ==> s2.exited,
        s.stdin_closed ==> s2.stdin_closed,
        s.stdout_closed ==> s2.stdout_closed,
        s.failed ==> s2.failed,
{
}

/// LAW: while the child has not started, the only event a transition can
/// emit is `CommandStart`, carrying the engine's own command and
/// arguments, and emitting it is exactly what marks the engine started.
/// With [`lemma_start_emitted_once`] and [`lemma_flags_monotone`], every
/// run's event sequence begins with exactly one
/// `CommandStart(command, arguments)`.
pub proof fn lemma_first_event_is_command_start(
    s: ProcState,
    r: Option<ReplyV>,
    s2: ProcState,
    out: StepV,
)
    requires
        s.wf(),
        steps_to(s, r, s2, out),
        !s.started,
    ensures
        out matches StepV::Tick(OutcomeV::Event(e))
            ==> e == EventV::CommandStart(s.cmd, s.args) && s2.started,
{
}

/// LAW: `CommandStart` is emitted exactly by the transition that flips
/// `started` from false to true — by no other transition, and that
/// transition reports nothing else. So it can never be emitted twice.
pub proof fn lemma_start_emitted_once(s: ProcState, r: Option<ReplyV>, s2: ProcState, out: StepV)
    requires
        s.wf(),
        steps_to(s, r, s2, out),
    ensures
        out matches StepV::Tick(OutcomeV::Event(EventV::CommandStart(c, a)))
            ==> !s.started && s2.started && c == s.cmd && a == s.args,
        !s.started && s2.started
            ==> out == StepV::Tick(OutcomeV::Event(EventV::CommandStart(s.cmd, s.args))),
{
}

/// LAW: `CommandExit` is emitted by the transition that observes the
/// exit and by no other, so it can never be emitted twice; and it can
/// only happen once the pty has reported hangup, that is, after the last
/// `Output`.
pub proof fn lemma_exit_emitted_once(s: ProcState, r: Option<ReplyV>, s2: ProcState, out: StepV)
    requires
        s.wf(),
        steps_to(s, r, s2, out),
    ensures
        out matches StepV::Tick(OutcomeV::Event(EventV::CommandExit(status)))
            ==> !s.exited && s2.exited && s.stdout_closed,
        !s.exited && s2.exited
            ==> out matches StepV::Tick(OutcomeV::Event(EventV::CommandExit(_))),
{
}

/// LAW: every transition keeps the engine's identity — the command and
/// its arguments never change — and a well-formed state steps only to
/// well-formed states.
pub proof fn lemma_identity_and_wf_preserved(
    s: ProcState,
    r: Option<ReplyV>,
    s2: ProcState,
    out: StepV,
)
    requires
        s.wf(),
        steps_to(s, r, s2, out),
    ensures
        s2.cmd == s.cmd,
        s2.args == s.args,
        s2.wf(),
{
}

/// LAW: exhaustion is idempotent. Once the child has exited, every
/// further transition reports `Exhausted` and changes nothing — no event
/// can follow `CommandExit`, and the start logic can never run again.
pub proof fn lemma_exhaustion_idempotent(
    s: ProcState,
    r: Option<ReplyV>,
    s2: ProcState,
    out: StepV,
)
    requires
        s.wf(),
        steps_to(s, r, s2, out),
        s.exited,
    ensures
        s2 == s,
        out == StepV::Tick(OutcomeV::Exhausted),
{
    assert(s2 =~= s);
}

/// LAW: the engine asks to apply exactly the resize request it has
/// recorded — the most recent one, since `resize` overwrites — and a
/// successful application clears it. Of several `resize` calls before an
/// application, only the last is ever applied.
pub proof fn lemma_resize_applies_latest(s: ProcState, r: Option<ReplyV>, s2: ProcState, out: StepV)
    requires
        s.wf(),
        steps_to(s, r, s2, out),
    ensures
        out matches StepV::Need(ActionV::ApplyResize(rows, cols))
            ==> s2.needs_resize == Some((rows, cols)),
        s.phase is AwaitResize && r == Some(ReplyV::Resized) ==> s2.needs_resize is None,
{
}

/// LAW: a resize is never applied before the pty exists and the child has
/// started: a request recorded earlier is buffered until after
/// `CommandStart` has been emitted.
pub proof fn lemma_resize_waits_for_start(
    s: ProcState,
    r: Option<ReplyV>,
    s2: ProcState,
    out: StepV,
)
    requires
        s.wf(),
        steps_to(s, r, s2, out),
    ensures
        out matches StepV::Need(ActionV::ApplyResize(rows, cols)) ==> s.started && s.pty_open,
{
}

/// LAW: a fatal failure is terminal. The transition that reports `Fail`
/// emits no event, does not mark the child exited, and latches the
/// failure; and from a failed state no transition is possible at all —
/// so no `CommandExit` can ever follow a failure.
pub proof fn lemma_failure_is_terminal(s: ProcState, r: Option<ReplyV>, s2: ProcState, out: StepV)
    requires
        s.wf(),
        steps_to(s, r, s2, out),
    ensures
        out matches StepV::Tick(OutcomeV::Fail(e)) ==> s2.failed && !s.exited && !s2.exited,
        !s.failed,
{
}

/// LAW: a pty read failure that is not a hangup is surfaced as
/// `Fail(ReadPty)` with the failure's own OS code.
pub proof fn lemma_read_failure_surfaces(
    s: ProcState,
    code: Option<i32>,
    s2: ProcState,
    out: StepV,
)
    requires
        s.wf(),
        s.phase is AwaitOutput,
        steps_to(s, Some(ReplyV::Failed(code)), s2, out),
    ensures
        out == StepV::Tick(OutcomeV::Fail(ErrorV::ReadPty { code })),
        s2.failed,
        !s2.exited,
{
}

/// LAW: a hangup on the pty read is no error: it closes stdout silently,
/// and the very next thing the engine does is probe the child for its
/// exit status.
pub proof fn lemma_hangup_closes_stdout(s: ProcState, s2: ProcState, out: StepV)
    requires
        s.wf(),
        s.phase is AwaitOutput,
        steps_to(s, Some(ReplyV::Hangup), s2, out),
    ensures
        s2.stdout_closed,
        !s2.failed,
        out == StepV::Need(ActionV::PollExit),
{
}

/// LAW: the first exhausted read of the input source closes stdin and
/// enqueues exactly one end-of-transmission byte behind the bytes already
/// buffered.
pub proof fn lemma_stdin_eof(s: ProcState, s2: ProcState, out: StepV)
    requires
        s.wf(),
        s.phase is AwaitInput,
        steps_to(s, Some(ReplyV::Input(Seq::<u8>::empty())), s2, out),
    ensures
        !s.stdin_closed,
        s2.stdin_closed,
        s2.pending == s.pending.push(EOT),
{
}

/// LAW: once stdin is closed, the input source is never read again and
/// the byte queue only drains from the front — so the
/// end-of-transmission byte is enqueued exactly once, no matter how many
/// further transitions occur.
pub proof fn lemma_no_read_after_stdin_closed(
    s: ProcState,
    r: Option<ReplyV>,
    s2: ProcState,
    out: StepV,
)
    requires
        s.wf(),
        steps_to(s, r, s2, out),
        s.stdin_closed,
    ensures
        out != StepV::Need(ActionV::ReadInput),
        s2.stdin_closed,
        s2.pending.len() <= s.pending.len(),
        s2.pending == s.pending.skip(s.pending.len() - s2.pending.len()),
{
    match r {
        Some(rv) => match rv {
            ReplyV::Wrote(n) => {
                assert(s2.pending =~= s.pending.skip(n as int));
            }
            _ => {
                assert(s2.pending =~= s.pending.skip(0));
            }
        },
        None => {
            assert(s2.pending =~= s.pending.skip(0));
        }
    }
}

/// LAW: when the engine asks to write, it offers exactly its buffered
/// bytes, oldest first — input bytes reach the pty in the order they were
/// read.
pub proof fn lemma_write_offers_queue(s: ProcState, r: Option<ReplyV>, s2: ProcState, out: StepV)
    requires
        s.wf(),
        steps_to(s, r, s2, out),
    ensures
        out matches StepV::Need(ActionV::WritePty(b)) ==> b == s2.pending && b.len() > 0,
{
}

} // verus!
