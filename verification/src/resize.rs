//! The resizing engine: composes a terminal-size signal source with a
//! process engine.
//!
//! Each tick first probes the signal source. A detected size change is
//! recorded into the wrapped engine's pending-resize slot and re-exported
//! at once as [`Event::Resize`], taking priority over the process's own
//! events so that a resize is never silently dropped. When no signal is
//! pending, the tick delegates to the wrapped engine and passes its
//! probes and outcomes through verbatim.

use vstd::prelude::*;

use crate::error::{Error, ErrorV};
use crate::event::{Event, EventV};
use crate::process::{
    apply_reply, reply_fits, scan_from, Action, ActionV, Outcome, OutcomeV, Phase, ProcState,
    Process, Reply, ReplyV, Step, StepV,
};

verus! {

/// Which probe, if any, the resizing engine is waiting on.
#[derive(Debug, Clone, Copy, PartialEq, Eq)]
pub enum ResizePhase {
    /// Between ticks.
    Idle,
    /// Waiting for the outcome of `PollSignal`.
    AwaitSignal,
    /// The wrapped process engine is waiting on a probe of its own.
    Inner,
}

/// Mathematical state of a resizing engine.
#[verifier::ext_equal]
pub ghost struct ResizeState {
    /// The wrapped process engine's state.
    pub inner: ProcState,
    /// The probe the resizing engine is waiting on, if any.
    pub rphase: ResizePhase,
    /// A fatal failure was reported; the engine must not be advanced.
    pub failed: bool,
}

impl ResizeState {
    /// Well-formedness: the wrapped engine is well-formed, and the two
    /// layers' phases agree on who is waiting.
    pub open spec fn wf(self) -> bool {
        &&& self.inner.wf()
        &&& (self.failed ==> self.rphase is Idle)
        &&& (self.inner.failed ==> self.failed)
        &&& (self.rphase is Idle ==> self.inner.phase is Idle)
        &&& (self.rphase is AwaitSignal ==> self.inner.phase is Idle
            && !self.inner.failed)
        &&& (self.rphase is Inner ==> !(self.inner.phase is Idle))
    }
}

/// Beginning a tick: the signal source is always probed first.
pub open spec fn r_advance(s: ResizeState) -> (ResizeState, StepV) {
    (
        ResizeState { rphase: ResizePhase::AwaitSignal, ..s },
        StepV::Need(ActionV::PollSignal),
    )
}

/// Wraps one step of the wrapped engine: its probes keep the resizing
/// engine delegating, its tick outcomes pass through verbatim, and a
/// failure latches at this layer too.
pub open spec fn lift(s: ResizeState, st: StepV) -> (ResizeState, StepV) {
    match st {
        StepV::Need(a) => (ResizeState { rphase: ResizePhase::Inner, ..s }, StepV::Need(a)),
        StepV::Tick(o) => (
            ResizeState { rphase: ResizePhase::Idle, failed: s.failed || o is Fail, ..s },
            StepV::Tick(o),
        ),
    }
}

/// Which replies answer the probe the resizing engine is waiting on.
pub open spec fn r_reply_fits(s: ResizeState, r: ReplyV) -> bool {
    match s.rphase {
        ResizePhase::Idle => false,
        ResizePhase::AwaitSignal => r is Signal || r is Blocked || r is Failed,
        ResizePhase::Inner => reply_fits(s.inner, r),
    }
}

/// The transition the resizing engine makes on a reply. A new size is
/// recorded into the wrapped engine (overwriting an older unapplied
/// request) and emitted as `Resize` at once; a quiet signal source hands
/// the tick over to the wrapped engine; replies to the wrapped engine's
/// own probes are forwarded.
pub open spec fn r_apply(s: ResizeState, r: ReplyV) -> (ResizeState, StepV) {
    match s.rphase {
        // Not reached: `resume` may only be called while a probe is
        // outstanding.
        ResizePhase::Idle => (s, StepV::Tick(OutcomeV::Suspend)),
        ResizePhase::AwaitSignal => match r {
            ReplyV::Signal(rows, cols) => (
                ResizeState {
                    inner: ProcState { needs_resize: Some((rows, cols)), ..s.inner },
                    rphase: ResizePhase::Idle,
                    ..s
                },
                StepV::Tick(OutcomeV::Event(EventV::Resize(rows, cols))),
            ),
            ReplyV::Failed(code) => (
                ResizeState { rphase: ResizePhase::Idle, failed: true, ..s },
                StepV::Tick(OutcomeV::Fail(ErrorV::Resize { code })),
            ),
            _ => {
                let (i2, st) = scan_from(s.inner, 0);
                lift(ResizeState { inner: i2, ..s }, st)
            },
        },
        ResizePhase::Inner => {
            let (i2, st) = apply_reply(s.inner, r);
            lift(ResizeState { inner: i2, ..s }, st)
        },
    }
}

/// Any single transition the resizing engine can make: an `advance` from
/// an idle, unfailed state (`r == None`), or a `resume` with a fitting
/// reply.
pub open spec fn r_steps_to(
    s: ResizeState,
    r: Option<ReplyV>,
    s2: ResizeState,
    out: StepV,
) -> bool {
    match r {
        None => s.rphase is Idle && !s.failed && (s2, out) == r_advance(s),
        Some(rv) => r_reply_fits(s, rv) && (s2, out) == r_apply(s, rv),
    }
}

/// A wrapper around [`Process`] which listens for terminal-size signals
/// and propagates the detected sizes into the process running on the pty,
/// re-exporting each as an [`Event::Resize`].
pub struct ResizingProcess<R> {
    process: Process<R>,
    rphase: ResizePhase,
    failed: bool,
}

impl<R> View for ResizingProcess<R> {
    type V = ResizeState;

    closed spec fn view(&self) -> ResizeState {
        ResizeState { inner: self.process@, rphase: self.rphase, failed: self.failed }
    }
}

impl<R> ResizingProcess<R> {
    /// The input source held by the wrapped engine.
    pub closed spec fn input_src(&self) -> R {
        self.process.input_src()
    }

    /// Creates a `ResizingProcess` as a wrapper around the given
    /// [`Process`], which must not have been driven into a waiting or
    /// failed state.
    pub fn new(process: Process<R>) -> (p: Self)
        requires
            process@.wf(),
            process@.phase is Idle,
            !process@.failed,
        ensures
            p@ == (ResizeState {
                inner: process@,
                rphase: ResizePhase::Idle,
                failed: false,
            }),
            p@.wf(),
            p.input_src() == process.input_src(),
    {
        ResizingProcess { process, rphase: ResizePhase::Idle, failed: false }
    }

    /// A mutable reference to the input source handed to the wrapped
    /// engine's constructor. Neither engine's state is touched, whatever
    /// the host does through it.
    pub fn input(&mut self) -> (r: &mut R)
        ensures
            *r == old(self).input_src(),
            final(self).input_src() == *final(r),
            final(self)@ == old(self)@,
    {
        self.process.input()
    }

    /// Begins a tick: the signal source is probed before anything of the
    /// wrapped engine, so a detected resize is never starved by a backlog
    /// of process events.
    pub fn advance(&mut self) -> (step: Step)
        requires
            old(self)@.wf(),
            old(self)@.rphase is Idle,
            !old(self)@.failed,
        ensures
            final(self)@.wf(),
            final(self)@ == r_advance(old(self)@).0,
            step@ == r_advance(old(self)@).1,
            final(self).input_src() == old(self).input_src(),
    {
        self.rphase = ResizePhase::AwaitSignal;
        Step::Need(Action::PollSignal)
    }

    /// Hands the engine the outcome of the probe it was waiting on.
    pub fn resume(&mut self, r: Reply) -> (step: Step)
        requires
            old(self)@.wf(),
            r_reply_fits(old(self)@, r@),
        ensures
            final(self)@.wf(),
            final(self)@ == r_apply(old(self)@, r@).0,
            step@ == r_apply(old(self)@, r@).1,
            final(self).input_src() == old(self).input_src(),
    {
        match self.rphase {
            ResizePhase::Idle => {
                // Excluded by `r_reply_fits`.
                proof {
                    assert(false);
                }
                Step::Tick(Outcome::Suspend)
            }
            ResizePhase::AwaitSignal => match r {
                Reply::Signal(rows, cols) => {
                    self.rphase = ResizePhase::Idle;
                    self.process.resize(rows, cols);
                    Step::Tick(Outcome::Event(Event::Resize(rows, cols)))
                }
                Reply::Failed(code) => {
                    self.rphase = ResizePhase::Idle;
                    self.failed = true;
                    Step::Tick(Outcome::Fail(Error::Resize { code }))
                }
                _ => {
                    let st = self.process.advance();
                    self.lift_step(st)
                }
            },
            ResizePhase::Inner => {
                let st = self.process.resume(r);
                self.lift_step(st)
            }
        }
    }

    /// Wraps one step of the inner engine, as [`lift`] describes.
    fn lift_step(&mut self, st: Step) -> (out: Step)
        ensures
            final(self)@ == lift(old(self)@, st@).0,
            out@ == lift(old(self)@, st@).1,
            final(self).input_src() == old(self).input_src(),
    {
        match &st {
            Step::Need(_) => {
                self.rphase = ResizePhase::Inner;
            }
            Step::Tick(Outcome::Fail(_)) => {
                self.rphase = ResizePhase::Idle;
                self.failed = true;
            }
            Step::Tick(_) => {
                self.rphase = ResizePhase::Idle;
            }
        }
        st
    }
}

// The laws of the composed machine.

/// LAW: every transition of the resizing engine keeps it well-formed,
/// keeps the wrapped engine's identity — its command and arguments never
/// change — and never un-sets the wrapped engine's monotone flags.
pub proof fn lemma_r_wf_preserved(s: ResizeState, r: Option<ReplyV>, s2: ResizeState, out: StepV)
    requires
        s.wf(),
        r_steps_to(s, r, s2, out),
    ensures
        s2.wf(),
        s2.inner.cmd == s.inner.cmd,
        s2.inner.args == s.inner.args,
        s.inner.started ==> s2.inner.started,
        s.inner.exited ==> s2.inner.exited,
        s.inner.stdout_closed ==> s2.inner.stdout_closed,
        s.inner.stdin_closed ==> s2.inner.stdin_closed,
{
    match r {
        Some(rv) => {
            if s.rphase is AwaitSignal && rv is Blocked {
                let (i2, st) = scan_from(s.inner, 0);
                crate::process::lemma_identity_and_wf_preserved(s.inner, None, i2, st);
                crate::process::lemma_flags_monotone(s.inner, None, i2, st);
            }
            if s.rphase is Inner {
                let (i2, st) = apply_reply(s.inner, rv);
                crate::process::lemma_identity_and_wf_preserved(s.inner, Some(rv), i2, st);
                crate::process::lemma_flags_monotone(s.inner, Some(rv), i2, st);
            }
        }
        None => {}
    }
}

/// LAW: a detected size change is recorded into the wrapped engine as its
/// (single, most recent) pending resize request and re-exported at once
/// as `Resize` — before any further process event.
pub proof fn lemma_signal_recorded(
    s: ResizeState,
    rows: u16,
    cols: u16,
    s2: ResizeState,
    out: StepV,
)
    requires
        s.wf(),
        r_steps_to(s, Some(ReplyV::Signal(rows, cols)), s2, out),
    ensures
        s2.inner.needs_resize == Some((rows, cols)),
        out == StepV::Tick(OutcomeV::Event(EventV::Resize(rows, cols))),
{
}

/// LAW: even through the resizing layer, a resize is never applied to the
/// pty before the child has started: a signal that arrives earlier stays
/// buffered in the pending-resize slot until after `CommandStart`.
pub proof fn lemma_layer_resize_waits_for_start(
    s: ResizeState,
    r: Option<ReplyV>,
    s2: ResizeState,
    out: StepV,
)
    requires
        s.wf(),
        r_steps_to(s, r, s2, out),
    ensures
        out matches StepV::Need(ActionV::ApplyResize(rows, cols))
            ==> s.inner.started && s.inner.pty_open,
{
    match r {
        Some(rv) => {
            if s.rphase is AwaitSignal && rv is Blocked {
                let (i2, st) = scan_from(s.inner, 0);
                crate::process::lemma_resize_waits_for_start(s.inner, None, i2, st);
            }
            if s.rphase is Inner {
                let (i2, st) = apply_reply(s.inner, rv);
                crate::process::lemma_resize_waits_for_start(s.inner, Some(rv), i2, st);
            }
        }
        None => {}
    }
}

/// LAW: while the wrapped engine is mid-probe, the resizing layer
/// forwards the reply and re-exports the wrapped engine's step verbatim:
/// events, exhaustion, suspension and failures pass through unchanged.
pub proof fn lemma_process_steps_pass_through(
    s: ResizeState,
    rv: ReplyV,
    s2: ResizeState,
    out: StepV,
)
    requires
        s.wf(),
        s.rphase is Inner,
        r_steps_to(s, Some(rv), s2, out),
    ensures
        out == apply_reply(s.inner, rv).1,
        s2.inner == apply_reply(s.inner, rv).0,
{
}

} // verus!
