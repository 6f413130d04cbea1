//! Whole runs of the process engine, and the shape of their event streams.
//!
//! A run is a sequence of transitions taken from some starting state —
//! exactly what a host's driving loop produces through `advance` and
//! `resume`. The theorems here lift the per-transition laws of
//! [`crate::process`] to whole runs: every event sequence begins with
//! exactly one `CommandStart`, and `CommandExit` is at most one and
//! nothing follows it.

use vstd::prelude::*;

use crate::event::EventV;
use crate::process::{
    apply_reply, lemma_exhaustion_idempotent, lemma_exit_emitted_once,
    lemma_first_event_is_command_start, lemma_identity_and_wf_preserved,
    lemma_start_emitted_once, scan_from, steps_to, OutcomeV, ProcState, ReplyV, StepV,
};
use crate::resize::{lemma_r_wf_preserved, r_steps_to, ResizeState};

verus! {

/// One transition of a run: the reply that drove it (`None` for an
/// `advance`), the state it reached, and what the engine reported.
pub ghost struct Move {
    pub reply: Option<ReplyV>,
    pub next: ProcState,
    pub report: StepV,
}

/// Whether `tr` is a run of the engine from `s0`: each move is a
/// transition the engine can make, each from the state the previous move
/// reached.
pub open spec fn is_run(s0: ProcState, tr: Seq<Move>) -> bool
    decreases tr.len(),
{
    tr.len() == 0 || {
        &&& steps_to(s0, tr[0].reply, tr[0].next, tr[0].report)
        &&& is_run(tr[0].next, tr.skip(1))
    }
}

/// The events a run emits, in order.
pub open spec fn events_of(tr: Seq<Move>) -> Seq<EventV>
    decreases tr.len(),
{
    if tr.len() == 0 {
        Seq::empty()
    } else {
        (match tr[0].report {
            StepV::Tick(OutcomeV::Event(e)) => seq![e],
            _ => Seq::<EventV>::empty(),
        }) + events_of(tr.skip(1))
    }
}

/// RUN LAW: once the child has started, no run ever emits `CommandStart`
/// again.
pub proof fn lemma_run_no_start_after_started(s0: ProcState, tr: Seq<Move>)
    requires
        s0.wf(),
        s0.started,
        is_run(s0, tr),
    ensures
        forall|i: int| 0 <= i < events_of(tr).len() ==> !(#[trigger] events_of(tr)[i] is CommandStart),
    decreases tr.len(),
{
    if tr.len() > 0 {
        let m = tr[0];
        lemma_identity_and_wf_preserved(s0, m.reply, m.next, m.report);
        lemma_start_emitted_once(s0, m.reply, m.next, m.report);
        crate::process::lemma_flags_monotone(s0, m.reply, m.next, m.report);
        lemma_run_no_start_after_started(m.next, tr.skip(1));
    }
}

/// RUN LAW: the event sequence of any run of a fresh engine begins with
/// exactly one `CommandStart`, and it carries the engine's own command
/// and arguments. (Nothing is emitted at all until the child starts.)
pub proof fn lemma_run_starts_with_command_start(s0: ProcState, tr: Seq<Move>)
    requires
        s0.wf(),
        !s0.started,
        is_run(s0, tr),
    ensures
        events_of(tr).len() > 0 ==> events_of(tr)[0] == EventV::CommandStart(s0.cmd, s0.args),
        forall|i: int| 1 <= i < events_of(tr).len() ==> !(#[trigger] events_of(tr)[i] is CommandStart),
    decreases tr.len(),
{
    if tr.len() > 0 {
        let m = tr[0];
        lemma_identity_and_wf_preserved(s0, m.reply, m.next, m.report);
        lemma_first_event_is_command_start(s0, m.reply, m.next, m.report);
        lemma_start_emitted_once(s0, m.reply, m.next, m.report);
        if m.report matches StepV::Tick(OutcomeV::Event(e)) {
            // The head event is CommandStart(cmd, args) and the child is
            // now started: the tail emits no further CommandStart.
            lemma_run_no_start_after_started(m.next, tr.skip(1));
        } else {
            // No event yet; the child cannot have started silently.
            lemma_run_starts_with_command_start(m.next, tr.skip(1));
        }
    }
}

/// RUN LAW: once the child has exited, a run emits nothing at all.
pub proof fn lemma_run_silent_after_exit(s0: ProcState, tr: Seq<Move>)
    requires
        s0.wf(),
        s0.exited,
        is_run(s0, tr),
    ensures
        events_of(tr) == Seq::<EventV>::empty(),
    decreases tr.len(),
{
    if tr.len() > 0 {
        let m = tr[0];
        lemma_exhaustion_idempotent(s0, m.reply, m.next, m.report);
        lemma_run_silent_after_exit(m.next, tr.skip(1));
        assert(events_of(tr) =~= events_of(tr.skip(1)));
    }
}

/// RUN LAW: `CommandExit` is the last event of any run that emits it: no
/// `Output` and no second `CommandExit` can follow it. With
/// [`lemma_run_starts_with_command_start`] this gives the stream's
/// shape: one `CommandStart`, then outputs, then at most one final
/// `CommandExit`.
pub proof fn lemma_run_exit_is_last(s0: ProcState, tr: Seq<Move>)
    requires
        s0.wf(),
        is_run(s0, tr),
    ensures
        forall|i: int|
            0 <= i < events_of(tr).len() && (#[trigger] events_of(tr)[i]) is CommandExit
                ==> i == events_of(tr).len() - 1,
    decreases tr.len(),
{
    if tr.len() > 0 {
        let m = tr[0];
        lemma_identity_and_wf_preserved(s0, m.reply, m.next, m.report);
        lemma_exit_emitted_once(s0, m.reply, m.next, m.report);
        lemma_run_exit_is_last(m.next, tr.skip(1));
        match m.report {
            StepV::Tick(OutcomeV::Event(e)) => {
                if e is CommandExit {
                    // The child exited with this event: the rest of the
                    // run is silent, so this event is the last.
                    lemma_run_silent_after_exit(m.next, tr.skip(1));
                }
            }
            _ => {}
        }
    }
}

// Runs of the resizing engine. Its event stream interleaves `Resize`
// events with the wrapped engine's own, so the statements speak of the
// process events — `CommandStart`, `Output`, `CommandExit` — among them.

/// One transition of a resizing-engine run.
pub ghost struct RMove {
    pub reply: Option<ReplyV>,
    pub next: ResizeState,
    pub report: StepV,
}

/// Whether `tr` is a run of the resizing engine from `s0`.
pub open spec fn r_is_run(s0: ResizeState, tr: Seq<RMove>) -> bool
    decreases tr.len(),
{
    tr.len() == 0 || {
        &&& r_steps_to(s0, tr[0].reply, tr[0].next, tr[0].report)
        &&& r_is_run(tr[0].next, tr.skip(1))
    }
}

/// The events a resizing-engine run emits, in order.
pub open spec fn r_events_of(tr: Seq<RMove>) -> Seq<EventV>
    decreases tr.len(),
{
    if tr.len() == 0 {
        Seq::empty()
    } else {
        (match tr[0].report {
            StepV::Tick(OutcomeV::Event(e)) => seq![e],
            _ => Seq::<EventV>::empty(),
        }) + r_events_of(tr.skip(1))
    }
}

/// RUN LAW: once the child has exited, a run of the resizing engine may
/// still emit `Resize` events, but never an `Output` or a `CommandExit`.
pub proof fn lemma_rrun_silent_process_after_exit(s0: ResizeState, tr: Seq<RMove>)
    requires
        s0.wf(),
        s0.inner.exited,
        r_is_run(s0, tr),
    ensures
        forall|i: int|
            0 <= i < r_events_of(tr).len()
                ==> !((#[trigger] r_events_of(tr)[i]) is Output)
                    && !(r_events_of(tr)[i] is CommandExit),
    decreases tr.len(),
{
    if tr.len() > 0 {
        let m = tr[0];
        lemma_r_wf_preserved(s0, m.reply, m.next, m.report);
        match m.reply {
            Some(rv) => {
                if s0.rphase is AwaitSignal && rv is Blocked {
                    let (i2, st) = scan_from(s0.inner, 0);
                    lemma_exhaustion_idempotent(s0.inner, None, i2, st);
                }
            }
            None => {}
        }
        lemma_rrun_silent_process_after_exit(m.next, tr.skip(1));
    }
}

/// RUN LAW: in any run of the resizing engine, `CommandExit` is final
/// among the process's events: nothing but `Resize` can follow it — no
/// `Output`, and no second `CommandExit`.
pub proof fn lemma_rrun_exit_is_last_process_event(s0: ResizeState, tr: Seq<RMove>)
    requires
        s0.wf(),
        r_is_run(s0, tr),
    ensures
        forall|i: int, j: int|
            #![trigger r_events_of(tr)[i], r_events_of(tr)[j]]
            0 <= i < j < r_events_of(tr).len() && r_events_of(tr)[i] is CommandExit
                ==> !(r_events_of(tr)[j] is Output) && !(r_events_of(tr)[j] is CommandExit),
    decreases tr.len(),
{
    if tr.len() > 0 {
        let m = tr[0];
        lemma_r_wf_preserved(s0, m.reply, m.next, m.report);
        lemma_rrun_exit_is_last_process_event(m.next, tr.skip(1));
        match m.report {
            StepV::Tick(OutcomeV::Event(e)) => {
                if e is CommandExit {
                    // A CommandExit can only pass through from the
                    // wrapped engine, whose transition marks it exited;
                    // the rest of the run emits no process event.
                    match m.reply {
                        Some(rv) => {
                            if s0.rphase is Inner {
                                let (i2, st) = apply_reply(s0.inner, rv);
                                lemma_exit_emitted_once(s0.inner, Some(rv), i2, st);
                            }
                        }
                        None => {}
                    }
                    lemma_rrun_silent_process_after_exit(m.next, tr.skip(1));
                }
            }
            _ => {}
        }
    }
}

/// RUN LAW: from a fresh engine, every `Output` and every `CommandExit`
/// is preceded by a `CommandStart`: until the child starts, only
/// `Resize` events can appear.
pub proof fn lemma_rrun_start_before_process_events(s0: ResizeState, tr: Seq<RMove>)
    requires
        s0.wf(),
        !s0.inner.started,
        r_is_run(s0, tr),
    ensures
        forall|i: int|
            0 <= i < r_events_of(tr).len()
                && ((#[trigger] r_events_of(tr)[i]) is Output
                    || r_events_of(tr)[i] is CommandExit)
                ==> exists|j: int|
                    0 <= j < i && (#[trigger] r_events_of(tr)[j]) is CommandStart,
    decreases tr.len(),
{
    if tr.len() > 0 {
        let m = tr[0];
        let ev = r_events_of(tr);
        let tail_ev = r_events_of(tr.skip(1));
        lemma_r_wf_preserved(s0, m.reply, m.next, m.report);
        match m.reply {
            Some(rv) => {
                if s0.rphase is Inner {
                    let (i2, st) = apply_reply(s0.inner, rv);
                    lemma_first_event_is_command_start(s0.inner, Some(rv), i2, st);
                    lemma_start_emitted_once(s0.inner, Some(rv), i2, st);
                }
                if s0.rphase is AwaitSignal && rv is Blocked {
                    let (i2, st) = scan_from(s0.inner, 0);
                    lemma_first_event_is_command_start(s0.inner, None, i2, st);
                    lemma_start_emitted_once(s0.inner, None, i2, st);
                }
            }
            None => {}
        }
        match m.report {
            StepV::Tick(OutcomeV::Event(e)) => {
                if e is CommandStart {
                    // Everything later is preceded by this head event.
                    assert forall|i: int|
                        0 <= i < ev.len() && (ev[i] is Output || ev[i] is CommandExit)
                    implies exists|j: int| 0 <= j < i && (#[trigger] ev[j]) is CommandStart by {
                        assert(ev[0] is CommandStart);
                        assert(0 < i);
                    }
                } else {
                    // The head is a Resize: the wrapped engine has still
                    // not started, and the tail's witnesses shift by one.
                    lemma_rrun_start_before_process_events(m.next, tr.skip(1));
                    assert forall|i: int|
                        0 <= i < ev.len() && (ev[i] is Output || ev[i] is CommandExit)
                    implies exists|j: int| 0 <= j < i && (#[trigger] ev[j]) is CommandStart by {
                        assert(ev[i] == tail_ev[i - 1]);
                        let j0 = choose|j0: int|
                            0 <= j0 < i - 1 && (#[trigger] tail_ev[j0]) is CommandStart;
                        assert(ev[j0 + 1] is CommandStart);
                    }
                }
            }
            _ => {
                // No event: the wrapped engine cannot have started
                // silently, and the event sequences coincide.
                lemma_rrun_start_before_process_events(m.next, tr.skip(1));
                assert(ev =~= tail_ev);
            }
        }
    }
}

} // verus!
