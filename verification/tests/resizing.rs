//! Driving the resizing engine through scripted probe outcomes.

use pty_process_stream::process::{Action, Outcome, Reply, Step};
use pty_process_stream::{Error, Event, ExitStatus, Process, ResizingProcess};

#[test]
fn signal_is_emitted_and_buffered_before_start() {
    let p = Process::new("cat", &[], ());
    let mut rp = ResizingProcess::new(p);

    // The signal source is probed first; a size change is re-exported at
    // once, before the wrapped process has even started.
    assert_eq!(rp.advance(), Step::Need(Action::PollSignal));
    assert_eq!(
        rp.resume(Reply::Signal(30, 90)),
        Step::Tick(Outcome::Event(Event::Resize(30, 90)))
    );

    // With the signal source quiet, the tick is handed to the wrapped
    // engine, which starts the child first.
    assert_eq!(rp.advance(), Step::Need(Action::PollSignal));
    assert_eq!(rp.resume(Reply::Blocked), Step::Need(Action::OpenPty));
    assert_eq!(rp.resume(Reply::Opened), Step::Need(Action::Spawn));
    assert_eq!(
        rp.resume(Reply::Spawned),
        Step::Tick(Outcome::Event(Event::CommandStart("cat".to_string(), vec![])))
    );

    // Only now, after CommandStart, is the buffered size applied.
    assert_eq!(rp.advance(), Step::Need(Action::PollSignal));
    assert_eq!(rp.resume(Reply::Blocked), Step::Need(Action::ApplyResize(30, 90)));
    assert_eq!(rp.resume(Reply::Resized), Step::Need(Action::ReadInput));
}

#[test]
fn later_signal_overwrites_unapplied_one() {
    let p = Process::new("cat", &[], ());
    let mut rp = ResizingProcess::new(p);

    rp.advance();
    assert_eq!(
        rp.resume(Reply::Signal(10, 20)),
        Step::Tick(Outcome::Event(Event::Resize(10, 20)))
    );
    rp.advance();
    assert_eq!(
        rp.resume(Reply::Signal(24, 80)),
        Step::Tick(Outcome::Event(Event::Resize(24, 80)))
    );

    // Start the child; the one application uses the latest size.
    rp.advance();
    assert_eq!(rp.resume(Reply::Blocked), Step::Need(Action::OpenPty));
    rp.resume(Reply::Opened);
    rp.resume(Reply::Spawned);
    rp.advance();
    assert_eq!(rp.resume(Reply::Blocked), Step::Need(Action::ApplyResize(24, 80)));
}

#[test]
fn process_events_pass_through() {
    let p = Process::new("cat", &[], ());
    let mut rp = ResizingProcess::new(p);

    rp.advance();
    assert_eq!(rp.resume(Reply::Blocked), Step::Need(Action::OpenPty));
    rp.resume(Reply::Opened);
    rp.resume(Reply::Spawned);

    // A full pass of the wrapped engine, signal source quiet throughout.
    rp.advance();
    assert_eq!(rp.resume(Reply::Blocked), Step::Need(Action::ReadInput));
    assert_eq!(rp.resume(Reply::Blocked), Step::Need(Action::ReadPty));
    assert_eq!(
        rp.resume(Reply::Output(b"out".to_vec())),
        Step::Tick(Outcome::Event(Event::Output(b"out".to_vec())))
    );

    // Exit passes through too, and then exhaustion, idempotently.
    rp.advance();
    assert_eq!(rp.resume(Reply::Blocked), Step::Need(Action::ReadInput));
    assert_eq!(rp.resume(Reply::Blocked), Step::Need(Action::ReadPty));
    assert_eq!(rp.resume(Reply::Hangup), Step::Need(Action::PollExit));
    let status = ExitStatus { success: true, code: Some(0) };
    assert_eq!(
        rp.resume(Reply::Exited(status)),
        Step::Tick(Outcome::Event(Event::CommandExit(status)))
    );
    rp.advance();
    assert_eq!(rp.resume(Reply::Blocked), Step::Tick(Outcome::Exhausted));
    rp.advance();
    assert_eq!(rp.resume(Reply::Blocked), Step::Tick(Outcome::Exhausted));
}

#[test]
fn signal_source_failure_is_fatal() {
    let p = Process::new("cat", &[], ());
    let mut rp = ResizingProcess::new(p);
    assert_eq!(rp.advance(), Step::Need(Action::PollSignal));
    assert_eq!(
        rp.resume(Reply::Failed(Some(4))),
        Step::Tick(Outcome::Fail(Error::Resize { code: Some(4) }))
    );
}

#[test]
fn input_delegates_to_the_wrapped_engine() {
    let p = Process::new("cat", &[], vec![9u8]);
    let mut rp = ResizingProcess::new(p);
    {
        let src = rp.input();
        src.push(7u8);
    }
    assert_eq!(*rp.input(), vec![9u8, 7u8]);
    assert_eq!(rp.advance(), Step::Need(Action::PollSignal));
}
