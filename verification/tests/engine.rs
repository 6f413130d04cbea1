//! Driving the process engine through scripted probe outcomes.

use pty_process_stream::process::{Action, Outcome, Reply, Step};
use pty_process_stream::{Error, Event, ExitStatus, Process};

fn ok_status() -> ExitStatus {
    ExitStatus { success: true, code: Some(0) }
}

/// A full run of `cat` with input "hello world\n", scripted the way a pty
/// behaves: the terminal echoes the line once, `cat` writes it back once,
/// then the pty hangs up and the child exits successfully.
#[test]
fn test_simple() {
    let buf: Vec<u8> = b"hello world\n".to_vec();
    let mut p = Process::new("cat", &[], buf);

    // Start-up: open the pty, spawn the child, emit CommandStart.
    assert_eq!(p.advance(), Step::Need(Action::OpenPty));
    assert_eq!(p.resume(Reply::Opened), Step::Need(Action::Spawn));
    let started = p.resume(Reply::Spawned);
    assert_eq!(
        started,
        Step::Tick(Outcome::Event(Event::CommandStart(
            "cat".to_string(),
            vec![],
        )))
    );

    // The input source hands over its whole content, then reports
    // exhaustion, which enqueues the end-of-transmission byte.
    assert_eq!(p.advance(), Step::Need(Action::ReadInput));
    assert_eq!(
        p.resume(Reply::Input(b"hello world\n".to_vec())),
        Step::Need(Action::ReadInput)
    );
    let step = p.resume(Reply::Input(vec![]));
    let mut expected_queue = b"hello world\n".to_vec();
    expected_queue.push(4);
    assert_eq!(step, Step::Need(Action::WritePty(expected_queue.clone())));

    // The pty accepts everything in one write.
    assert_eq!(
        p.resume(Reply::Wrote(expected_queue.len())),
        Step::Need(Action::ReadPty)
    );

    // Terminal echo, then cat's own output, each read back from the pty.
    let mut output: Vec<u8> = vec![];
    let step = p.resume(Reply::Output(b"hello world\r\n".to_vec()));
    match step {
        Step::Tick(Outcome::Event(Event::Output(bytes))) => {
            output.extend(bytes);
        }
        other => panic!("expected an output event, got {:?}", other),
    }
    assert_eq!(p.advance(), Step::Need(Action::ReadPty));
    let step = p.resume(Reply::Output(b"hello world\r\n".to_vec()));
    match step {
        Step::Tick(Outcome::Event(Event::Output(bytes))) => {
            output.extend(bytes);
        }
        other => panic!("expected an output event, got {:?}", other),
    }
    assert_eq!(output, b"hello world\r\nhello world\r\n".to_vec());

    // Hangup closes stdout silently and leads straight to the exit probe.
    assert_eq!(p.advance(), Step::Need(Action::ReadPty));
    assert_eq!(p.resume(Reply::Hangup), Step::Need(Action::PollExit));
    let step = p.resume(Reply::Exited(ok_status()));
    assert_eq!(
        step,
        Step::Tick(Outcome::Event(Event::CommandExit(
            ok_status(),
        )))
    );

    // Exhaustion, and it is idempotent.
    assert_eq!(
        p.advance(),
        Step::Tick(Outcome::Exhausted)
    );
    assert_eq!(
        p.advance(),
        Step::Tick(Outcome::Exhausted)
    );
}

#[test]
fn command_start_carries_arguments() {
    let args = vec!["-n".to_string(), "hi".to_string()];
    let mut p = Process::new("printf", &args, ());
    assert_eq!(p.advance(), Step::Need(Action::OpenPty));
    assert_eq!(p.resume(Reply::Opened), Step::Need(Action::Spawn));
    assert_eq!(
        p.resume(Reply::Spawned),
        Step::Tick(Outcome::Event(Event::CommandStart(
            "printf".to_string(),
            args.clone(),
        )))
    );
}

#[test]
fn suspend_when_everything_blocks() {
    let mut p = Process::new("cat", &[], ());
    p.advance();
    p.resume(Reply::Opened);
    p.resume(Reply::Spawned);

    assert_eq!(p.advance(), Step::Need(Action::ReadInput));
    // Nothing buffered to write, so a blocked input read moves on to the
    // pty read; when that blocks too, the tick suspends.
    assert_eq!(p.resume(Reply::Blocked), Step::Need(Action::ReadPty));
    assert_eq!(
        p.resume(Reply::Blocked),
        Step::Tick(Outcome::Suspend)
    );
    // A later tick starts over from the top.
    assert_eq!(p.advance(), Step::Need(Action::ReadInput));
}

#[test]
fn resize_applies_only_the_latest_request() {
    let mut p = Process::new("cat", &[], ());
    p.resize(10, 20);
    p.resize(24, 80);
    p.advance();
    p.resume(Reply::Opened);
    p.resume(Reply::Spawned);

    // Exactly one application, with the second request's values.
    assert_eq!(p.advance(), Step::Need(Action::ApplyResize(24, 80)));
    assert_eq!(p.resume(Reply::Resized), Step::Need(Action::ReadInput));

    // The request is cleared: no further application is asked for.
    assert_eq!(p.resume(Reply::Blocked), Step::Need(Action::ReadPty));
    assert_eq!(
        p.resume(Reply::Blocked),
        Step::Tick(Outcome::Suspend)
    );
    assert_eq!(p.advance(), Step::Need(Action::ReadInput));
}

#[test]
fn resize_waits_for_start() {
    let mut p = Process::new("cat", &[], ());
    p.resize(24, 80);
    // The first probes serve the start; the resize is applied only after
    // CommandStart has been emitted.
    assert_eq!(p.advance(), Step::Need(Action::OpenPty));
    assert_eq!(p.resume(Reply::Opened), Step::Need(Action::Spawn));
    match p.resume(Reply::Spawned) {
        Step::Tick(Outcome::Event(Event::CommandStart(..))) => {}
        other => panic!("expected CommandStart, got {:?}", other),
    }
    assert_eq!(p.advance(), Step::Need(Action::ApplyResize(24, 80)));
}

#[test]
fn stdin_exhaustion_enqueues_one_eot() {
    let mut p = Process::new("cat", &[], ());
    p.advance();
    p.resume(Reply::Opened);
    p.resume(Reply::Spawned);

    assert_eq!(p.advance(), Step::Need(Action::ReadInput));
    // One empty read: stdin closes, exactly one EOT byte is queued.
    assert_eq!(p.resume(Reply::Input(vec![])), Step::Need(Action::WritePty(vec![4])));
    assert_eq!(p.resume(Reply::Wrote(1)), Step::Need(Action::ReadPty));
    assert_eq!(
        p.resume(Reply::Blocked),
        Step::Tick(Outcome::Suspend)
    );
    // However many further ticks occur, the input source is never read
    // again and no second EOT appears.
    assert_eq!(p.advance(), Step::Need(Action::ReadPty));
    assert_eq!(
        p.resume(Reply::Blocked),
        Step::Tick(Outcome::Suspend)
    );
    assert_eq!(p.advance(), Step::Need(Action::ReadPty));
}

#[test]
fn partial_writes_drain_from_the_front() {
    let mut p = Process::new("cat", &[], ());
    p.advance();
    p.resume(Reply::Opened);
    p.resume(Reply::Spawned);

    assert_eq!(p.advance(), Step::Need(Action::ReadInput));
    let step = p.resume(Reply::Input(b"abcdef".to_vec()));
    assert_eq!(step, Step::Need(Action::ReadInput));
    // Block further input; the queue is offered whole.
    assert_eq!(
        p.resume(Reply::Blocked),
        Step::Need(Action::WritePty(b"abcdef".to_vec()))
    );
    // The pty accepts two bytes; the engine re-scans and offers the rest.
    let step = p.resume(Reply::Wrote(2));
    assert_eq!(step, Step::Need(Action::ReadInput));
    assert_eq!(
        p.resume(Reply::Blocked),
        Step::Need(Action::WritePty(b"cdef".to_vec()))
    );
}

#[test]
fn non_hangup_read_failure_is_fatal() {
    let mut p = Process::new("cat", &[], ());
    p.advance();
    p.resume(Reply::Opened);
    p.resume(Reply::Spawned);

    assert_eq!(p.advance(), Step::Need(Action::ReadInput));
    assert_eq!(p.resume(Reply::Blocked), Step::Need(Action::ReadPty));
    let step = p.resume(Reply::Failed(Some(5)));
    assert_eq!(
        step,
        Step::Tick(Outcome::Fail(Error::ReadPty {
            code: Some(5),
        }))
    );
}

#[test]
fn open_failure_is_fatal() {
    let mut p = Process::new("cat", &[], ());
    assert_eq!(p.advance(), Step::Need(Action::OpenPty));
    assert_eq!(
        p.resume(Reply::Failed(Some(24))),
        Step::Tick(Outcome::Fail(Error::OpenPty {
            code: Some(24),
        }))
    );
}

#[test]
fn spawn_failure_names_the_command() {
    let mut p = Process::new("nosuchcmd", &[], ());
    p.advance();
    assert_eq!(p.resume(Reply::Opened), Step::Need(Action::Spawn));
    assert_eq!(
        p.resume(Reply::Failed(Some(2))),
        Step::Tick(Outcome::Fail(Error::SpawnProcess {
            cmd: "nosuchcmd".to_string(),
            code: Some(2),
        }))
    );
}

#[test]
fn write_failure_is_fatal() {
    let mut p = Process::new("cat", &[], ());
    p.advance();
    p.resume(Reply::Opened);
    p.resume(Reply::Spawned);
    p.advance();
    p.resume(Reply::Input(b"x".to_vec()));
    p.resume(Reply::Blocked);
    assert_eq!(
        p.resume(Reply::Failed(None)),
        Step::Tick(Outcome::Fail(Error::WritePty {
            code: None,
        }))
    );
}

#[test]
fn input_read_failure_is_fatal() {
    let mut p = Process::new("cat", &[], ());
    p.advance();
    p.resume(Reply::Opened);
    p.resume(Reply::Spawned);
    assert_eq!(p.advance(), Step::Need(Action::ReadInput));
    assert_eq!(
        p.resume(Reply::Failed(Some(9))),
        Step::Tick(Outcome::Fail(Error::ReadTerminal {
            code: Some(9),
        }))
    );
}

#[test]
fn resize_failure_is_fatal() {
    let mut p = Process::new("cat", &[], ());
    p.resize(24, 80);
    p.advance();
    p.resume(Reply::Opened);
    p.resume(Reply::Spawned);
    assert_eq!(p.advance(), Step::Need(Action::ApplyResize(24, 80)));
    assert_eq!(
        p.resume(Reply::Failed(Some(25))),
        Step::Tick(Outcome::Fail(Error::ResizePty {
            code: Some(25),
        }))
    );
}

#[test]
fn exit_probe_failure_is_fatal() {
    let mut p = Process::new("cat", &[], ());
    p.advance();
    p.resume(Reply::Opened);
    p.resume(Reply::Spawned);
    p.advance();
    p.resume(Reply::Blocked);
    p.resume(Reply::Hangup);
    assert_eq!(
        p.resume(Reply::Failed(Some(10))),
        Step::Tick(Outcome::Fail(Error::ProcessExitPoll {
            code: Some(10),
        }))
    );
}

#[test]
fn exit_waits_for_stdout_to_drain() {
    let mut p = Process::new("cat", &[], ());
    p.advance();
    p.resume(Reply::Opened);
    p.resume(Reply::Spawned);

    // Until the pty hangs up, the engine never probes for exit.
    assert_eq!(p.advance(), Step::Need(Action::ReadInput));
    assert_eq!(p.resume(Reply::Blocked), Step::Need(Action::ReadPty));
    let step = p.resume(Reply::Output(b"late output".to_vec()));
    match step {
        Step::Tick(Outcome::Event(Event::Output(bytes))) => {
            assert_eq!(bytes, b"late output".to_vec());
        }
        other => panic!("expected an output event, got {:?}", other),
    }
    // Hangup first, and only then the exit probe.
    assert_eq!(p.advance(), Step::Need(Action::ReadInput));
    assert_eq!(p.resume(Reply::Blocked), Step::Need(Action::ReadPty));
    assert_eq!(p.resume(Reply::Hangup), Step::Need(Action::PollExit));
    // A not-yet-ready exit probe lets the rest of the scan run.
    assert_eq!(p.resume(Reply::Blocked), Step::Need(Action::ReadInput));
}

#[test]
fn empty_pty_read_is_not_an_event() {
    let mut p = Process::new("cat", &[], ());
    p.advance();
    p.resume(Reply::Opened);
    p.resume(Reply::Spawned);
    assert_eq!(p.advance(), Step::Need(Action::ReadInput));
    assert_eq!(p.resume(Reply::Blocked), Step::Need(Action::ReadPty));
    // A zero-length read means "not ready", never Output(empty).
    assert_eq!(
        p.resume(Reply::Output(vec![])),
        Step::Tick(Outcome::Suspend)
    );
}

#[test]
fn input_source_is_exposed_for_injection() {
    let mut p = Process::new("cat", &[], vec![1u8, 2u8]);
    {
        let src = p.input();
        src.push(3u8);
    }
    assert_eq!(*p.input(), vec![1u8, 2u8, 3u8]);
    // The engine itself is untouched: it still starts from the beginning.
    assert_eq!(p.advance(), Step::Need(Action::OpenPty));
}
