//! Byte relay and session state-machine behaviour.

use deptyr::relay::{proxy_write, relay_all, write_advance, Endpoint, WriteOutcome, RELAY_CHUNK};
use deptyr::session::{Session, SessionEnd, SessionPhase, WaitEvent};
use deptyr::winsize::default_winsize;

#[test]
fn relay_buffer_is_4096() {
    assert_eq!(RELAY_CHUNK, 4096);
}

#[test]
fn proxy_write_moves_one_chunk_in_order() {
    let mut r = Endpoint::new(vec![1u8, 2, 3, 4, 5]);
    let mut w = Endpoint::new(vec![]);
    let done = proxy_write(RELAY_CHUNK, &mut r, &mut w);
    assert!(!done);
    assert_eq!(w.written().as_slice(), &[1u8, 2, 3, 4, 5]);
    assert!(r.fully_read());
    let done = proxy_write(RELAY_CHUNK, &mut r, &mut w);
    assert!(done);
    assert_eq!(w.written().as_slice(), &[1u8, 2, 3, 4, 5]);
}

#[test]
fn proxy_write_zero_read_means_close() {
    let mut r = Endpoint::new(vec![]);
    let mut w = Endpoint::new(vec![]);
    let done = proxy_write(RELAY_CHUNK, &mut r, &mut w);
    assert!(done);
    assert!(w.written().is_empty());
}

#[test]
fn relay_chunks_below_buffer_size() {
    let mut r = Endpoint::new(vec![9u8, 8, 7]);
    let mut w = Endpoint::new(vec![]);
    relay_all(RELAY_CHUNK, &mut r, &mut w);
    assert_eq!(w.written().as_slice(), &[9u8, 8, 7]);
}

#[test]
fn relay_chunks_above_buffer_size() {
    let input: Vec<u8> = (0..5000u32).map(|i| (i % 251) as u8).collect();
    let expected = input.clone();
    let mut r = Endpoint::new(input);
    let mut w = Endpoint::new(vec![]);
    relay_all(RELAY_CHUNK, &mut r, &mut w);
    assert_eq!(w.written().as_slice(), expected.as_slice());
    assert!(r.fully_read());
}

#[test]
fn relay_with_tiny_buffer_keeps_order() {
    let mut r = Endpoint::new(vec![1u8, 2, 3, 4, 5, 6, 7]);
    let mut w = Endpoint::new(vec![]);
    relay_all(2, &mut r, &mut w);
    assert_eq!(w.written().as_slice(), &[1u8, 2, 3, 4, 5, 6, 7]);
}

#[test]
fn short_and_interrupted_writes_are_retried() {
    // A 10-byte chunk goes out as 4 + (interrupted) + 3 + 3: the cursor
    // advances by exactly what the device took, never skips, and ends at
    // the chunk's length.
    let total = 10usize;
    let mut written = 0usize;
    for (outcome, expected) in [
        (WriteOutcome::Wrote(4), 4usize),
        (WriteOutcome::Interrupted, 4),
        (WriteOutcome::Wrote(3), 7),
        (WriteOutcome::Wrote(3), 10),
    ] {
        written = write_advance(total, written, outcome).unwrap();
        assert_eq!(written, expected);
    }
    assert_eq!(written, total);
}

#[test]
fn failed_write_aborts_with_its_error() {
    assert_eq!(write_advance(10, 4, WriteOutcome::Failed(32)), Err(32));
}

#[test]
fn end_to_end_echo_hello() {
    // A runner handed over a PTY on which the command will print
    // "hello\n" and exit; the head's local terminal sends nothing.
    let pty = Endpoint::new(b"hello\n".to_vec());
    let terminal = Endpoint::new(vec![]);
    let mut s = Session::start(pty, terminal);
    assert_eq!(s.phase(), SessionPhase::AwaitingSize);
    s.size_applied(default_winsize());
    assert_eq!(s.phase(), SessionPhase::Bridging);

    let running = s.on_wait(WaitEvent::Ready { pty_readable: true, terminal_readable: false });
    assert!(running);
    assert_eq!(s.terminal_endpoint().written().as_slice(), b"hello\n");

    // The command exited: the next PTY read reports end of file.
    let running = s.on_wait(WaitEvent::Ready { pty_readable: true, terminal_readable: false });
    assert!(!running);
    assert_eq!(s.phase(), SessionPhase::Closed);
    assert_eq!(s.outcome(), Some(SessionEnd::Clean));
    assert_eq!(s.terminal_endpoint().written().as_slice(), b"hello\n");
}

#[test]
fn session_relays_keystrokes_to_pty() {
    let pty = Endpoint::new(vec![]);
    let terminal = Endpoint::new(b"ls\r".to_vec());
    let mut s = Session::start(pty, terminal);
    s.size_applied(default_winsize());
    let running = s.on_wait(WaitEvent::Ready { pty_readable: false, terminal_readable: true });
    assert!(running);
    assert_eq!(s.pty_endpoint().written().as_slice(), b"ls\r");
}

#[test]
fn session_terminal_eof_closes_cleanly() {
    let pty = Endpoint::new(vec![]);
    let terminal = Endpoint::new(vec![]);
    let mut s = Session::start(pty, terminal);
    s.size_applied(default_winsize());
    let running = s.on_wait(WaitEvent::Ready { pty_readable: false, terminal_readable: true });
    assert!(!running);
    assert_eq!(s.outcome(), Some(SessionEnd::Clean));
}

#[test]
fn session_wait_error_is_reported_not_clean() {
    let pty = Endpoint::new(b"data".to_vec());
    let terminal = Endpoint::new(vec![]);
    let mut s = Session::start(pty, terminal);
    s.size_applied(default_winsize());
    let running = s.on_wait(WaitEvent::Error(5));
    assert!(!running);
    assert_eq!(s.phase(), SessionPhase::Closed);
    assert_eq!(s.outcome(), Some(SessionEnd::Failed(5)));
    // Nothing was relayed by the failing wait.
    assert!(s.terminal_endpoint().written().is_empty());
}

#[test]
fn resize_interruption_loses_no_bytes() {
    let pty = Endpoint::new(b"abcdef".to_vec());
    let terminal = Endpoint::new(vec![]);
    let mut s = Session::start(pty, terminal);
    s.size_applied(default_winsize());

    // First chunk crosses.
    s.on_wait(WaitEvent::Ready { pty_readable: true, terminal_readable: false });
    assert_eq!(s.terminal_endpoint().written().as_slice(), b"abcdef");

    // A resize signal interrupts the wait: no relay until a fresh size
    // has been applied, and nothing already relayed is disturbed.
    let running = s.on_wait(WaitEvent::Interrupted);
    assert!(running);
    assert_eq!(s.phase(), SessionPhase::AwaitingSize);
    assert_eq!(s.terminal_endpoint().written().as_slice(), b"abcdef");

    let mut bigger = default_winsize();
    bigger.rows = 120;
    s.size_applied(bigger);
    assert_eq!(s.phase(), SessionPhase::Bridging);

    // The relay resumes: end of file, clean close, bytes intact.
    let running = s.on_wait(WaitEvent::Ready { pty_readable: true, terminal_readable: false });
    assert!(!running);
    assert_eq!(s.outcome(), Some(SessionEnd::Clean));
    assert_eq!(s.terminal_endpoint().written().as_slice(), b"abcdef");
}

#[test]
fn pty_checked_before_terminal_when_both_ready() {
    // The PTY reports end of file, so the session closes before the
    // terminal's pending byte is ever read: the fixed tie-break order.
    let pty = Endpoint::new(vec![]);
    let terminal = Endpoint::new(b"x".to_vec());
    let mut s = Session::start(pty, terminal);
    s.size_applied(default_winsize());
    let running = s.on_wait(WaitEvent::Ready { pty_readable: true, terminal_readable: true });
    assert!(!running);
    assert_eq!(s.outcome(), Some(SessionEnd::Clean));
    assert!(s.pty_endpoint().written().is_empty());
}
