//! The descriptor-passing channel and the head's serving loop.

use deptyr::channel::{
    connect_decision, remove_decision, send_descriptor, AcceptStep, AcceptWait, ConnectOutcome,
    ConnectStep, ListenError, ListenSocket, RemoveOutcome, RemoveStep, RETRY_INTERVAL_MS,
};
use deptyr::descriptor::OwnedDescriptor;
use deptyr::head::{Head, HeadAction};
use deptyr::session::SessionEnd;

#[test]
fn bind_on_a_busy_path_fails_explicitly() {
    // The driver reports the bind failure it got; the head never takes
    // an existing path over.
    let r = ListenSocket::from_bind(Some(98));
    assert_eq!(r.err(), Some(ListenError::Sys(98)));
}

#[test]
fn bind_on_a_free_path_listens() {
    assert!(ListenSocket::from_bind(None).is_ok());
}

#[test]
fn teardown_always_removes_the_path() {
    let sock = ListenSocket::from_bind(None).unwrap();
    let req = sock.teardown();
    assert!(req.remove);
}

#[test]
fn failed_path_removal_halts_loudly() {
    assert_eq!(remove_decision(RemoveOutcome::Removed), RemoveStep::Done);
    assert_eq!(remove_decision(RemoveOutcome::Failed), RemoveStep::Halt);
}

#[test]
fn interrupted_accept_wait_is_cancellation() {
    let sock = ListenSocket::from_bind(None).unwrap();
    assert_eq!(sock.accept_decision(AcceptWait::Ready), AcceptStep::Accept);
    assert_eq!(sock.accept_decision(AcceptWait::Interrupted), AcceptStep::Cancel);
    assert_eq!(sock.accept_decision(AcceptWait::Failed(4)), AcceptStep::Fail(4));
}

#[test]
fn handoff_delivers_exactly_one_descriptor() {
    let sock = ListenSocket::from_bind(None).unwrap();
    let d = sock.check_handoff(Some(5)).unwrap();
    assert_eq!(d.raw_handle(), 5);
    // A connection that closes without a descriptor is a protocol error.
    assert_eq!(sock.check_handoff(None).err(), Some(ListenError::NoDescriptor));
}

#[test]
fn connect_retries_at_the_fixed_interval() {
    assert_eq!(RETRY_INTERVAL_MS, 1000);
    assert_eq!(
        connect_decision(ConnectOutcome::Refused),
        ConnectStep::RetryAfterMs(RETRY_INTERVAL_MS)
    );
    assert_eq!(connect_decision(ConnectOutcome::Connected), ConnectStep::Proceed);
}

#[test]
fn scripted_reconnection_connects_exactly_once() {
    // The head appears only at the third attempt; the runner sleeps the
    // fixed interval after each failure and connects exactly once.
    let outcomes = [
        ConnectOutcome::Refused,
        ConnectOutcome::Refused,
        ConnectOutcome::Connected,
        ConnectOutcome::Connected,
    ];
    let mut sleeps = 0u32;
    let mut connections = 0u32;
    for o in outcomes {
        match connect_decision(o) {
            ConnectStep::RetryAfterMs(ms) => {
                assert_eq!(ms, RETRY_INTERVAL_MS);
                sleeps += 1;
            }
            ConnectStep::Proceed => {
                connections += 1;
                break;
            }
        }
    }
    assert_eq!(sleeps, 2);
    assert_eq!(connections, 1);
}

#[test]
fn transfer_consumes_the_owner() {
    let d = OwnedDescriptor::from_raw(9);
    let t = send_descriptor(d);
    assert_eq!(t.handle, 9);
}

#[test]
fn head_serves_a_received_descriptor() {
    let mut head = Head::new();
    assert!(head.poll_cancel(false));
    let action = head.on_receive(Ok(OwnedDescriptor::from_raw(11)));
    match action {
        HeadAction::Serve(d) => assert_eq!(d.raw_handle(), 11),
        _ => panic!("expected a serve action"),
    }
}

#[test]
fn head_survives_failed_handoffs_and_sessions() {
    let mut head = Head::new();
    // A failed handoff is reported; the head keeps listening.
    let action = head.on_receive(Err(ListenError::Sys(13)));
    assert!(matches!(action, HeadAction::ReportListen(ListenError::Sys(13))));
    // A failed session is reported; the head keeps listening.
    let action = head.on_session_end(SessionEnd::Failed(9));
    assert!(matches!(action, HeadAction::ReportSession(9)));
    // A clean session end has nothing to report.
    let action = head.on_session_end(SessionEnd::Clean);
    assert!(matches!(action, HeadAction::Continue));
    // Still listening: the next descriptor is served.
    assert!(head.poll_cancel(false));
    let action = head.on_receive(Ok(OwnedDescriptor::from_raw(3)));
    assert!(matches!(action, HeadAction::Serve(_)));
}

#[test]
fn head_stops_on_cancellation_only() {
    let mut head = Head::new();
    let action = head.on_receive(Err(ListenError::Canceled));
    assert!(matches!(action, HeadAction::Shutdown));

    let mut head = Head::new();
    assert!(!head.poll_cancel(true));
}
