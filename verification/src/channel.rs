//! The descriptor-passing channel between runner and head.
//!
//! The head binds a named Unix-domain socket and, per accepted
//! connection, receives exactly one descriptor as ancillary data. The
//! runner connects to that socket — retrying on a fixed interval for as
//! long as no head is listening — and sends exactly one descriptor. The
//! driving process performs the socket system calls and reports their
//! outcomes; this module holds every decision: how a bind outcome is
//! classified, what an interrupted wait means, when a connection is a
//! protocol error, and when to retry a connect.

use vstd::prelude::*;

use crate::descriptor::OwnedDescriptor;

verus! {

/// Milliseconds the runner sleeps between failed connection attempts.
pub const RETRY_INTERVAL_MS: u64 = 1000;

/// Why listening for a descriptor stopped or failed.
#[derive(Clone, Copy, PartialEq, Eq, Structural, Debug)]
pub enum ListenError {
    /// The wait was deliberately canceled: a graceful shutdown, not an
    /// error to report.
    Canceled,
    /// A system call failed with this error number.
    Sys(i32),
    /// The accepted connection closed without transferring a descriptor.
    NoDescriptor,
}

/// A witness that this head instance holds the bound socket. Consumed by
/// teardown, so the instruction to remove the path is produced exactly
/// once, on whichever path — normal or failing — tears the listener down.
pub struct ListenSocket {
    bound: (),
}

/// An instruction to the driving process: remove the bound socket path
/// from the filesystem now.
pub struct RemovePathRequest {
    pub remove: bool,
}

/// Outcome of the driver's attempt to remove the socket path.
#[derive(Clone, Copy, PartialEq, Eq, Structural, Debug)]
pub enum RemoveOutcome {
    Removed,
    Failed,
}

/// What the teardown does with a removal outcome.
#[derive(Clone, Copy, PartialEq, Eq, Structural, Debug)]
pub enum RemoveStep {
    /// The path is gone; teardown is complete.
    Done,
    /// The path could not be removed: fail loudly, a later head would
    /// find the stale file in the way.
    Halt,
}

/// Outcome of the blocking wait for an incoming connection.
#[derive(Clone, Copy, PartialEq, Eq, Structural, Debug)]
pub enum AcceptWait {
    /// A connection is ready to accept.
    Ready,
    /// The wait was interrupted: attributed to deliberate cancellation.
    Interrupted,
    /// The wait failed with this error number.
    Failed(i32),
}

/// What the head does with a wait outcome.
#[derive(Clone, Copy, PartialEq, Eq, Structural, Debug)]
pub enum AcceptStep {
    /// Accept the connection and receive one descriptor from it.
    Accept,
    /// Shut down gracefully: a distinguished outcome, not an error.
    Cancel,
    /// Report this error number.
    Fail(i32),
}

/// Outcome of one connection attempt by the runner.
#[derive(Clone, Copy, PartialEq, Eq, Structural, Debug)]
pub enum ConnectOutcome {
    /// The socket accepted the connection.
    Connected,
    /// The socket is absent or refused the connection.
    Refused,
}

/// What the runner does with a connection attempt's outcome.
#[derive(Clone, Copy, PartialEq, Eq, Structural, Debug)]
pub enum ConnectStep {
    /// Connected: send the descriptor over this connection.
    Proceed,
    /// Log the failure and try again after this many milliseconds.
    RetryAfterMs(u64),
}

/// An instruction to the driving process: send this raw handle as
/// ancillary data over the connected stream — the connection's one and
/// only payload.
pub struct TransferRequest {
    pub handle: i32,
}

impl ListenSocket {
    /// Classify the driver's attempt to bind the socket path. A bind
    /// failure — the path already in use included — is explicit and
    /// final: a stale socket file is an operational hazard to resolve,
    /// never silently taken over.
    pub fn from_bind(errno: Option<i32>) -> (r: Result<ListenSocket, ListenError>)
        ensures
            errno is None ==> r is Ok,
            errno matches Some(e) ==> r == Err::<ListenSocket, ListenError>(ListenError::Sys(e)),
    {
        match errno {
            None => Ok(ListenSocket { bound: () }),
            Some(e) => Err(ListenError::Sys(e)),
        }
    }

    /// What a returned connection wait means: accept on readiness, shut
    /// down gracefully on interruption — the cancellation signal's only
    /// delivery — and report any other failure.
    pub fn accept_decision(&self, wait: AcceptWait) -> (s: AcceptStep)
        ensures
            wait is Ready <==> s is Accept,
            wait is Interrupted <==> s is Cancel,
            wait matches AcceptWait::Failed(e) ==> s == AcceptStep::Fail(e),
            s matches AcceptStep::Fail(e) ==> wait == AcceptWait::Failed(e),
    {
        match wait {
            AcceptWait::Ready => AcceptStep::Accept,
            AcceptWait::Interrupted => AcceptStep::Cancel,
            AcceptWait::Failed(e) => AcceptStep::Fail(e),
        }
    }

    /// The protocol check on one accepted connection: exactly one
    /// descriptor must cross it. A received handle becomes an owned
    /// descriptor, the head's sole handle on the session's PTY; a
    /// connection that closed without one is a protocol error.
    pub fn check_handoff(&self, received: Option<i32>) -> (r: Result<OwnedDescriptor, ListenError>)
        ensures
            received matches Some(h) ==> r matches Ok(d) && d@ == h as int,
            received is None ==> r == Err::<OwnedDescriptor, ListenError>(
                ListenError::NoDescriptor,
            ),
    {
        match received {
            Some(h) => Ok(OwnedDescriptor::from_raw(h)),
            None => Err(ListenError::NoDescriptor),
        }
    }

    /// Tear the listener down, consuming it: whatever else happens, the
    /// bound path must now be removed, so a later run can bind it again.
    pub fn teardown(self) -> (r: RemovePathRequest)
        ensures
            r.remove,
    {
        RemovePathRequest { remove: true }
    }
}

/// The teardown's policy on a removal outcome: a path that cannot be
/// removed is surfaced loudly, never ignored.
pub fn remove_decision(outcome: RemoveOutcome) -> (s: RemoveStep)
    ensures
        s is Done <==> outcome is Removed,
        s is Halt <==> outcome is Failed,
{
    match outcome {
        RemoveOutcome::Removed => RemoveStep::Done,
        RemoveOutcome::Failed => RemoveStep::Halt,
    }
}

/// The runner's policy on one connection attempt: proceed once
/// connected, otherwise retry after the fixed interval — indefinitely,
/// since the head may not have started yet.
pub fn connect_decision(outcome: ConnectOutcome) -> (s: ConnectStep)
    ensures
        outcome is Connected <==> s is Proceed,
        outcome is Refused <==> s == ConnectStep::RetryAfterMs(RETRY_INTERVAL_MS as u64),
{
    match outcome {
        ConnectOutcome::Connected => ConnectStep::Proceed,
        ConnectOutcome::Refused => ConnectStep::RetryAfterMs(RETRY_INTERVAL_MS),
    }
}

/// Consuming transfer of a descriptor to the channel: the local owner is
/// gone — it must not retain or close the handle — and the handle is the
/// connection's single payload.
pub fn send_descriptor(d: OwnedDescriptor) -> (t: TransferRequest)
    ensures
        t.handle as int == d@,
{
    TransferRequest { handle: d.release() }
}

/// The filesystem and listener state of one socket path.
#[derive(Clone, Copy, PartialEq, Eq, Structural, Debug)]
pub struct PathWorld {
    /// A socket special file exists at the path.
    pub exists: bool,
    /// A head instance is listening on it.
    pub listening: bool,
}

/// Binding the path: refused outright if the path exists — whether a
/// live head or a stale file holds it — otherwise the file appears and
/// the head listens. The second component says whether the bind
/// succeeded.
pub open spec fn spec_bind(w: PathWorld) -> (PathWorld, bool) {
    if w.exists {
        (w, false)
    } else {
        (PathWorld { exists: true, listening: true }, true)
    }
}

/// Tearing a listening head down, on any path out — clean shutdown or
/// error — removes the bound file.
pub open spec fn spec_teardown(w: PathWorld) -> PathWorld {
    if w.listening {
        PathWorld { exists: false, listening: false }
    } else {
        w
    }
}

/// Law (socket lifecycle): binding an existing path fails explicitly and
/// changes nothing, so a second head cannot take a path over while one
/// holds it; binding a free path succeeds; and after the instance that
/// bound the path exits, cleanly or not, the path no longer exists, so
/// the same path can be bound again.
pub proof fn lemma_socket_lifecycle(w: PathWorld)
    ensures
        w.exists ==> spec_bind(w) == (w, false),
        !w.exists ==> spec_bind(w).1,
        !w.exists ==> !spec_teardown(spec_bind(w).0).exists,
        !w.exists ==> spec_bind(spec_teardown(spec_bind(w).0)).1,
{
}

/// How many failed attempts precede the first successful connection in a
/// sequence of attempt outcomes: `None` if none succeeds. The retry loop
/// stops at that first success, so later outcomes are never consumed.
pub open spec fn spec_retries_before_success(outcomes: Seq<ConnectOutcome>) -> Option<nat>
    decreases outcomes.len(),
{
    if outcomes.len() == 0 {
        None
    } else if outcomes[0] is Connected {
        Some(0)
    } else {
        match spec_retries_before_success(outcomes.drop_first()) {
            Some(k) => Some(k + 1),
            None => None,
        }
    }
}

/// Law (reconnection): when a connection eventually succeeds after `k`
/// failures, the runner made exactly `k` failed attempts — each followed
/// by one fixed-interval sleep, by [`connect_decision`] — then one
/// successful connection, and stopped: one successful connection per
/// handoff, however long the head took to appear.
pub proof fn lemma_reconnection(outcomes: Seq<ConnectOutcome>, k: nat)
    requires
        spec_retries_before_success(outcomes) == Some(k),
    ensures
        k < outcomes.len(),
        outcomes[k as int] is Connected,
        forall|i: int| 0 <= i < k ==> outcomes[i] is Refused,
    decreases outcomes.len(),
{
    if outcomes.len() > 0 && !(outcomes[0] is Connected) {
        lemma_reconnection(outcomes.drop_first(), (k - 1) as nat);
        assert forall|i: int| 0 <= i < k implies outcomes[i] is Refused by {
            if i > 0 {
                assert(outcomes.drop_first()[i - 1] is Refused);
            }
        }
    }
}

} // verus!
