//! The head's outer serving loop.
//!
//! A head instance listens for handoffs and serves one session per
//! received descriptor, indefinitely. Whatever goes wrong inside one
//! session — or with one handoff — is reported and the head keeps
//! listening; only deliberate cancellation stops it. The driving process
//! checks the cancellation flag, performs the blocking receive and runs
//! each session; the machine decides what every outcome means.

use vstd::prelude::*;

use crate::channel::ListenError;
use crate::descriptor::OwnedDescriptor;
use crate::session::SessionEnd;

verus! {

/// Whether the head is still serving.
#[derive(Clone, Copy, PartialEq, Eq, Structural, Debug)]
pub enum HeadPhase {
    /// Waiting for the next handoff.
    Listening,
    /// Shut down gracefully.
    Stopped,
}

/// What the head does after one waited-for event.
pub enum HeadAction {
    /// Serve a session on this received descriptor — the head now owns
    /// it — then return to listening.
    Serve(OwnedDescriptor),
    /// Report this handoff failure and keep listening.
    ReportListen(ListenError),
    /// Report this session failure and keep listening.
    ReportSession(i32),
    /// Keep listening, with nothing to report.
    Continue,
    /// Stop serving.
    Shutdown,
}

/// One head event, as the spec-level machine sees it.
pub enum HeadEvent {
    /// The cancellation flag was found set before the next receive.
    CancelRequested,
    /// A handoff delivered a descriptor.
    GotDescriptor,
    /// A handoff failed this way.
    ReceiveFailed(ListenError),
    /// A served session ended this way.
    SessionOver(SessionEnd),
}

/// The events that stop the head: the cancellation flag, or a receive
/// wait interrupted by the cancellation signal. Nothing else does.
pub open spec fn spec_is_cancellation(e: HeadEvent) -> bool {
    match e {
        HeadEvent::CancelRequested => true,
        HeadEvent::ReceiveFailed(err) => err is Canceled,
        _ => false,
    }
}

/// One step of the head's life.
pub open spec fn spec_head_step(p: HeadPhase, e: HeadEvent) -> HeadPhase {
    if spec_is_cancellation(e) {
        HeadPhase::Stopped
    } else {
        p
    }
}

/// The head's phase after a whole sequence of events.
pub open spec fn spec_head_run(p: HeadPhase, events: Seq<HeadEvent>) -> HeadPhase
    decreases events.len(),
{
    if events.len() == 0 {
        p
    } else {
        spec_head_run(spec_head_step(p, events[0]), events.drop_first())
    }
}

/// The head process's serving loop.
pub struct Head {
    phase: HeadPhase,
}

impl Head {
    pub closed spec fn phase(&self) -> HeadPhase {
        self.phase
    }

    /// A head that has bound its socket and serves handoffs.
    pub fn new() -> (h: Head)
        ensures
            h.phase() is Listening,
    {
        Head { phase: HeadPhase::Listening }
    }

    /// The check before each blocking receive: a set cancellation flag
    /// stops the head; otherwise it keeps listening.
    pub fn poll_cancel(&mut self, cancel_requested: bool) -> (keep_going: bool)
        requires
            old(self).phase() is Listening,
        ensures
            final(self).phase() == spec_head_step(
                old(self).phase(),
                if cancel_requested {
                    HeadEvent::CancelRequested
                } else {
                    HeadEvent::GotDescriptor
                },
            ),
            keep_going <==> !cancel_requested,
    {
        if cancel_requested {
            self.phase = HeadPhase::Stopped;
            false
        } else {
            true
        }
    }

    /// What one handoff outcome means: a received descriptor is served;
    /// cancellation stops the head, a distinguished outcome and not an
    /// error; any other failure is reported and the head keeps
    /// listening.
    pub fn on_receive(&mut self, received: Result<OwnedDescriptor, ListenError>) -> (a: HeadAction)
        requires
            old(self).phase() is Listening,
        ensures
            received matches Ok(d) ==> a == HeadAction::Serve(d) && final(self).phase()
                is Listening,
            received == Err::<OwnedDescriptor, ListenError>(ListenError::Canceled) ==> a
                is Shutdown && final(self).phase() is Stopped,
            received matches Err(e) ==> (e is Canceled || (a == HeadAction::ReportListen(e)
                && final(self).phase() is Listening)),
    {
        match received {
            Ok(d) => HeadAction::Serve(d),
            Err(ListenError::Canceled) => {
                self.phase = HeadPhase::Stopped;
                HeadAction::Shutdown
            },
            Err(e) => HeadAction::ReportListen(e),
        }
    }

    /// What a served session's end means: a failure is reported, a clean
    /// end is not, and either way the head keeps listening — one failed
    /// session never terminates the head.
    pub fn on_session_end(&mut self, end: SessionEnd) -> (a: HeadAction)
        requires
            old(self).phase() is Listening,
        ensures
            final(self).phase() is Listening,
            end matches SessionEnd::Failed(e) ==> a == HeadAction::ReportSession(e),
            end is Clean ==> a is Continue,
    {
        match end {
            SessionEnd::Clean => HeadAction::Continue,
            SessionEnd::Failed(e) => HeadAction::ReportSession(e),
        }
    }
}

/// Law (the head outlives its sessions): over any sequence of events
/// that contains no deliberate cancellation — failed handoffs and failed
/// sessions included — a listening head is still listening.
pub proof fn lemma_head_stops_only_on_cancel(events: Seq<HeadEvent>)
    requires
        forall|i: int| 0 <= i < events.len() ==> !spec_is_cancellation(#[trigger] events[i]),
    ensures
        spec_head_run(HeadPhase::Listening, events) is Listening,
    decreases events.len(),
{
    if events.len() > 0 {
        assert(!spec_is_cancellation(events[0]));
        assert(forall|i: int|
            0 <= i < events.drop_first().len() ==> !spec_is_cancellation(
                #[trigger] events.drop_first()[i],
            ));
        lemma_head_stops_only_on_cancel(events.drop_first());
    }
}

} // verus!
