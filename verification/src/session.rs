//! The head-side interactive session: a state machine that bridges the
//! local terminal and a received PTY.
//!
//! A session moves `AwaitingSize -> Bridging -> Closed`. The driving
//! process performs the blocking readiness wait and the terminal-size
//! system calls, and reports each outcome as an event; the machine decides
//! what the outcome means and performs the byte relay on its endpoint
//! models. The resize signal is delivered solely as an interruption of the
//! readiness wait, so an interrupted wait sends the session back to
//! `AwaitingSize`: no relay can happen until the driver has applied a
//! fresh window size to the PTY.

use vstd::prelude::*;

use crate::relay::Endpoint;
use crate::relay::EndpointModel;
use crate::relay::RELAY_CHUNK;
use crate::relay::proxy_write;
use crate::relay::spec_after_read;
use crate::relay::spec_after_write;
use crate::relay::spec_chunk;
use crate::winsize::Winsize;

verus! {

/// Where a session stands.
#[derive(Clone, Copy, PartialEq, Eq, Structural, Debug)]
pub enum SessionPhase {
    /// A window size must be applied to the PTY before any relay.
    AwaitingSize,
    /// Bytes are relayed between terminal and PTY.
    Bridging,
    /// The session is over; `SessionEnd` says how.
    Closed,
}

/// How a session ended.
#[derive(Clone, Copy, PartialEq, Eq, Structural, Debug)]
pub enum SessionEnd {
    /// One side reported end of file: a clean end, no error to report.
    Clean,
    /// The wait failed with this error number: reported, session abandoned.
    Failed(i32),
}

/// What the blocking readiness wait came back with.
#[derive(Clone, Copy, PartialEq, Eq, Structural, Debug)]
pub enum WaitEvent {
    /// At least one descriptor is ready for reading.
    Ready { pty_readable: bool, terminal_readable: bool },
    /// The wait was interrupted by a signal: a window resize is pending.
    Interrupted,
    /// The wait itself failed with this error number.
    Error(i32),
}

/// One step's worth of input to the session machine.
pub enum SessionEvent {
    /// The driver applied this window size to the PTY.
    SizeApplied(Winsize),
    /// The readiness wait returned.
    Wait(WaitEvent),
}

/// Mathematical model of a session.
#[verifier::ext_equal]
pub struct SessionModel {
    pub phase: SessionPhase,
    pub pty: EndpointModel,
    pub terminal: EndpointModel,
    /// The window size most recently applied to the PTY, if any.
    pub applied: Option<Winsize>,
    pub end: Option<SessionEnd>,
}

impl SessionModel {
    pub open spec fn wf(self) -> bool {
        &&& self.pty.wf()
        &&& self.terminal.wf()
        &&& (self.end is Some <==> self.phase is Closed)
    }
}

/// The model after one relay step from the PTY towards the terminal:
/// end of file closes the session cleanly, otherwise one chunk crosses.
pub open spec fn spec_relay_from_pty(s: SessionModel) -> SessionModel {
    if s.pty.at_eof() {
        SessionModel { phase: SessionPhase::Closed, end: Some(SessionEnd::Clean), ..s }
    } else {
        SessionModel {
            pty: spec_after_read(s.pty, RELAY_CHUNK as int),
            terminal: spec_after_write(s.terminal, spec_chunk(s.pty, RELAY_CHUNK as int)),
            ..s
        }
    }
}

/// The model after one relay step from the terminal towards the PTY.
pub open spec fn spec_relay_from_terminal(s: SessionModel) -> SessionModel {
    if s.terminal.at_eof() {
        SessionModel { phase: SessionPhase::Closed, end: Some(SessionEnd::Clean), ..s }
    } else {
        SessionModel {
            terminal: spec_after_read(s.terminal, RELAY_CHUNK as int),
            pty: spec_after_write(s.pty, spec_chunk(s.terminal, RELAY_CHUNK as int)),
            ..s
        }
    }
}

/// What one returned wait means for a bridging session. When both sides
/// are ready the PTY is relayed first: the fixed tie-break order.
pub open spec fn spec_on_wait(s: SessionModel, e: WaitEvent) -> SessionModel {
    match e {
        WaitEvent::Interrupted => SessionModel { phase: SessionPhase::AwaitingSize, ..s },
        WaitEvent::Error(err) => SessionModel {
            phase: SessionPhase::Closed,
            end: Some(SessionEnd::Failed(err)),
            ..s
        },
        WaitEvent::Ready { pty_readable, terminal_readable } => {
            let s1 = if pty_readable {
                spec_relay_from_pty(s)
            } else {
                s
            };
            if s1.phase is Closed {
                s1
            } else if terminal_readable {
                spec_relay_from_terminal(s1)
            } else {
                s1
            }
        },
    }
}

/// One step of the session machine. Events that a phase does not expect
/// change nothing.
pub open spec fn spec_step(s: SessionModel, e: SessionEvent) -> SessionModel {
    match e {
        SessionEvent::SizeApplied(w) => if s.phase is AwaitingSize {
            SessionModel { phase: SessionPhase::Bridging, applied: Some(w), ..s }
        } else {
            s
        },
        SessionEvent::Wait(we) => if s.phase is Bridging {
            spec_on_wait(s, we)
        } else {
            s
        },
    }
}

/// The session machine run over a whole sequence of events.
pub open spec fn spec_run(s: SessionModel, events: Seq<SessionEvent>) -> SessionModel
    decreases events.len(),
{
    if events.len() == 0 {
        s
    } else {
        spec_run(spec_step(s, events[0]), events.drop_first())
    }
}

/// A head-side session over a received PTY.
pub struct Session {
    phase: SessionPhase,
    pty: Endpoint,
    terminal: Endpoint,
    applied: Option<Winsize>,
    end: Option<SessionEnd>,
}

impl View for Session {
    type V = SessionModel;

    closed spec fn view(&self) -> SessionModel {
        SessionModel {
            phase: self.phase,
            pty: self.pty@,
            terminal: self.terminal@,
            applied: self.applied,
            end: self.end,
        }
    }
}

impl Session {
    pub open spec fn wf(&self) -> bool {
        self@.wf()
    }

    /// A session over a freshly received PTY: a window size must be
    /// applied before bridging starts.
    pub fn start(pty: Endpoint, terminal: Endpoint) -> (s: Session)
        requires
            pty.wf(),
            terminal.wf(),
        ensures
            s.wf(),
            s@.phase is AwaitingSize,
            s@.pty == pty@,
            s@.terminal == terminal@,
            s@.applied is None,
            s@.end is None,
    {
        Session { phase: SessionPhase::AwaitingSize, pty, terminal, applied: None, end: None }
    }

    /// The driver reports that it applied `size` to the PTY: bridging can
    /// begin, or resume after an interruption.
    pub fn size_applied(&mut self, size: Winsize)
        requires
            old(self).wf(),
            old(self)@.phase is AwaitingSize,
        ensures
            final(self).wf(),
            final(self)@ == spec_step(old(self)@, SessionEvent::SizeApplied(size)),
    {
        self.phase = SessionPhase::Bridging;
        self.applied = Some(size);
        proof {
            assert(self@ =~= spec_step(old(self)@, SessionEvent::SizeApplied(size)));
        }
    }

    /// The readiness wait returned: relay, resize, close, or fail as the
    /// outcome dictates. The result says whether the session still runs.
    pub fn on_wait(&mut self, event: WaitEvent) -> (running: bool)
        requires
            old(self).wf(),
            old(self)@.phase is Bridging,
        ensures
            final(self).wf(),
            final(self)@ == spec_step(old(self)@, SessionEvent::Wait(event)),
            running <==> !(final(self)@.phase is Closed),
    {
        match event {
            WaitEvent::Interrupted => {
                self.phase = SessionPhase::AwaitingSize;
                proof {
                    assert(self@ =~= spec_step(old(self)@, SessionEvent::Wait(event)));
                }
                true
            },
            WaitEvent::Error(err) => {
                self.phase = SessionPhase::Closed;
                self.end = Some(SessionEnd::Failed(err));
                proof {
                    assert(self@ =~= spec_step(old(self)@, SessionEvent::Wait(event)));
                }
                false
            },
            WaitEvent::Ready { pty_readable, terminal_readable } => {
                if pty_readable {
                    let done = proxy_write(RELAY_CHUNK, &mut self.pty, &mut self.terminal);
                    if done {
                        self.phase = SessionPhase::Closed;
                        self.end = Some(SessionEnd::Clean);
                        proof {
                            assert(self@ =~= spec_step(old(self)@, SessionEvent::Wait(event)));
                        }
                        return false;
                    }
                }
                if terminal_readable {
                    let done = proxy_write(RELAY_CHUNK, &mut self.terminal, &mut self.pty);
                    if done {
                        self.phase = SessionPhase::Closed;
                        self.end = Some(SessionEnd::Clean);
                        proof {
                            assert(self@ =~= spec_step(old(self)@, SessionEvent::Wait(event)));
                        }
                        return false;
                    }
                }
                proof {
                    assert(self@ =~= spec_step(old(self)@, SessionEvent::Wait(event)));
                }
                true
            },
        }
    }

    /// How the session ended, once it is closed.
    pub fn outcome(&self) -> (r: Option<SessionEnd>)
        ensures
            r == self@.end,
    {
        self.end
    }

    /// The current phase.
    pub fn phase(&self) -> (r: SessionPhase)
        ensures
            r == self@.phase,
    {
        self.phase
    }

    /// The terminal-side endpoint, for inspecting what was delivered.
    pub fn terminal_endpoint(&self) -> (r: &Endpoint)
        ensures
            r@ == self@.terminal,
    {
        &self.terminal
    }

    /// The PTY-side endpoint, for inspecting what was delivered.
    pub fn pty_endpoint(&self) -> (r: &Endpoint)
        ensures
            r@ == self@.pty,
    {
        &self.pty
    }
}

/// `s` was reached from `s0` by relaying alone: each side's output has
/// grown by exactly the bytes the other side's reads consumed, in order,
/// with nothing lost, duplicated, reordered or invented.
pub open spec fn relayed_exactly(s0: SessionModel, s: SessionModel) -> bool {
    &&& s.pty.input == s0.pty.input
    &&& s.terminal.input == s0.terminal.input
    &&& s0.pty.read_pos <= s.pty.read_pos <= s.pty.input.len()
    &&& s0.terminal.read_pos <= s.terminal.read_pos <= s.terminal.input.len()
    &&& s.terminal.output == s0.terminal.output + s.pty.input.subrange(
        s0.pty.read_pos,
        s.pty.read_pos,
    )
    &&& s.pty.output == s0.pty.output + s.terminal.input.subrange(
        s0.terminal.read_pos,
        s.terminal.read_pos,
    )
}

/// Every step keeps the session well formed.
pub proof fn lemma_step_wf(s: SessionModel, e: SessionEvent)
    requires
        s.wf(),
    ensures
        spec_step(s, e).wf(),
{
}

proof fn lemma_relay_from_pty_exact(s0: SessionModel, s: SessionModel)
    requires
        s0.wf(),
        s.wf(),
        relayed_exactly(s0, s),
    ensures
        spec_relay_from_pty(s).wf(),
        relayed_exactly(s0, spec_relay_from_pty(s)),
{
    if !s.pty.at_eof() {
        let t = spec_relay_from_pty(s);
        assert(spec_chunk(s.pty, RELAY_CHUNK as int)
            =~= s.pty.input.subrange(s.pty.read_pos, t.pty.read_pos));
        assert(s.pty.input.subrange(s0.pty.read_pos, s.pty.read_pos)
            + s.pty.input.subrange(s.pty.read_pos, t.pty.read_pos)
            =~= s.pty.input.subrange(s0.pty.read_pos, t.pty.read_pos));
        assert(t.terminal.output
            =~= s0.terminal.output + t.pty.input.subrange(s0.pty.read_pos, t.pty.read_pos));
    }
}

proof fn lemma_relay_from_terminal_exact(s0: SessionModel, s: SessionModel)
    requires
        s0.wf(),
        s.wf(),
        relayed_exactly(s0, s),
    ensures
        spec_relay_from_terminal(s).wf(),
        relayed_exactly(s0, spec_relay_from_terminal(s)),
{
    if !s.terminal.at_eof() {
        let t = spec_relay_from_terminal(s);
        assert(spec_chunk(s.terminal, RELAY_CHUNK as int)
            =~= s.terminal.input.subrange(s.terminal.read_pos, t.terminal.read_pos));
        assert(s.terminal.input.subrange(s0.terminal.read_pos, s.terminal.read_pos)
            + s.terminal.input.subrange(s.terminal.read_pos, t.terminal.read_pos)
            =~= s.terminal.input.subrange(s0.terminal.read_pos, t.terminal.read_pos));
        assert(t.pty.output
            =~= s0.pty.output + t.terminal.input.subrange(
                s0.terminal.read_pos,
                t.terminal.read_pos,
            ));
    }
}

/// One step relays exactly: it never loses, duplicates, reorders or
/// invents bytes.
pub proof fn lemma_step_relays_exactly(s0: SessionModel, s: SessionModel, e: SessionEvent)
    requires
        s0.wf(),
        s.wf(),
        relayed_exactly(s0, s),
    ensures
        spec_step(s, e).wf(),
        relayed_exactly(s0, spec_step(s, e)),
{
    match e {
        SessionEvent::SizeApplied(_) => {},
        SessionEvent::Wait(we) => {
            if s.phase is Bridging {
                match we {
                    WaitEvent::Ready { pty_readable, terminal_readable } => {
                        let s1 = if pty_readable {
                            spec_relay_from_pty(s)
                        } else {
                            s
                        };
                        if pty_readable {
                            lemma_relay_from_pty_exact(s0, s);
                        }
                        if !(s1.phase is Closed) && terminal_readable {
                            lemma_relay_from_terminal_exact(s0, s1);
                        }
                    },
                    _ => {},
                }
            }
        },
    }
}

proof fn lemma_run_relays_exactly(s0: SessionModel, s: SessionModel, events: Seq<SessionEvent>)
    requires
        s0.wf(),
        s.wf(),
        relayed_exactly(s0, s),
    ensures
        spec_run(s, events).wf(),
        relayed_exactly(s0, spec_run(s, events)),
    decreases events.len(),
{
    if events.len() > 0 {
        lemma_step_relays_exactly(s0, s, events[0]);
        lemma_run_relays_exactly(s0, spec_step(s, events[0]), events.drop_first());
    }
}

/// Law (round trip of bytes): however a session run interleaves waits,
/// interruptions and relays from both sides, the bytes delivered to the
/// terminal are exactly the bytes consumed from the PTY, in order, and
/// the bytes delivered to the PTY are exactly the bytes consumed from the
/// terminal, in order — no loss, duplication or reordering, whatever the
/// chunk sizes involved.
pub proof fn lemma_round_trip(s0: SessionModel, events: Seq<SessionEvent>)
    requires
        s0.wf(),
    ensures
        spec_run(s0, events).wf(),
        relayed_exactly(s0, spec_run(s0, events)),
{
    assert(s0.terminal.output =~= s0.terminal.output + s0.pty.input.subrange(
        s0.pty.read_pos,
        s0.pty.read_pos,
    ));
    assert(s0.pty.output =~= s0.pty.output + s0.terminal.input.subrange(
        s0.terminal.read_pos,
        s0.terminal.read_pos,
    ));
    lemma_run_relays_exactly(s0, s0, events);
}

/// A corollary of the round trip: a fresh session whose run drains the
/// PTY — as a clean close on the PTY's end of file does — has delivered
/// the PTY's whole output to the terminal, verbatim. The same holds of
/// the other direction with the sides swapped.
pub proof fn lemma_clean_close_delivers_everything(s0: SessionModel, events: Seq<SessionEvent>)
    requires
        s0.wf(),
        s0.pty.read_pos == 0,
        s0.terminal.output.len() == 0,
        spec_run(s0, events).pty.at_eof(),
    ensures
        spec_run(s0, events).terminal.output == s0.pty.input,
{
    lemma_round_trip(s0, events);
    let t = spec_run(s0, events);
    assert(t.terminal.output =~= s0.pty.input);
}

/// Law (session termination symmetry): a zero-length read from either
/// the PTY or the terminal closes the session cleanly, with no error to
/// report; a failing wait closes it with exactly that error recorded and
/// both endpoints untouched.
pub proof fn lemma_termination_symmetry(s: SessionModel, terminal_ready: bool, err: i32)
    requires
        s.wf(),
        s.phase is Bridging,
    ensures
        s.pty.at_eof() ==> (spec_step(
            s,
            SessionEvent::Wait(WaitEvent::Ready {
                pty_readable: true,
                terminal_readable: terminal_ready,
            }),
        ) == (SessionModel { phase: SessionPhase::Closed, end: Some(SessionEnd::Clean), ..s })),
        s.terminal.at_eof() ==> (spec_step(
            s,
            SessionEvent::Wait(WaitEvent::Ready {
                pty_readable: false,
                terminal_readable: true,
            }),
        ) == (SessionModel { phase: SessionPhase::Closed, end: Some(SessionEnd::Clean), ..s })),
        spec_step(s, SessionEvent::Wait(WaitEvent::Error(err))) == (SessionModel {
            phase: SessionPhase::Closed,
            end: Some(SessionEnd::Failed(err)),
            ..s
        }),
{
}

proof fn lemma_awaiting_stalls(s: SessionModel, events: Seq<SessionEvent>)
    requires
        s.phase is AwaitingSize,
        forall|i: int| 0 <= i < events.len() ==> !(#[trigger] events[i] is SizeApplied),
    ensures
        spec_run(s, events) == s,
    decreases events.len(),
{
    if events.len() > 0 {
        assert(!(events[0] is SizeApplied));
        assert(spec_step(s, events[0]) == s);
        assert(forall|i: int|
            0 <= i < events.drop_first().len() ==> !(#[trigger] events.drop_first()[i]
                is SizeApplied));
        lemma_awaiting_stalls(s, events.drop_first());
    }
}

/// Law (resize handling): an interrupted wait touches no bytes — both
/// endpoints are exactly as they were — and sends the session back to
/// awaiting a size, from where no event relays anything until the driver
/// has applied a fresh window size; once one is applied, it is recorded
/// and bridging resumes.
pub proof fn lemma_resize_before_relay(
    s: SessionModel,
    events: Seq<SessionEvent>,
    size: Winsize,
)
    requires
        s.wf(),
        s.phase is Bridging,
        forall|i: int| 0 <= i < events.len() ==> !(#[trigger] events[i] is SizeApplied),
    ensures
        spec_step(s, SessionEvent::Wait(WaitEvent::Interrupted)) == (SessionModel {
            phase: SessionPhase::AwaitingSize,
            ..s
        }),
        spec_run(spec_step(s, SessionEvent::Wait(WaitEvent::Interrupted)), events) == spec_step(
            s,
            SessionEvent::Wait(WaitEvent::Interrupted),
        ),
        spec_step(
            spec_step(s, SessionEvent::Wait(WaitEvent::Interrupted)),
            SessionEvent::SizeApplied(size),
        ) == (SessionModel { phase: SessionPhase::Bridging, applied: Some(size), ..s }),
{
    lemma_awaiting_stalls(spec_step(s, SessionEvent::Wait(WaitEvent::Interrupted)), events);
}

} // verus!
