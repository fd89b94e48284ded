//! The head's local terminal: raw-mode entry and guaranteed restoration.
//!
//! The controller is generic in the attribute snapshot it stores, since
//! only the platform can read or apply real terminal attributes. The
//! driving process queries and sets attributes and reports each outcome;
//! the controller decides. Its obligations: attributes are captured at
//! most once per controller, a second raw-mode entry is a reported usage
//! error, and whenever raw mode was entered, the captured attributes are
//! what teardown hands back for restoration — with interrupted restore
//! attempts retried transparently and any other restore failure surfaced
//! loudly, never swallowed.

use vstd::prelude::*;

use crate::winsize::Winsize;
use crate::winsize::choose_winsize;
use crate::winsize::spec_default_winsize;

verus! {

/// The controller's own error: raw mode was set up twice.
#[derive(Clone, Copy, PartialEq, Eq, Structural, Debug)]
pub enum TtyError {
    /// Raw mode is already active; entering it again is a usage error.
    AlreadyRaw,
}

/// Outcome of one attribute-restore attempt, as the driver reports it.
#[derive(Clone, Copy, PartialEq, Eq, Structural, Debug)]
pub enum RestoreOutcome {
    /// The saved attributes were applied.
    Applied,
    /// The call was interrupted by a signal before applying anything.
    Interrupted,
    /// The call failed outright.
    Failed,
}

/// What the restore loop does next.
#[derive(Clone, Copy, PartialEq, Eq, Structural, Debug)]
pub enum RestoreStep {
    /// The terminal is restored; the loop is over.
    Done,
    /// Try the same restore again.
    Retry,
    /// Unrecoverable: the terminal could not be restored. Fail loudly.
    Halt,
}

/// The local terminal controller. `A` is whatever snapshot of terminal
/// attributes the platform provides.
pub struct TTY<A> {
    saved: Option<A>,
}

impl<A> Default for TTY<A> {
    /// A controller that has not touched the terminal.
    fn default() -> (t: Self)
        ensures
            t.saved_mode() is None,
    {
        TTY { saved: None }
    }
}

impl<A> TTY<A> {
    /// The attributes captured before raw mode was entered, if it was.
    pub closed spec fn saved_mode(&self) -> Option<A> {
        self.saved
    }

    /// Enter raw mode: capture `current`, the attributes the terminal has
    /// now, so that they can be restored later. Entering raw mode twice
    /// without an intervening teardown is a usage error and changes
    /// nothing.
    pub fn setup_raw(&mut self, current: A) -> (r: Result<(), TtyError>)
        ensures
            old(self).saved_mode() is Some ==> r == Err::<(), TtyError>(TtyError::AlreadyRaw)
                && final(self).saved_mode() == old(self).saved_mode(),
            old(self).saved_mode() is None ==> r == Ok::<(), TtyError>(())
                && final(self).saved_mode() == Some(current),
    {
        if self.saved.is_some() {
            return Err(TtyError::AlreadyRaw);
        }
        self.saved = Some(current);
        Ok(())
    }

    /// The size to apply to the PTY on behalf of this terminal, given
    /// what a size query of the terminal returned.
    pub fn resize_pty(&self, queried: Option<Winsize>) -> (w: Winsize)
        ensures
            w == match queried {
                Some(q) => q,
                None => spec_default_winsize(),
            },
    {
        choose_winsize(queried)
    }

    /// Tear the controller down: if raw mode was entered, the result is
    /// the captured attributes, which the driver must now restore.
    pub fn teardown(self) -> (r: Option<A>)
        ensures
            r == self.saved_mode(),
    {
        self.saved
    }
}

/// The restore loop's policy on one attempt's outcome: an interrupted
/// call is retried transparently; success ends the loop; any other
/// failure is an integrity violation, surfaced loudly and never
/// swallowed.
pub fn restore_decision(outcome: RestoreOutcome) -> (s: RestoreStep)
    ensures
        s is Done <==> outcome is Applied,
        s is Retry <==> outcome is Interrupted,
        s is Halt <==> outcome is Failed,
{
    match outcome {
        RestoreOutcome::Applied => RestoreStep::Done,
        RestoreOutcome::Interrupted => RestoreStep::Retry,
        RestoreOutcome::Failed => RestoreStep::Halt,
    }
}

/// The attribute state of the terminal together with what the controller
/// captured from it.
pub struct TermWorld<A> {
    /// The attributes the terminal has now.
    pub current: A,
    /// The attributes captured before raw mode was entered.
    pub saved: Option<A>,
}

/// Entering raw mode: the terminal takes the raw attributes, and what it
/// had is captured.
pub open spec fn spec_enter_raw<A>(w: TermWorld<A>, raw: A) -> TermWorld<A> {
    TermWorld { current: raw, saved: Some(w.current) }
}

/// The restore loop under the policy of [`restore_decision`], run against
/// a sequence of attempt outcomes: `Some` is the world in which the loop
/// completed, `None` means it never did (it was still retrying when the
/// outcomes ran out, or it halted loudly on a failure).
pub open spec fn spec_restore_run<A>(w: TermWorld<A>, outcomes: Seq<RestoreOutcome>) -> Option<
    TermWorld<A>,
>
    decreases outcomes.len(),
{
    if outcomes.len() == 0 {
        None
    } else {
        match outcomes[0] {
            RestoreOutcome::Applied => match w.saved {
                Some(a) => Some(TermWorld { current: a, saved: None }),
                None => None,
            },
            RestoreOutcome::Interrupted => spec_restore_run(w, outcomes.drop_first()),
            RestoreOutcome::Failed => None,
        }
    }
}

proof fn lemma_restore_yields_saved<A>(w: TermWorld<A>, a: A, outcomes: Seq<RestoreOutcome>)
    requires
        w.saved == Some(a),
    ensures
        spec_restore_run(w, outcomes) is Some ==> spec_restore_run(w, outcomes) == Some(
            TermWorld { current: a, saved: None::<A> },
        ),
    decreases outcomes.len(),
{
    if outcomes.len() > 0 && outcomes[0] is Interrupted {
        lemma_restore_yields_saved(w, a, outcomes.drop_first());
    }
}

/// Law (raw-mode restoration): for any terminal that entered raw mode,
/// and however many interrupted attempts the restore loop retries
/// through, if the loop completes at all, the terminal's attributes equal
/// exactly the attributes captured before entry.
pub proof fn lemma_raw_mode_restored<A>(w0: TermWorld<A>, raw: A, outcomes: Seq<RestoreOutcome>)
    requires
        spec_restore_run(spec_enter_raw(w0, raw), outcomes) is Some,
    ensures
        spec_restore_run(spec_enter_raw(w0, raw), outcomes) == Some(
            TermWorld { current: w0.current, saved: None::<A> },
        ),
{
    lemma_restore_yields_saved(spec_enter_raw(w0, raw), w0.current, outcomes);
}

} // verus!
