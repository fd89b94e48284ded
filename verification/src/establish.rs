//! The runner's PTY session establishment sequence.
//!
//! The runner must perform a fixed sequence of steps — allocate the PTY,
//! resolve its peer path, become a session leader, rewire the standard
//! streams to the peer, hand the controlling descriptor to the head, and
//! finally replace the process image with the target command. The order
//! matters, and any failure aborts the whole run naming the step that
//! failed. The driving process performs each step's system calls and
//! reports the outcome; the machine hands out the next action and keeps
//! the order honest.

use vstd::prelude::*;

verus! {

/// The steps of the establishment sequence, in their fixed order.
#[derive(Clone, Copy, PartialEq, Eq, Structural, Debug)]
pub enum RunAction {
    /// Allocate a new PTY, grant and unlock it.
    AllocatePty,
    /// Resolve the filesystem path of the PTY's peer end.
    ResolvePeerPath,
    /// Make this process a session and group leader, unless it already
    /// leads its own group.
    MakeSessionLeader,
    /// Open the peer read-only, duplicate it onto standard input, apply
    /// the default window size, close the temporary handle.
    WireStdin,
    /// Open the peer write-only, duplicate it onto standard output and
    /// standard error, close the temporary handle.
    WireOutputs,
    /// Transfer ownership of the controlling descriptor to the head
    /// through the channel, then close the local copy.
    TransferPty,
    /// Replace the process image with the target command, arguments
    /// passed through unmodified.
    ExecCommand,
}

/// Outcome of one performed step.
#[derive(Clone, Copy, PartialEq, Eq, Structural, Debug)]
pub enum StepOutcome {
    Succeeded,
    /// The step failed with this error number.
    Failed(i32),
}

/// Why a run aborted.
#[derive(Clone, Copy, PartialEq, Eq, Structural, Debug)]
pub enum RunError {
    /// This step failed with this error number.
    Step(RunAction, i32),
    /// The process-image replacement returned, which cannot happen on
    /// success: a fatal, unreachable-in-practice condition.
    ExecReturned,
}

/// Whether the leader step has anything to do: becoming a session and
/// group leader is skipped when the process already leads its own group,
/// as it does on a detached start.
#[derive(Clone, Copy, PartialEq, Eq, Structural, Debug)]
pub enum LeaderStep {
    /// Make the process a new session and group leader.
    StartSession,
    /// Nothing to do: the process already leads its own group.
    AlreadyLeader,
}

/// How many steps the sequence has.
pub const RUN_STEPS: u8 = 7;

/// The canonical order of the establishment steps.
pub open spec fn spec_canonical_actions() -> Seq<RunAction> {
    seq![
        RunAction::AllocatePty,
        RunAction::ResolvePeerPath,
        RunAction::MakeSessionLeader,
        RunAction::WireStdin,
        RunAction::WireOutputs,
        RunAction::TransferPty,
        RunAction::ExecCommand,
    ]
}

/// The establishment sequence: counts completed steps and refuses to go
/// on once one failed.
pub struct Establisher {
    completed: u8,
    aborted: bool,
}

impl Establisher {
    /// The number of steps completed so far.
    pub closed spec fn completed(&self) -> int {
        self.completed as int
    }

    /// A step failed, or the replacement call returned: the run is over.
    pub closed spec fn aborted(&self) -> bool {
        self.aborted
    }

    pub open spec fn wf(&self) -> bool {
        0 <= self.completed() <= RUN_STEPS as int
    }

    /// A run that has not started.
    pub fn new() -> (e: Establisher)
        ensures
            e.wf(),
            e.completed() == 0,
            !e.aborted(),
    {
        Establisher { completed: 0, aborted: false }
    }

    /// The next step to perform: always the first not yet completed, in
    /// the canonical order; nothing once the run aborted or every step
    /// is done.
    pub fn next_action(&self) -> (a: Option<RunAction>)
        requires
            self.wf(),
        ensures
            self.aborted() || self.completed() == RUN_STEPS as int ==> a is None,
            !self.aborted() && self.completed() < RUN_STEPS as int ==> a == Some(
                spec_canonical_actions()[self.completed()],
            ),
    {
        if self.aborted {
            return None;
        }
        match self.completed {
            0 => Some(RunAction::AllocatePty),
            1 => Some(RunAction::ResolvePeerPath),
            2 => Some(RunAction::MakeSessionLeader),
            3 => Some(RunAction::WireStdin),
            4 => Some(RunAction::WireOutputs),
            5 => Some(RunAction::TransferPty),
            6 => Some(RunAction::ExecCommand),
            _ => None,
        }
    }

    /// Record one performed step's outcome. A failure aborts the run
    /// with an error naming the step that failed and its cause; success
    /// moves to the next step — except that the final, process-replacing
    /// step cannot succeed and return, so an outcome that claims so is
    /// itself the fatal error.
    pub fn advance(&mut self, outcome: StepOutcome) -> (r: Result<(), RunError>)
        requires
            old(self).wf(),
            !old(self).aborted(),
            old(self).completed() < RUN_STEPS as int,
        ensures
            final(self).wf(),
            outcome matches StepOutcome::Failed(e) ==> r == Err::<(), RunError>(
                RunError::Step(spec_canonical_actions()[old(self).completed()], e),
            ) && final(self).aborted(),
            outcome is Succeeded && old(self).completed() < RUN_STEPS as int - 1 ==> r
                == Ok::<(), RunError>(()) && !final(self).aborted() && final(self).completed()
                == old(self).completed() + 1,
            outcome is Succeeded && old(self).completed() == RUN_STEPS as int - 1 ==> r
                == Err::<(), RunError>(RunError::ExecReturned) && final(self).aborted(),
    {
        match outcome {
            StepOutcome::Failed(e) => {
                let action = match self.completed {
                    0 => RunAction::AllocatePty,
                    1 => RunAction::ResolvePeerPath,
                    2 => RunAction::MakeSessionLeader,
                    3 => RunAction::WireStdin,
                    4 => RunAction::WireOutputs,
                    5 => RunAction::TransferPty,
                    _ => RunAction::ExecCommand,
                };
                self.aborted = true;
                Err(RunError::Step(action, e))
            },
            StepOutcome::Succeeded => {
                if self.completed == RUN_STEPS - 1 {
                    self.aborted = true;
                    Err(RunError::ExecReturned)
                } else {
                    self.completed = self.completed + 1;
                    Ok(())
                }
            },
        }
    }
}

/// The leader step's decision: idempotent by construction — a process
/// that already leads its own group is left alone, any other becomes a
/// new session and group leader.
pub fn leader_decision(already_leader: bool) -> (s: LeaderStep)
    ensures
        s is StartSession <==> !already_leader,
{
    if already_leader {
        LeaderStep::AlreadyLeader
    } else {
        LeaderStep::StartSession
    }
}

} // verus!
