//! The verification gate: one latch per run, which the human's signal closes
//! and which the waiting workflow reads.

use vstd::prelude::*;

verus! {

/// The file that says that the workflow waits for the human.
pub const WAITING_MARKER: &'static str = "waiting_for_verification.txt";

/// The file that says that the human is done.
pub const COMPLETED_MARKER: &'static str = "verification_completed.txt";

/// What is written into the file that says that the human is done.
pub const COMPLETED_TOKEN: &'static str = "completed";

/// Where the latch stands within a run.
#[derive(Clone, Copy, Debug, PartialEq, Eq, Structural)]
pub enum GatePhase {
    /// Cleared at the start of the run; nobody waits yet.
    Reset,
    /// The workflow has reached the verification stage and waits.
    WaitingForHuman,
    /// The human is done; final for the run.
    Completed,
}

/// What a workflow that waits at the latch does next.
#[derive(Clone, Copy, Debug, PartialEq, Eq, Structural)]
pub enum WaitOutcome {
    /// The latch is closed: go on.
    Proceed,
    /// Not completed yet, and the limit is not reached: wait on.
    KeepWaiting,
    /// Not completed within the limit: the workflow fails.
    TimedOut,
}

/// The latch of one run.
#[derive(Clone, Copy, Debug, PartialEq, Eq, Structural)]
pub struct VerificationGate {
    pub phase: GatePhase,
}

/// What a workflow does that has waited `waited_secs` at a gate in `phase`,
/// with a limit of `limit_secs`.
pub open spec fn wait_outcome_of(phase: GatePhase, waited_secs: u64, limit_secs: u32)
    -> WaitOutcome {
    if phase == GatePhase::Completed {
        WaitOutcome::Proceed
    } else if waited_secs >= limit_secs {
        WaitOutcome::TimedOut
    } else {
        WaitOutcome::KeepWaiting
    }
}

impl VerificationGate {
    /// A gate that nobody has touched.
    pub fn new() -> (gate: VerificationGate)
        ensures
            gate.phase == GatePhase::Reset,
    {
        VerificationGate { phase: GatePhase::Reset }
    }

    /// Clears the latch for a new run, whatever the last run left.
    pub fn reset(&mut self)
        ensures
            final(self).phase == GatePhase::Reset,
    {
        self.phase = GatePhase::Reset;
    }

    /// Notes that the workflow has reached the verification stage. A gate
    /// that is completed stays so.
    pub fn mark_waiting(&mut self)
        ensures
            final(self).phase == if old(self).phase == GatePhase::Completed {
                GatePhase::Completed
            } else {
                GatePhase::WaitingForHuman
            },
    {
        if self.phase != GatePhase::Completed {
            self.phase = GatePhase::WaitingForHuman;
        }
    }

    /// Notes that the human is done. Doing so again changes nothing.
    pub fn signal_complete(&mut self)
        ensures
            final(self).phase == GatePhase::Completed,
    {
        self.phase = GatePhase::Completed;
    }

    /// Tests whether the human is done.
    pub fn is_completed(&self) -> (done: bool)
        ensures
            done == (self.phase == GatePhase::Completed),
    {
        self.phase == GatePhase::Completed
    }

    /// What a workflow does that has waited `waited_secs` at this gate.
    pub fn wait_outcome(&self, waited_secs: u64, limit_secs: u32) -> (outcome: WaitOutcome)
        ensures
            outcome == wait_outcome_of(self.phase, waited_secs, limit_secs),
    {
        if self.phase == GatePhase::Completed {
            WaitOutcome::Proceed
        } else if waited_secs >= limit_secs as u64 {
            WaitOutcome::TimedOut
        } else {
            WaitOutcome::KeepWaiting
        }
    }
}

/// A workflow never waits beyond the limit: from the limit on, the outcome is
/// to go on or to fail.
pub proof fn lemma_wait_is_bounded(phase: GatePhase, waited_secs: u64, limit_secs: u32)
    requires
        waited_secs >= limit_secs,
    ensures
        wait_outcome_of(phase, waited_secs, limit_secs) != WaitOutcome::KeepWaiting,
{
}

/// A workflow goes on only through a completed gate.
pub proof fn lemma_proceeds_only_when_completed(
    phase: GatePhase,
    waited_secs: u64,
    limit_secs: u32,
)
    ensures
        wait_outcome_of(phase, waited_secs, limit_secs) == WaitOutcome::Proceed <==> phase
            == GatePhase::Completed,
{
}

} // verus!
