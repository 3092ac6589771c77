//! A run of fallible outside steps that must all succeed, in order: the first
//! failure (or panic) ends the run for good, and the run is finished only once
//! every step has reported success.
use vstd::prelude::*;

verus! {

/// What an outside step reported back.
#[derive(Clone, Copy, Debug, PartialEq, Eq, Structural)]
pub enum StepOutcome {
    /// The step produced its value.
    Succeeded,
    /// The step returned an error or nothing.
    Failed,
    /// The step panicked.
    Panicked,
}

/// Where a run stands.
#[derive(Clone, Copy, Debug, PartialEq, Eq, Structural)]
pub enum SequenceStatus {
    /// Steps remain to be run.
    Running,
    /// Every step succeeded.
    Finished,
    /// A step failed or panicked; nothing more runs.
    Aborted,
}

/// A run of `total` fallible steps, of which `completed` have succeeded.
#[derive(Clone, Copy, Debug)]
pub struct StepSequence {
    total: u8,
    completed: u8,
    status: SequenceStatus,
}

/// One step of a run of `total` steps, on (completed steps, status): a success
/// while running counts one more completed step (finishing the run at the
/// last one), a failure or panic while running aborts it, and a run that is no
/// longer running stays as it is.
pub open spec fn next_state(
    total: nat,
    state: (nat, SequenceStatus),
    outcome: StepOutcome,
) -> (nat, SequenceStatus) {
    if state.1 != SequenceStatus::Running {
        state
    } else if outcome == StepOutcome::Succeeded {
        (
            state.0 + 1,
            if state.0 + 1 == total {
                SequenceStatus::Finished
            } else {
                SequenceStatus::Running
            },
        )
    } else {
        (state.0, SequenceStatus::Aborted)
    }
}

/// The (completed steps, status) of a run of `total` steps after the steps
/// reported `outcomes`, in order, starting from a fresh run.
pub open spec fn run_state(total: nat, outcomes: Seq<StepOutcome>) -> (nat, SequenceStatus)
    decreases outcomes.len(),
{
    if outcomes.len() == 0 {
        (0, SequenceStatus::Running)
    } else {
        next_state(total, run_state(total, outcomes.drop_last()), outcomes.last())
    }
}

impl StepSequence {
    pub closed spec fn total(self) -> nat {
        self.total as nat
    }

    pub closed spec fn completed(self) -> nat {
        self.completed as nat
    }

    pub closed spec fn status(self) -> SequenceStatus {
        self.status
    }

    /// A run counts at most `total` successes; it is finished exactly when all
    /// of them are in, and otherwise running or aborted short of that.
    pub closed spec fn wf(self) -> bool {
        &&& 0 < self.total
        &&& self.completed <= self.total
        &&& (self.status == SequenceStatus::Finished <==> self.completed == self.total)
    }

    /// The run before any step has been tried.
    pub open spec fn is_fresh(self, total: nat) -> bool {
        &&& self.wf()
        &&& self.total() == total
        &&& self.completed() == 0
        &&& self.status() == SequenceStatus::Running
    }

    /// Whether `next` is the run after `self` once a step reported `outcome`.
    pub open spec fn steps_to(self, outcome: StepOutcome, next: StepSequence) -> bool {
        &&& next.total() == self.total()
        &&& (next.completed(), next.status()) == next_state(
            self.total(),
            (self.completed(), self.status()),
            outcome,
        )
    }

    /// Starts a run of `total` steps.
    pub fn new(total: u8) -> (r: StepSequence)
        requires
            total > 0,
        ensures
            r.is_fresh(total as nat),
    {
        StepSequence { total, completed: 0, status: SequenceStatus::Running }
    }

    /// The number of steps that have succeeded so far; while the run is
    /// running, it is also the index of the step to run next.
    pub fn completed_steps(&self) -> (r: u8)
        ensures
            r == self.completed(),
    {
        self.completed
    }

    /// Where the run stands.
    pub fn current_status(&self) -> (r: SequenceStatus)
        ensures
            r == self.status(),
    {
        self.status
    }

    /// Records what the step that was run reported, and returns where the run
    /// stands afterwards.
    pub fn record(&mut self, outcome: StepOutcome) -> (r: SequenceStatus)
        requires
            old(self).wf(),
        ensures
            final(self).wf(),
            old(self).steps_to(outcome, *final(self)),
            r == final(self).status(),
    {
        match self.status {
            SequenceStatus::Running => {
                match outcome {
                    StepOutcome::Succeeded => {
                        self.completed = self.completed + 1;
                        if self.completed == self.total {
                            self.status = SequenceStatus::Finished;
                        }
                    },
                    _ => {
                        self.status = SequenceStatus::Aborted;
                    },
                }
            },
            _ => {},
        }
        self.status
    }
}

} // verus!

verus! {

/// What a run looks like after any list of outcomes: the completed steps are
/// the leading successes; a running run has taken every outcome as a success
/// and is short of `total`; a finished run has `total` successes; an aborted
/// run stopped at its first non-success, before `total`.
proof fn lemma_run_shape(total: nat, outcomes: Seq<StepOutcome>)
    requires
        total > 0,
    ensures
        ({
            let (c, st) = run_state(total, outcomes);
            &&& c <= total
            &&& c <= outcomes.len()
            &&& forall|i: int| 0 <= i < c ==> outcomes[i] == StepOutcome::Succeeded
            &&& st == SequenceStatus::Running ==> c == outcomes.len() && c < total
            &&& st == SequenceStatus::Finished ==> c == total
            &&& st == SequenceStatus::Aborted ==> c < total && c < outcomes.len()
                && outcomes[c as int] != StepOutcome::Succeeded
        }),
    decreases outcomes.len(),
{
    if outcomes.len() > 0 {
        let prefix = outcomes.drop_last();
        lemma_run_shape(total, prefix);
        assert forall|i: int| 0 <= i < prefix.len() implies prefix[i] == outcomes[i] by {}
    }
}

/// A run ends finished exactly when every one of its `total` steps reported
/// success, in order: a device or texture is handed out only then.
pub proof fn lemma_finished_iff_all_steps_succeeded(total: nat, outcomes: Seq<StepOutcome>)
    requires
        total > 0,
    ensures
        run_state(total, outcomes).1 == SequenceStatus::Finished <==> (outcomes.len() >= total
            && forall|i: int| 0 <= i < total ==> outcomes[i] == StepOutcome::Succeeded),
{
    lemma_run_shape(total, outcomes);
}

/// A run ends aborted exactly when one of its first `total` steps failed or
/// panicked; the completed count is then the index of the first such step.
pub proof fn lemma_aborted_iff_some_step_failed(total: nat, outcomes: Seq<StepOutcome>)
    requires
        total > 0,
    ensures
        run_state(total, outcomes).1 == SequenceStatus::Aborted <==> exists|i: int|
            0 <= i < outcomes.len() && i < total && outcomes[i] != StepOutcome::Succeeded,
        run_state(total, outcomes).1 == SequenceStatus::Aborted ==> ({
            let c = run_state(total, outcomes).0 as int;
            &&& outcomes[c] != StepOutcome::Succeeded
            &&& forall|i: int| 0 <= i < c ==> outcomes[i] == StepOutcome::Succeeded
        }),
{
    lemma_run_shape(total, outcomes);
    let (c, st) = run_state(total, outcomes);
    if st == SequenceStatus::Aborted {
        assert(outcomes[c as int] != StepOutcome::Succeeded);
    }
}

/// Once a run has ended, whatever is reported afterwards changes nothing.
pub proof fn lemma_ended_run_is_final(total: nat, outcomes: Seq<StepOutcome>, more: Seq<StepOutcome>)
    requires
        total > 0,
        run_state(total, outcomes).1 != SequenceStatus::Running,
    ensures
        run_state(total, outcomes + more) == run_state(total, outcomes),
    decreases more.len(),
{
    if more.len() == 0 {
        assert(outcomes + more =~= outcomes);
    } else {
        lemma_ended_run_is_final(total, outcomes, more.drop_last());
        assert((outcomes + more).drop_last() =~= outcomes + more.drop_last());
    }
}

/// Reporting one more outcome moves a run from where `outcomes` left it by
/// one `next_state` step: so a fresh `StepSequence`, `DeviceImport` or
/// `TextureImport` that is told `outcomes` one by one stands at
/// `run_state(total, outcomes)`.
pub proof fn lemma_run_state_push(total: nat, outcomes: Seq<StepOutcome>, outcome: StepOutcome)
    ensures
        run_state(total, outcomes.push(outcome)) == next_state(
            total,
            run_state(total, outcomes),
            outcome,
        ),
{
    assert(outcomes.push(outcome).drop_last() =~= outcomes);
}

} // verus!

verus! {

/// A run that is still running has counted every outcome as a completed step.
pub proof fn lemma_running_counts_all(total: nat, outcomes: Seq<StepOutcome>)
    requires
        total > 0,
        run_state(total, outcomes).1 == SequenceStatus::Running,
    ensures
        run_state(total, outcomes).0 == outcomes.len(),
        outcomes.len() < total,
{
    lemma_run_shape(total, outcomes);
}

} // verus!
