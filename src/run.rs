use vstd::prelude::*;

verus! {

/// What the hook does next while it issues its sub-calls.
#[derive(Clone, Copy, Debug, PartialEq, Eq, Structural)]
pub enum Step {
    /// Issue the sub-call at this position.
    Issue(usize),
    /// Every sub-call succeeded: the invocation succeeds.
    Commit,
    /// A sub-call failed: the invocation fails as a whole and the host undoes
    /// all of it.
    Abort,
}

/// The step after the sub-call at position `done` of `total` reported `ok`.
pub open spec fn next_step(total: nat, done: nat, ok: bool) -> Step {
    if !ok {
        Step::Abort
    } else if done + 1 < total {
        Step::Issue((done + 1) as usize)
    } else {
        Step::Commit
    }
}

/// The first step of an invocation with `total` sub-calls.
pub fn start(total: usize) -> (r: Step)
    ensures
        r == (if total == 0 { Step::Commit } else { Step::Issue(0) }),
{
    if total == 0 {
        Step::Commit
    } else {
        Step::Issue(0)
    }
}

/// Decides the next step once the sub-call at position `done` has reported:
/// a failure aborts at once, with no retry and no later sub-call.
pub fn step(total: usize, done: usize, ok: bool) -> (r: Step)
    requires
        done < total,
    ensures
        r == next_step(total as nat, done as nat, ok),
{
    if !ok {
        Step::Abort
    } else if done + 1 < total {
        Step::Issue(done + 1)
    } else {
        Step::Commit
    }
}

/// Where an invocation ends when the sub-calls from position `done` on report
/// `results`, following `next_step`.
pub open spec fn outcome(total: nat, done: nat, results: Seq<bool>) -> Step
    decreases total - done,
{
    if done >= total {
        Step::Commit
    } else {
        match next_step(total, done, results[done as int]) {
            Step::Issue(_) => outcome(total, done + 1, results),
            s => s,
        }
    }
}

/// All or nothing: an invocation commits exactly when every one of its
/// sub-calls succeeded, and aborts otherwise.
pub proof fn lemma_all_or_nothing(total: nat, results: Seq<bool>)
    requires
        results.len() == total,
    ensures
        outcome(total, 0, results) == Step::Commit <==> forall|i: int|
            0 <= i < total ==> results[i],
        outcome(total, 0, results) != Step::Commit ==> outcome(total, 0, results) == Step::Abort,
{
    lemma_outcome_from(total, 0, results);
}

proof fn lemma_outcome_from(total: nat, done: nat, results: Seq<bool>)
    requires
        results.len() == total,
        done <= total,
    ensures
        outcome(total, done, results) == Step::Commit <==> forall|i: int|
            done <= i < total ==> results[i],
        outcome(total, done, results) == Step::Commit || outcome(total, done, results)
            == Step::Abort,
    decreases total - done,
{
    if done < total {
        lemma_outcome_from(total, done + 1, results);
        if results[done as int] && done + 1 >= total {
            assert forall|i: int| done <= i < total implies results[i] by {
                assert(i == done);
            }
        }
    }
}

} // verus!
