use vstd::prelude::*;

verus! {

/// Why an operation was given up.
#[derive(Clone, Copy, Debug, PartialEq, Eq, Structural)]
pub enum Failure {
    /// A transfer could not be started or broke off.
    Network,
    /// A catalog holds no matching type, version, build or fingerprint.
    NotFound,
    /// A manifest, an archive or a catalog answer is malformed.
    Parse,
    /// A file or directory could not be read, written or removed.
    Filesystem,
    /// The process table could not be consulted.
    ProcessLookup,
    /// A named channel could not be created or opened.
    Channel,
}

/// How a piece of outside work ended.
#[derive(Clone, Copy, Debug, PartialEq, Eq, Structural)]
pub enum Outcome {
    /// The work was done.
    Completed,
    /// The path that the work reads or removes does not exist.
    Absent,
    /// The work failed.
    Failed(Failure),
}

/// What an outcome means for the operation that asked for the work: `None`
/// when the operation goes on, the cause when it is given up.
///
/// A removal is satisfied by a path that is already absent. Any other work
/// that finds its path absent fails on the file system.
pub open spec fn spec_settle(removal: bool, outcome: Outcome) -> Option<Failure> {
    match outcome {
        Outcome::Completed => None,
        Outcome::Absent => if removal {
            None
        } else {
            Some(Failure::Filesystem)
        },
        Outcome::Failed(cause) => Some(cause),
    }
}

/// What an outcome means for the operation that asked for the work.
pub fn settle(removal: bool, outcome: Outcome) -> (verdict: Option<Failure>)
    ensures
        verdict == spec_settle(removal, outcome),
{
    match outcome {
        Outcome::Completed => None,
        Outcome::Absent => if removal {
            None
        } else {
            Some(Failure::Filesystem)
        },
        Outcome::Failed(cause) => Some(cause),
    }
}

/// How work that was done side by side ended as a whole: with success where
/// every part succeeded, and else as the first part that did not.
pub open spec fn spec_together(outcomes: Seq<Outcome>) -> Outcome
    decreases outcomes.len(),
{
    if outcomes.len() == 0 {
        Outcome::Completed
    } else if spec_together(outcomes.drop_last()) != Outcome::Completed {
        spec_together(outcomes.drop_last())
    } else {
        outcomes.last()
    }
}

/// How work that was done side by side ended as a whole, given how each
/// part ended: a single part that failed makes the whole fail.
pub fn together(outcomes: &Vec<Outcome>) -> (whole: Outcome)
    ensures
        whole == spec_together(outcomes@),
        whole == Outcome::Completed <==> forall|at: int|
            0 <= at < outcomes.len() ==> #[trigger] outcomes[at] == Outcome::Completed,
{
    let mut at: usize = 0;
    while at < outcomes.len()
        invariant
            at <= outcomes.len(),
            spec_together(outcomes@.take(at as int)) == Outcome::Completed,
            forall|before: int| 0 <= before < at ==> #[trigger] outcomes[before] == Outcome::Completed,
        decreases outcomes.len() - at,
    {
        assert(outcomes@.take(at + 1).drop_last() == outcomes@.take(at as int));
        match outcomes[at] {
            Outcome::Completed => {},
            other => {
                proof {
                    lemma_together_settled(outcomes@, at + 1);
                }
                return other;
            },
        }
        at = at + 1;
    }
    assert(outcomes@.take(at as int) == outcomes@);
    Outcome::Completed
}

proof fn lemma_together_settled(outcomes: Seq<Outcome>, upto: int)
    requires
        0 <= upto <= outcomes.len(),
        spec_together(outcomes.take(upto)) != Outcome::Completed,
    ensures
        spec_together(outcomes) == spec_together(outcomes.take(upto)),
    decreases outcomes.len() - upto,
{
    if upto < outcomes.len() {
        assert(outcomes.take(upto + 1).drop_last() == outcomes.take(upto));
        lemma_together_settled(outcomes, upto + 1);
    } else {
        assert(outcomes.take(upto) == outcomes);
    }
}

} // verus!
