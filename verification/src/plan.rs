use crate::outcome::{settle, spec_settle, Failure, Outcome};
use vstd::prelude::*;

verus! {

/// One unit of an installation plan.
#[derive(Debug, PartialEq, Eq)]
pub enum Step {
    /// Stream the bytes behind `url` into `file`, which is `size` bytes long.
    Download { url: String, file: String, size: u64 },
    /// Extract the archive `file` into the directory `location`.
    Unzip { file: String, location: String },
    /// Delete the file or directory tree at `location`.
    Remove { location: String },
}

impl Clone for Step {
    fn clone(&self) -> (out: Self)
        ensures
            out == *self,
    {
        match self {
            Step::Download { url, file, size } => Step::Download {
                url: url.clone(),
                file: file.clone(),
                size: *size,
            },
            Step::Unzip { file, location } => Step::Unzip {
                file: file.clone(),
                location: location.clone(),
            },
            Step::Remove { location } => Step::Remove { location: location.clone() },
        }
    }
}

impl Step {
    /// Whether the step deletes, so that a path already absent satisfies it.
    pub open spec fn is_removal(&self) -> bool {
        self is Remove
    }

    /// Whether the step deletes, so that a path already absent satisfies it.
    pub fn removal(&self) -> (removal: bool)
        ensures
            removal == self.is_removal(),
    {
        match self {
            Step::Remove { .. } => true,
            _ => false,
        }
    }
}

/// A named, versioned server artifact together with its installation plan:
/// stages in order, and in each stage its steps in order.
#[derive(Debug, PartialEq, Eq)]
pub struct Build {
    /// The name of the build within its version.
    pub name: String,
    /// The version of the game that the build is for, if it has one.
    pub version_id: Option<String>,
    /// The version of the project that the build is of, if it has one.
    pub project_version_id: Option<String>,
    /// The type of the build. Builds and the versions of a catalog are
    /// compared by it: see `catalog::classify`.
    pub kind: String,
    /// The installation plan.
    pub installation: Vec<Vec<Step>>,
}

impl Build {
    /// The version a build belongs to: its version id, or else its project
    /// version id.
    pub open spec fn spec_version(&self) -> Option<Seq<char>> {
        match (self.version_id, self.project_version_id) {
            (Some(id), _) => Some(id@),
            (None, Some(id)) => Some(id@),
            (None, None) => None,
        }
    }

    /// The version a build belongs to: its version id, or else its project
    /// version id.
    pub fn version(&self) -> (id: Option<&String>)
        ensures
            id is Some == self.spec_version() is Some,
            id matches Some(text) ==> self.spec_version() == Some(text@),
    {
        match &self.version_id {
            Some(id) => Some(id),
            None => match &self.project_version_id {
                Some(id) => Some(id),
                None => None,
            },
        }
    }

    /// Every step of the plan in the one order in which the steps may run.
    pub open spec fn plan(&self) -> Seq<Step> {
        flat_plan(self.installation@)
    }
}

/// The steps of all stages, stage after stage, each stage's steps in their
/// own order.
pub open spec fn flat_plan(stages: Seq<Vec<Step>>) -> Seq<Step>
    decreases stages.len(),
{
    if stages.len() == 0 {
        Seq::empty()
    } else {
        flat_plan(stages.drop_last()) + stages.last()@
    }
}

/// How many steps stand in the stages before `stage`.
pub open spec fn steps_before(stages: Seq<Vec<Step>>, stage: int) -> nat {
    flat_plan(stages.take(stage)).len()
}

proof fn lemma_steps_before_next(stages: Seq<Vec<Step>>, stage: int)
    requires
        0 <= stage < stages.len(),
    ensures
        steps_before(stages, stage + 1) == steps_before(stages, stage) + stages[stage].len(),
{
    let upto = stages.take(stage + 1);
    assert(upto.drop_last() == stages.take(stage));
    assert(upto.last() == stages[stage]);
}

proof fn lemma_steps_before_end(stages: Seq<Vec<Step>>)
    ensures
        steps_before(stages, stages.len() as int) == flat_plan(stages).len(),
{
    assert(stages.take(stages.len() as int) == stages);
}

/// The plan keeps the order of the stages and, within each stage, of its
/// steps: a step stands in the plan after all steps of the stages before its
/// own and after the steps that precede it in its own stage.
pub proof fn law_plan_keeps_order(stages: Seq<Vec<Step>>, stage: int, step: int)
    requires
        0 <= stage < stages.len(),
        0 <= step < stages[stage].len(),
    ensures
        steps_before(stages, stage) + step < flat_plan(stages).len(),
        flat_plan(stages)[steps_before(stages, stage) + step] == stages[stage]@[step],
    decreases stages.len(),
{
    let front = stages.drop_last();
    if stage == stages.len() - 1 {
        assert(stages.take(stage) == front);
    } else {
        assert(front.take(stage) == stages.take(stage));
        law_plan_keeps_order(front, stage, step);
    }
}

/// What the one who carries a plan out is asked to do next.
#[derive(Debug, PartialEq, Eq)]
pub enum Action {
    /// Delete the `libraries` subtree of the target directory, stale from an
    /// earlier installation.
    PurgeLibraries,
    /// Carry out this step and report how it ended.
    Run(Step),
    /// Every step has been carried out.
    Done,
    /// The plan was given up for this cause; what was written stays.
    Abort(Failure),
}

/// Where the execution of a plan stands.
pub enum Stand {
    /// The stale `libraries` subtree is being deleted.
    Purging,
    /// The step at this position of the plan is being carried out, and all
    /// steps before it have been.
    Running(nat),
    /// Every step has been carried out.
    Finished,
    /// The plan was given up.
    Aborted(Failure),
}

/// The stand on arriving at position `at` of the plan.
pub open spec fn enter(plan: Seq<Step>, at: nat) -> Stand {
    if at < plan.len() {
        Stand::Running(at)
    } else {
        Stand::Finished
    }
}

/// The stand after the pending work ended with `outcome`.
///
/// A success leads to the next step of the plan, a failure ends the
/// execution with its cause, and an execution that has ended stays as it is.
pub open spec fn spec_advance(plan: Seq<Step>, stand: Stand, outcome: Outcome) -> Stand {
    match stand {
        Stand::Purging => match spec_settle(true, outcome) {
            None => enter(plan, 0),
            Some(cause) => Stand::Aborted(cause),
        },
        Stand::Running(at) => match spec_settle(plan[at as int].is_removal(), outcome) {
            None => enter(plan, at + 1),
            Some(cause) => Stand::Aborted(cause),
        },
        Stand::Finished => Stand::Finished,
        Stand::Aborted(cause) => Stand::Aborted(cause),
    }
}

/// The work that is asked for at a stand.
pub open spec fn spec_pending(plan: Seq<Step>, stand: Stand) -> Action {
    match stand {
        Stand::Purging => Action::PurgeLibraries,
        Stand::Running(at) => Action::Run(plan[at as int]),
        Stand::Finished => Action::Done,
        Stand::Aborted(cause) => Action::Abort(cause),
    }
}

/// The stand after the outcomes of the purge and of the steps that followed
/// it have been reported one by one.
pub open spec fn stand_after(plan: Seq<Step>, outcomes: Seq<Outcome>) -> Stand
    decreases outcomes.len(),
{
    if outcomes.len() == 0 {
        Stand::Purging
    } else {
        spec_advance(plan, stand_after(plan, outcomes.drop_last()), outcomes.last())
    }
}

/// Whether a path already absent satisfies the work that report number
/// `report` answers: the purge, which report 0 answers, or a removing step.
pub open spec fn lenient(plan: Seq<Step>, report: int) -> bool {
    report == 0 || plan[report - 1].is_removal()
}

/// The first `count` reports are all of work that succeeded.
pub open spec fn all_succeeded(plan: Seq<Step>, outcomes: Seq<Outcome>, count: int) -> bool {
    forall|report: int|
        0 <= report < count ==> spec_settle(lenient(plan, report), #[trigger] outcomes[report])
            is None
}

/// While everything succeeds the steps are taken in the order of the plan,
/// one for each report: after the purge and the first `k` steps have
/// succeeded, the step at position `k` is the pending one, and once the last
/// step has succeeded the execution is finished.
pub proof fn law_steps_follow_plan(plan: Seq<Step>, outcomes: Seq<Outcome>)
    requires
        1 <= outcomes.len() <= plan.len() + 1,
        all_succeeded(plan, outcomes, outcomes.len() as int),
    ensures
        stand_after(plan, outcomes) == enter(plan, (outcomes.len() - 1) as nat),
    decreases outcomes.len(),
{
    let before = outcomes.drop_last();
    let last = outcomes.len() - 1;
    assert(spec_settle(lenient(plan, last), outcomes[last]) is None);
    if outcomes.len() > 1 {
        assert forall|report: int| 0 <= report < before.len() implies spec_settle(
            lenient(plan, report),
            #[trigger] before[report],
        ) is None by {
            assert(before[report] == outcomes[report]);
        }
        law_steps_follow_plan(plan, before);
    }
}

/// An execution that has ended, finished or given up, stays as it is
/// whatever is reported to it.
pub proof fn law_ended_stays(plan: Seq<Step>, outcomes: Seq<Outcome>, more: Seq<Outcome>)
    requires
        stand_after(plan, outcomes) is Finished || stand_after(plan, outcomes) is Aborted,
    ensures
        stand_after(plan, outcomes + more) == stand_after(plan, outcomes),
    decreases more.len(),
{
    if more.len() == 0 {
        assert(outcomes + more == outcomes);
    } else {
        assert((outcomes + more).drop_last() == outcomes + more.drop_last());
        law_ended_stays(plan, outcomes, more.drop_last());
    }
}

/// The first failure ends the execution with its cause: when all work before
/// the last report succeeded and the last report is of a failure, the
/// execution is given up for that cause and no later report revives it.
pub proof fn law_first_failure_ends(
    plan: Seq<Step>,
    outcomes: Seq<Outcome>,
    more: Seq<Outcome>,
    cause: Failure,
)
    requires
        1 <= outcomes.len() <= plan.len() + 1,
        all_succeeded(plan, outcomes, outcomes.len() - 1),
        spec_settle(lenient(plan, outcomes.len() - 1), outcomes.last()) == Some(cause),
    ensures
        stand_after(plan, outcomes + more) == Stand::Aborted(cause),
{
    let before = outcomes.drop_last();
    if outcomes.len() > 1 {
        assert forall|report: int| 0 <= report < before.len() implies spec_settle(
            lenient(plan, report),
            #[trigger] before[report],
        ) is None by {
            assert(before[report] == outcomes[report]);
        }
        law_steps_follow_plan(plan, before);
    }
    law_ended_stays(plan, outcomes, more);
}

#[derive(Clone, Copy)]
enum Phase {
    Purging,
    Running,
    Finished,
    Aborted(Failure),
}

/// A place in the execution of a plan: what is pending, and which step.
#[derive(Clone, Copy)]
pub(crate) struct Cursor {
    phase: Phase,
    stage: usize,
    step: usize,
}

/// The first stage at or after `stage` that holds a step.
fn next_stage(stages: &Vec<Vec<Step>>, stage: usize) -> (found: usize)
    requires
        stage <= stages.len(),
    ensures
        stage <= found <= stages.len(),
        found < stages.len() ==> stages[found as int].len() > 0,
        steps_before(stages@, found as int) == steps_before(stages@, stage as int),
{
    let mut found = stage;
    while found < stages.len() && stages[found].len() == 0
        invariant
            stage <= found <= stages.len(),
            steps_before(stages@, found as int) == steps_before(stages@, stage as int),
        decreases stages.len() - found,
    {
        proof {
            lemma_steps_before_next(stages@, found as int);
        }
        found = found + 1;
    }
    found
}

impl Cursor {
    /// The cursor points into the plan of `build`.
    pub(crate) closed spec fn fits(self, build: Build) -> bool {
        self.phase is Running ==> self.stage < build.installation.len() && self.step
            < build.installation[self.stage as int].len()
    }

    /// Where the execution stands.
    pub(crate) closed spec fn stand(self, build: Build) -> Stand {
        match self.phase {
            Phase::Purging => Stand::Purging,
            Phase::Running => Stand::Running(
                steps_before(build.installation@, self.stage as int) + self.step as nat,
            ),
            Phase::Finished => Stand::Finished,
            Phase::Aborted(cause) => Stand::Aborted(cause),
        }
    }

    /// The cursor of an execution that has not begun, whatever the build.
    pub(crate) fn start() -> (cursor: Cursor)
        ensures
            forall|build: Build| #[trigger] cursor.fits(build),
            forall|build: Build| #[trigger] cursor.stand(build) == Stand::Purging,
    {
        Cursor { phase: Phase::Purging, stage: 0, step: 0 }
    }

    /// The work that is asked for at the cursor.
    pub(crate) fn pending(self, build: &Build) -> (action: Action)
        requires
            self.fits(*build),
        ensures
            action == spec_pending(build.plan(), self.stand(*build)),
            self.stand(*build) matches Stand::Running(at) ==> at < build.plan().len(),
    {
        match self.phase {
            Phase::Purging => Action::PurgeLibraries,
            Phase::Running => {
                proof {
                    law_plan_keeps_order(build.installation@, self.stage as int, self.step as int);
                }
                Action::Run(build.installation[self.stage][self.step].clone())
            },
            Phase::Finished => Action::Done,
            Phase::Aborted(cause) => Action::Abort(cause),
        }
    }

    /// The cursor after the pending work ended with `outcome`.
    pub(crate) fn advance(self, build: &Build, outcome: Outcome) -> (next: Cursor)
        requires
            self.fits(*build),
        ensures
            next.fits(*build),
            next.stand(*build) == spec_advance(build.plan(), self.stand(*build), outcome),
    {
        let removal = match self.phase {
            Phase::Purging => true,
            Phase::Running => {
                proof {
                    law_plan_keeps_order(build.installation@, self.stage as int, self.step as int);
                }
                build.installation[self.stage][self.step].removal()
            },
            _ => {
                return self;
            },
        };
        match settle(removal, outcome) {
            Some(cause) => Cursor { phase: Phase::Aborted(cause), stage: self.stage, step: self.step },
            None => {
                let from = match self.phase {
                    Phase::Purging => 0,
                    _ => {
                        if self.step + 1 < build.installation[self.stage].len() {
                            proof {
                                law_plan_keeps_order(
                                    build.installation@,
                                    self.stage as int,
                                    self.step + 1,
                                );
                            }
                            return Cursor {
                                phase: Phase::Running,
                                stage: self.stage,
                                step: self.step + 1,
                            };
                        }
                        proof {
                            lemma_steps_before_next(build.installation@, self.stage as int);
                        }
                        self.stage + 1
                    },
                };
                let found = next_stage(&build.installation, from);
                proof {
                    lemma_steps_before_end(build.installation@);
                    assert(build.installation@.take(0).len() == 0);
                    if found < build.installation.len() {
                        law_plan_keeps_order(build.installation@, found as int, 0);
                    }
                }
                if found < build.installation.len() {
                    Cursor { phase: Phase::Running, stage: found, step: 0 }
                } else {
                    Cursor { phase: Phase::Finished, stage: found, step: 0 }
                }
            },
        }
    }
}

/// Carries out the plan of one build: it names one piece of work at a time
/// and takes the outcome of that work before it names the next.
pub struct Executor {
    build: Build,
    cursor: Cursor,
}

impl Executor {
    #[verifier::type_invariant]
    spec fn inv(&self) -> bool {
        self.cursor.fits(self.build)
    }

    /// The build whose plan is carried out.
    pub closed spec fn build(&self) -> Build {
        self.build
    }

    /// Where the execution stands.
    pub closed spec fn view(&self) -> Stand {
        self.cursor.stand(self.build)
    }

    /// An execution of the plan of `build` that has not begun: what it asks
    /// for first is the purge of the stale `libraries` subtree.
    pub fn new(build: Build) -> (executor: Executor)
        ensures
            executor.build() == build,
            executor@ == Stand::Purging,
    {
        Executor { build, cursor: Cursor::start() }
    }

    /// The work that is asked for now. Asking again changes nothing.
    pub fn pending(&self) -> (action: Action)
        ensures
            action == spec_pending(self.build().plan(), self@),
            self@ matches Stand::Running(at) ==> at < self.build().plan().len(),
    {
        proof {
            use_type_invariant(self);
        }
        self.cursor.pending(&self.build)
    }

    /// Takes the outcome of the pending work and names the work that follows.
    ///
    /// Steps are taken strictly in the order of the plan, one at a time: the
    /// next one is named only here, on the success of the one before. The
    /// first failure ends the execution, and nothing is undone.
    pub fn advance(&mut self, outcome: Outcome) -> (action: Action)
        ensures
            final(self).build() == old(self).build(),
            final(self)@ == spec_advance(old(self).build().plan(), old(self)@, outcome),
            action == spec_pending(final(self).build().plan(), final(self)@),
    {
        proof {
            use_type_invariant(&*self);
        }
        self.cursor = self.cursor.advance(&self.build, outcome);
        self.cursor.pending(&self.build)
    }
}

} // verus!
