use crate::modpack::{
    batch, batch_count, batch_files, count_batches, fetchable, fetches, find_build, spec_find_build,
    BundleFile, Fetch, Loader, Manifest, ManifestFile, ModpackVersion,
};
use crate::outcome::{settle, spec_settle, Failure, Outcome};
use crate::plan::{spec_advance as plan_advance, spec_pending as plan_pending, Action, Build, Cursor, Stand};
use vstd::prelude::*;

verus! {

/// What stands at the place in the target directory that an entry of the
/// staging subtree is moved to.
#[derive(Clone, Copy, Debug, PartialEq, Eq, Structural)]
pub enum Occupant {
    Vacant,
    Directory,
    File,
}

/// One entry directly under the staging subtree.
#[derive(Debug, PartialEq, Eq)]
pub struct OverrideEntry {
    pub name: String,
    pub occupant: Occupant,
}

/// One piece of outside work that an installation asks for. Paths are
/// relative to the target directory.
#[derive(Debug, PartialEq, Eq)]
pub enum Task {
    /// Stream the bundle behind `url` into `file`.
    Download { url: String, file: String, size: u64 },
    /// Open the bundle and read its manifest; answered by `Event::Manifest`.
    ReadManifest { archive: String },
    /// Delete a directory tree.
    RemoveTree { location: String },
    /// Extract the whole bundle into the target directory.
    Extract { archive: String },
    /// Delete a single file.
    RemoveFile { location: String },
    /// List the entries directly under the staging subtree; answered by
    /// `Event::Overrides`.
    ListOverrides,
    /// Move the entry `name` of the staging subtree to the target directory,
    /// after deleting what stands there: a directory as a whole, or a file.
    Replace { name: String, occupant: Occupant },
    /// Fetch these files side by side and wait until every transfer has
    /// ended, whether it succeeded or not.
    FetchAll { files: Vec<Fetch> },
    /// Ask the catalog for the builds of the loader at the game version;
    /// answered by `Event::Builds`.
    QueryBuilds { loader: Loader, minecraft: String },
    /// Work of the loader's installation plan.
    Install(Action),
    /// The modpack is installed.
    Done,
    /// The installation was given up for this cause; what was written stays.
    Abort(Failure),
}

/// The answer to a task.
#[derive(Debug, PartialEq, Eq)]
pub enum Event {
    /// How the work ended, for a task that brings nothing back.
    Ended(Outcome),
    /// The manifest read from the bundle, or why it could not be read.
    Manifest(Result<Manifest, Failure>),
    /// The entries of the staging subtree, or nothing where it cannot be
    /// listed.
    Overrides(Option<Vec<OverrideEntry>>),
    /// The builds that the catalog lists, newest first, or why it gave none.
    Builds(Result<Vec<Build>, Failure>),
}

/// Where the installation of a modpack stands: the task that is pending.
#[derive(Clone, Copy, Debug, PartialEq, Eq, Structural)]
pub enum Stage {
    /// The bundle is being downloaded.
    Downloading,
    /// The manifest is being read from the bundle.
    Reading,
    /// A staging subtree left from before is being deleted.
    Clearing,
    /// The bundle is being extracted.
    Extracting,
    /// The extracted manifest file is being deleted.
    Unlisting,
    /// The staging subtree is being listed.
    Listing,
    /// The entry at this position of the listing is being moved.
    Moving(usize),
    /// The emptied staging subtree is being deleted.
    Removing,
    /// The downloaded bundle is being deleted.
    Dropping,
    /// The batch of this number is in flight.
    Fetching(usize),
    /// The catalog is being asked for the loader's builds.
    Querying,
    /// The loader's installation plan is being carried out.
    Installing,
    /// The modpack is installed.
    Finished,
    /// The installation was given up.
    Aborted(Failure),
}

/// All that an installation knows at one moment.
pub struct InstallerView {
    /// The bundle that is installed.
    pub bundle: BundleFile,
    /// The pending task.
    pub stage: Stage,
    /// The manifest, once it has been read.
    pub manifest: Option<Manifest>,
    /// The listing of the staging subtree, once it has been made.
    pub overrides: Seq<OverrideEntry>,
    /// The loader's build and where the execution of its plan stands, once
    /// the build has been found.
    pub loader: Option<LoaderRun>,
}

/// The installation of the loader: its build and where the execution of the
/// build's plan stands.
pub struct LoaderRun {
    pub build: Build,
    pub stand: Stand,
}

/// The loader that the manifest asks for.
pub open spec fn asked_loader(view: InstallerView) -> Loader {
    let (loader, version) = view.manifest->0.dependencies.spec_loader()->0;
    loader
}

/// The version of the loader that the manifest asks for.
pub open spec fn asked_version(view: InstallerView) -> Seq<char> {
    let (loader, version) = view.manifest->0.dependencies.spec_loader()->0;
    version@
}

/// The listing of the staging subtree is one that the machine can hold, so
/// that every position in it can be named by a stage. This holds of what
/// every `Installer` knows.
pub open spec fn listing_fits(view: InstallerView) -> bool {
    view.overrides.len() <= usize::MAX
}

/// The view with another pending task.
pub open spec fn at_stage(view: InstallerView, stage: Stage) -> InstallerView {
    InstallerView { stage, ..view }
}

/// The stage after work that brings nothing back has ended: `next` on
/// success, given up on failure.
pub open spec fn spec_after(removal: bool, outcome: Outcome, next: Stage) -> Stage {
    match spec_settle(removal, outcome) {
        None => next,
        Some(cause) => Stage::Aborted(cause),
    }
}

/// The stage on arriving at batch `number`: the batch is fetched if there
/// is one and each wanted file in it names an address; after the last batch
/// the loader is seen to, if the manifest asks for one.
pub open spec fn enter_batch(manifest: Manifest, number: nat) -> Stage {
    if number < batch_count(manifest.files.len() as nat) {
        if fetchable(batch_files(manifest.files@, number)) {
            Stage::Fetching(number as usize)
        } else {
            Stage::Aborted(Failure::Parse)
        }
    } else if manifest.dependencies.spec_loader() is Some {
        Stage::Querying
    } else {
        Stage::Finished
    }
}

/// The stage that follows when work that brings nothing back has ended
/// with success at `view.stage`.
pub open spec fn following(view: InstallerView) -> Stage {
    match view.stage {
        Stage::Downloading => Stage::Reading,
        Stage::Clearing => Stage::Extracting,
        Stage::Extracting => Stage::Unlisting,
        Stage::Unlisting => Stage::Listing,
        Stage::Moving(at) => if at + 1 < view.overrides.len() {
            Stage::Moving((at + 1) as usize)
        } else {
            Stage::Removing
        },
        Stage::Removing => Stage::Dropping,
        Stage::Dropping => enter_batch(view.manifest->0, 0),
        Stage::Fetching(number) => enter_batch(view.manifest->0, (number + 1) as nat),
        other => other,
    }
}

/// Whether the pending task is a deletion, which a path already absent
/// satisfies.
pub open spec fn deleting(stage: Stage) -> bool {
    stage is Clearing || stage is Unlisting || stage is Removing || stage is Dropping
}

/// What an installation knows after `event` has answered the pending task.
///
/// An event of a kind that the pending task does not ask for is ignored.
/// Any failure ends the installation with its cause, and an installation
/// that has ended stays as it is.
pub open spec fn spec_advance(view: InstallerView, event: Event) -> InstallerView {
    match view.stage {
        Stage::Reading => match event {
            Event::Manifest(Ok(manifest)) => InstallerView {
                manifest: Some(manifest),
                stage: Stage::Clearing,
                ..view
            },
            Event::Manifest(Err(cause)) => at_stage(view, Stage::Aborted(cause)),
            _ => view,
        },
        Stage::Listing => match event {
            Event::Overrides(Some(entries)) => InstallerView {
                overrides: entries@,
                stage: if entries.len() > 0 {
                    Stage::Moving(0)
                } else {
                    Stage::Removing
                },
                ..view
            },
            Event::Overrides(None) => at_stage(view, Stage::Dropping),
            _ => view,
        },
        Stage::Querying => match event {
            Event::Builds(Ok(builds)) => match spec_find_build(builds@, asked_version(view)) {
                Some(at) => InstallerView {
                    loader: Some(LoaderRun { build: builds[at], stand: Stand::Purging }),
                    stage: Stage::Installing,
                    ..view
                },
                None => at_stage(view, Stage::Aborted(Failure::NotFound)),
            },
            Event::Builds(Err(cause)) => at_stage(view, Stage::Aborted(cause)),
            _ => view,
        },
        Stage::Installing => match event {
            Event::Ended(outcome) => {
                let run = view.loader->0;
                let next = plan_advance(run.build.plan(), run.stand, outcome);
                InstallerView {
                    loader: Some(LoaderRun { build: run.build, stand: next }),
                    stage: match next {
                        Stand::Finished => Stage::Finished,
                        Stand::Aborted(cause) => Stage::Aborted(cause),
                        _ => Stage::Installing,
                    },
                    ..view
                }
            },
            _ => view,
        },
        Stage::Finished => view,
        Stage::Aborted(_) => view,
        _ => match event {
            Event::Ended(outcome) => at_stage(
                view,
                spec_after(deleting(view.stage), outcome, following(view)),
            ),
            _ => view,
        },
    }
}

/// `task` is what an installation that knows `view` asks for.
pub open spec fn asks(view: InstallerView, task: Task) -> bool {
    match view.stage {
        Stage::Downloading => task == (Task::Download {
            url: view.bundle.url,
            file: view.bundle.filename,
            size: view.bundle.size,
        }),
        Stage::Reading => task == (Task::ReadManifest { archive: view.bundle.filename }),
        Stage::Clearing => task matches Task::RemoveTree { location } && location@ == "overrides"@,
        Stage::Extracting => task == (Task::Extract { archive: view.bundle.filename }),
        Stage::Unlisting => task matches Task::RemoveFile { location } && location@
            == "modrinth.index.json"@,
        Stage::Listing => task == Task::ListOverrides,
        Stage::Moving(at) => task == (Task::Replace {
            name: view.overrides[at as int].name,
            occupant: view.overrides[at as int].occupant,
        }),
        Stage::Removing => task matches Task::RemoveTree { location } && location@ == "overrides"@,
        Stage::Dropping => task == (Task::RemoveFile { location: view.bundle.filename }),
        Stage::Fetching(number) => task matches Task::FetchAll { files } && files@ == fetches(
            batch_files(view.manifest->0.files@, number as nat),
        ),
        Stage::Querying => task == (Task::QueryBuilds {
            loader: asked_loader(view),
            minecraft: view.manifest->0.dependencies.minecraft,
        }),
        Stage::Installing => task == Task::Install(
            plan_pending(view.loader->0.build.plan(), view.loader->0.stand),
        ),
        Stage::Finished => task == Task::Done,
        Stage::Aborted(cause) => task == Task::Abort(cause),
    }
}

/// What an installation knows after the events have answered its tasks one
/// by one.
pub open spec fn after_events(view: InstallerView, events: Seq<Event>) -> InstallerView
    decreases events.len(),
{
    if events.len() == 0 {
        view
    } else {
        spec_advance(after_events(view, events.drop_last()), events.last())
    }
}

/// The pending task is answered by the plain outcome of the work.
pub open spec fn awaits_outcome(view: InstallerView) -> bool {
    match view.stage {
        Stage::Reading => false,
        Stage::Listing => false,
        Stage::Querying => false,
        Stage::Installing => view.loader matches Some(run) && (run.stand is Purging
            || run.stand is Running),
        Stage::Finished => false,
        Stage::Aborted(_) => false,
        _ => true,
    }
}

/// Whatever the pending work is, its failure ends the installation with the
/// cause of the failure: a single failed transfer is fatal to the whole.
pub proof fn law_failure_is_fatal(view: InstallerView, cause: Failure)
    requires
        awaits_outcome(view),
    ensures
        spec_advance(view, Event::Ended(Outcome::Failed(cause))).stage == Stage::Aborted(cause),
{
}

/// An installation that has ended, finished or given up, stays as it is
/// whatever is reported to it.
pub proof fn law_ended_stays(view: InstallerView, events: Seq<Event>)
    requires
        view.stage is Finished || view.stage is Aborted,
    ensures
        after_events(view, events) == view,
    decreases events.len(),
{
    if events.len() > 0 {
        law_ended_stays(view, events.drop_last());
    }
}

/// A batch becomes the pending task in one way only: by the success of the
/// work just before it, which for the first batch is the deletion of the
/// bundle and for every other batch is the batch before. So no transfer of
/// a batch begins until every transfer of the batch before has ended.
pub proof fn law_batches_wait(view: InstallerView, event: Event, number: usize)
    requires
        spec_advance(view, event).stage == Stage::Fetching(number),
        view.stage != Stage::Fetching(number),
    ensures
        event matches Event::Ended(outcome) && spec_settle(deleting(view.stage), outcome) is None,
        number == 0 ==> view.stage is Dropping,
        number > 0 ==> view.stage == Stage::Fetching((number - 1) as usize),
{
}

/// The place of a stage in the order of an installation: the stages follow
/// one another as they are numbered here, the entries that are moved and the
/// batches that are fetched each in their own order.
pub open spec fn rank(stage: Stage) -> (int, int) {
    match stage {
        Stage::Downloading => (0, 0),
        Stage::Reading => (1, 0),
        Stage::Clearing => (2, 0),
        Stage::Extracting => (3, 0),
        Stage::Unlisting => (4, 0),
        Stage::Listing => (5, 0),
        Stage::Moving(at) => (6, at as int),
        Stage::Removing => (7, 0),
        Stage::Dropping => (8, 0),
        Stage::Fetching(number) => (9, number as int),
        Stage::Querying => (10, 0),
        Stage::Installing => (11, 0),
        Stage::Finished => (12, 0),
        Stage::Aborted(_) => (12, 0),
    }
}

/// The first place comes before the second.
pub open spec fn precedes(first: (int, int), second: (int, int)) -> bool {
    first.0 < second.0 || (first.0 == second.0 && first.1 < second.1)
}

/// An installation only ever moves forward: whatever answers the pending
/// task, the stage either stays as it is or gives way to a later one. No
/// stage is entered twice, and no two stages are pending at once.
pub proof fn law_stages_move_forward(view: InstallerView, event: Event)
    requires
        listing_fits(view),
    ensures
        spec_advance(view, event).stage == view.stage || precedes(
            rank(view.stage),
            rank(spec_advance(view, event).stage),
        ),
{
}

proof fn lemma_batch_fetchable(files: Seq<ManifestFile>, number: nat)
    requires
        fetchable(files),
    ensures
        fetchable(batch_files(files, number)),
{
}

/// Where every wanted file names an address and every transfer succeeds,
/// the batches are fetched in their order, each exactly once: after the
/// bundle has been deleted and the first `k` batches have succeeded, batch
/// `k` is the pending task, and after the last batch the loader is seen to.
pub proof fn law_batches_in_order(view: InstallerView, events: Seq<Event>)
    requires
        view.stage is Dropping,
        view.manifest matches Some(manifest) && fetchable(manifest.files@),
        1 <= events.len() <= batch_count(view.manifest->0.files.len() as nat) + 1,
        forall|at: int|
            0 <= at < events.len() ==> #[trigger] events[at] == Event::Ended(Outcome::Completed),
    ensures
        after_events(view, events) == at_stage(
            view,
            enter_batch(view.manifest->0, (events.len() - 1) as nat),
        ),
    decreases events.len(),
{
    let manifest = view.manifest->0;
    let before = events.drop_last();
    assert(events.last() == events[events.len() - 1]);
    if events.len() > 1 {
        assert forall|at: int| 0 <= at < before.len() implies #[trigger] before[at] == Event::Ended(
            Outcome::Completed,
        ) by {
            assert(before[at] == events[at]);
        }
        law_batches_in_order(view, before);
        lemma_batch_fetchable(manifest.files@, (events.len() - 2) as nat);
    }
}

/// Installs a modpack: it names one task at a time and takes the answer to
/// that task before it names the next.
pub struct Installer {
    bundle: BundleFile,
    stage: Stage,
    manifest: Option<Manifest>,
    overrides: Vec<OverrideEntry>,
    build: Option<Build>,
    cursor: Cursor,
}

/// The stage on arriving at batch `number`.
fn arrive(manifest: &Manifest, number: usize) -> (stage: Stage)
    ensures
        stage == enter_batch(*manifest, number as nat),
{
    if number < count_batches(manifest.files.len()) {
        match batch(&manifest.files, number) {
            Ok(_) => Stage::Fetching(number),
            Err(_) => Stage::Aborted(Failure::Parse),
        }
    } else if manifest.dependencies.loader().is_some() {
        Stage::Querying
    } else {
        Stage::Finished
    }
}

impl Installer {
    #[verifier::type_invariant]
    spec fn inv(&self) -> bool {
        match self.stage {
            Stage::Downloading => true,
            Stage::Reading => true,
            Stage::Moving(at) => self.manifest is Some && at < self.overrides.len(),
            Stage::Fetching(number) => self.manifest matches Some(manifest) && number < batch_count(
                manifest.files.len() as nat,
            ) && fetchable(batch_files(manifest.files@, number as nat)),
            Stage::Querying => self.manifest matches Some(manifest)
                && manifest.dependencies.spec_loader() is Some,
            Stage::Installing => self.build matches Some(build) && self.cursor.fits(build),
            Stage::Finished => true,
            Stage::Aborted(_) => true,
            _ => self.manifest is Some,
        }
    }

    /// All that the installation knows.
    pub closed spec fn view(&self) -> InstallerView {
        InstallerView {
            bundle: self.bundle,
            stage: self.stage,
            manifest: self.manifest,
            overrides: self.overrides@,
            loader: match self.build {
                Some(build) => Some(LoaderRun { build, stand: self.cursor.stand(build) }),
                None => None,
            },
        }
    }

    /// An installation of the version's primary bundle that has not begun:
    /// what it asks for first is the download of the bundle. A version
    /// without a primary bundle cannot be installed.
    pub fn new(version: &ModpackVersion) -> (begun: Result<Installer, Failure>)
        ensures
            match begun {
                Ok(installer) => listing_fits(installer@) && exists|at: int|
                    crate::modpack::first_primary(version.files@, at) && installer@ == (InstallerView {
                        bundle: #[trigger] version.files[at],
                        stage: Stage::Downloading,
                        manifest: None,
                        overrides: Seq::empty(),
                        loader: None,
                    }),
                Err(cause) => cause == Failure::NotFound && forall|at: int|
                    0 <= at < version.files.len() ==> !(#[trigger] version.files[at]).primary,
            },
    {
        match version.primary_file() {
            Some(at) => {
                let installer = Installer {
                    bundle: version.files[at].clone(),
                    stage: Stage::Downloading,
                    manifest: None,
                    overrides: Vec::new(),
                    build: None,
                    cursor: Cursor::start(),
                };
                assert(installer@.bundle == version.files[at as int]);
                Ok(installer)
            },
            None => Err(Failure::NotFound),
        }
    }

    /// The task that is asked for now. Asking again changes nothing.
    pub fn pending(&self) -> (task: Task)
        ensures
            asks(self@, task),
            listing_fits(self@),
    {
        proof {
            use_type_invariant(self);
            assert(self.overrides@.len() == self.overrides.len());
        }
        match self.stage {
            Stage::Downloading => Task::Download {
                url: self.bundle.url.clone(),
                file: self.bundle.filename.clone(),
                size: self.bundle.size,
            },
            Stage::Reading => Task::ReadManifest { archive: self.bundle.filename.clone() },
            Stage::Clearing => Task::RemoveTree { location: "overrides".to_owned() },
            Stage::Extracting => Task::Extract { archive: self.bundle.filename.clone() },
            Stage::Unlisting => Task::RemoveFile { location: "modrinth.index.json".to_owned() },
            Stage::Listing => Task::ListOverrides,
            Stage::Moving(at) => Task::Replace {
                name: self.overrides[at].name.clone(),
                occupant: self.overrides[at].occupant,
            },
            Stage::Removing => Task::RemoveTree { location: "overrides".to_owned() },
            Stage::Dropping => Task::RemoveFile { location: self.bundle.filename.clone() },
            Stage::Fetching(number) => match &self.manifest {
                Some(manifest) => match batch(&manifest.files, number) {
                    Ok(files) => Task::FetchAll { files },
                    Err(cause) => Task::Abort(cause),
                },
                None => Task::Done,
            },
            Stage::Querying => match &self.manifest {
                Some(manifest) => match manifest.dependencies.loader() {
                    Some((loader, _)) => Task::QueryBuilds {
                        loader,
                        minecraft: manifest.dependencies.minecraft.clone(),
                    },
                    None => Task::Done,
                },
                None => Task::Done,
            },
            Stage::Installing => match &self.build {
                Some(build) => Task::Install(self.cursor.pending(build)),
                None => Task::Done,
            },
            Stage::Finished => Task::Done,
            Stage::Aborted(cause) => Task::Abort(cause),
        }
    }

    /// Takes the answer to the pending task and names the task that follows.
    ///
    /// The tasks are asked for strictly one after another, and the first
    /// failure ends the installation: nothing is retried, skipped or undone.
    /// A batch is asked for only here, on the success of the batch before.
    pub fn advance(&mut self, event: Event) -> (task: Task)
        ensures
            final(self)@ == spec_advance(old(self)@, event),
            asks(final(self)@, task),
            listing_fits(final(self)@),
    {
        proof {
            use_type_invariant(&*self);
        }
        match self.stage {
            Stage::Reading => match event {
                Event::Manifest(Ok(manifest)) => {
                    self.manifest = Some(manifest);
                    self.stage = Stage::Clearing;
                },
                Event::Manifest(Err(cause)) => {
                    self.stage = Stage::Aborted(cause);
                },
                _ => {},
            },
            Stage::Listing => match event {
                Event::Overrides(Some(entries)) => {
                    self.stage = Stage::Removing;
                    self.overrides = entries;
                    if self.overrides.len() > 0 {
                        self.stage = Stage::Moving(0);
                    }
                },
                Event::Overrides(None) => {
                    self.stage = Stage::Dropping;
                },
                _ => {},
            },
            Stage::Querying => match event {
                Event::Builds(Ok(builds)) => {
                    let found = match &self.manifest {
                        Some(manifest) => match manifest.dependencies.loader() {
                            Some((_, version)) => find_build(&builds, version),
                            None => None,
                        },
                        None => None,
                    };
                    match found {
                        Some(at) => {
                            let mut builds = builds;
                            let build = builds.swap_remove(at);
                            self.cursor = Cursor::start();
                            self.build = Some(build);
                            self.stage = Stage::Installing;
                        },
                        None => {
                            self.stage = Stage::Aborted(Failure::NotFound);
                        },
                    }
                },
                Event::Builds(Err(cause)) => {
                    self.stage = Stage::Aborted(cause);
                },
                _ => {},
            },
            Stage::Installing => match event {
                Event::Ended(outcome) => {
                    let moved = match &self.build {
                        Some(build) => {
                            let next = self.cursor.advance(build, outcome);
                            Some((next, next.pending(build)))
                        },
                        None => None,
                    };
                    match moved {
                        Some((next, action)) => {
                            self.cursor = next;
                            self.stage = match action {
                                Action::Done => Stage::Finished,
                                Action::Abort(cause) => Stage::Aborted(cause),
                                _ => Stage::Installing,
                            };
                        },
                        None => {},
                    }
                },
                _ => {},
            },
            Stage::Finished => {},
            Stage::Aborted(_) => {},
            stage => match event {
                Event::Ended(outcome) => {
                    let removal = match stage {
                        Stage::Clearing => true,
                        Stage::Unlisting => true,
                        Stage::Removing => true,
                        Stage::Dropping => true,
                        _ => false,
                    };
                    match settle(removal, outcome) {
                        Some(cause) => {
                            self.stage = Stage::Aborted(cause);
                        },
                        None => {
                            let next = match stage {
                                Stage::Downloading => Stage::Reading,
                                Stage::Clearing => Stage::Extracting,
                                Stage::Extracting => Stage::Unlisting,
                                Stage::Unlisting => Stage::Listing,
                                Stage::Moving(at) => if at + 1 < self.overrides.len() {
                                    Stage::Moving(at + 1)
                                } else {
                                    Stage::Removing
                                },
                                Stage::Removing => Stage::Dropping,
                                Stage::Dropping => match &self.manifest {
                                    Some(manifest) => arrive(manifest, 0),
                                    None => stage,
                                },
                                Stage::Fetching(number) => match &self.manifest {
                                    Some(manifest) => arrive(manifest, number + 1),
                                    None => stage,
                                },
                                other => other,
                            };
                            self.stage = next;
                        },
                    }
                },
                _ => {},
            },
        }
        self.pending()
    }
}

} // verus!
