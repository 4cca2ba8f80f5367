use crate::catalog::Version;
use crate::outcome::Failure;
use crate::plan::Build;
use crate::text::{ends_with, has_suffix};
use indexmap::IndexMap;
use vstd::prelude::*;

verus! {

/// What is kept on disk about an installation.
#[derive(Debug, PartialEq, Eq)]
pub struct InstallState {
    pub jar_file: String,
    pub modpack_slug: Option<String>,
    pub modpack_version: Option<String>,
    pub java_version: u8,
    pub pid: Option<usize>,
}

/// What the modpack catalog says of a project.
#[derive(Debug, PartialEq, Eq)]
pub struct Project {
    pub project_id: Option<String>,
    pub title: String,
    pub description: String,
    pub downloads: u64,
    pub versions: Vec<String>,
}

/// What the build catalog answers to the fingerprint of a file: the build
/// that the file is, if it knows the file, the latest build of the same
/// type, and the versions of that type, oldest first.
#[derive(Debug, PartialEq, Eq)]
pub struct Fingerprint {
    pub build: Option<Build>,
    pub latest: Build,
    pub versions: IndexMap<String, Version>,
}

/// What an installation was found to be.
#[derive(Debug, PartialEq, Eq)]
pub struct Identification {
    pub installed: Build,
    pub latest: Build,
    pub versions: IndexMap<String, Version>,
    pub project: Option<Project>,
}

/// One entry of a version directory of a loader.
#[derive(Debug, PartialEq, Eq)]
pub struct FileEntry {
    pub name: String,
    pub path: String,
    pub is_file: bool,
}

/// One entry directly under the directory of a loader, with what it holds,
/// in the order in which the entries were listed.
#[derive(Debug, PartialEq, Eq)]
pub struct VersionDir {
    pub is_dir: bool,
    pub files: Vec<FileEntry>,
}

impl FileEntry {
    /// Whether the entry is a server jar of a loader: a file whose name
    /// ends in `-server.jar` or in `-universal.jar`.
    pub open spec fn is_server_jar(&self) -> bool {
        self.is_file && (has_suffix(self.name@, "-server.jar"@) || has_suffix(
            self.name@,
            "-universal.jar"@,
        ))
    }

    /// Whether the entry is a server jar of a loader.
    pub fn server_jar(&self) -> (jar: bool)
        ensures
            jar == self.is_server_jar(),
    {
        self.is_file && (ends_with(self.name.as_str(), "-server.jar") || ends_with(
            self.name.as_str(),
            "-universal.jar",
        ))
    }
}

/// The path of the first server jar among `files`, if there is one.
pub open spec fn jar_among(files: Seq<FileEntry>) -> Option<String>
    decreases files.len(),
{
    if files.len() == 0 {
        None
    } else if jar_among(files.drop_last()) is Some {
        jar_among(files.drop_last())
    } else if files.last().is_server_jar() {
        Some(files.last().path)
    } else {
        None
    }
}

/// The path of the first server jar in the first version directory that
/// holds one, if there is one. Entries that are no directories are passed
/// over.
pub open spec fn jar_under(dirs: Seq<VersionDir>) -> Option<String>
    decreases dirs.len(),
{
    if dirs.len() == 0 {
        None
    } else if jar_under(dirs.drop_last()) is Some {
        jar_under(dirs.drop_last())
    } else if dirs.last().is_dir {
        jar_among(dirs.last().files@)
    } else {
        None
    }
}

/// The first server jar among `files` is the entry at position `at`.
pub open spec fn first_jar_at(files: Seq<FileEntry>, at: int) -> bool {
    &&& 0 <= at < files.len()
    &&& files[at].is_server_jar()
    &&& forall|before: int| 0 <= before < at ==> !(#[trigger] files[before]).is_server_jar()
}

/// The entry is a version directory that holds a server jar.
pub open spec fn holds_jar(dir: VersionDir) -> bool {
    dir.is_dir && jar_among(dir.files@) is Some
}

/// The first version directory that holds a server jar is the entry at
/// position `at`.
pub open spec fn first_dir_at(dirs: Seq<VersionDir>, at: int) -> bool {
    &&& 0 <= at < dirs.len()
    &&& holds_jar(dirs[at])
    &&& forall|before: int| 0 <= before < at ==> !holds_jar(#[trigger] dirs[before])
}

/// Within a version directory the first match wins: the jar that is taken
/// is a server jar that no server jar precedes, and none is taken only where
/// the directory holds none.
pub proof fn law_first_jar_wins(files: Seq<FileEntry>)
    ensures
        match jar_among(files) {
            Some(path) => exists|at: int| first_jar_at(files, at) && #[trigger] files[at].path == path,
            None => forall|at: int| 0 <= at < files.len() ==> !(#[trigger] files[at]).is_server_jar(),
        },
    decreases files.len(),
{
    if files.len() > 0 {
        let front = files.drop_last();
        law_first_jar_wins(front);
        match jar_among(front) {
            Some(path) => {
                let at = choose|at: int| first_jar_at(front, at) && #[trigger] front[at].path == path;
                assert forall|before: int| 0 <= before < at implies !(#[trigger] files[before]).is_server_jar() by {
                    assert(files[before] == front[before]);
                }
                assert(first_jar_at(files, at) && files[at].path == path);
            },
            None => {
                assert forall|before: int| 0 <= before < files.len() - 1 implies !(
                #[trigger] files[before]).is_server_jar() by {
                    assert(files[before] == front[before]);
                }
                if files.last().is_server_jar() {
                    let at = files.len() - 1;
                    assert(first_jar_at(files, at) && files[at].path == files.last().path);
                }
            },
        }
    }
}

/// Across the version directories the first match wins too: the jar that is
/// taken is the one of the first directory that holds a server jar, and none
/// is taken only where no directory holds one.
pub proof fn law_first_dir_wins(dirs: Seq<VersionDir>)
    ensures
        match jar_under(dirs) {
            Some(path) => exists|at: int|
                first_dir_at(dirs, at) && jar_among((#[trigger] dirs[at]).files@) == Some(path),
            None => forall|at: int| 0 <= at < dirs.len() ==> !holds_jar(#[trigger] dirs[at]),
        },
    decreases dirs.len(),
{
    if dirs.len() > 0 {
        let front = dirs.drop_last();
        law_first_dir_wins(front);
        match jar_under(front) {
            Some(path) => {
                let at = choose|at: int|
                    first_dir_at(front, at) && jar_among((#[trigger] front[at]).files@) == Some(path);
                assert forall|before: int| 0 <= before < at implies !holds_jar(#[trigger] dirs[before]) by {
                    assert(dirs[before] == front[before]);
                }
                assert(dirs[at] == front[at]);
                assert(first_dir_at(dirs, at));
            },
            None => {
                assert forall|before: int| 0 <= before < dirs.len() - 1 implies !holds_jar(
                    #[trigger] dirs[before],
                ) by {
                    assert(dirs[before] == front[before]);
                }
                if holds_jar(dirs.last()) {
                    let at = dirs.len() - 1;
                    assert(first_dir_at(dirs, at));
                }
            },
        }
    }
}

proof fn lemma_jar_among_found(files: Seq<FileEntry>, upto: int)
    requires
        0 <= upto <= files.len(),
        jar_among(files.take(upto)) is Some,
    ensures
        jar_among(files) == jar_among(files.take(upto)),
    decreases files.len() - upto,
{
    if upto < files.len() {
        assert(files.take(upto + 1).drop_last() == files.take(upto));
        lemma_jar_among_found(files, upto + 1);
    } else {
        assert(files.take(upto) == files);
    }
}

proof fn lemma_jar_under_found(dirs: Seq<VersionDir>, upto: int)
    requires
        0 <= upto <= dirs.len(),
        jar_under(dirs.take(upto)) is Some,
    ensures
        jar_under(dirs) == jar_under(dirs.take(upto)),
    decreases dirs.len() - upto,
{
    if upto < dirs.len() {
        assert(dirs.take(upto + 1).drop_last() == dirs.take(upto));
        lemma_jar_under_found(dirs, upto + 1);
    } else {
        assert(dirs.take(upto) == dirs);
    }
}

/// The first server jar among the entries of one version directory.
fn first_jar(files: &Vec<FileEntry>) -> (found: Option<&String>)
    ensures
        match found {
            Some(path) => jar_among(files@) == Some(*path),
            None => jar_among(files@) is None,
        },
{
    let mut at: usize = 0;
    while at < files.len()
        invariant
            at <= files.len(),
            jar_among(files@.take(at as int)) is None,
        decreases files.len() - at,
    {
        assert(files@.take(at + 1).drop_last() == files@.take(at as int));
        if files[at].server_jar() {
            proof {
                lemma_jar_among_found(files@, at + 1);
            }
            return Some(&files[at].path);
        }
        at = at + 1;
    }
    assert(files@.take(at as int) == files@);
    None
}

/// The server jar of a loader to take for the installed artifact: the first
/// one found when the version directories are gone through in the order of
/// the listing, and each directory's entries in theirs.
pub fn loader_jar(dirs: &Vec<VersionDir>) -> (found: Option<&String>)
    ensures
        match found {
            Some(path) => jar_under(dirs@) == Some(*path),
            None => jar_under(dirs@) is None,
        },
{
    let mut at: usize = 0;
    while at < dirs.len()
        invariant
            at <= dirs.len(),
            jar_under(dirs@.take(at as int)) is None,
        decreases dirs.len() - at,
    {
        assert(dirs@.take(at + 1).drop_last() == dirs@.take(at as int));
        if dirs[at].is_dir {
            match first_jar(&dirs[at].files) {
                Some(path) => {
                    proof {
                        lemma_jar_under_found(dirs@, at + 1);
                    }
                    return Some(path);
                },
                None => {},
            }
        }
        at = at + 1;
    }
    assert(dirs@.take(at as int) == dirs@);
    None
}

/// One piece of outside work that an identification asks for.
#[derive(Debug, PartialEq, Eq)]
pub enum Query {
    /// List what stands directly under `root`, a path relative to the target
    /// directory, and under each such entry that is a directory; answered by
    /// `Finding::Listing`.
    Scan { root: String },
    /// Say whether the file exists; answered by `Finding::Exists`.
    Exists { path: String },
    /// Ask the build catalog for the fingerprint of the file; answered by
    /// `Finding::Lookup`.
    Lookup { path: String },
    /// Ask the modpack catalog for the project; answered by
    /// `Finding::Project`.
    Project { slug: String },
    /// Nothing more: the verdict stands.
    Done,
}

/// The answer to a query.
#[derive(Debug, PartialEq, Eq)]
pub enum Finding {
    /// The version directories of a loader, or nothing where the loader's
    /// directory does not exist.
    Listing(Option<Vec<VersionDir>>),
    /// Whether the file exists.
    Exists(bool),
    /// What the build catalog knows of the file, or why it gave no answer.
    Lookup(Result<Fingerprint, Failure>),
    /// The project, or why the modpack catalog gave none.
    Project(Result<Project, Failure>),
}

/// How an identification ended.
#[derive(Debug, PartialEq, Eq)]
pub enum Verdict {
    /// The artifact is not known: a normal outcome.
    Undetected,
    /// The artifact is the build named here.
    Detected(Identification),
    /// A catalog failed, the build catalog or the modpack catalog, for the
    /// cause named here: nothing is known of the artifact.
    Failed(Failure),
}

/// Where an identification stands: the query that is pending, or how it
/// ended.
#[derive(Clone, Copy, Debug, PartialEq, Eq, Structural)]
pub enum Pace {
    ScanningForge,
    ScanningNeoForge,
    Checking,
    LookingUp,
    FetchingProject,
    Undetected,
    Detected,
    Failed(Failure),
}

/// All that an identification knows at one moment.
pub struct IdentifierView {
    /// The pending query, or how the identification ended.
    pub pace: Pace,
    /// The file whose fingerprint identifies the installation.
    pub probe: String,
    /// The modpack that the installation is recorded to come from.
    pub slug: Option<String>,
    /// The catalog's answer, once a build was matched.
    pub fingerprint: Option<Fingerprint>,
    /// The modpack's project, once it was fetched.
    pub project: Option<Project>,
}

/// The modpack that the kept state refers to: one is referred to where both
/// its name and its version are recorded.
pub open spec fn recorded_modpack(state: InstallState) -> Option<String> {
    if state.modpack_slug is Some && state.modpack_version is Some {
        state.modpack_slug
    } else {
        None
    }
}

/// The view after a loader's directory was listed: a server jar found in it
/// takes the place of the probe, and the probe is checked next.
pub open spec fn listed(view: IdentifierView, dirs: Seq<VersionDir>) -> IdentifierView {
    IdentifierView {
        pace: Pace::Checking,
        probe: match jar_under(dirs) {
            Some(path) => path,
            None => view.probe,
        },
        ..view
    }
}

/// How an identification goes on when the build catalog gave no answer for
/// `cause`: a fingerprint that the catalog does not hold leaves the artifact
/// undetected, and any other cause is a failure of the catalog.
pub open spec fn unanswered(cause: Failure) -> Pace {
    if cause == Failure::NotFound {
        Pace::Undetected
    } else {
        Pace::Failed(cause)
    }
}

/// What an identification knows after `finding` has answered the pending
/// query. A finding of a kind that the pending query does not ask for is
/// ignored, and an identification that has ended stays as it is.
///
/// Where the directory of Forge exists, that of NeoForge is not looked at.
/// A probe that does not exist, a fingerprint that the build catalog does
/// not hold and an answer without a matched build all end in `Undetected`.
/// A catalog that fails, the build catalog on any other cause and the
/// modpack catalog on every cause, ends the identification in `Failed` with
/// that cause.
pub open spec fn spec_advance(view: IdentifierView, finding: Finding) -> IdentifierView {
    match (view.pace, finding) {
        (Pace::ScanningForge, Finding::Listing(Some(dirs))) => listed(view, dirs@),
        (Pace::ScanningForge, Finding::Listing(None)) => IdentifierView {
            pace: Pace::ScanningNeoForge,
            ..view
        },
        (Pace::ScanningNeoForge, Finding::Listing(Some(dirs))) => listed(view, dirs@),
        (Pace::ScanningNeoForge, Finding::Listing(None)) => IdentifierView {
            pace: Pace::Checking,
            ..view
        },
        (Pace::Checking, Finding::Exists(exists)) => IdentifierView {
            pace: if exists {
                Pace::LookingUp
            } else {
                Pace::Undetected
            },
            ..view
        },
        (Pace::LookingUp, Finding::Lookup(Ok(fingerprint))) => if fingerprint.build is Some {
            IdentifierView {
                pace: if view.slug is Some {
                    Pace::FetchingProject
                } else {
                    Pace::Detected
                },
                fingerprint: Some(fingerprint),
                ..view
            }
        } else {
            IdentifierView { pace: Pace::Undetected, ..view }
        },
        (Pace::LookingUp, Finding::Lookup(Err(cause))) => IdentifierView {
            pace: unanswered(cause),
            ..view
        },
        (Pace::FetchingProject, Finding::Project(Ok(project))) => IdentifierView {
            pace: Pace::Detected,
            project: Some(project),
            ..view
        },
        (Pace::FetchingProject, Finding::Project(Err(cause))) => IdentifierView {
            pace: Pace::Failed(cause),
            ..view
        },
        _ => view,
    }
}

/// `query` is what an identification that knows `view` asks for.
pub open spec fn asks(view: IdentifierView, query: Query) -> bool {
    match view.pace {
        Pace::ScanningForge => query matches Query::Scan { root } && root@
            == "libraries/net/minecraftforge/forge"@,
        Pace::ScanningNeoForge => query matches Query::Scan { root } && root@
            == "libraries/net/neoforged/neoforge"@,
        Pace::Checking => query == (Query::Exists { path: view.probe }),
        Pace::LookingUp => query == (Query::Lookup { path: view.probe }),
        Pace::FetchingProject => query == (Query::Project { slug: view.slug->0 }),
        _ => query == Query::Done,
    }
}

/// How an identification that knows `view` ended, if it has.
pub open spec fn spec_verdict(view: IdentifierView) -> Option<Verdict> {
    match view.pace {
        Pace::Undetected => Some(Verdict::Undetected),
        Pace::Failed(cause) => Some(Verdict::Failed(cause)),
        Pace::Detected => Some(
            Verdict::Detected(
                Identification {
                    installed: view.fingerprint->0.build->0,
                    latest: view.fingerprint->0.latest,
                    versions: view.fingerprint->0.versions,
                    project: view.project,
                },
            ),
        ),
        _ => None,
    }
}

/// What an identification knows after the findings have answered its
/// queries one by one.
pub open spec fn after_findings(view: IdentifierView, findings: Seq<Finding>) -> IdentifierView
    decreases findings.len(),
{
    if findings.len() == 0 {
        view
    } else {
        spec_advance(after_findings(view, findings.drop_last()), findings.last())
    }
}

/// An identification that has ended stays as it is whatever is reported to
/// it.
pub proof fn law_verdict_stands(view: IdentifierView, findings: Seq<Finding>)
    requires
        spec_verdict(view) is Some,
    ensures
        after_findings(view, findings) == view,
    decreases findings.len(),
{
    if findings.len() > 0 {
        law_verdict_stands(view, findings.drop_last());
    }
}

/// Where the probe does not exist the artifact is undetected, and nothing
/// is asked of any catalog.
pub proof fn law_absent_probe_is_undetected(view: IdentifierView, more: Seq<Finding>)
    requires
        view.pace is Checking,
    ensures
        spec_verdict(after_findings(view, seq![Finding::Exists(false)] + more)) == Some(
            Verdict::Undetected,
        ),
        asks(after_findings(view, seq![Finding::Exists(false)] + more), Query::Done),
{
    let first = seq![Finding::Exists(false)];
    let ended = spec_advance(view, Finding::Exists(false));
    assert(after_findings(view, first) == ended) by {
        reveal_with_fuel(after_findings, 2);
        assert(first.last() == Finding::Exists(false));
    }
    lemma_findings_concat(view, first, more);
    law_verdict_stands(ended, more);
}

proof fn lemma_findings_concat(view: IdentifierView, first: Seq<Finding>, more: Seq<Finding>)
    ensures
        after_findings(view, first + more) == after_findings(after_findings(view, first), more),
    decreases more.len(),
{
    if more.len() == 0 {
        assert(first + more == first);
    } else {
        assert((first + more).drop_last() == first + more.drop_last());
        lemma_findings_concat(view, first, more.drop_last());
    }
}

/// A fingerprint that the build catalog does not hold, or an answer of the
/// catalog that matches no build, leaves the artifact undetected: a normal
/// outcome and no failure.
pub proof fn law_unmatched_is_undetected(view: IdentifierView, answer: Result<Fingerprint, Failure>)
    requires
        view.pace is LookingUp,
        match answer {
            Ok(fingerprint) => fingerprint.build is None,
            Err(cause) => cause == Failure::NotFound,
        },
    ensures
        spec_verdict(spec_advance(view, Finding::Lookup(answer))) == Some(Verdict::Undetected),
{
}

/// A build catalog that fails is told apart from an artifact that is not
/// known: any cause but a fingerprint that the catalog does not hold ends the
/// identification in a failure with that cause, never in `Undetected`, and
/// nothing more is asked of any catalog.
pub proof fn law_catalog_failure_is_fatal(view: IdentifierView, cause: Failure, more: Seq<Finding>)
    requires
        view.pace is LookingUp,
        cause != Failure::NotFound,
    ensures
        spec_verdict(after_findings(view, seq![Finding::Lookup(Err(cause))] + more)) == Some(
            Verdict::Failed(cause),
        ),
        asks(after_findings(view, seq![Finding::Lookup(Err(cause))] + more), Query::Done),
{
    let first = seq![Finding::Lookup(Err(cause))];
    let ended = spec_advance(view, Finding::Lookup(Err(cause)));
    assert(after_findings(view, first) == ended) by {
        reveal_with_fuel(after_findings, 2);
        assert(first.last() == Finding::Lookup(Err(cause)));
    }
    lemma_findings_concat(view, first, more);
    law_verdict_stands(ended, more);
}

/// Where the directory of a loader exists and holds a server jar, that jar
/// takes the place of the recorded one: it is the file that is checked and
/// looked up.
pub proof fn law_loader_jar_is_probed(view: IdentifierView, dirs: Vec<VersionDir>, path: String)
    requires
        view.pace is ScanningForge || view.pace is ScanningNeoForge,
        jar_under(dirs@) == Some(path),
    ensures
        spec_advance(view, Finding::Listing(Some(dirs))) == (IdentifierView {
            pace: Pace::Checking,
            probe: path,
            ..view
        }),
        asks(spec_advance(view, Finding::Listing(Some(dirs))), Query::Exists { path }),
        spec_advance(
            spec_advance(view, Finding::Listing(Some(dirs))),
            Finding::Exists(true),
        ).probe == path,
        asks(
            spec_advance(spec_advance(view, Finding::Listing(Some(dirs))), Finding::Exists(true)),
            Query::Lookup { path },
        ),
{
}

/// What is reported as installed is the build that the catalog matched to
/// the probe, with the version that this build has: where the catalog knows
/// the installed file, identifying it gives back the build it came from.
pub proof fn law_matched_build_is_reported(view: IdentifierView, fingerprint: Fingerprint, build: Build)
    requires
        view.pace is LookingUp,
        view.slug is None,
        fingerprint.build == Some(build),
    ensures
        spec_verdict(spec_advance(view, Finding::Lookup(Ok(fingerprint)))) matches Some(
            Verdict::Detected(found),
        ) && found.installed == build && found.installed.spec_version() == build.spec_version()
            && found.latest == fingerprint.latest && found.versions == fingerprint.versions,
{
}

/// Finds out what is installed in a directory: it names one query at a time
/// and takes the answer to that query before it names the next.
pub struct Identifier {
    pace: Pace,
    probe: String,
    slug: Option<String>,
    fingerprint: Option<Fingerprint>,
    project: Option<Project>,
}

impl Identifier {
    #[verifier::type_invariant]
    spec fn inv(&self) -> bool {
        match self.pace {
            Pace::FetchingProject => self.slug is Some && (self.fingerprint matches Some(fingerprint)
                && fingerprint.build is Some),
            Pace::Detected => self.fingerprint matches Some(fingerprint) && fingerprint.build is Some,
            _ => true,
        }
    }

    /// All that the identification knows.
    pub closed spec fn view(&self) -> IdentifierView {
        IdentifierView {
            pace: self.pace,
            probe: self.probe,
            slug: self.slug,
            fingerprint: self.fingerprint,
            project: self.project,
        }
    }

    /// An identification that has not begun. `probe` is the path of the jar
    /// that the kept state names, seen from where the queries are answered;
    /// what is asked for first is the listing of the directory of Forge.
    pub fn new(probe: String, state: &InstallState) -> (identifier: Identifier)
        ensures
            identifier@ == (IdentifierView {
                pace: Pace::ScanningForge,
                probe,
                slug: recorded_modpack(*state),
                fingerprint: None,
                project: None,
            }),
    {
        let slug = match (&state.modpack_slug, &state.modpack_version) {
            (Some(slug), Some(_)) => Some(slug.clone()),
            _ => None,
        };
        Identifier { pace: Pace::ScanningForge, probe, slug, fingerprint: None, project: None }
    }

    /// The query that is asked for now. Asking again changes nothing.
    pub fn pending(&self) -> (query: Query)
        ensures
            asks(self@, query),
    {
        proof {
            use_type_invariant(self);
        }
        match self.pace {
            Pace::ScanningForge => Query::Scan { root: "libraries/net/minecraftforge/forge".to_owned() },
            Pace::ScanningNeoForge => Query::Scan { root: "libraries/net/neoforged/neoforge".to_owned() },
            Pace::Checking => Query::Exists { path: self.probe.clone() },
            Pace::LookingUp => Query::Lookup { path: self.probe.clone() },
            Pace::FetchingProject => match &self.slug {
                Some(slug) => Query::Project { slug: slug.clone() },
                None => Query::Done,
            },
            _ => Query::Done,
        }
    }

    /// Takes the answer to the pending query and names the query that
    /// follows.
    pub fn advance(&mut self, finding: Finding) -> (query: Query)
        ensures
            final(self)@ == spec_advance(old(self)@, finding),
            asks(final(self)@, query),
    {
        proof {
            use_type_invariant(&*self);
        }
        match (self.pace, finding) {
            (Pace::ScanningForge, Finding::Listing(Some(dirs))) => {
                match loader_jar(&dirs) {
                    Some(path) => {
                        self.probe = path.clone();
                    },
                    None => {},
                }
                self.pace = Pace::Checking;
            },
            (Pace::ScanningForge, Finding::Listing(None)) => {
                self.pace = Pace::ScanningNeoForge;
            },
            (Pace::ScanningNeoForge, Finding::Listing(Some(dirs))) => {
                match loader_jar(&dirs) {
                    Some(path) => {
                        self.probe = path.clone();
                    },
                    None => {},
                }
                self.pace = Pace::Checking;
            },
            (Pace::ScanningNeoForge, Finding::Listing(None)) => {
                self.pace = Pace::Checking;
            },
            (Pace::Checking, Finding::Exists(exists)) => {
                self.pace = if exists {
                    Pace::LookingUp
                } else {
                    Pace::Undetected
                };
            },
            (Pace::LookingUp, Finding::Lookup(Ok(fingerprint))) => {
                if fingerprint.build.is_some() {
                    self.fingerprint = Some(fingerprint);
                    self.pace = if self.slug.is_some() {
                        Pace::FetchingProject
                    } else {
                        Pace::Detected
                    };
                } else {
                    self.pace = Pace::Undetected;
                }
            },
            (Pace::LookingUp, Finding::Lookup(Err(cause))) => {
                self.pace = match cause {
                    Failure::NotFound => Pace::Undetected,
                    other => Pace::Failed(other),
                };
            },
            (Pace::FetchingProject, Finding::Project(Ok(project))) => {
                self.project = Some(project);
                self.pace = Pace::Detected;
            },
            (Pace::FetchingProject, Finding::Project(Err(cause))) => {
                self.pace = Pace::Failed(cause);
            },
            _ => {},
        }
        self.pending()
    }

    /// How the identification ended, or nothing while a query is pending.
    pub fn verdict(self) -> (verdict: Option<Verdict>)
        ensures
            verdict == spec_verdict(self@),
    {
        proof {
            use_type_invariant(&self);
        }
        let Identifier { pace, probe: _, slug: _, fingerprint, project } = self;
        match pace {
            Pace::Undetected => Some(Verdict::Undetected),
            Pace::Failed(cause) => Some(Verdict::Failed(cause)),
            Pace::Detected => match fingerprint {
                Some(Fingerprint { build: Some(installed), latest, versions }) => Some(
                    Verdict::Detected(Identification { installed, latest, versions, project }),
                ),
                _ => None,
            },
            _ => None,
        }
    }
}

} // verus!
