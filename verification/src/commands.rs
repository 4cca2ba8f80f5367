use crate::identify::InstallState;
use crate::modpack::ModpackVersion;
use crate::plan::Build;
use crate::text::{has_prefix, starts_with};
use vstd::prelude::*;

verus! {

/// What an installation is made from.
#[derive(Clone, Copy, Debug, PartialEq, Eq, Structural)]
pub enum Source {
    /// A server jar of the build catalog.
    Jar,
    /// A modpack of the modpack catalog.
    Modpack,
}

/// The source that a word on the command line names: `install` names a
/// server jar, `modrinth` a modpack, and any other word names none.
pub fn parse_source(word: &str) -> (source: Option<Source>)
    ensures
        source == if word@ == "install"@ {
            Some(Source::Jar)
        } else if word@ == "modrinth"@ {
            Some(Source::Modpack)
        } else {
            None
        },
{
    let word = word.to_owned();
    if word == "install".to_owned() {
        Some(Source::Jar)
    } else if word == "modrinth".to_owned() {
        Some(Source::Modpack)
    } else {
        None
    }
}

/// Whether an entry of the server directory stays when the directory is
/// wiped: the files of this tool do, and their names begin with `.mcvcli`.
pub fn survives_wipe(name: &str) -> (stays: bool)
    ensures
        stays == has_prefix(name@, ".mcvcli"@),
{
    starts_with(name, ".mcvcli")
}

/// The first build named `name` is at position `at`.
pub open spec fn first_named(builds: Seq<Build>, name: Seq<char>, at: int) -> bool {
    &&& 0 <= at < builds.len()
    &&& builds[at].name@ == name
    &&& forall|before: int| 0 <= before < at ==> (#[trigger] builds[before]).name@ != name
}

/// The position of the build that a word on the command line names, in a
/// list that has the newest build first: `latest` names the first build, any
/// other word the first build of that name.
pub fn choose_build(builds: &Vec<Build>, word: &str) -> (found: Option<usize>)
    ensures
        word@ == "latest"@ ==> found == if builds.len() > 0 {
            Some(0usize)
        } else {
            None
        },
        word@ != "latest"@ ==> match found {
            Some(at) => first_named(builds@, word@, at as int),
            None => forall|at: int| 0 <= at < builds.len() ==> (#[trigger] builds[at]).name@ != word@,
        },
{
    let wanted = word.to_owned();
    if wanted == "latest".to_owned() {
        return if builds.len() > 0 {
            Some(0)
        } else {
            None
        };
    }
    let mut at: usize = 0;
    while at < builds.len()
        invariant
            at <= builds.len(),
            wanted@ == word@,
            word@ != "latest"@,
            forall|before: int| 0 <= before < at ==> (#[trigger] builds[before]).name@ != word@,
        decreases builds.len() - at,
    {
        if builds[at].name == wanted {
            return Some(at);
        }
        at = at + 1;
    }
    None
}

/// Which entry of the modpack menu was picked: its first entry asks for
/// another search, and every other entry stands for the project listed just
/// before it.
pub fn picked_project(choice: usize) -> (project: Option<usize>)
    ensures
        project == if choice == 0 {
            None
        } else {
            Some((choice - 1) as usize)
        },
{
    if choice == 0 {
        None
    } else {
        Some(choice - 1)
    }
}

impl ModpackVersion {
    /// Whether the version can be offered for installation: it has a file,
    /// and a name or a version number to show.
    pub open spec fn spec_installable(&self) -> bool {
        self.files.len() > 0 && (self.name is Some || self.version_number is Some)
    }

    /// Whether the version can be offered for installation.
    pub fn installable(&self) -> (offered: bool)
        ensures
            offered == self.spec_installable(),
    {
        self.files.len() > 0 && (self.name.is_some() || self.version_number.is_some())
    }
}

/// The positions of the installable versions among `versions`, in order.
pub open spec fn offered(versions: Seq<ModpackVersion>) -> Seq<usize>
    decreases versions.len(),
{
    if versions.len() == 0 {
        Seq::empty()
    } else if versions.last().spec_installable() {
        offered(versions.drop_last()).push((versions.len() - 1) as usize)
    } else {
        offered(versions.drop_last())
    }
}

/// The positions of the versions that can be offered for installation, in
/// the order of the list.
pub fn installable_versions(versions: &Vec<ModpackVersion>) -> (positions: Vec<usize>)
    ensures
        positions@ == offered(versions@),
{
    let mut positions: Vec<usize> = Vec::new();
    let mut at: usize = 0;
    while at < versions.len()
        invariant
            at <= versions.len(),
            positions@ == offered(versions@.take(at as int)),
        decreases versions.len() - at,
    {
        assert(versions@.take(at + 1).drop_last() == versions@.take(at as int));
        if versions[at].installable() {
            positions.push(at);
        }
        at = at + 1;
    }
    assert(versions@.take(at as int) == versions@);
    positions
}

/// Whether the Java version is among the installed ones, each of which is
/// listed with its version and the place where it is kept.
pub fn java_installed(installed: &Vec<(u8, String)>, version: u8) -> (found: bool)
    ensures
        found == exists|at: int| 0 <= at < installed.len() && (#[trigger] installed[at]).0 == version,
{
    let mut at: usize = 0;
    while at < installed.len()
        invariant
            at <= installed.len(),
            forall|before: int| 0 <= before < at ==> (#[trigger] installed[before]).0 != version,
        decreases installed.len() - at,
    {
        if installed[at].0 == version {
            return true;
        }
        at = at + 1;
    }
    false
}

impl InstallState {
    /// Records that a server jar was installed: the installation comes from
    /// no modpack any more and runs with the given Java version.
    pub fn record_jar(&mut self, java: u8)
        ensures
            *final(self) == (InstallState {
                modpack_slug: None,
                modpack_version: None,
                java_version: java,
                ..*old(self)
            }),
    {
        self.modpack_slug = None;
        self.modpack_version = None;
        self.java_version = java;
    }

    /// Records that a modpack was installed: the jar to run is `server.jar`,
    /// and the installation comes from the given version of the given
    /// project.
    pub fn record_modpack(&mut self, project: String, version: String)
        ensures
            final(self).jar_file@ == "server.jar"@,
            final(self).modpack_slug == Some(project),
            final(self).modpack_version == Some(version),
            final(self).java_version == old(self).java_version,
            final(self).pid == old(self).pid,
    {
        self.jar_file = "server.jar".to_owned();
        self.modpack_slug = Some(project);
        self.modpack_version = Some(version);
    }
}

} // verus!
