use crate::outcome::Failure;
use crate::plan::Build;
use vstd::prelude::*;

verus! {

/// How many manifest files make one batch: the files of a batch are fetched
/// side by side, and a batch is begun only when the one before has ended.
pub const BATCH_SIZE: usize = 10;

/// One downloadable file of a modpack version.
#[derive(Debug, PartialEq, Eq)]
pub struct BundleFile {
    pub url: String,
    pub filename: String,
    pub primary: bool,
    pub size: u64,
}

impl Clone for BundleFile {
    fn clone(&self) -> (out: Self)
        ensures
            out == *self,
    {
        BundleFile {
            url: self.url.clone(),
            filename: self.filename.clone(),
            primary: self.primary,
            size: self.size,
        }
    }
}

/// A published version of a modpack.
#[derive(Debug, PartialEq, Eq)]
pub struct ModpackVersion {
    pub id: String,
    pub name: Option<String>,
    pub version_number: Option<String>,
    pub game_versions: Vec<String>,
    pub files: Vec<BundleFile>,
}

/// Where a manifest file is meant to be present.
#[derive(Debug, PartialEq, Eq)]
pub struct FileEnv {
    pub server: String,
}

/// One file that a manifest declares: where it goes, where it can be had
/// (the first address is the one used), and how long it is.
#[derive(Debug, PartialEq, Eq)]
pub struct ManifestFile {
    pub path: String,
    pub downloads: Vec<String>,
    pub env: Option<FileEnv>,
    pub file_size: u64,
}

/// The game version a modpack is made for and the loader it needs.
#[derive(Debug, PartialEq, Eq)]
pub struct Dependencies {
    pub minecraft: String,
    pub forge: Option<String>,
    pub neoforge: Option<String>,
    pub fabric_loader: Option<String>,
    pub quilt_loader: Option<String>,
}

/// What a modpack bundle says of itself.
#[derive(Debug, PartialEq, Eq)]
pub struct Manifest {
    pub dependencies: Dependencies,
    pub files: Vec<ManifestFile>,
}

/// One transfer: the bytes behind `url` go to `path`, `size` of them.
#[derive(Debug, PartialEq, Eq)]
pub struct Fetch {
    pub url: String,
    pub path: String,
    pub size: u64,
}

/// A mod loader that a modpack can ask for.
#[derive(Clone, Copy, Debug, PartialEq, Eq, Structural)]
pub enum Loader {
    Fabric,
    Quilt,
    Forge,
    NeoForge,
}

/// The first file marked as primary is at position `at`.
pub open spec fn first_primary(files: Seq<BundleFile>, at: int) -> bool {
    &&& 0 <= at < files.len()
    &&& files[at].primary
    &&& forall|before: int| 0 <= before < at ==> !(#[trigger] files[before]).primary
}

impl ModpackVersion {
    /// The position of the bundle to install: the first file marked as
    /// primary, if there is one.
    pub fn primary_file(&self) -> (found: Option<usize>)
        ensures
            match found {
                Some(at) => first_primary(self.files@, at as int),
                None => forall|at: int| 0 <= at < self.files.len() ==> !(#[trigger] self.files[at]).primary,
            },
    {
        let mut at: usize = 0;
        while at < self.files.len()
            invariant
                at <= self.files.len(),
                forall|before: int| 0 <= before < at ==> !(#[trigger] self.files[before]).primary,
            decreases self.files.len() - at,
        {
            if self.files[at].primary {
                return Some(at);
            }
            at = at + 1;
        }
        None
    }
}

impl ManifestFile {
    /// Whether the installer fetches the file: it does unless the file is
    /// tagged as unsupported on a server. A file without a tag is not fetched.
    pub open spec fn spec_wanted(&self) -> bool {
        self.env matches Some(env) && env.server@ != "unsupported"@
    }

    /// Whether the installer fetches the file.
    pub fn wanted(&self) -> (wanted: bool)
        ensures
            wanted == self.spec_wanted(),
    {
        match &self.env {
            Some(env) => {
                let unsupported = "unsupported".to_owned();
                !(env.server == unsupported)
            },
            None => false,
        }
    }

    /// The transfer that brings the file: from the first of its addresses.
    pub open spec fn spec_fetch(&self) -> Fetch {
        Fetch { url: self.downloads[0], path: self.path, size: self.file_size }
    }
}

/// The transfers that bring the wanted files among `files`, in the order of
/// the files.
pub open spec fn fetches(files: Seq<ManifestFile>) -> Seq<Fetch>
    decreases files.len(),
{
    if files.len() == 0 {
        Seq::empty()
    } else if files.last().spec_wanted() {
        fetches(files.drop_last()).push(files.last().spec_fetch())
    } else {
        fetches(files.drop_last())
    }
}

/// Every wanted file among `files` names an address to fetch it from.
pub open spec fn fetchable(files: Seq<ManifestFile>) -> bool {
    forall|at: int|
        0 <= at < files.len() && (#[trigger] files[at]).spec_wanted() ==> files[at].downloads.len() > 0
}

/// How many batches a manifest of `files` files is fetched in.
pub open spec fn batch_count(files: nat) -> nat {
    (files + 9) / 10
}

/// The position of the first file of batch `batch`, or the number of files
/// where there is no such batch.
pub open spec fn batch_start(files: nat, batch: nat) -> nat {
    if batch * 10 <= files {
        batch * 10
    } else {
        files
    }
}

/// The files of batch `batch`: ten consecutive files of the manifest, fewer
/// in the last batch.
pub open spec fn batch_files(files: Seq<ManifestFile>, batch: nat) -> Seq<ManifestFile> {
    files.subrange(
        batch_start(files.len(), batch) as int,
        batch_start(files.len(), batch + 1) as int,
    )
}

/// How many batches a manifest of `files` files is fetched in.
pub fn count_batches(files: usize) -> (count: usize)
    ensures
        count == batch_count(files as nat),
{
    if files % BATCH_SIZE == 0 {
        files / BATCH_SIZE
    } else {
        files / BATCH_SIZE + 1
    }
}

/// The transfers of one batch, in the order of the manifest.
///
/// A wanted file that names no address makes the manifest malformed.
pub fn batch(files: &Vec<ManifestFile>, number: usize) -> (transfers: Result<Vec<Fetch>, Failure>)
    ensures
        match transfers {
            Ok(list) => fetchable(batch_files(files@, number as nat)) && list@ == fetches(
                batch_files(files@, number as nat),
            ),
            Err(cause) => cause == Failure::Parse && !fetchable(batch_files(files@, number as nat)),
        },
{
    let total = files.len();
    let start = if number <= total / BATCH_SIZE {
        number * BATCH_SIZE
    } else {
        total
    };
    let end = if total - start > BATCH_SIZE {
        start + BATCH_SIZE
    } else {
        total
    };
    let ghost chunk = batch_files(files@, number as nat);
    assert(start == batch_start(total as nat, number as nat));
    assert(end == batch_start(total as nat, (number + 1) as nat));
    let mut list: Vec<Fetch> = Vec::new();
    let mut at = start;
    while at < end
        invariant
            start <= at <= end <= files.len(),
            chunk == files@.subrange(start as int, end as int),
            chunk == batch_files(files@, number as nat),
            fetchable(chunk.take(at - start)),
            list@ == fetches(chunk.take(at - start)),
        decreases end - at,
    {
        let file = &files[at];
        let ghost seen = chunk.take(at - start + 1);
        assert(seen.drop_last() == chunk.take(at - start));
        assert(seen.last() == files[at as int]);
        if file.wanted() {
            if file.downloads.len() == 0 {
                assert(chunk[at - start] == files[at as int]);
                return Err(Failure::Parse);
            }
            list.push(
                Fetch { url: file.downloads[0].clone(), path: file.path.clone(), size: file.file_size },
            );
        }
        assert forall|i: int| 0 <= i < seen.len() && (#[trigger] seen[i]).spec_wanted() implies seen[i].downloads.len()
            > 0 by {
            if i < seen.len() - 1 {
                assert(seen[i] == chunk.take(at - start)[i]);
            }
        }
        at = at + 1;
    }
    assert(chunk.take(end - start) == chunk);
    Ok(list)
}

/// The transfers of the first `batches` batches, batch after batch.
pub open spec fn fetched_in(files: Seq<ManifestFile>, batches: nat) -> Seq<Fetch>
    decreases batches,
{
    if batches == 0 {
        Seq::empty()
    } else {
        fetched_in(files, (batches - 1) as nat) + fetches(batch_files(files, (batches - 1) as nat))
    }
}

proof fn lemma_fetches_concat(front: Seq<ManifestFile>, back: Seq<ManifestFile>)
    ensures
        fetches(front + back) == fetches(front) + fetches(back),
    decreases back.len(),
{
    if back.len() == 0 {
        assert(front + back == front);
    } else {
        assert((front + back).drop_last() == front + back.drop_last());
        lemma_fetches_concat(front, back.drop_last());
    }
}

proof fn lemma_fetched_in_prefix(files: Seq<ManifestFile>, batches: nat)
    ensures
        fetched_in(files, batches) == fetches(files.take(batch_start(files.len(), batches) as int)),
    decreases batches,
{
    if batches > 0 {
        let before = (batches - 1) as nat;
        lemma_fetched_in_prefix(files, before);
        let start = batch_start(files.len(), before) as int;
        let end = batch_start(files.len(), batches) as int;
        assert(files.take(end) == files.take(start) + batch_files(files, before));
        lemma_fetches_concat(files.take(start), batch_files(files, before));
    }
}

/// The batches together fetch what the manifest asks for and nothing else:
/// each wanted file once, in the order of the manifest.
pub proof fn law_batches_fetch_the_wanted_files(files: Seq<ManifestFile>)
    ensures
        fetched_in(files, batch_count(files.len())) == fetches(files),
{
    lemma_fetched_in_prefix(files, batch_count(files.len()));
    assert(files.take(files.len() as int) == files);
}

/// The file at position `at` is wanted and `transfer` is what brings it.
pub open spec fn brings(files: Seq<ManifestFile>, at: int, transfer: Fetch) -> bool {
    0 <= at < files.len() && files[at].spec_wanted() && files[at].spec_fetch() == transfer
}

/// The transfer brings a wanted file of the manifest.
pub open spec fn has_source(files: Seq<ManifestFile>, transfer: Fetch) -> bool {
    exists|at: int| brings(files, at, transfer)
}

/// A file is fetched exactly if it is wanted: each transfer brings a wanted
/// file of the manifest, and each wanted file has its transfer.
pub proof fn law_only_wanted_files_are_fetched(files: Seq<ManifestFile>)
    ensures
        fetches(files).len() <= files.len(),
        forall|at: int|
            0 <= at < files.len() && (#[trigger] files[at]).spec_wanted() ==> fetches(files).contains(
                files[at].spec_fetch(),
            ),
        forall|transfer: int|
            0 <= transfer < fetches(files).len() ==> has_source(files, #[trigger] fetches(files)[transfer]),
    decreases files.len(),
{
    if files.len() > 0 {
        let front = files.drop_last();
        let last = files.len() - 1;
        law_only_wanted_files_are_fetched(front);
        assert forall|at: int| 0 <= at < files.len() && (#[trigger] files[at]).spec_wanted() implies fetches(
            files,
        ).contains(files[at].spec_fetch()) by {
            if at < last {
                assert(front[at] == files[at]);
                let found = choose|found: int|
                    0 <= found < fetches(front).len() && fetches(front)[found] == files[at].spec_fetch();
                assert(fetches(files)[found] == files[at].spec_fetch());
            } else {
                assert(fetches(files)[fetches(front).len() as int] == files[at].spec_fetch());
            }
        }
        assert forall|transfer: int| 0 <= transfer < fetches(files).len() implies has_source(
            files,
            #[trigger] fetches(files)[transfer],
        ) by {
            if transfer < fetches(front).len() {
                assert(has_source(front, fetches(front)[transfer]));
                let at = choose|at: int| brings(front, at, fetches(front)[transfer]);
                assert(brings(files, at, fetches(files)[transfer]));
            } else {
                assert(brings(files, last, fetches(files)[transfer]));
            }
        }
    }
}

/// Every batch but the last holds ten files of the manifest, the last one
/// what is left, and no batch is empty: so at most ten transfers are ever in
/// flight.
pub proof fn law_batch_sizes(files: Seq<ManifestFile>, batch: nat)
    requires
        batch < batch_count(files.len()),
    ensures
        batch_files(files, batch).len() == if (batch + 1) * 10 <= files.len() {
            10
        } else {
            files.len() - batch * 10
        },
        1 <= batch_files(files, batch).len() <= 10,
        fetches(batch_files(files, batch)).len() <= batch_files(files, batch).len(),
{
    law_only_wanted_files_are_fetched(batch_files(files, batch));
}

impl Dependencies {
    /// The loader that the modpack asks for, with its version. Where several
    /// are named the first of Fabric, Quilt, Forge and NeoForge counts.
    pub open spec fn spec_loader(&self) -> Option<(Loader, String)> {
        if let Some(version) = self.fabric_loader {
            Some((Loader::Fabric, version))
        } else if let Some(version) = self.quilt_loader {
            Some((Loader::Quilt, version))
        } else if let Some(version) = self.forge {
            Some((Loader::Forge, version))
        } else if let Some(version) = self.neoforge {
            Some((Loader::NeoForge, version))
        } else {
            None
        }
    }

    /// The loader that the modpack asks for, with its version.
    pub fn loader(&self) -> (chosen: Option<(Loader, &String)>)
        ensures
            match chosen {
                Some((loader, version)) => self.spec_loader() == Some((loader, *version)),
                None => self.spec_loader() is None,
            },
    {
        if let Some(version) = &self.fabric_loader {
            Some((Loader::Fabric, version))
        } else if let Some(version) = &self.quilt_loader {
            Some((Loader::Quilt, version))
        } else if let Some(version) = &self.forge {
            Some((Loader::Forge, version))
        } else if let Some(version) = &self.neoforge {
            Some((Loader::NeoForge, version))
        } else {
            None
        }
    }
}

impl Loader {
    /// The key under which the build catalog lists the loader's builds.
    pub fn catalog_key(self) -> (key: &'static str)
        ensures
            key@ == match self {
                Loader::Fabric => "FABRIC"@,
                Loader::Quilt => "QUILT"@,
                Loader::Forge => "FORGE"@,
                Loader::NeoForge => "NEOFORGE"@,
            },
    {
        match self {
            Loader::Fabric => "FABRIC",
            Loader::Quilt => "QUILT",
            Loader::Forge => "FORGE",
            Loader::NeoForge => "NEOFORGE",
        }
    }
}

/// The build is the one that the catalog lists for the loader version.
pub open spec fn is_build_of(build: Build, version: Seq<char>) -> bool {
    build.project_version_id matches Some(id) && id@ == version
}

/// The position of the first build that the catalog lists for the loader
/// version, if there is one.
pub open spec fn spec_find_build(builds: Seq<Build>, version: Seq<char>) -> Option<int>
    decreases builds.len(),
{
    if builds.len() == 0 {
        None
    } else if spec_find_build(builds.drop_last(), version) is Some {
        spec_find_build(builds.drop_last(), version)
    } else if is_build_of(builds.last(), version) {
        Some(builds.len() - 1)
    } else {
        None
    }
}

proof fn lemma_find_build_found(builds: Seq<Build>, version: Seq<char>, upto: int)
    requires
        0 <= upto <= builds.len(),
        spec_find_build(builds.take(upto), version) is Some,
    ensures
        spec_find_build(builds, version) == spec_find_build(builds.take(upto), version),
    decreases builds.len() - upto,
{
    if upto < builds.len() {
        assert(builds.take(upto + 1).drop_last() == builds.take(upto));
        lemma_find_build_found(builds, version, upto + 1);
    } else {
        assert(builds.take(upto) == builds);
    }
}

/// The position of the first build that the catalog lists for the loader
/// version: the first whose project version is `version`.
pub fn find_build(builds: &Vec<Build>, version: &String) -> (found: Option<usize>)
    ensures
        match found {
            Some(at) => spec_find_build(builds@, version@) == Some(at as int) && at < builds.len()
                && is_build_of(builds[at as int], version@) && forall|before: int|
                0 <= before < at ==> !is_build_of(#[trigger] builds[before], version@),
            None => spec_find_build(builds@, version@) is None && forall|at: int|
                0 <= at < builds.len() ==> !is_build_of(#[trigger] builds[at], version@),
        },
{
    let mut at: usize = 0;
    while at < builds.len()
        invariant
            at <= builds.len(),
            spec_find_build(builds@.take(at as int), version@) is None,
            forall|before: int| 0 <= before < at ==> !is_build_of(#[trigger] builds[before], version@),
        decreases builds.len() - at,
    {
        assert(builds@.take(at + 1).drop_last() == builds@.take(at as int));
        match &builds[at].project_version_id {
            Some(id) => {
                if *id == *version {
                    proof {
                        lemma_find_build_found(builds@, version@, at + 1);
                    }
                    return Some(at);
                }
            },
            None => {},
        }
        at = at + 1;
    }
    assert(builds@.take(at as int) == builds@);
    None
}

} // verus!
