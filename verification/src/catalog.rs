use crate::plan::Build;
use indexmap::IndexMap;
use vstd::prelude::*;

verus! {

/// The insertion-ordered hash map of the `indexmap` crate, held as an opaque
/// value.
#[verifier::external_type_specification]
#[verifier::external_body]
#[verifier::reject_recursive_types(K)]
#[verifier::reject_recursive_types(V)]
#[verifier::reject_recursive_types(S)]
pub struct ExIndexMap<K, V, S>(IndexMap<K, V, S>);

/// What a version catalog says of one version. A catalog holds its versions
/// by their ids, the oldest first.
#[derive(Debug, PartialEq, Eq)]
pub struct Version {
    /// The type of the version, such as a release or a snapshot.
    pub kind: String,
    /// The major version of the Java runtime that the version needs.
    pub java: u8,
}

impl Clone for Version {
    fn clone(&self) -> (out: Self)
        ensures
            out == *self,
    {
        Version { kind: self.kind.clone(), java: self.java }
    }
}

/// What a version catalog holds, oldest version first: for each entry its
/// version id, its kind and its Java version.
pub uninterp spec fn catalog_entries(catalog: IndexMap<String, Version>) -> Seq<(Seq<char>, Seq<char>, u8)>;

/// `IndexMap::len`: the number of key-value pairs in the map.
#[verifier::external_body]
fn catalog_len(catalog: &IndexMap<String, Version>) -> (n: usize)
    ensures
        n == catalog_entries(*catalog).len(),
{
    catalog.len()
}

/// `IndexMap::get_index`: the key-value pair at a position of the insertion
/// order, and nothing for a position at or past the length.
#[verifier::external_body]
fn catalog_get_index(catalog: &IndexMap<String, Version>, index: usize) -> (entry: Option<(&String, &Version)>)
    ensures
        index >= catalog_entries(*catalog).len() ==> entry is None,
        index < catalog_entries(*catalog).len() ==> entry is Some && ({
            let (id, version) = entry->0;
            catalog_entries(*catalog)[index as int] == (id@, version.kind@, version.java)
        }),
{
    catalog.get_index(index)
}

/// `IndexMap::get_index_of`: the position of the entry whose key is the
/// given text, and nothing where the map has no such key. A map holds a key
/// once, so no other position has that key.
#[verifier::external_body]
fn catalog_position(catalog: &IndexMap<String, Version>, id: &String) -> (found: Option<usize>)
    ensures
        match found {
            Some(at) => only_at(catalog_entries(*catalog), id@, at as int),
            None => !lists(catalog_entries(*catalog), id@),
        },
{
    catalog.get_index_of(id)
}

/// Whether the catalog lists the version `id`.
pub open spec fn lists(entries: Seq<(Seq<char>, Seq<char>, u8)>, id: Seq<char>) -> bool {
    exists|at: int| 0 <= at < entries.len() && (#[trigger] entries[at]).0 == id
}

/// The version `id` is the entry at position `at`, and no other entry.
pub open spec fn only_at(entries: Seq<(Seq<char>, Seq<char>, u8)>, id: Seq<char>, at: int) -> bool {
    &&& 0 <= at < entries.len()
    &&& entries[at].0 == id
    &&& forall|other: int| 0 <= other < entries.len() && other != at ==> (#[trigger] entries[other]).0 != id
}

/// The catalog lists the version `id`, and `kind` is the kind that it names
/// for it.
pub open spec fn kind_of(entries: Seq<(Seq<char>, Seq<char>, u8)>, id: Seq<char>, kind: Seq<char>) -> bool {
    &&& lists(entries, id)
    &&& forall|at: int| 0 <= at < entries.len() && (#[trigger] entries[at]).0 == id ==> entries[at].1 == kind
}

/// A catalog names one kind for a version that it lists.
pub proof fn law_one_kind(
    entries: Seq<(Seq<char>, Seq<char>, u8)>,
    id: Seq<char>,
    kind: Seq<char>,
    other: Seq<char>,
)
    requires
        kind_of(entries, id, kind),
        kind_of(entries, id, other),
    ensures
        kind == other,
{
}

/// Gives a build the kind of its own version, as the catalog names it, so
/// that the build can be compared with the versions of the catalog. A build
/// without a version, or of a version that the catalog does not list, stays
/// as it is.
pub fn classify(build: &mut Build, versions: &IndexMap<String, Version>)
    ensures
        final(build).name == old(build).name,
        final(build).version_id == old(build).version_id,
        final(build).project_version_id == old(build).project_version_id,
        final(build).installation == old(build).installation,
        match old(build).spec_version() {
            Some(id) => if lists(catalog_entries(*versions), id) {
                kind_of(catalog_entries(*versions), id, final(build).kind@)
            } else {
                final(build).kind == old(build).kind
            },
            None => final(build).kind == old(build).kind,
        },
{
    let found = match build.version() {
        Some(id) => catalog_position(versions, id),
        None => None,
    };
    match found {
        Some(at) => match catalog_get_index(versions, at) {
            Some((_, version)) => {
                build.kind = version.kind.clone();
            },
            None => {},
        },
        None => {},
    }
}

/// The Java version to run a version of the catalog with: that of the entry
/// for `id`, or else that of the newest entry.
pub open spec fn java_of(entries: Seq<(Seq<char>, Seq<char>, u8)>, id: Seq<char>, java: u8) -> bool {
    if lists(entries, id) {
        forall|at: int| 0 <= at < entries.len() && (#[trigger] entries[at]).0 == id ==> entries[at].2 == java
    } else {
        entries.len() > 0 && entries.last().2 == java
    }
}

/// One Java version is the one to run a version with, by a catalog that is
/// not empty.
pub proof fn law_one_java(entries: Seq<(Seq<char>, Seq<char>, u8)>, id: Seq<char>, java: u8, other: u8)
    requires
        java_of(entries, id, java),
        java_of(entries, id, other),
    ensures
        java == other,
{
}

/// The Java version to run the version `id` with: the one that the catalog
/// names for it, or else the one it names for its newest version. An empty
/// catalog names none.
pub fn java_for(versions: &IndexMap<String, Version>, id: &String) -> (java: Option<u8>)
    ensures
        java is None <==> catalog_entries(*versions).len() == 0,
        java matches Some(version) ==> java_of(catalog_entries(*versions), id@, version),
{
    let count = catalog_len(versions);
    if count == 0 {
        return None;
    }
    let at = match catalog_position(versions, id) {
        Some(at) => at,
        None => count - 1,
    };
    match catalog_get_index(versions, at) {
        Some((_, version)) => Some(version.java),
        None => None,
    }
}

/// The Java version to run a build with: the one that the catalog names
/// for the build's version, or else, and for a build without a version, the
/// one it names for its newest version.
pub fn java_for_build(versions: &IndexMap<String, Version>, build: &Build) -> (java: Option<u8>)
    ensures
        java is None <==> catalog_entries(*versions).len() == 0,
        java matches Some(version) ==> java_of(
            catalog_entries(*versions),
            match build.spec_version() {
                Some(id) => id,
                None => "unknown"@,
            },
            version,
        ),
{
    match build.version() {
        Some(id) => java_for(versions, id),
        None => {
            let unknown = "unknown".to_owned();
            java_for(versions, &unknown)
        },
    }
}

/// The position of the newest entry of `kind` is `at`.
pub open spec fn newest_of_kind(entries: Seq<(Seq<char>, Seq<char>, u8)>, kind: Seq<char>, at: int) -> bool {
    &&& 0 <= at < entries.len()
    &&& entries[at].1 == kind
    &&& forall|later: int| at < later < entries.len() ==> (#[trigger] entries[later]).1 != kind
}

/// Scanning from the newest entry to the oldest, the first entry of `kind` is
/// the version `id`.
pub open spec fn is_latest(entries: Seq<(Seq<char>, Seq<char>, u8)>, id: Seq<char>, kind: Seq<char>) -> bool {
    exists|at: int| newest_of_kind(entries, kind, at) && #[trigger] entries[at].0 == id
}

/// Newer versions of another kind do not count: entries of other kinds that
/// are added at the newest end of a catalog leave the answer as it was.
pub proof fn law_other_kinds_do_not_count(
    entries: Seq<(Seq<char>, Seq<char>, u8)>,
    newer: Seq<(Seq<char>, Seq<char>, u8)>,
    id: Seq<char>,
    kind: Seq<char>,
)
    requires
        forall|at: int| 0 <= at < newer.len() ==> (#[trigger] newer[at]).1 != kind,
    ensures
        is_latest(entries + newer, id, kind) == is_latest(entries, id, kind),
{
    let all = entries + newer;
    if is_latest(entries, id, kind) {
        let at = choose|at: int| newest_of_kind(entries, kind, at) && #[trigger] entries[at].0 == id;
        assert forall|later: int| at < later < all.len() implies (#[trigger] all[later]).1 != kind by {
            if later < entries.len() {
                assert(all[later] == entries[later]);
            } else {
                assert(all[later] == newer[later - entries.len()]);
            }
        }
        assert(all[at] == entries[at]);
        assert(newest_of_kind(all, kind, at));
    }
    if is_latest(all, id, kind) {
        let at = choose|at: int| newest_of_kind(all, kind, at) && #[trigger] all[at].0 == id;
        if at >= entries.len() {
            assert(all[at] == newer[at - entries.len()]);
        }
        assert(all[at] == entries[at]);
        assert forall|later: int| at < later < entries.len() implies (#[trigger] entries[later]).1
            != kind by {
            assert(all[later] == entries[later]);
        }
        assert(newest_of_kind(entries, kind, at));
    }
}

/// For a build that has the kind of its own version, as `classify` gives it,
/// to be the latest is that the catalog lists no newer version of that kind.
pub proof fn law_latest_of_listed(entries: Seq<(Seq<char>, Seq<char>, u8)>, id: Seq<char>, at: int)
    requires
        only_at(entries, id, at),
    ensures
        kind_of(entries, id, entries[at].1),
        is_latest(entries, id, entries[at].1) == (forall|later: int|
            at < later < entries.len() ==> (#[trigger] entries[later]).1 != entries[at].1),
{
    let kind = entries[at].1;
    if is_latest(entries, id, kind) {
        let found = choose|found: int| newest_of_kind(entries, kind, found) && #[trigger] entries[found].0 == id;
        assert(found == at);
    }
    if forall|later: int| at < later < entries.len() ==> (#[trigger] entries[later]).1 != kind {
        assert(newest_of_kind(entries, kind, at));
    }
}

/// Whether no newer version of the build's own kind exists in the catalog.
///
/// Entries of another kind, however recent, do not count. A build without a
/// version is never the latest.
pub fn is_latest_version(build: &Build, versions: &IndexMap<String, Version>) -> (latest: bool)
    ensures
        latest == (build.spec_version() matches Some(id) && is_latest(
            catalog_entries(*versions),
            id,
            build.kind@,
        )),
{
    let id = match build.version() {
        Some(id) => id,
        None => {
            return false;
        },
    };
    let ghost entries = catalog_entries(*versions);
    let mut at: usize = catalog_len(versions);
    while at > 0
        invariant
            at <= entries.len(),
            entries == catalog_entries(*versions),
            build.spec_version() == Some(id@),
            forall|later: int| at <= later < entries.len() ==> (#[trigger] entries[later]).1 != build.kind@,
        decreases at,
    {
        at = at - 1;
        match catalog_get_index(versions, at) {
            Some((key, version)) => {
                if version.kind == build.kind {
                    proof {
                        // No other position holds the newest entry of the kind.
                        assert(newest_of_kind(entries, build.kind@, at as int));
                        assert forall|other: int|
                            newest_of_kind(entries, build.kind@, other) implies other == at by {
                            if other < at {
                                assert(entries[at as int].1 == build.kind@);
                            }
                        }
                        assert(is_latest(entries, id@, build.kind@) == (entries[at as int].0 == id@));
                    }
                    return *key == *id;
                }
            },
            None => {},
        }
    }
    false
}

} // verus!
