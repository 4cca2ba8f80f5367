use indexmap::IndexMap;
use mcvcli::catalog::Version;
use mcvcli::identify::{
    loader_jar, FileEntry, Finding, Fingerprint, Identification, Identifier, InstallState, Project,
    Query, Verdict, VersionDir,
};
use mcvcli::outcome::Failure;
use mcvcli::plan::Build;

fn state(modpack: Option<(&str, &str)>) -> InstallState {
    InstallState {
        jar_file: "server.jar".to_string(),
        modpack_slug: modpack.map(|(slug, _)| slug.to_string()),
        modpack_version: modpack.map(|(_, version)| version.to_string()),
        java_version: 21,
        pid: None,
    }
}

fn entry(name: &str, is_file: bool) -> FileEntry {
    FileEntry {
        name: name.to_string(),
        path: format!("libraries/net/minecraftforge/forge/x/{}", name),
        is_file,
    }
}

fn dir(files: Vec<FileEntry>) -> VersionDir {
    VersionDir {
        is_dir: true,
        files,
    }
}

fn build(version: &str) -> Build {
    Build {
        name: "b".to_string(),
        version_id: Some(version.to_string()),
        project_version_id: None,
        kind: "FORGE".to_string(),
        installation: Vec::new(),
    }
}

fn versions() -> IndexMap<String, Version> {
    let mut versions = IndexMap::new();
    versions.insert(
        "1.20.1".to_string(),
        Version {
            kind: "RELEASE".to_string(),
            java: 17,
        },
    );
    versions
}

fn fingerprint(matched: Option<&str>) -> Fingerprint {
    Fingerprint {
        build: matched.map(build),
        latest: build("1.21"),
        versions: versions(),
    }
}

fn project() -> Project {
    Project {
        project_id: Some("P1".to_string()),
        title: "Pack".to_string(),
        description: "A pack".to_string(),
        downloads: 12,
        versions: vec!["1.20.1".to_string()],
    }
}

fn scan(root: &str) -> Query {
    Query::Scan {
        root: root.to_string(),
    }
}

fn check_of(path: &str) -> Query {
    Query::Exists {
        path: path.to_string(),
    }
}

fn lookup_of(path: &str) -> Query {
    Query::Lookup {
        path: path.to_string(),
    }
}

#[test]
fn an_absent_probe_is_undetected() {
    let mut identifier = Identifier::new("srv/server.jar".to_string(), &state(None));
    assert_eq!(identifier.pending(), scan("libraries/net/minecraftforge/forge"));
    assert_eq!(
        identifier.advance(Finding::Listing(None)),
        scan("libraries/net/neoforged/neoforge")
    );
    assert_eq!(identifier.advance(Finding::Listing(None)), check_of("srv/server.jar"));
    assert_eq!(identifier.advance(Finding::Exists(false)), Query::Done);
    assert_eq!(identifier.advance(Finding::Exists(true)), Query::Done);
    assert_eq!(identifier.verdict(), Some(Verdict::Undetected));
}

#[test]
fn the_jar_of_forge_takes_the_place_of_the_probe() {
    let mut identifier = Identifier::new("srv/server.jar".to_string(), &state(None));
    let listing = vec![dir(vec![
        entry("forge-1.20.1-client.jar", true),
        entry("forge-1.20.1-server.jar", true),
    ])];
    assert_eq!(
        identifier.advance(Finding::Listing(Some(listing))),
        check_of("libraries/net/minecraftforge/forge/x/forge-1.20.1-server.jar")
    );
    assert_eq!(
        identifier.advance(Finding::Exists(true)),
        lookup_of("libraries/net/minecraftforge/forge/x/forge-1.20.1-server.jar")
    );
}

#[test]
fn the_jar_of_neoforge_takes_the_place_of_the_probe() {
    let mut identifier = Identifier::new("srv/server.jar".to_string(), &state(None));
    identifier.advance(Finding::Listing(None));
    let listing = vec![dir(vec![entry("neoforge-21.1-universal.jar", true)])];
    assert_eq!(
        identifier.advance(Finding::Listing(Some(listing))),
        check_of("libraries/net/minecraftforge/forge/x/neoforge-21.1-universal.jar")
    );
}

#[test]
fn a_loader_directory_without_a_jar_leaves_the_probe() {
    let mut identifier = Identifier::new("srv/server.jar".to_string(), &state(None));
    let listing = vec![dir(vec![entry("forge-1.20.1-client.jar", true)]), dir(vec![])];
    assert_eq!(
        identifier.advance(Finding::Listing(Some(listing))),
        check_of("srv/server.jar")
    );
    assert_eq!(identifier.advance(Finding::Listing(None)), check_of("srv/server.jar"));
    assert_eq!(identifier.advance(Finding::Exists(true)), lookup_of("srv/server.jar"));
    assert_eq!(identifier.verdict(), None);
}

#[test]
fn the_first_jar_wins() {
    let listing = vec![
        VersionDir {
            is_dir: false,
            files: vec![entry("a-server.jar", true)],
        },
        dir(vec![entry("b-server.jar", false), entry("readme.txt", true)]),
        dir(vec![
            entry("c.jar", true),
            entry("d-universal.jar", true),
            entry("e-server.jar", true),
        ]),
        dir(vec![entry("f-server.jar", true)]),
    ];
    assert_eq!(
        loader_jar(&listing),
        Some(&"libraries/net/minecraftforge/forge/x/d-universal.jar".to_string())
    );
    assert_eq!(loader_jar(&listing[..2].iter().map(|d| VersionDir { is_dir: d.is_dir, files: Vec::new() }).collect()), None);
    assert_eq!(loader_jar(&Vec::new()), None);
}

#[test]
fn a_server_jar_is_a_file_with_one_of_two_endings() {
    assert!(entry("forge-server.jar", true).server_jar());
    assert!(entry("forge-universal.jar", true).server_jar());
    assert!(!entry("forge-server.jar", false).server_jar());
    assert!(!entry("forge-installer.jar", true).server_jar());
    assert!(!entry("server.jar", true).server_jar());
}

#[test]
fn a_matched_build_is_detected() {
    let mut identifier = Identifier::new("server.jar".to_string(), &state(None));
    identifier.advance(Finding::Listing(None));
    identifier.advance(Finding::Listing(None));
    identifier.advance(Finding::Exists(true));
    assert_eq!(
        identifier.advance(Finding::Lookup(Ok(fingerprint(Some("1.20.1"))))),
        Query::Done
    );
    assert_eq!(
        identifier.verdict(),
        Some(Verdict::Detected(Identification {
            installed: build("1.20.1"),
            latest: build("1.21"),
            versions: versions(),
            project: None,
        }))
    );
}

#[test]
fn an_unmatched_fingerprint_is_undetected() {
    let mut identifier = Identifier::new("server.jar".to_string(), &state(Some(("pack", "3"))));
    identifier.advance(Finding::Listing(None));
    identifier.advance(Finding::Listing(None));
    identifier.advance(Finding::Exists(true));
    assert_eq!(identifier.advance(Finding::Lookup(Ok(fingerprint(None)))), Query::Done);
    assert_eq!(identifier.verdict(), Some(Verdict::Undetected));
}

#[test]
fn a_fingerprint_that_the_catalog_does_not_hold_is_undetected() {
    let mut identifier = Identifier::new("server.jar".to_string(), &state(Some(("pack", "3"))));
    identifier.advance(Finding::Listing(None));
    identifier.advance(Finding::Listing(None));
    identifier.advance(Finding::Exists(true));
    assert_eq!(
        identifier.advance(Finding::Lookup(Err(Failure::NotFound))),
        Query::Done
    );
    assert_eq!(identifier.verdict(), Some(Verdict::Undetected));
}

#[test]
fn a_failure_of_the_build_catalog_is_passed_on() {
    for cause in [
        Failure::Network,
        Failure::Parse,
        Failure::Filesystem,
        Failure::ProcessLookup,
        Failure::Channel,
    ] {
        let mut identifier = Identifier::new("server.jar".to_string(), &state(None));
        identifier.advance(Finding::Listing(None));
        identifier.advance(Finding::Listing(None));
        identifier.advance(Finding::Exists(true));
        assert_eq!(identifier.advance(Finding::Lookup(Err(cause))), Query::Done);
        assert_eq!(identifier.verdict(), Some(Verdict::Failed(cause)));
    }
}

#[test]
fn a_failed_identification_stays_failed() {
    let mut identifier = Identifier::new("server.jar".to_string(), &state(Some(("pack", "3"))));
    identifier.advance(Finding::Listing(None));
    identifier.advance(Finding::Listing(None));
    identifier.advance(Finding::Exists(true));
    identifier.advance(Finding::Lookup(Err(Failure::Network)));
    assert_eq!(
        identifier.advance(Finding::Lookup(Ok(fingerprint(Some("1.20.1"))))),
        Query::Done
    );
    assert_eq!(identifier.advance(Finding::Exists(false)), Query::Done);
    assert_eq!(identifier.verdict(), Some(Verdict::Failed(Failure::Network)));
}

#[test]
fn the_project_of_a_recorded_modpack_is_fetched() {
    let mut identifier = Identifier::new("server.jar".to_string(), &state(Some(("pack", "3"))));
    identifier.advance(Finding::Listing(None));
    identifier.advance(Finding::Listing(None));
    identifier.advance(Finding::Exists(true));
    assert_eq!(
        identifier.advance(Finding::Lookup(Ok(fingerprint(Some("1.20.1"))))),
        Query::Project {
            slug: "pack".to_string()
        }
    );
    assert_eq!(identifier.advance(Finding::Exists(false)), Query::Project {
        slug: "pack".to_string()
    });
    assert_eq!(identifier.advance(Finding::Project(Ok(project()))), Query::Done);
    assert_eq!(
        identifier.verdict(),
        Some(Verdict::Detected(Identification {
            installed: build("1.20.1"),
            latest: build("1.21"),
            versions: versions(),
            project: Some(project()),
        }))
    );
}

#[test]
fn a_failure_of_the_modpack_catalog_is_passed_on() {
    let mut identifier = Identifier::new("server.jar".to_string(), &state(Some(("pack", "3"))));
    identifier.advance(Finding::Listing(None));
    identifier.advance(Finding::Listing(None));
    identifier.advance(Finding::Exists(true));
    identifier.advance(Finding::Lookup(Ok(fingerprint(Some("1.20.1")))));
    assert_eq!(
        identifier.advance(Finding::Project(Err(Failure::Network))),
        Query::Done
    );
    assert_eq!(identifier.verdict(), Some(Verdict::Failed(Failure::Network)));
}

#[test]
fn a_modpack_is_recorded_only_with_name_and_version() {
    let mut half = state(Some(("pack", "3")));
    half.modpack_version = None;
    let mut identifier = Identifier::new("server.jar".to_string(), &half);
    identifier.advance(Finding::Listing(None));
    identifier.advance(Finding::Listing(None));
    identifier.advance(Finding::Exists(true));
    assert_eq!(
        identifier.advance(Finding::Lookup(Ok(fingerprint(Some("1.20.1"))))),
        Query::Done
    );
}

#[test]
fn an_identification_recovers_the_version_of_the_installed_build() {
    let installed = build("1.20.1");
    let mut identifier = Identifier::new("server.jar".to_string(), &state(None));
    identifier.advance(Finding::Listing(None));
    identifier.advance(Finding::Listing(None));
    identifier.advance(Finding::Exists(true));
    identifier.advance(Finding::Lookup(Ok(fingerprint(Some("1.20.1")))));
    match identifier.verdict() {
        Some(Verdict::Detected(found)) => {
            assert_eq!(found.installed.version(), installed.version());
        }
        other => panic!("not detected: {:?}", other),
    }
}
