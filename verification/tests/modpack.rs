use mcvcli::modpack::{
    batch, count_batches, find_build, BundleFile, Dependencies, Fetch, FileEnv, Loader,
    ManifestFile, ModpackVersion, BATCH_SIZE,
};
use mcvcli::outcome::Failure;
use mcvcli::plan::Build;

fn file(number: usize, server: Option<&str>) -> ManifestFile {
    ManifestFile {
        path: format!("mods/{}.jar", number),
        downloads: vec![
            format!("https://cdn.example.org/{}.jar", number),
            format!("https://mirror.example.org/{}.jar", number),
        ],
        env: server.map(|tag| FileEnv {
            server: tag.to_string(),
        }),
        file_size: number as u64 + 100,
    }
}

fn fetch(number: usize) -> Fetch {
    Fetch {
        url: format!("https://cdn.example.org/{}.jar", number),
        path: format!("mods/{}.jar", number),
        size: number as u64 + 100,
    }
}

fn dependencies(
    fabric: Option<&str>,
    quilt: Option<&str>,
    forge: Option<&str>,
    neoforge: Option<&str>,
) -> Dependencies {
    Dependencies {
        minecraft: "1.21".to_string(),
        forge: forge.map(|version| version.to_string()),
        neoforge: neoforge.map(|version| version.to_string()),
        fabric_loader: fabric.map(|version| version.to_string()),
        quilt_loader: quilt.map(|version| version.to_string()),
    }
}

fn loader_build(name: &str, project_version: Option<&str>) -> Build {
    Build {
        name: name.to_string(),
        version_id: Some("1.21".to_string()),
        project_version_id: project_version.map(|version| version.to_string()),
        kind: "FABRIC".to_string(),
        installation: Vec::new(),
    }
}

fn bundle(name: &str, primary: bool) -> BundleFile {
    BundleFile {
        url: format!("https://example.org/{}", name),
        filename: name.to_string(),
        primary,
        size: 5,
    }
}

fn version_with(files: Vec<BundleFile>) -> ModpackVersion {
    ModpackVersion {
        id: "v1".to_string(),
        name: Some("Pack".to_string()),
        version_number: None,
        game_versions: vec!["1.21".to_string()],
        files,
    }
}

#[test]
fn a_batch_is_ten_files() {
    assert_eq!(BATCH_SIZE, 10);
}

#[test]
fn a_file_is_wanted_unless_unsupported_or_untagged() {
    assert!(file(0, Some("required")).wanted());
    assert!(file(0, Some("optional")).wanted());
    assert!(file(0, Some("")).wanted());
    assert!(!file(0, Some("unsupported")).wanted());
    assert!(!file(0, None).wanted());
}

#[test]
fn only_the_supported_file_is_fetched() {
    let files = vec![file(0, Some("unsupported")), file(1, Some("required"))];
    assert_eq!(count_batches(files.len()), 1);
    assert_eq!(batch(&files, 0), Ok(vec![fetch(1)]));
}

#[test]
fn twenty_three_files_make_three_batches() {
    let files: Vec<ManifestFile> = (0..23).map(|number| file(number, Some("required"))).collect();
    assert_eq!(count_batches(files.len()), 3);
    let sizes: Vec<usize> = (0..3).map(|number| batch(&files, number).unwrap().len()).collect();
    assert_eq!(sizes, vec![10, 10, 3]);
    assert_eq!(batch(&files, 0), Ok((0..10).map(fetch).collect()));
    assert_eq!(batch(&files, 1), Ok((10..20).map(fetch).collect()));
    assert_eq!(batch(&files, 2), Ok((20..23).map(fetch).collect()));
    assert_eq!(batch(&files, 3), Ok(Vec::new()));
    assert_eq!(batch(&files, usize::MAX), Ok(Vec::new()));
}

#[test]
fn batches_are_counted_by_tens() {
    assert_eq!(count_batches(0), 0);
    assert_eq!(count_batches(1), 1);
    assert_eq!(count_batches(10), 1);
    assert_eq!(count_batches(11), 2);
    assert_eq!(count_batches(20), 2);
    assert_eq!(count_batches(usize::MAX), usize::MAX / 10 + 1);
}

#[test]
fn a_batch_holds_the_wanted_files_of_its_ten() {
    let files: Vec<ManifestFile> = (0..12)
        .map(|number| {
            file(
                number,
                if number % 3 == 0 {
                    Some("unsupported")
                } else {
                    Some("required")
                },
            )
        })
        .collect();
    assert_eq!(
        batch(&files, 0),
        Ok(vec![fetch(1), fetch(2), fetch(4), fetch(5), fetch(7), fetch(8)])
    );
    assert_eq!(batch(&files, 1), Ok(vec![fetch(10), fetch(11)]));
}

#[test]
fn a_wanted_file_without_an_address_is_malformed() {
    let mut files = vec![file(0, Some("required")), file(1, Some("required"))];
    files[1].downloads.clear();
    assert_eq!(batch(&files, 0), Err(Failure::Parse));
    files[1].env = Some(FileEnv {
        server: "unsupported".to_string(),
    });
    assert_eq!(batch(&files, 0), Ok(vec![fetch(0)]));
}

#[test]
fn the_loader_is_chosen_by_priority() {
    let version = |text: &str| text.to_string();
    assert_eq!(
        dependencies(Some("0.16"), Some("0.26"), Some("47.2"), Some("21.1")).loader(),
        Some((Loader::Fabric, &version("0.16")))
    );
    assert_eq!(
        dependencies(None, Some("0.26"), Some("47.2"), Some("21.1")).loader(),
        Some((Loader::Quilt, &version("0.26")))
    );
    assert_eq!(
        dependencies(None, None, Some("47.2"), Some("21.1")).loader(),
        Some((Loader::Forge, &version("47.2")))
    );
    assert_eq!(
        dependencies(None, None, None, Some("21.1")).loader(),
        Some((Loader::NeoForge, &version("21.1")))
    );
    assert_eq!(dependencies(None, None, None, None).loader(), None);
}

#[test]
fn each_loader_has_its_catalog_key() {
    assert_eq!(Loader::Fabric.catalog_key(), "FABRIC");
    assert_eq!(Loader::Quilt.catalog_key(), "QUILT");
    assert_eq!(Loader::Forge.catalog_key(), "FORGE");
    assert_eq!(Loader::NeoForge.catalog_key(), "NEOFORGE");
}

#[test]
fn the_build_of_the_loader_version_is_the_first_that_matches() {
    let builds = vec![
        loader_build("a", Some("0.17")),
        loader_build("b", None),
        loader_build("c", Some("0.16")),
        loader_build("d", Some("0.16")),
    ];
    assert_eq!(find_build(&builds, &"0.16".to_string()), Some(2));
    assert_eq!(find_build(&builds, &"0.17".to_string()), Some(0));
    assert_eq!(find_build(&builds, &"0.18".to_string()), None);
    assert_eq!(find_build(&builds, &"1.21".to_string()), None);
    assert_eq!(find_build(&Vec::new(), &"0.16".to_string()), None);
}

#[test]
fn the_primary_file_is_the_first_marked_so() {
    assert_eq!(
        version_with(vec![bundle("a", false), bundle("b", true), bundle("c", true)]).primary_file(),
        Some(1)
    );
    assert_eq!(version_with(vec![bundle("a", false)]).primary_file(), None);
    assert_eq!(version_with(Vec::new()).primary_file(), None);
}

#[test]
fn a_cloned_bundle_is_the_same_bundle() {
    assert_eq!(bundle("a", true).clone(), bundle("a", true));
}
