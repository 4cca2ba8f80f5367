use mcvcli::outcome::{Failure, Outcome};
use mcvcli::plan::{Action, Build, Executor, Step};

fn download(name: &str) -> Step {
    Step::Download {
        url: format!("https://example.org/{}", name),
        file: name.to_string(),
        size: 10,
    }
}

fn unzip(name: &str) -> Step {
    Step::Unzip {
        file: name.to_string(),
        location: ".".to_string(),
    }
}

fn remove(location: &str) -> Step {
    Step::Remove {
        location: location.to_string(),
    }
}

fn build_of(installation: Vec<Vec<Step>>) -> Build {
    Build {
        name: "b1".to_string(),
        version_id: Some("1.21".to_string()),
        project_version_id: None,
        kind: "VANILLA".to_string(),
        installation,
    }
}

#[test]
fn steps_run_in_plan_order() {
    let build = build_of(vec![vec![download("a"), download("b")], vec![unzip("a")]]);
    let mut executor = Executor::new(build);
    assert_eq!(executor.pending(), Action::PurgeLibraries);
    assert_eq!(executor.advance(Outcome::Completed), Action::Run(download("a")));
    assert_eq!(executor.pending(), Action::Run(download("a")));
    assert_eq!(executor.advance(Outcome::Completed), Action::Run(download("b")));
    assert_eq!(executor.advance(Outcome::Completed), Action::Run(unzip("a")));
    assert_eq!(executor.advance(Outcome::Completed), Action::Done);
    assert_eq!(executor.advance(Outcome::Failed(Failure::Network)), Action::Done);
    assert_eq!(executor.pending(), Action::Done);
}

#[test]
fn removing_a_missing_path_succeeds() {
    let build = build_of(vec![vec![remove("missing/path")]]);
    let mut executor = Executor::new(build);
    assert_eq!(executor.advance(Outcome::Absent), Action::Run(remove("missing/path")));
    assert_eq!(executor.advance(Outcome::Absent), Action::Done);
}

#[test]
fn first_failure_ends_the_execution() {
    let build = build_of(vec![vec![download("a"), download("b")], vec![unzip("a")]]);
    let mut executor = Executor::new(build);
    executor.advance(Outcome::Completed);
    assert_eq!(executor.advance(Outcome::Completed), Action::Run(download("b")));
    assert_eq!(
        executor.advance(Outcome::Failed(Failure::Network)),
        Action::Abort(Failure::Network)
    );
    assert_eq!(executor.advance(Outcome::Completed), Action::Abort(Failure::Network));
    assert_eq!(executor.pending(), Action::Abort(Failure::Network));
}

#[test]
fn a_missing_archive_is_fatal() {
    let build = build_of(vec![vec![unzip("gone.zip")]]);
    let mut executor = Executor::new(build);
    assert_eq!(executor.advance(Outcome::Completed), Action::Run(unzip("gone.zip")));
    assert_eq!(executor.advance(Outcome::Absent), Action::Abort(Failure::Filesystem));
}

#[test]
fn a_download_that_finds_no_place_is_fatal() {
    let build = build_of(vec![vec![download("a")]]);
    let mut executor = Executor::new(build);
    executor.advance(Outcome::Completed);
    assert_eq!(executor.advance(Outcome::Absent), Action::Abort(Failure::Filesystem));
}

#[test]
fn a_failed_removal_is_fatal() {
    let build = build_of(vec![vec![remove("locked")]]);
    let mut executor = Executor::new(build);
    executor.advance(Outcome::Completed);
    assert_eq!(
        executor.advance(Outcome::Failed(Failure::Filesystem)),
        Action::Abort(Failure::Filesystem)
    );
}

#[test]
fn a_failed_purge_is_fatal() {
    let build = build_of(vec![vec![download("a")]]);
    let mut executor = Executor::new(build);
    assert_eq!(
        executor.advance(Outcome::Failed(Failure::Filesystem)),
        Action::Abort(Failure::Filesystem)
    );
}

#[test]
fn empty_stages_are_passed_over() {
    let build = build_of(vec![vec![], vec![download("a")], vec![], vec![], vec![remove("b")], vec![]]);
    let mut executor = Executor::new(build);
    assert_eq!(executor.advance(Outcome::Completed), Action::Run(download("a")));
    assert_eq!(executor.advance(Outcome::Completed), Action::Run(remove("b")));
    assert_eq!(executor.advance(Outcome::Completed), Action::Done);
}

#[test]
fn an_empty_plan_is_done_after_the_purge() {
    let mut executor = Executor::new(build_of(vec![]));
    assert_eq!(executor.pending(), Action::PurgeLibraries);
    assert_eq!(executor.advance(Outcome::Absent), Action::Done);
    let mut executor = Executor::new(build_of(vec![vec![], vec![]]));
    assert_eq!(executor.advance(Outcome::Completed), Action::Done);
}

#[test]
fn a_build_is_of_its_version_id_first() {
    let mut build = build_of(vec![]);
    assert_eq!(build.version(), Some(&"1.21".to_string()));
    build.project_version_id = Some("0.16.0".to_string());
    assert_eq!(build.version(), Some(&"1.21".to_string()));
    build.version_id = None;
    assert_eq!(build.version(), Some(&"0.16.0".to_string()));
    build.project_version_id = None;
    assert_eq!(build.version(), None);
}

#[test]
fn only_a_remove_step_is_a_removal() {
    assert!(remove("x").removal());
    assert!(!download("x").removal());
    assert!(!unzip("x").removal());
}

#[test]
fn a_cloned_step_is_the_same_step() {
    for step in [download("a"), unzip("b"), remove("c")] {
        assert_eq!(step.clone(), step);
    }
}
