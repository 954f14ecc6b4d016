use cpp_project_gen::config::Config;
use cpp_project_gen::error::ScaffoldError;
use cpp_project_gen::plan::{Artifact, FsAction};
use cpp_project_gen::registry::Registry;
use cpp_project_gen::run::Synthesis;

fn demo_plan(tidy: bool, conan: bool) -> Vec<FsAction> {
    Config::new("demo".to_string(), "exec", tidy, conan, "cmake".to_string())
        .unwrap()
        .create_project(&Registry::standard())
        .unwrap()
}

#[test]
fn run_hands_out_every_action_in_order() {
    let expected = demo_plan(true, true);
    let mut run = Synthesis::begin(demo_plan(true, true));
    let mut position = 0;
    assert_eq!(run.result(), None);
    while let Some(action) = run.next_action() {
        assert_eq!(*action, expected[position]);
        assert_eq!(run.performed(), position);
        run.record(true);
        position += 1;
    }
    assert_eq!(position, 11);
    assert_eq!(run.performed(), 11);
    assert_eq!(run.result(), Some(Ok(())));
}

#[test]
fn failure_at_root_directory_stops_the_run() {
    let mut run = Synthesis::begin(demo_plan(false, false));
    assert!(matches!(
        run.next_action(),
        Some(FsAction::CreateDir { artifact: Artifact::RootDir, .. })
    ));
    run.record(false);
    assert_eq!(run.next_action(), None);
    assert_eq!(run.performed(), 0);
    assert_eq!(
        run.result(),
        Some(Err(ScaffoldError::Io { step: 0, artifact: Artifact::RootDir }))
    );
    run.record(true);
    run.record(false);
    assert_eq!(run.next_action(), None);
    assert_eq!(run.performed(), 0);
    assert_eq!(
        run.result(),
        Some(Err(ScaffoldError::Io { step: 0, artifact: Artifact::RootDir }))
    );
}

#[test]
fn failure_in_the_middle_names_the_artifact() {
    let mut run = Synthesis::begin(demo_plan(false, false));
    for _ in 0..5 {
        run.record(true);
    }
    assert!(matches!(
        run.next_action(),
        Some(FsAction::WriteFile { artifact: Artifact::BuildDescriptor, .. })
    ));
    assert_eq!(run.result(), None);
    run.record(false);
    assert_eq!(run.next_action(), None);
    assert_eq!(run.performed(), 5);
    assert_eq!(
        run.result(),
        Some(Err(ScaffoldError::Io { step: 5, artifact: Artifact::BuildDescriptor }))
    );
}

#[test]
fn reports_after_the_end_change_nothing() {
    let mut run = Synthesis::begin(demo_plan(false, false));
    for _ in 0..9 {
        assert_eq!(run.result(), None);
        run.record(true);
    }
    assert_eq!(run.result(), Some(Ok(())));
    run.record(false);
    run.record(true);
    assert_eq!(run.performed(), 9);
    assert_eq!(run.next_action(), None);
    assert_eq!(run.result(), Some(Ok(())));
}

#[test]
fn empty_plan_is_done_at_once() {
    let mut run = Synthesis::begin(Vec::new());
    assert_eq!(run.next_action(), None);
    assert_eq!(run.result(), Some(Ok(())));
    run.record(false);
    assert_eq!(run.performed(), 0);
    assert_eq!(run.result(), Some(Ok(())));
}
