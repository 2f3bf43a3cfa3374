use backend_supervisor::command::Invocation;
use backend_supervisor::command::StreamMode;
use backend_supervisor::dependencies::create_environment_command;
use backend_supervisor::dependencies::dependencies_present;
use backend_supervisor::dependencies::dependency_check_command;
use backend_supervisor::dependencies::environment_interpreter;
use backend_supervisor::dependencies::install_command;
use backend_supervisor::dependencies::present_layout;
use backend_supervisor::dependencies::requirements_path;
use backend_supervisor::dependencies::EnvironmentLayout;
use backend_supervisor::dependencies::Setup;
use backend_supervisor::dependencies::SetupAction;
use backend_supervisor::dependencies::SetupError;
use backend_supervisor::dependencies::SetupEvent;
use backend_supervisor::dependencies::SetupPhase;
use backend_supervisor::locator::Platform;

fn words(cmd: &Invocation) -> Vec<String> {
    let mut out = vec![String::from_utf8(cmd.program.clone()).unwrap()];
    for a in cmd.args.iter() {
        out.push(String::from_utf8(a.clone()).unwrap());
    }
    out
}

#[test]
fn the_dependency_check_imports_the_framework() {
    let cmd = dependency_check_command(b"python3", Platform::Unix);
    assert_eq!(words(&cmd), vec!["python3", "-c", "import django; print(django.__version__)"]);
    assert_eq!(cmd.stdout, StreamMode::Discard);
    assert_eq!(cmd.stderr, StreamMode::Discard);
    assert!(!cmd.hide_console);
    assert!(dependency_check_command(b"python", Platform::Windows).hide_console);
}

#[test]
fn dependencies_are_present_only_after_a_successful_run() {
    assert!(dependencies_present(Some(true)));
    assert!(!dependencies_present(Some(false)));
    assert!(!dependencies_present(None));
}

#[test]
fn the_environment_is_created_in_the_backend_directory() {
    let cmd = create_environment_command(b"python3", b"/src/backend", Platform::Unix);
    assert_eq!(words(&cmd), vec!["python3", "-m", "venv", ".venv"]);
    assert_eq!(cmd.working_dir, Some(b"/src/backend".to_vec()));
    assert_eq!(cmd.stdout, StreamMode::Discard);
    assert_eq!(cmd.stderr, StreamMode::Discard);
}

#[test]
fn the_installation_reads_the_requirements() {
    let cmd = install_command(b"/src/backend/.venv/bin/python", b"/src/backend", Platform::Unix);
    assert_eq!(
        words(&cmd),
        vec!["/src/backend/.venv/bin/python", "-m", "pip", "install", "-r", "requirements.txt"]
    );
    assert_eq!(cmd.working_dir, Some(b"/src/backend".to_vec()));
    assert_eq!(cmd.stdout, StreamMode::Discard);
    assert_eq!(cmd.stderr, StreamMode::Capture);
}

#[test]
fn the_environment_has_two_layouts() {
    assert_eq!(
        environment_interpreter(b"/src/backend", EnvironmentLayout::Unix, Platform::Unix),
        b"/src/backend/.venv/bin/python".to_vec()
    );
    assert_eq!(
        environment_interpreter(b"C:\\src\\backend", EnvironmentLayout::Windows, Platform::Windows),
        b"C:\\src\\backend\\.venv\\Scripts\\python.exe".to_vec()
    );
    assert_eq!(
        requirements_path(b"/src/backend", Platform::Unix),
        b"/src/backend/requirements.txt".to_vec()
    );
}

#[test]
fn the_windows_layout_is_preferred() {
    assert_eq!(present_layout(true, true), Some(EnvironmentLayout::Windows));
    assert_eq!(present_layout(true, false), Some(EnvironmentLayout::Windows));
    assert_eq!(present_layout(false, true), Some(EnvironmentLayout::Unix));
    assert_eq!(present_layout(false, false), None);
}

#[test]
fn setup_creates_the_environment_and_installs() {
    let mut setup = Setup::new();
    assert_eq!(setup.action(), SetupAction::InspectEnvironment);
    assert_eq!(
        setup.handle(SetupEvent::Environment { windows: false, unix: false }),
        SetupAction::CreateEnvironment
    );
    assert_eq!(setup.handle(SetupEvent::Created { spawned: true }), SetupAction::InspectEnvironment);
    assert_eq!(setup.phase, SetupPhase::Locating);
    assert_eq!(
        setup.handle(SetupEvent::Environment { windows: false, unix: true }),
        SetupAction::CheckRequirements
    );
    assert_eq!(
        setup.handle(SetupEvent::Requirements { exists: true }),
        SetupAction::Install(EnvironmentLayout::Unix)
    );
    assert_eq!(setup.handle(SetupEvent::Installed { run: Some(true) }), SetupAction::Finish(Ok(())));
    assert_eq!(setup.phase, SetupPhase::Finished(Ok(())));
}

#[test]
fn setup_uses_an_environment_that_is_there() {
    let mut setup = Setup::new();
    assert_eq!(
        setup.handle(SetupEvent::Environment { windows: true, unix: false }),
        SetupAction::CheckRequirements
    );
    assert_eq!(
        setup.handle(SetupEvent::Requirements { exists: true }),
        SetupAction::Install(EnvironmentLayout::Windows)
    );
}

#[test]
fn setup_fails_where_the_environment_cannot_be_created() {
    let mut setup = Setup::new();
    setup.handle(SetupEvent::Environment { windows: false, unix: false });
    assert_eq!(
        setup.handle(SetupEvent::Created { spawned: false }),
        SetupAction::Finish(Err(SetupError::EnvironmentNotCreated))
    );
}

#[test]
fn setup_fails_where_the_new_environment_has_no_interpreter() {
    let mut setup = Setup::new();
    setup.handle(SetupEvent::Environment { windows: false, unix: false });
    setup.handle(SetupEvent::Created { spawned: true });
    assert_eq!(
        setup.handle(SetupEvent::Environment { windows: false, unix: false }),
        SetupAction::Finish(Err(SetupError::InterpreterMissing))
    );
}

#[test]
fn setup_fails_without_the_requirements() {
    let mut setup = Setup::new();
    setup.handle(SetupEvent::Environment { windows: false, unix: true });
    assert_eq!(
        setup.handle(SetupEvent::Requirements { exists: false }),
        SetupAction::Finish(Err(SetupError::RequirementsMissing))
    );
}

#[test]
fn setup_fails_where_the_installation_fails() {
    for run in [Some(false), None] {
        let mut setup = Setup::new();
        setup.handle(SetupEvent::Environment { windows: false, unix: true });
        setup.handle(SetupEvent::Requirements { exists: true });
        assert_eq!(
            setup.handle(SetupEvent::Installed { run }),
            SetupAction::Finish(Err(SetupError::InstallFailed))
        );
    }
}

#[test]
fn setup_ignores_events_it_does_not_wait_for() {
    let mut setup = Setup::new();
    assert_eq!(
        setup.handle(SetupEvent::Installed { run: Some(true) }),
        SetupAction::InspectEnvironment
    );
    assert_eq!(setup.handle(SetupEvent::Created { spawned: false }), SetupAction::InspectEnvironment);
    assert_eq!(setup.phase, SetupPhase::Inspecting);
    setup.handle(SetupEvent::Environment { windows: false, unix: true });
    setup.handle(SetupEvent::Requirements { exists: false });
    let done = setup.phase;
    setup.handle(SetupEvent::Installed { run: Some(true) });
    assert_eq!(setup.phase, done);
}
