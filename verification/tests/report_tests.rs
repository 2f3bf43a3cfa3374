use backend_supervisor::launcher::ExitInfo;
use backend_supervisor::reaper::judge_reap;
use backend_supervisor::reaper::ReapError;
use backend_supervisor::report::format_signed;
use backend_supervisor::report::headline;
use backend_supervisor::report::render_failure;
use backend_supervisor::report::FailureContext;
use backend_supervisor::startup::StartupError;

fn empty() -> FailureContext {
    FailureContext { paths_tried: Vec::new(), command: None, captured_stderr: Vec::new() }
}

#[test]
fn numbers_are_written_with_their_sign() {
    assert_eq!(format_signed(0), b"0".to_vec());
    assert_eq!(format_signed(127), b"127".to_vec());
    assert_eq!(format_signed(-1), b"-1".to_vec());
    assert_eq!(format_signed(i32::MAX), b"2147483647".to_vec());
    assert_eq!(format_signed(i32::MIN), b"-2147483648".to_vec());
}

#[test]
fn each_reason_has_its_headline() {
    assert_eq!(
        headline(StartupError::NoRuntimeFound),
        b"No usable backend executable or interpreter was found".to_vec()
    );
    assert_eq!(headline(StartupError::Busy), b"A backend is already starting or running".to_vec());
    assert_eq!(
        headline(StartupError::DependenciesMissing),
        b"The backend dependencies are not installed".to_vec()
    );
    assert_eq!(
        headline(StartupError::NotExecutable),
        b"The backend executable may not be executed".to_vec()
    );
    assert_eq!(
        headline(StartupError::SpawnFailed),
        b"The backend server could not be started".to_vec()
    );
    assert_eq!(
        headline(StartupError::StatusUnavailable),
        b"The backend server's status could not be read".to_vec()
    );
    assert_eq!(
        headline(StartupError::TimedOut),
        b"The backend server did not become ready in time".to_vec()
    );
    assert_eq!(headline(StartupError::Cancelled), b"The backend launch was cancelled".to_vec());
}

#[test]
fn an_exit_is_reported_with_its_status() {
    assert_eq!(
        headline(StartupError::ImmediateExit(ExitInfo { code: Some(127) })),
        b"The backend server exited immediately with exit code 127".to_vec()
    );
    assert_eq!(
        headline(StartupError::ImmediateExit(ExitInfo { code: None })),
        b"The backend server exited immediately after a signal".to_vec()
    );
    assert_eq!(
        headline(StartupError::DiedDuringStartup(ExitInfo { code: Some(-9) })),
        b"The backend server exited during startup with exit code -9".to_vec()
    );
}

#[test]
fn a_report_without_context_is_the_headline() {
    assert_eq!(
        render_failure(StartupError::TimedOut, &empty()),
        b"The backend server did not become ready in time\n".to_vec()
    );
}

#[test]
fn a_report_lists_what_was_tried() {
    let context = FailureContext {
        paths_tried: vec![b"/opt/app/backend-server".to_vec(), b"python3".to_vec()],
        command: None,
        captured_stderr: b"  \n".to_vec(),
    };
    assert_eq!(
        String::from_utf8(render_failure(StartupError::NoRuntimeFound, &context)).unwrap(),
        "No usable backend executable or interpreter was found\n  tried: /opt/app/backend-server\n  tried: python3\n"
    );
}

#[test]
fn a_report_names_the_command_and_quotes_the_error_stream() {
    let context = FailureContext {
        paths_tried: vec![b"/opt/app/backend-server".to_vec()],
        command: Some(b"/opt/app/backend-server --host 127.0.0.1".to_vec()),
        captured_stderr: b"\nImportError: no module named x\n\n".to_vec(),
    };
    assert_eq!(
        String::from_utf8(render_failure(
            StartupError::ImmediateExit(ExitInfo { code: Some(1) }),
            &context
        ))
        .unwrap(),
        "The backend server exited immediately with exit code 1\n  tried: /opt/app/backend-server\ncommand: /opt/app/backend-server --host 127.0.0.1\nstderr: ImportError: no module named x\n"
    );
}

#[test]
fn a_reap_went_well_only_with_a_listing_and_no_failed_kill() {
    assert_eq!(judge_reap(true, 0), Ok(()));
    assert_eq!(judge_reap(false, 0), Err(ReapError::PortReapFailed));
    assert_eq!(judge_reap(true, 2), Err(ReapError::PortReapFailed));
    assert_eq!(judge_reap(false, 1), Err(ReapError::PortReapFailed));
}
