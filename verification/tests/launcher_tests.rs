use backend_supervisor::command::Invocation;
use backend_supervisor::command::StreamMode;
use backend_supervisor::launcher::bind_address;
use backend_supervisor::launcher::check_liveness;
use backend_supervisor::launcher::classify_stderr;
use backend_supervisor::launcher::health_path;
use backend_supervisor::launcher::health_url;
use backend_supervisor::launcher::lacks_execute_permission;
use backend_supervisor::launcher::server_command;
use backend_supervisor::launcher::with_execute_permission;
use backend_supervisor::launcher::ExitInfo;
use backend_supervisor::launcher::LaunchError;
use backend_supervisor::launcher::LogLevel;
use backend_supervisor::launcher::ProcessState;
use backend_supervisor::launcher::ServerConfig;
use backend_supervisor::locator::bundled_candidate;
use backend_supervisor::locator::interpreter_candidates;
use backend_supervisor::locator::Platform;

fn words(cmd: &Invocation) -> Vec<String> {
    let mut out = vec![String::from_utf8(cmd.program.clone()).unwrap()];
    for a in cmd.args.iter() {
        out.push(String::from_utf8(a.clone()).unwrap());
    }
    out
}

fn config() -> ServerConfig {
    ServerConfig {
        bind_host: b"127.0.0.1".to_vec(),
        bind_port: 8000,
        database_path: b"/data/db.sqlite3".to_vec(),
        working_directory: b"/src/backend".to_vec(),
    }
}

#[test]
fn bind_address_joins_host_and_port() {
    assert_eq!(bind_address(b"127.0.0.1", 8000), b"127.0.0.1:8000".to_vec());
    assert_eq!(bind_address(b"localhost", 80), b"localhost:80".to_vec());
}

#[test]
fn health_url_points_at_the_health_endpoint() {
    assert_eq!(health_path(), b"/health".to_vec());
    assert_eq!(health_url(&config(), &health_path()), b"http://127.0.0.1:8000/health".to_vec());
    assert_eq!(
        health_url(&config(), b"/api/budgets/health/"),
        b"http://127.0.0.1:8000/api/budgets/health/".to_vec()
    );
}

#[test]
fn bundled_binary_is_started_with_flags() {
    let exe = bundled_candidate(b"/opt/app/backend-server".to_vec(), Platform::Unix);
    let cmd = server_command(&exe, &config(), Platform::Unix);
    assert_eq!(
        words(&cmd),
        vec![
            "/opt/app/backend-server",
            "--host",
            "127.0.0.1",
            "--port",
            "8000",
            "--database-path",
            "/data/db.sqlite3",
        ]
    );
    assert!(cmd.env.is_empty());
    assert_eq!(cmd.working_dir, None);
    assert!(!cmd.hide_console);
    assert_eq!(cmd.stdout, StreamMode::Capture);
    assert_eq!(cmd.stderr, StreamMode::Capture);
}

#[test]
fn interpreter_is_started_through_the_entry_script() {
    let list = interpreter_candidates(b"/src/backend", Platform::Unix);
    let cmd = server_command(&list[1], &config(), Platform::Unix);
    assert_eq!(
        words(&cmd),
        vec!["/src/backend/.venv/bin/python", "manage.py", "runserver", "127.0.0.1:8000"]
    );
    assert_eq!(cmd.working_dir, Some(b"/src/backend".to_vec()));
    assert_eq!(cmd.env.len(), 2);
    assert_eq!(cmd.env[0].name, b"DATABASE_PATH".to_vec());
    assert_eq!(cmd.env[0].value, b"/data/db.sqlite3".to_vec());
    assert_eq!(cmd.env[1].name, b"DJANGO_SETTINGS_MODULE".to_vec());
    assert_eq!(cmd.env[1].value, b"config.settings".to_vec());
    assert_eq!(cmd.stdout, StreamMode::Discard);
    assert_eq!(cmd.stderr, StreamMode::Discard);
}

#[test]
fn console_is_hidden_on_windows_only() {
    let exe = bundled_candidate(b"C:\\app\\backend-server.exe".to_vec(), Platform::Windows);
    assert!(server_command(&exe, &config(), Platform::Windows).hide_console);
    assert!(!server_command(&exe, &config(), Platform::Unix).hide_console);
    let list = interpreter_candidates(b"C:\\src\\backend", Platform::Windows);
    assert!(server_command(&list[3], &config(), Platform::Windows).hide_console);
}

#[test]
fn a_process_that_exited_at_once_is_an_immediate_exit() {
    let crashed = ExitInfo { code: Some(1) };
    assert_eq!(
        check_liveness(ProcessState::Exited(crashed)),
        Err(LaunchError::ImmediateExit(crashed))
    );
    let clean = ExitInfo { code: Some(0) };
    assert_eq!(check_liveness(ProcessState::Exited(clean)), Err(LaunchError::ImmediateExit(clean)));
    let signalled = ExitInfo { code: None };
    assert_eq!(
        check_liveness(ProcessState::Exited(signalled)),
        Err(LaunchError::ImmediateExit(signalled))
    );
}

#[test]
fn a_running_process_passes_the_liveness_check() {
    assert_eq!(check_liveness(ProcessState::Running), Ok(()));
    assert_eq!(check_liveness(ProcessState::Unknown), Err(LaunchError::StatusUnavailable));
}

#[test]
fn error_marks_make_a_warning() {
    assert_eq!(classify_stderr(b"ValueError: bad input\n"), Some(LogLevel::Warning));
    assert_eq!(classify_stderr(b"Unhandled Exception in view"), Some(LogLevel::Warning));
    assert_eq!(classify_stderr(b"Traceback (most recent call last):"), Some(LogLevel::Warning));
}

#[test]
fn request_log_lines_are_noise() {
    assert_eq!(
        classify_stderr(b"[28/Oct/2026 10:00:00] \"GET /health HTTP/1.1\" 200 15\n"),
        Some(LogLevel::Debug)
    );
    assert_eq!(classify_stderr(b"an error in lower case"), Some(LogLevel::Debug));
}

#[test]
fn blank_chunks_are_not_logged() {
    assert_eq!(classify_stderr(b""), None);
    assert_eq!(classify_stderr(b" \r\n\t "), None);
}

#[test]
fn the_server_leads_its_own_process_group_off_windows() {
    let exe = bundled_candidate(b"/opt/app/backend-server".to_vec(), Platform::Unix);
    assert!(server_command(&exe, &config(), Platform::Unix).own_process_group);
    assert!(!server_command(&exe, &config(), Platform::Windows).own_process_group);
    let list = interpreter_candidates(b"/src/backend", Platform::Unix);
    assert!(server_command(&list[2], &config(), Platform::Unix).own_process_group);
    assert!(!server_command(&list[2], &config(), Platform::Windows).own_process_group);
}

#[test]
fn a_file_without_any_execute_bit_lacks_the_permission() {
    assert!(lacks_execute_permission(0o644));
    assert!(lacks_execute_permission(0o100644));
    assert!(lacks_execute_permission(0));
    assert!(!lacks_execute_permission(0o755));
    assert!(!lacks_execute_permission(0o744));
    assert!(!lacks_execute_permission(0o641));
}

#[test]
fn the_repair_adds_the_execute_bits_and_nothing_else() {
    assert_eq!(with_execute_permission(0o644), 0o755);
    assert_eq!(with_execute_permission(0o100600), 0o100711);
    assert_eq!(with_execute_permission(0o755), 0o755);
    assert_eq!(with_execute_permission(0), 0o111);
}
