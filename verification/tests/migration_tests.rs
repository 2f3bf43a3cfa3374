use backend_supervisor::command::Invocation;
use backend_supervisor::command::StreamMode;
use backend_supervisor::launcher::ServerConfig;
use backend_supervisor::locator::bundled_candidate;
use backend_supervisor::locator::interpreter_candidates;
use backend_supervisor::locator::Platform;
use backend_supervisor::migration::blocks_launch;
use backend_supervisor::migration::classify_migration;
use backend_supervisor::migration::find_success_marker;
use backend_supervisor::migration::migration_command;
use backend_supervisor::migration::CommandOutput;
use backend_supervisor::migration::MigrationOutcome;

fn words(cmd: &Invocation) -> Vec<String> {
    let mut out = vec![String::from_utf8(cmd.program.clone()).unwrap()];
    for a in cmd.args.iter() {
        out.push(String::from_utf8(a.clone()).unwrap());
    }
    out
}

fn config() -> ServerConfig {
    ServerConfig {
        bind_host: b"127.0.0.1".to_vec(),
        bind_port: 8000,
        database_path: b"/data/db.sqlite3".to_vec(),
        working_directory: b"/src/backend".to_vec(),
    }
}

fn run(success: bool, stdout: &[u8], stderr: &[u8]) -> Option<CommandOutput> {
    Some(CommandOutput { success, stdout: stdout.to_vec(), stderr: stderr.to_vec() })
}

#[test]
fn bundled_binary_migrates_by_flag() {
    let exe = bundled_candidate(b"/opt/app/backend-server".to_vec(), Platform::Unix);
    let cmd = migration_command(&exe, &config(), Platform::Unix);
    assert_eq!(
        words(&cmd),
        vec!["/opt/app/backend-server", "--migrate", "--database-path", "/data/db.sqlite3"]
    );
    assert!(cmd.env.is_empty());
    assert_eq!(cmd.working_dir, None);
    assert!(!cmd.hide_console);
    assert_eq!(cmd.stdout, StreamMode::Capture);
    assert_eq!(cmd.stderr, StreamMode::Capture);
    let cmd = migration_command(&exe, &config(), Platform::Windows);
    assert!(cmd.hide_console);
}

#[test]
fn interpreter_migrates_through_the_entry_script() {
    let list = interpreter_candidates(b"/src/backend", Platform::Unix);
    let cmd = migration_command(&list[2], &config(), Platform::Unix);
    assert_eq!(words(&cmd), vec!["python3", "manage.py", "migrate", "--noinput"]);
    assert_eq!(cmd.working_dir, Some(b"/src/backend".to_vec()));
    assert_eq!(cmd.env.len(), 2);
    assert_eq!(cmd.env[0].name, b"DATABASE_PATH".to_vec());
    assert_eq!(cmd.env[0].value, b"/data/db.sqlite3".to_vec());
    assert_eq!(cmd.env[1].name, b"DJANGO_SETTINGS_MODULE".to_vec());
    assert_eq!(cmd.env[1].value, b"config.settings".to_vec());
    assert_eq!(cmd.stdout, StreamMode::Capture);
    assert_eq!(cmd.stderr, StreamMode::Capture);
}

#[test]
fn success_markers_are_found() {
    assert!(find_success_marker(b"Operations to perform:\n  No migrations to apply.\n"));
    assert!(find_success_marker(b"Running migrations:\n"));
    assert!(find_success_marker(b"  Applying auth.0001_initial... OK"));
    assert!(!find_success_marker(b"applying nothing"));
    assert!(!find_success_marker(b""));
}

#[test]
fn migration_succeeds_by_status_or_by_marker() {
    assert_eq!(classify_migration(&run(true, b"", b"")), MigrationOutcome::Succeeded);
    assert_eq!(
        classify_migration(&run(false, b"No migrations to apply.", b"")),
        MigrationOutcome::Succeeded
    );
    assert_eq!(
        classify_migration(&run(false, b"", b"Applying budgets.0002... OK")),
        MigrationOutcome::Succeeded
    );
    assert_eq!(
        classify_migration(&run(false, b"Running migrations:", b"Error: port is already in use")),
        MigrationOutcome::Succeeded
    );
}

#[test]
fn migration_fails_without_status_and_marker() {
    assert_eq!(
        classify_migration(&run(false, b"", b"django.db.utils.OperationalError")),
        MigrationOutcome::Failed { port_conflict: false }
    );
    assert_eq!(
        classify_migration(&run(false, b"", b"Error: That port is already in use.")),
        MigrationOutcome::Failed { port_conflict: true }
    );
    assert_eq!(
        classify_migration(&run(false, b"", b"")),
        MigrationOutcome::Failed { port_conflict: false }
    );
}

#[test]
fn migration_that_cannot_be_spawned_is_told_apart() {
    assert_eq!(classify_migration(&None), MigrationOutcome::NotSpawned);
}

#[test]
fn no_migration_outcome_blocks_the_launch() {
    assert!(!blocks_launch(MigrationOutcome::Succeeded));
    assert!(!blocks_launch(MigrationOutcome::Failed { port_conflict: false }));
    assert!(!blocks_launch(MigrationOutcome::Failed { port_conflict: true }));
    assert!(!blocks_launch(MigrationOutcome::NotSpawned));
}
