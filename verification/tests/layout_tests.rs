use backend_supervisor::command::Invocation;
use backend_supervisor::command::StreamMode;
use backend_supervisor::database::plan_database_init;
use backend_supervisor::database::DatabaseInit;
use backend_supervisor::layout::backend_dir_candidates;
use backend_supervisor::layout::database_path;
use backend_supervisor::layout::entry_script_path;
use backend_supervisor::layout::first_present;
use backend_supervisor::layout::BackendRoots;
use backend_supervisor::locator::Platform;

fn texts(list: &Vec<Vec<u8>>) -> Vec<String> {
    list.iter().map(|p| String::from_utf8(p.clone()).unwrap()).collect()
}

#[test]
fn the_database_lies_in_the_data_directory() {
    assert_eq!(
        database_path(b"/home/u/.local/share/app", Platform::Unix),
        b"/home/u/.local/share/app/db.sqlite3".to_vec()
    );
    assert_eq!(database_path(b".", Platform::Unix), b"./db.sqlite3".to_vec());
    assert_eq!(
        database_path(b"C:\\Users\\u\\AppData", Platform::Windows),
        b"C:\\Users\\u\\AppData\\db.sqlite3".to_vec()
    );
}

#[test]
fn the_entry_script_lies_in_the_backend_directory() {
    assert_eq!(entry_script_path(b"/src/backend", Platform::Unix), b"/src/backend/manage.py".to_vec());
}

#[test]
fn backend_directories_follow_the_priority_order() {
    let roots = BackendRoots {
        install_dir: b"/p/target/release".to_vec(),
        ancestors: vec![b"/p/target".to_vec(), b"/p".to_vec(), b"/".to_vec(), b"/gone".to_vec()],
        current_dir: Some(b"/work".to_vec()),
        current_parent: Some(b"/".to_vec()),
        override_dir: Some(b"/custom/backend".to_vec()),
    };
    assert_eq!(
        texts(&backend_dir_candidates(&roots, Platform::Unix)),
        vec![
            "/p/target/release/backend",
            "/p/target/release/../../backend",
            "/p/target/release/../../../backend",
            "/p/target/release/../../../../backend",
            "/p/target/backend",
            "/p/backend",
            "/backend",
            "/work/backend",
            "/backend",
            "/custom/backend",
        ]
    );
}

#[test]
fn backend_directories_without_optional_roots() {
    let roots = BackendRoots {
        install_dir: b"/opt/app".to_vec(),
        ancestors: Vec::new(),
        current_dir: None,
        current_parent: None,
        override_dir: None,
    };
    assert_eq!(
        texts(&backend_dir_candidates(&roots, Platform::Unix)),
        vec![
            "/opt/app/backend",
            "/opt/app/../../backend",
            "/opt/app/../../../backend",
            "/opt/app/../../../../backend",
        ]
    );
}

#[test]
fn first_present_picks_the_first_hit() {
    assert_eq!(first_present(&[false, true, true]), Some(1));
    assert_eq!(first_present(&[true]), Some(0));
    assert_eq!(first_present(&[false, false]), None);
    assert_eq!(first_present(&[]), None);
}

#[test]
fn an_existing_database_is_left_alone() {
    assert_eq!(plan_database_init(true, Some(0), Some(2)), DatabaseInit::AlreadyInitialized);
    assert_eq!(plan_database_init(true, None, None), DatabaseInit::AlreadyInitialized);
}

#[test]
fn a_missing_database_is_migrated_where_sources_and_interpreter_are_there() {
    assert_eq!(
        plan_database_init(false, Some(3), Some(1)),
        DatabaseInit::Migrate { backend_dir: 3, interpreter: 1 }
    );
}

#[test]
fn a_missing_database_waits_for_first_use_without_an_interpreter() {
    assert_eq!(plan_database_init(false, Some(3), None), DatabaseInit::LeaveForFirstUse);
}

#[test]
fn a_packaged_application_gets_an_empty_database_file() {
    assert_eq!(plan_database_init(false, None, None), DatabaseInit::CreateEmptyFile);
    assert_eq!(plan_database_init(false, None, Some(0)), DatabaseInit::CreateEmptyFile);
}

#[test]
fn an_invocation_is_built_step_by_step() {
    let mut cmd = Invocation::new(b"prog");
    assert_eq!(cmd.program, b"prog".to_vec());
    assert!(cmd.args.is_empty());
    assert!(cmd.env.is_empty());
    assert_eq!(cmd.working_dir, None);
    assert!(!cmd.hide_console);
    assert_eq!(cmd.stdout, StreamMode::Inherit);
    assert_eq!(cmd.stderr, StreamMode::Inherit);
    cmd.arg(b"-a");
    cmd.arg(b"value");
    cmd.env(b"KEY", b"1");
    cmd.current_dir(b"/tmp/x");
    cmd.console_hidden(true);
    cmd.output(StreamMode::Capture, StreamMode::Discard);
    assert_eq!(cmd.args, vec![b"-a".to_vec(), b"value".to_vec()]);
    assert_eq!(cmd.env.len(), 1);
    assert_eq!(cmd.env[0].name, b"KEY".to_vec());
    assert_eq!(cmd.env[0].value, b"1".to_vec());
    assert_eq!(cmd.working_dir, Some(b"/tmp/x".to_vec()));
    assert!(cmd.hide_console);
    assert_eq!(cmd.stdout, StreamMode::Capture);
    assert_eq!(cmd.stderr, StreamMode::Discard);
}
