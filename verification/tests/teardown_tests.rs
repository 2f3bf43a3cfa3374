use backend_supervisor::command::Invocation;
use backend_supervisor::command::StreamMode;
use backend_supervisor::locator::Platform;
use backend_supervisor::supervisor::StopStep;
use backend_supervisor::teardown::graceful_stop_command;
use backend_supervisor::teardown::lock_step;
use backend_supervisor::teardown::process_listed;
use backend_supervisor::teardown::stop_command;
use backend_supervisor::teardown::task_list_command;
use backend_supervisor::teardown::teardown_policy;
use backend_supervisor::teardown::tree_kill_command;
use backend_supervisor::teardown::ExitTrigger;
use backend_supervisor::teardown::LockStep;
use backend_supervisor::teardown::TeardownPolicy;

fn words(cmd: &Invocation) -> Vec<String> {
    let mut out = vec![String::from_utf8(cmd.program.clone()).unwrap()];
    for a in cmd.args.iter() {
        out.push(String::from_utf8(a.clone()).unwrap());
    }
    out
}

#[test]
fn the_tree_kill_walks_the_tree_on_windows() {
    let windows = tree_kill_command(Platform::Windows, 4242);
    assert_eq!(words(&windows), vec!["taskkill", "/F", "/T", "/PID", "4242"]);
    assert_eq!(windows.stdout, StreamMode::Discard);
    assert_eq!(windows.stderr, StreamMode::Discard);
}

#[test]
fn the_tree_kill_signals_the_whole_group_elsewhere() {
    let unix = tree_kill_command(Platform::Unix, 4242);
    assert_eq!(words(&unix), vec!["kill", "-9", "--", "-4242", "4242"]);
    assert_eq!(unix.stdout, StreamMode::Discard);
    assert_eq!(unix.stderr, StreamMode::Discard);
    assert_eq!(
        words(&tree_kill_command(Platform::Unix, u32::MAX)),
        vec!["kill", "-9", "--", "-4294967295", "4294967295"]
    );
}

#[test]
fn the_first_request_is_not_forced() {
    let unix = graceful_stop_command(Platform::Unix, 4242);
    assert_eq!(words(&unix), vec!["kill", "-15", "4242"]);
    assert_eq!(unix.stdout, StreamMode::Discard);
    assert_eq!(unix.stderr, StreamMode::Discard);
    let windows = graceful_stop_command(Platform::Windows, 4242);
    assert_eq!(words(&windows), vec!["taskkill", "/PID", "4242"]);
    assert!(!windows.args.contains(&b"/F".to_vec()));
}

#[test]
fn each_step_of_the_teardown_has_its_command() {
    let ask = stop_command(Platform::Unix, StopStep::AskToEnd { pid: 7 }).unwrap();
    assert_eq!(words(&ask), vec!["kill", "-15", "7"]);
    let force = stop_command(Platform::Unix, StopStep::Escalate { pid: 7 }).unwrap();
    assert_eq!(words(&force), vec!["kill", "-9", "--", "-7", "7"]);
    let ask = stop_command(Platform::Windows, StopStep::AskToEnd { pid: 7 }).unwrap();
    assert_eq!(words(&ask), vec!["taskkill", "/PID", "7"]);
    let force = stop_command(Platform::Windows, StopStep::Escalate { pid: 7 }).unwrap();
    assert_eq!(words(&force), vec!["taskkill", "/F", "/T", "/PID", "7"]);
    assert_eq!(stop_command(Platform::Unix, StopStep::Idle), None);
    assert_eq!(stop_command(Platform::Unix, StopStep::Done), None);
    assert_eq!(stop_command(Platform::Unix, StopStep::KeepWaiting { remaining_ms: 5 }), None);
}

#[test]
fn the_task_list_is_asked_on_windows_only() {
    let cmd = task_list_command(Platform::Windows, 4242).unwrap();
    assert_eq!(words(&cmd), vec!["tasklist", "/FI", "PID eq 4242"]);
    assert_eq!(cmd.stdout, StreamMode::Capture);
    assert_eq!(cmd.stderr, StreamMode::Discard);
    assert_eq!(task_list_command(Platform::Unix, 4242), None);
}

#[test]
fn a_process_is_listed_where_its_id_occurs() {
    let listing = b"Image Name   PID Session Name\r\nbackend-server.exe  4242 Console\r\n";
    assert!(process_listed(listing, 4242));
    assert!(!process_listed(listing, 4343));
    assert!(!process_listed(b"INFO: No tasks are running which match the specified criteria.", 4242));
}

#[test]
fn closing_the_window_tears_down_in_the_background() {
    assert_eq!(
        teardown_policy(ExitTrigger::WindowClose),
        TeardownPolicy { in_background: true, settle_ms: 0, reap_port: true }
    );
}

#[test]
fn an_exit_is_waited_for_and_ends_with_a_reap() {
    assert_eq!(
        teardown_policy(ExitTrigger::AppExit),
        TeardownPolicy { in_background: false, settle_ms: 200, reap_port: true }
    );
}

#[test]
fn a_failed_launch_is_cleaned_up_with_a_reap() {
    assert_eq!(
        teardown_policy(ExitTrigger::LaunchFailed),
        TeardownPolicy { in_background: false, settle_ms: 0, reap_port: true }
    );
}

#[test]
fn a_contended_lock_is_waited_for_briefly() {
    assert_eq!(lock_step(true), LockStep::Proceed);
    assert_eq!(lock_step(false), LockStep::WaitThenBlock { wait_ms: 50 });
}

#[test]
fn every_teardown_ends_with_a_reap() {
    for trigger in [ExitTrigger::WindowClose, ExitTrigger::AppExit, ExitTrigger::LaunchFailed] {
        assert!(teardown_policy(trigger).reap_port);
    }
}
