//! Teardown: the commands that end the backend's whole process tree, and
//! how each exit path goes about it.

use crate::command::plain_command;
use crate::command::Invocation;
use crate::command::InvocationView;
use crate::command::StreamMode;
use crate::launcher::server_command_of;
use crate::locator::CandidateView;
use crate::locator::Platform;
use crate::supervisor::EXIT_SETTLE_MS;
use crate::supervisor::StopStep;
use crate::supervisor::LOCK_RETRY_MS;
use crate::text::append;
use crate::text::contains;
use crate::text::contains_bytes;
use crate::text::decimal;
use crate::text::format_decimal;
use vstd::prelude::*;
use vstd::slice::slice_to_vec;
use vstd::string::StringSliceAdditionalSpecFns;

verus! {

/// The command that asks a process to end of its own accord:
/// `kill -15 <pid>`, and `taskkill /PID <pid>` without force on Windows.
/// Its output is thrown away.
pub open spec fn graceful_stop_command_of(platform: Platform, pid: u32) -> InvocationView {
    if platform.windows() {
        plain_command("taskkill".spec_bytes()).with_arg("/PID".spec_bytes()).with_arg(
            decimal(pid as nat),
        ).with_output(StreamMode::Discard, StreamMode::Discard)
    } else {
        plain_command("kill".spec_bytes()).with_arg("-15".spec_bytes()).with_arg(
            decimal(pid as nat),
        ).with_output(StreamMode::Discard, StreamMode::Discard)
    }
}

/// Builds the command that asks a process to end of its own accord.
pub fn graceful_stop_command(platform: Platform, pid: u32) -> (r: Invocation)
    ensures
        r@ == graceful_stop_command_of(platform, pid),
{
    let digits = format_decimal(pid as u64);
    if platform.is_windows() {
        let mut cmd = Invocation::new("taskkill".as_bytes());
        cmd.arg("/PID".as_bytes());
        cmd.arg(digits.as_slice());
        cmd.output(StreamMode::Discard, StreamMode::Discard);
        cmd
    } else {
        let mut cmd = Invocation::new("kill".as_bytes());
        cmd.arg("-15".as_bytes());
        cmd.arg(digits.as_slice());
        cmd.output(StreamMode::Discard, StreamMode::Discard);
        cmd
    }
}

/// The name by which `kill` addresses the process group that a process
/// leads: a minus sign and the leader's id.
pub open spec fn group_target_of(pid: u32) -> Seq<u8> {
    seq![45u8] + decimal(pid as nat)
}

/// The command that kills a process and everything it spawned by force.
///
/// On Windows `taskkill /F /T /PID <pid>` walks the tree of children. On
/// other platforms the server is started as the leader of a process group
/// of its own, which everything it spawns is born into, and
/// `kill -9 -- -<pid> <pid>` signals that whole group and the process
/// itself. The command's output is thrown away.
pub open spec fn tree_kill_command_of(platform: Platform, pid: u32) -> InvocationView {
    if platform.windows() {
        plain_command("taskkill".spec_bytes()).with_arg("/F".spec_bytes()).with_arg(
            "/T".spec_bytes(),
        ).with_arg("/PID".spec_bytes()).with_arg(decimal(pid as nat)).with_output(
            StreamMode::Discard,
            StreamMode::Discard,
        )
    } else {
        plain_command("kill".spec_bytes()).with_arg("-9".spec_bytes()).with_arg(
            "--".spec_bytes(),
        ).with_arg(group_target_of(pid)).with_arg(decimal(pid as nat)).with_output(
            StreamMode::Discard,
            StreamMode::Discard,
        )
    }
}

/// Builds the command that kills a whole process tree by force.
pub fn tree_kill_command(platform: Platform, pid: u32) -> (r: Invocation)
    ensures
        r@ == tree_kill_command_of(platform, pid),
{
    let digits = format_decimal(pid as u64);
    if platform.is_windows() {
        let mut cmd = Invocation::new("taskkill".as_bytes());
        cmd.arg("/F".as_bytes());
        cmd.arg("/T".as_bytes());
        cmd.arg("/PID".as_bytes());
        cmd.arg(digits.as_slice());
        cmd.output(StreamMode::Discard, StreamMode::Discard);
        cmd
    } else {
        let mut group: Vec<u8> = Vec::new();
        group.push(45);
        append(&mut group, digits.as_slice());
        let mut cmd = Invocation::new("kill".as_bytes());
        cmd.arg("-9".as_bytes());
        cmd.arg("--".as_bytes());
        cmd.arg(group.as_slice());
        cmd.arg(digits.as_slice());
        cmd.output(StreamMode::Discard, StreamMode::Discard);
        cmd
    }
}

/// The command that carries out a step of the teardown: the request to end
/// for the first step, the forced kill of the whole tree for the
/// escalation, and none for the steps that only wait or report.
pub open spec fn stop_command_of(platform: Platform, step: StopStep) -> Option<InvocationView> {
    match step {
        StopStep::AskToEnd { pid } => Some(graceful_stop_command_of(platform, pid)),
        StopStep::Escalate { pid } => Some(tree_kill_command_of(platform, pid)),
        _ => None,
    }
}

/// Builds the command that carries out a step of the teardown, if the step
/// has one.
pub fn stop_command(platform: Platform, step: StopStep) -> (r: Option<Invocation>)
    ensures
        r is Some == stop_command_of(platform, step) is Some,
        r is Some ==> r.unwrap()@ == stop_command_of(platform, step).unwrap(),
{
    match step {
        StopStep::AskToEnd { pid } => Some(graceful_stop_command(platform, pid)),
        StopStep::Escalate { pid } => Some(tree_kill_command(platform, pid)),
        _ => None,
    }
}

/// The forced kill reaches the server's whole tree on every platform: the
/// server's own command makes it the leader of a process group wherever the
/// kill addresses a group, and the kill names that group by the server's
/// id; on Windows the kill walks the tree.
pub proof fn lemma_forced_kill_reaches_the_tree(
    runtime: CandidateView,
    host: Seq<u8>,
    port: u16,
    database_path: Seq<u8>,
    working_directory: Seq<u8>,
    platform: Platform,
    pid: u32,
)
    ensures
        ({
            let server = server_command_of(
                runtime,
                host,
                port,
                database_path,
                working_directory,
                platform,
            );
            let kill = tree_kill_command_of(platform, pid);
            &&& platform.windows() ==> kill.args == seq![
                "/F".spec_bytes(),
                "/T".spec_bytes(),
                "/PID".spec_bytes(),
                decimal(pid as nat),
            ]
            &&& !platform.windows() ==> server.own_process_group && kill.args == seq![
                "-9".spec_bytes(),
                "--".spec_bytes(),
                group_target_of(pid),
                decimal(pid as nat),
            ]
        }),
{
    let kill = tree_kill_command_of(platform, pid);
    if platform.windows() {
        assert(kill.args =~= seq![
            "/F".spec_bytes(),
            "/T".spec_bytes(),
            "/PID".spec_bytes(),
            decimal(pid as nat),
        ]);
    } else {
        assert(kill.args =~= seq![
            "-9".spec_bytes(),
            "--".spec_bytes(),
            group_target_of(pid),
            decimal(pid as nat),
        ]);
    }
}

/// The filter that makes the task list show one process: `PID eq <pid>`.
pub open spec fn task_filter_of(pid: u32) -> Seq<u8> {
    "PID eq ".spec_bytes() + decimal(pid as nat)
}

/// The command that shows whether a process is still there, on Windows:
/// `tasklist /FI "PID eq <pid>"`, with its output captured.
pub open spec fn task_list_command_of(pid: u32) -> InvocationView {
    plain_command("tasklist".spec_bytes()).with_arg("/FI".spec_bytes()).with_arg(
        task_filter_of(pid),
    ).with_output(StreamMode::Capture, StreamMode::Discard)
}

/// Builds the command that shows whether a process is still there. Only
/// Windows needs one; elsewhere the process handle itself is asked.
pub fn task_list_command(platform: Platform, pid: u32) -> (r: Option<Invocation>)
    ensures
        platform.windows() ==> r is Some && r.unwrap()@ == task_list_command_of(pid),
        !platform.windows() ==> r is None,
{
    if platform.is_windows() {
        let mut filter: Vec<u8> = slice_to_vec("PID eq ".as_bytes());
        let digits = format_decimal(pid as u64);
        append(&mut filter, digits.as_slice());
        let mut cmd = Invocation::new("tasklist".as_bytes());
        cmd.arg("/FI".as_bytes());
        cmd.arg(filter.as_slice());
        cmd.output(StreamMode::Capture, StreamMode::Discard);
        Some(cmd)
    } else {
        None
    }
}

/// Whether a task list shows the process: its id occurs in the listing.
pub fn process_listed(listing: &[u8], pid: u32) -> (r: bool)
    ensures
        r == contains_bytes(listing@, decimal(pid as nat)),
{
    let digits = format_decimal(pid as u64);
    contains(listing, digits.as_slice())
}

/// What makes the supervisor stop the process.
#[derive(Clone, Copy, Debug, PartialEq, Eq, Structural)]
pub enum ExitTrigger {
    /// The window is being closed.
    WindowClose,
    /// The application is exiting.
    AppExit,
    /// The launch failed after the process was spawned.
    LaunchFailed,
}

/// How a teardown is carried out.
#[derive(Clone, Copy, Debug, PartialEq, Eq, Structural)]
pub struct TeardownPolicy {
    /// Run the teardown apart from the user interface, and do not wait for
    /// it.
    pub in_background: bool,
    /// How long to wait after the kill, in milliseconds.
    pub settle_ms: u64,
    /// Run the port reaper once more when the teardown is over.
    pub reap_port: bool,
}

/// How the teardown for a trigger is carried out. Closing the window must
/// not block the user interface, so its teardown runs in the background. An
/// application exit is waited for, for a bounded time. Every teardown ends
/// with a pass of the port reaper, whether or not the kill went well.
pub open spec fn teardown_policy_of(trigger: ExitTrigger) -> TeardownPolicy {
    match trigger {
        ExitTrigger::WindowClose => TeardownPolicy {
            in_background: true,
            settle_ms: 0,
            reap_port: true,
        },
        ExitTrigger::AppExit => TeardownPolicy {
            in_background: false,
            settle_ms: EXIT_SETTLE_MS,
            reap_port: true,
        },
        ExitTrigger::LaunchFailed => TeardownPolicy {
            in_background: false,
            settle_ms: 0,
            reap_port: true,
        },
    }
}

/// Says how the teardown for a trigger is carried out.
pub fn teardown_policy(trigger: ExitTrigger) -> (r: TeardownPolicy)
    ensures
        r == teardown_policy_of(trigger),
{
    match trigger {
        ExitTrigger::WindowClose => TeardownPolicy {
            in_background: true,
            settle_ms: 0,
            reap_port: true,
        },
        ExitTrigger::AppExit => TeardownPolicy {
            in_background: false,
            settle_ms: EXIT_SETTLE_MS,
            reap_port: true,
        },
        ExitTrigger::LaunchFailed => TeardownPolicy {
            in_background: false,
            settle_ms: 0,
            reap_port: true,
        },
    }
}

/// Every teardown ends with a pass of the port reaper, and only the one
/// for a closing window runs in the background.
pub proof fn lemma_every_teardown_reaps(trigger: ExitTrigger)
    ensures
        teardown_policy_of(trigger).reap_port,
        teardown_policy_of(trigger).in_background == (trigger == ExitTrigger::WindowClose),
        teardown_policy_of(trigger).settle_ms <= EXIT_SETTLE_MS,
{
}

/// How to get at the slot.
#[derive(Clone, Copy, Debug, PartialEq, Eq, Structural)]
pub enum LockStep {
    /// The lock is held: go on.
    Proceed,
    /// The lock is taken: wait `wait_ms`, then block until it is free.
    WaitThenBlock { wait_ms: u64 },
}

/// Decides how to go on after an attempt to take the slot's lock without
/// waiting. A short wait before blocking keeps a teardown from running
/// head-on into a launch that holds the lock.
pub fn lock_step(acquired: bool) -> (r: LockStep)
    ensures
        r == if acquired {
            LockStep::Proceed
        } else {
            LockStep::WaitThenBlock { wait_ms: LOCK_RETRY_MS }
        },
{
    if acquired {
        LockStep::Proceed
    } else {
        LockStep::WaitThenBlock { wait_ms: LOCK_RETRY_MS }
    }
}

} // verus!
