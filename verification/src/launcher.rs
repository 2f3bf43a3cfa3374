//! Process launcher: builds the server's command line, judges the first
//! liveness check after the spawn, and sorts the server's error stream into
//! real errors and routine noise.

use crate::command::plain_command;
use crate::command::Invocation;
use crate::command::InvocationView;
use crate::command::StreamMode;
use crate::locator::CandidateKind;
use crate::locator::CandidateView;
use crate::locator::Platform;
use crate::locator::ServerCandidate;
use crate::text::append;
use crate::text::contains;
use crate::text::contains_bytes;
use crate::text::decimal;
use crate::text::format_decimal;
use crate::text::trim;
use crate::text::trimmed;
use vstd::prelude::*;
use vstd::slice::slice_to_vec;
use vstd::string::StringSliceAdditionalSpecFns;

verus! {

/// Where the server binds and what it works on. Computed once at startup.
#[derive(Clone, Debug, PartialEq, Eq)]
pub struct ServerConfig {
    pub bind_host: Vec<u8>,
    pub bind_port: u16,
    pub database_path: Vec<u8>,
    pub working_directory: Vec<u8>,
}

/// How a process ended: its exit code, or `None` where a signal ended it.
#[derive(Clone, Copy, Debug, PartialEq, Eq)]
pub struct ExitInfo {
    pub code: Option<i32>,
}

/// What the operating system says of a process, asked without waiting.
#[derive(Clone, Copy, Debug, PartialEq, Eq)]
pub enum ProcessState {
    /// Still running.
    Running,
    /// Already ended.
    Exited(ExitInfo),
    /// The question itself failed.
    Unknown,
}

/// Why a launch attempt ended before the readiness probe.
#[derive(Clone, Copy, Debug, PartialEq, Eq)]
pub enum LaunchError {
    /// The command could not be started at all.
    SpawnFailed,
    /// The process had ended by the first liveness check.
    ImmediateExit(ExitInfo),
    /// The first liveness check itself failed.
    StatusUnavailable,
}

/// The host and port as one word: `<host>:<port>`.
pub open spec fn bind_address_of(host: Seq<u8>, port: u16) -> Seq<u8> {
    host + seq![58u8] + decimal(port as nat)
}

/// Builds `<host>:<port>`.
pub fn bind_address(host: &[u8], port: u16) -> (r: Vec<u8>)
    ensures
        r@ == bind_address_of(host@, port),
{
    let mut r: Vec<u8> = slice_to_vec(host);
    r.push(58);
    let digits = format_decimal(port as u64);
    append(&mut r, digits.as_slice());
    r
}

/// The path of the health endpoint where the backend serves it at the
/// usual place.
pub open spec fn usual_health_path() -> Seq<u8> {
    "/health".spec_bytes()
}

/// Gives the usual path of the health endpoint.
pub fn health_path() -> (r: Vec<u8>)
    ensures
        r@ == usual_health_path(),
{
    slice_to_vec("/health".as_bytes())
}

/// The address that the readiness probe asks: `http://<host>:<port>`
/// followed by the path of the health endpoint.
pub open spec fn health_url_of(host: Seq<u8>, port: u16, path: Seq<u8>) -> Seq<u8> {
    "http://".spec_bytes() + bind_address_of(host, port) + path
}

/// Builds the address that the readiness probe asks, for a backend that
/// serves its health endpoint at `path`.
pub fn health_url(config: &ServerConfig, path: &[u8]) -> (r: Vec<u8>)
    ensures
        r@ == health_url_of(config.bind_host@, config.bind_port, path@),
{
    let mut r: Vec<u8> = slice_to_vec("http://".as_bytes());
    let address = bind_address(config.bind_host.as_slice(), config.bind_port);
    append(&mut r, address.as_slice());
    append(&mut r, path);
    r
}

/// The permission bits that let the owner, the group and others execute a
/// file.
pub const EXECUTE_BITS: u32 = 0o111;

/// Whether a file with this mode may be executed by nobody at all.
pub fn lacks_execute_permission(mode: u32) -> (r: bool)
    ensures
        r == (mode & EXECUTE_BITS == 0),
{
    mode & EXECUTE_BITS == 0
}

/// The mode that lets everybody execute the file and changes nothing else.
pub fn with_execute_permission(mode: u32) -> (r: u32)
    ensures
        r == mode | EXECUTE_BITS,
        r & EXECUTE_BITS == EXECUTE_BITS,
        r & !EXECUTE_BITS == mode & !EXECUTE_BITS,
{
    let r: u32 = mode | EXECUTE_BITS;
    proof {
        assert((mode | 0o111u32) & 0o111u32 == 0o111u32) by (bit_vector);
        assert((mode | 0o111u32) & !0o111u32 == mode & !0o111u32) by (bit_vector);
    }
    r
}

/// The name of the variable that carries the database path.
pub open spec fn database_variable() -> Seq<u8> {
    "DATABASE_PATH".spec_bytes()
}

/// The name of the variable that names the settings module.
pub open spec fn settings_variable() -> Seq<u8> {
    "DJANGO_SETTINGS_MODULE".spec_bytes()
}

/// The settings module that the server's entry script loads.
pub open spec fn settings_module() -> Seq<u8> {
    "config.settings".spec_bytes()
}

/// The server's entry script, relative to the working directory.
pub open spec fn entry_script() -> Seq<u8> {
    "manage.py".spec_bytes()
}

/// The command that starts the server.
///
/// A bundled binary is called as
/// `<exe> --host <host> --port <port> --database-path <path>`, with both
/// output streams captured. An interpreter is called as
/// `<interpreter> manage.py runserver <host>:<port>` in the working
/// directory, with the database path and the settings module in its
/// environment and both output streams discarded. Either way the console is
/// hidden on Windows, where a child would otherwise open one, and elsewhere
/// the server leads a process group of its own, so that the whole tree it
/// spawns can be killed together.
pub open spec fn server_command_of(
    runtime: CandidateView,
    host: Seq<u8>,
    port: u16,
    database_path: Seq<u8>,
    working_directory: Seq<u8>,
    platform: Platform,
) -> InvocationView {
    match runtime.kind {
        CandidateKind::BundledExecutable => plain_command(runtime.command).with_arg(
            "--host".spec_bytes(),
        ).with_arg(host).with_arg("--port".spec_bytes()).with_arg(decimal(port as nat)).with_arg(
            "--database-path".spec_bytes(),
        ).with_arg(database_path).with_console_hidden(platform.windows()).with_own_group(
            !platform.windows(),
        ).with_output(StreamMode::Capture, StreamMode::Capture),
        CandidateKind::InterpreterScript => plain_command(runtime.command).in_dir(
            working_directory,
        ).with_arg(entry_script()).with_arg("runserver".spec_bytes()).with_arg(
            bind_address_of(host, port),
        ).with_env(database_variable(), database_path).with_env(
            settings_variable(),
            settings_module(),
        ).with_console_hidden(platform.windows()).with_own_group(!platform.windows()).with_output(
            StreamMode::Discard,
            StreamMode::Discard,
        ),
    }
}

/// Builds the command that starts the server.
pub fn server_command(runtime: &ServerCandidate, config: &ServerConfig, platform: Platform) -> (r:
    Invocation)
    ensures
        r@ == server_command_of(
            runtime@,
            config.bind_host@,
            config.bind_port,
            config.database_path@,
            config.working_directory@,
            platform,
        ),
{
    let mut cmd = Invocation::new(runtime.command.as_slice());
    match runtime.kind {
        CandidateKind::BundledExecutable => {
            cmd.arg("--host".as_bytes());
            cmd.arg(config.bind_host.as_slice());
            cmd.arg("--port".as_bytes());
            let port = format_decimal(config.bind_port as u64);
            cmd.arg(port.as_slice());
            cmd.arg("--database-path".as_bytes());
            cmd.arg(config.database_path.as_slice());
            cmd.console_hidden(platform.is_windows());
            cmd.process_group_leader(!platform.is_windows());
            cmd.output(StreamMode::Capture, StreamMode::Capture);
        },
        CandidateKind::InterpreterScript => {
            cmd.current_dir(config.working_directory.as_slice());
            cmd.arg("manage.py".as_bytes());
            cmd.arg("runserver".as_bytes());
            let address = bind_address(config.bind_host.as_slice(), config.bind_port);
            cmd.arg(address.as_slice());
            cmd.env("DATABASE_PATH".as_bytes(), config.database_path.as_slice());
            cmd.env("DJANGO_SETTINGS_MODULE".as_bytes(), "config.settings".as_bytes());
            cmd.console_hidden(platform.is_windows());
            cmd.process_group_leader(!platform.is_windows());
            cmd.output(StreamMode::Discard, StreamMode::Discard);
        },
    }
    cmd
}

/// Judges the liveness check made right after the spawn. A process that has
/// already ended is an immediate exit, which tells a broken binary from one
/// that is still starting; only a running process goes on to the readiness
/// probe.
pub fn check_liveness(state: ProcessState) -> (r: Result<(), LaunchError>)
    ensures
        r == match state {
            ProcessState::Running => Ok::<(), LaunchError>(()),
            ProcessState::Exited(info) => Err::<(), LaunchError>(LaunchError::ImmediateExit(info)),
            ProcessState::Unknown => Err::<(), LaunchError>(LaunchError::StatusUnavailable),
        },
{
    match state {
        ProcessState::Running => Ok(()),
        ProcessState::Exited(info) => Err(LaunchError::ImmediateExit(info)),
        ProcessState::Unknown => Err(LaunchError::StatusUnavailable),
    }
}

/// How loudly a piece of the server's error stream is logged.
#[derive(Clone, Copy, Debug, PartialEq, Eq, Structural)]
pub enum LogLevel {
    Warning,
    Debug,
}

/// The text carries one of the marks of a genuine error.
pub open spec fn has_error_marker(text: Seq<u8>) -> bool {
    contains_bytes(text, "Error".spec_bytes()) || contains_bytes(text, "Exception".spec_bytes())
        || contains_bytes(text, "Traceback".spec_bytes())
}

/// How a piece of the error stream is logged: not at all where it is
/// blank, as a warning where it carries an error mark, else as routine
/// noise for debugging.
pub open spec fn stderr_level_of(chunk: Seq<u8>) -> Option<LogLevel> {
    let text = trimmed(chunk);
    if text.len() == 0 {
        None
    } else if has_error_marker(text) {
        Some(LogLevel::Warning)
    } else {
        Some(LogLevel::Debug)
    }
}

/// Sorts a piece of the server's error stream. The server writes its
/// request log there, so most of it is no error.
pub fn classify_stderr(chunk: &[u8]) -> (r: Option<LogLevel>)
    ensures
        r == stderr_level_of(chunk@),
{
    let text = trim(chunk);
    if text.len() == 0 {
        None
    } else if contains(text.as_slice(), "Error".as_bytes()) || contains(
        text.as_slice(),
        "Exception".as_bytes(),
    ) || contains(text.as_slice(), "Traceback".as_bytes()) {
        Some(LogLevel::Warning)
    } else {
        Some(LogLevel::Debug)
    }
}

} // verus!
