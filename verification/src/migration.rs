//! Migration runner: builds the schema-migration command and reads its
//! outcome from what it printed. A failed migration never stops the launch.

use crate::command::plain_command;
use crate::command::Invocation;
use crate::command::InvocationView;
use crate::command::StreamMode;
use crate::launcher::database_variable;
use crate::launcher::entry_script;
use crate::launcher::settings_module;
use crate::launcher::settings_variable;
use crate::launcher::ServerConfig;
use crate::locator::CandidateKind;
use crate::locator::CandidateView;
use crate::locator::Platform;
use crate::locator::ServerCandidate;
use crate::text::contains;
use crate::text::contains_bytes;
use vstd::prelude::*;
use vstd::string::StringSliceAdditionalSpecFns;

verus! {

/// The command that brings the database schema up to date.
///
/// A bundled binary is called as `<exe> --migrate --database-path <path>`.
/// An interpreter is called as `<interpreter> manage.py migrate --noinput`
/// in the working directory, with the database path and the settings module
/// in its environment. Both output streams are captured, and the console is
/// hidden on Windows.
pub open spec fn migration_command_of(
    runtime: CandidateView,
    database_path: Seq<u8>,
    working_directory: Seq<u8>,
    platform: Platform,
) -> InvocationView {
    match runtime.kind {
        CandidateKind::BundledExecutable => plain_command(runtime.command).with_arg(
            "--migrate".spec_bytes(),
        ).with_arg("--database-path".spec_bytes()).with_arg(database_path).with_console_hidden(
            platform.windows(),
        ).with_output(StreamMode::Capture, StreamMode::Capture),
        CandidateKind::InterpreterScript => plain_command(runtime.command).in_dir(
            working_directory,
        ).with_arg(entry_script()).with_arg("migrate".spec_bytes()).with_arg(
            "--noinput".spec_bytes(),
        ).with_env(database_variable(), database_path).with_env(
            settings_variable(),
            settings_module(),
        ).with_console_hidden(platform.windows()).with_output(
            StreamMode::Capture,
            StreamMode::Capture,
        ),
    }
}

/// Builds the command that brings the database schema up to date.
pub fn migration_command(runtime: &ServerCandidate, config: &ServerConfig, platform: Platform) -> (r:
    Invocation)
    ensures
        r@ == migration_command_of(
            runtime@,
            config.database_path@,
            config.working_directory@,
            platform,
        ),
{
    let mut cmd = Invocation::new(runtime.command.as_slice());
    match runtime.kind {
        CandidateKind::BundledExecutable => {
            cmd.arg("--migrate".as_bytes());
            cmd.arg("--database-path".as_bytes());
            cmd.arg(config.database_path.as_slice());
        },
        CandidateKind::InterpreterScript => {
            cmd.current_dir(config.working_directory.as_slice());
            cmd.arg("manage.py".as_bytes());
            cmd.arg("migrate".as_bytes());
            cmd.arg("--noinput".as_bytes());
            cmd.env("DATABASE_PATH".as_bytes(), config.database_path.as_slice());
            cmd.env("DJANGO_SETTINGS_MODULE".as_bytes(), "config.settings".as_bytes());
        },
    }
    cmd.console_hidden(platform.is_windows());
    cmd.output(StreamMode::Capture, StreamMode::Capture);
    cmd
}

/// What a finished command left behind.
#[derive(Clone, Debug, PartialEq, Eq)]
pub struct CommandOutput {
    /// The command ended with a status that means success.
    pub success: bool,
    pub stdout: Vec<u8>,
    pub stderr: Vec<u8>,
}

/// How a migration run ended.
#[derive(Clone, Copy, Debug, PartialEq, Eq, Structural)]
pub enum MigrationOutcome {
    /// The schema is up to date.
    Succeeded,
    /// The run failed. `port_conflict` says that its error stream complains
    /// of the port being taken, which has nothing to do with the schema.
    Failed { port_conflict: bool },
    /// The command could not be started.
    NotSpawned,
}

/// The text shows that migrations ran or that there were none to run.
pub open spec fn has_success_marker(text: Seq<u8>) -> bool {
    contains_bytes(text, "No migrations to apply".spec_bytes()) || contains_bytes(
        text,
        "Running migrations:".spec_bytes(),
    ) || contains_bytes(text, "Applying".spec_bytes())
}

/// The error stream complains that the port is taken.
pub open spec fn has_port_conflict(stderr: Seq<u8>) -> bool {
    contains_bytes(stderr, "port is already in use".spec_bytes())
}

/// How a run that was started ended: it succeeded where its status says so
/// or where either output stream carries a success marker, for the runtime
/// may report failure for reasons that have nothing to do with the schema.
pub open spec fn finished_outcome_of(success: bool, stdout: Seq<u8>, stderr: Seq<u8>) ->
    MigrationOutcome {
    if success || has_success_marker(stdout) || has_success_marker(stderr) {
        MigrationOutcome::Succeeded
    } else {
        MigrationOutcome::Failed { port_conflict: has_port_conflict(stderr) }
    }
}

/// How a migration run ended, given what it left behind, or `None` where
/// it could not be started.
pub open spec fn migration_outcome_of(run: Option<CommandOutput>) -> MigrationOutcome {
    match run {
        Some(out) => finished_outcome_of(out.success, out.stdout@, out.stderr@),
        None => MigrationOutcome::NotSpawned,
    }
}

/// Whether a text carries a success marker.
pub fn find_success_marker(text: &[u8]) -> (r: bool)
    ensures
        r == has_success_marker(text@),
{
    contains(text, "No migrations to apply".as_bytes()) || contains(
        text,
        "Running migrations:".as_bytes(),
    ) || contains(text, "Applying".as_bytes())
}

/// Reads the outcome of a migration run from what it left behind, or from
/// `None` where the command could not be started.
pub fn classify_migration(run: &Option<CommandOutput>) -> (r: MigrationOutcome)
    ensures
        r == migration_outcome_of(*run),
{
    match run {
        Some(out) => {
            if out.success || find_success_marker(out.stdout.as_slice()) || find_success_marker(
                out.stderr.as_slice(),
            ) {
                MigrationOutcome::Succeeded
            } else {
                MigrationOutcome::Failed {
                    port_conflict: contains(
                        out.stderr.as_slice(),
                        "port is already in use".as_bytes(),
                    ),
                }
            }
        },
        None => MigrationOutcome::NotSpawned,
    }
}

/// Whether a migration outcome stops the server from being started. It never
/// does: the server's first real request decides whether the data layer
/// works.
pub fn blocks_launch(outcome: MigrationOutcome) -> (r: bool)
    ensures
        !r,
{
    match outcome {
        MigrationOutcome::Succeeded => false,
        MigrationOutcome::Failed { port_conflict: _ } => false,
        MigrationOutcome::NotSpawned => false,
    }
}

} // verus!
