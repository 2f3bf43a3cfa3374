//! Interpreter dependencies: checks whether the server's framework can be
//! imported, and sets up the project's isolated environment where it
//! cannot.

use crate::command::plain_command;
use crate::command::Invocation;
use crate::command::InvocationView;
use crate::command::StreamMode;
use crate::locator::join_path;
use crate::locator::joined;
use crate::locator::local_interpreter_unix;
use crate::locator::local_interpreter_windows;
use crate::locator::Platform;
use vstd::prelude::*;
use vstd::string::StringSliceAdditionalSpecFns;

verus! {

/// The command that checks whether the server's framework can be imported:
/// `<interpreter> -c "import django; print(django.__version__)"`, with its
/// output thrown away and its console hidden on Windows.
pub open spec fn dependency_check_command_of(
    interpreter: Seq<u8>,
    platform: Platform,
) -> InvocationView {
    plain_command(interpreter).with_arg("-c".spec_bytes()).with_arg(
        "import django; print(django.__version__)".spec_bytes(),
    ).with_console_hidden(platform.windows()).with_output(StreamMode::Discard, StreamMode::Discard)
}

/// Builds the command that checks whether the server's framework can be
/// imported.
pub fn dependency_check_command(interpreter: &[u8], platform: Platform) -> (r: Invocation)
    ensures
        r@ == dependency_check_command_of(interpreter@, platform),
{
    let mut cmd = Invocation::new(interpreter);
    cmd.arg("-c".as_bytes());
    cmd.arg("import django; print(django.__version__)".as_bytes());
    cmd.console_hidden(platform.is_windows());
    cmd.output(StreamMode::Discard, StreamMode::Discard);
    cmd
}

/// Reads the check's result: the dependencies are there where the command
/// ran and ended with success. `run` is `None` where it could not be
/// started.
pub fn dependencies_present(run: Option<bool>) -> (r: bool)
    ensures
        r == (run == Some(true)),
{
    match run {
        Some(success) => success,
        None => false,
    }
}

/// The command that creates the isolated environment:
/// `<interpreter> -m venv .venv`, run in the backend directory.
pub open spec fn create_environment_command_of(
    interpreter: Seq<u8>,
    backend_dir: Seq<u8>,
    platform: Platform,
) -> InvocationView {
    plain_command(interpreter).with_arg("-m".spec_bytes()).with_arg("venv".spec_bytes()).with_arg(
        ".venv".spec_bytes(),
    ).in_dir(backend_dir).with_console_hidden(platform.windows()).with_output(
        StreamMode::Discard,
        StreamMode::Discard,
    )
}

/// Builds the command that creates the isolated environment.
pub fn create_environment_command(interpreter: &[u8], backend_dir: &[u8], platform: Platform) -> (r:
    Invocation)
    ensures
        r@ == create_environment_command_of(interpreter@, backend_dir@, platform),
{
    let mut cmd = Invocation::new(interpreter);
    cmd.arg("-m".as_bytes());
    cmd.arg("venv".as_bytes());
    cmd.arg(".venv".as_bytes());
    cmd.current_dir(backend_dir);
    cmd.console_hidden(platform.is_windows());
    cmd.output(StreamMode::Discard, StreamMode::Discard);
    cmd
}

/// The command that installs the dependencies into the isolated
/// environment: `<interpreter> -m pip install -r requirements.txt`, run in
/// the backend directory.
pub open spec fn install_command_of(
    interpreter: Seq<u8>,
    backend_dir: Seq<u8>,
    platform: Platform,
) -> InvocationView {
    plain_command(interpreter).with_arg("-m".spec_bytes()).with_arg("pip".spec_bytes()).with_arg(
        "install".spec_bytes(),
    ).with_arg("-r".spec_bytes()).with_arg("requirements.txt".spec_bytes()).in_dir(
        backend_dir,
    ).with_console_hidden(platform.windows()).with_output(
        StreamMode::Discard,
        StreamMode::Capture,
    )
}

/// Builds the command that installs the dependencies.
pub fn install_command(interpreter: &[u8], backend_dir: &[u8], platform: Platform) -> (r:
    Invocation)
    ensures
        r@ == install_command_of(interpreter@, backend_dir@, platform),
{
    let mut cmd = Invocation::new(interpreter);
    cmd.arg("-m".as_bytes());
    cmd.arg("pip".as_bytes());
    cmd.arg("install".as_bytes());
    cmd.arg("-r".as_bytes());
    cmd.arg("requirements.txt".as_bytes());
    cmd.current_dir(backend_dir);
    cmd.console_hidden(platform.is_windows());
    cmd.output(StreamMode::Discard, StreamMode::Capture);
    cmd
}

/// The two layouts of an isolated environment.
#[derive(Clone, Copy, Debug, PartialEq, Eq, Structural)]
pub enum EnvironmentLayout {
    /// The interpreter lies under `Scripts`.
    Windows,
    /// The interpreter lies under `bin`.
    Unix,
}

/// The path of the isolated environment's interpreter in a layout.
pub open spec fn environment_interpreter_of(
    backend_dir: Seq<u8>,
    layout: EnvironmentLayout,
    platform: Platform,
) -> Seq<u8> {
    match layout {
        EnvironmentLayout::Windows => local_interpreter_windows(backend_dir, platform),
        EnvironmentLayout::Unix => local_interpreter_unix(backend_dir, platform),
    }
}

/// Builds the path of the isolated environment's interpreter in a layout.
pub fn environment_interpreter(backend_dir: &[u8], layout: EnvironmentLayout, platform: Platform) -> (r:
    Vec<u8>)
    ensures
        r@ == environment_interpreter_of(backend_dir@, layout, platform),
{
    let env = join_path(backend_dir, ".venv".as_bytes(), platform);
    match layout {
        EnvironmentLayout::Windows => {
            let scripts = join_path(env.as_slice(), "Scripts".as_bytes(), platform);
            join_path(scripts.as_slice(), "python.exe".as_bytes(), platform)
        },
        EnvironmentLayout::Unix => {
            let bin = join_path(env.as_slice(), "bin".as_bytes(), platform);
            join_path(bin.as_slice(), "python".as_bytes(), platform)
        },
    }
}

/// Builds the path of the list of dependencies: `requirements.txt` in the
/// backend directory.
pub fn requirements_path(backend_dir: &[u8], platform: Platform) -> (r: Vec<u8>)
    ensures
        r@ == joined(backend_dir@, "requirements.txt".spec_bytes(), platform),
{
    join_path(backend_dir, "requirements.txt".as_bytes(), platform)
}

/// Which of the environment's interpreters is there, the Windows layout
/// first.
pub open spec fn present_layout_of(windows: bool, unix: bool) -> Option<EnvironmentLayout> {
    if windows {
        Some(EnvironmentLayout::Windows)
    } else if unix {
        Some(EnvironmentLayout::Unix)
    } else {
        None
    }
}

/// Why the setup failed.
#[derive(Clone, Copy, Debug, PartialEq, Eq, Structural)]
pub enum SetupError {
    /// The command that creates the environment could not be started.
    EnvironmentNotCreated,
    /// The environment holds no interpreter after it was created.
    InterpreterMissing,
    /// The backend directory holds no list of dependencies.
    RequirementsMissing,
    /// The installation could not be started or ended with failure.
    InstallFailed,
}

/// Where a setup stands.
#[derive(Clone, Copy, Debug, PartialEq, Eq)]
pub enum SetupPhase {
    /// Waiting to learn which interpreters the environment holds.
    Inspecting,
    /// Waiting for the environment to be created.
    Creating,
    /// Waiting to learn which interpreters the new environment holds.
    Locating,
    /// Waiting to learn whether the list of dependencies is there.
    CheckingRequirements(EnvironmentLayout),
    /// Waiting for the installation to end.
    Installing(EnvironmentLayout),
    /// The setup is over.
    Finished(Result<(), SetupError>),
}

/// What the caller observed.
#[derive(Clone, Copy, Debug, PartialEq, Eq)]
pub enum SetupEvent {
    /// Whether the environment's interpreter exists in each layout.
    Environment { windows: bool, unix: bool },
    /// Whether the command that creates the environment could be started.
    Created { spawned: bool },
    /// Whether the list of dependencies exists.
    Requirements { exists: bool },
    /// Whether the installation ended with success; `None` where it could
    /// not be started.
    Installed { run: Option<bool> },
}

/// What the caller is to do next.
#[derive(Clone, Copy, Debug, PartialEq, Eq)]
pub enum SetupAction {
    /// Look for the environment's interpreter in both layouts.
    InspectEnvironment,
    /// Run the command that creates the environment.
    CreateEnvironment,
    /// Look for the list of dependencies.
    CheckRequirements,
    /// Run the installation with the environment's interpreter.
    Install(EnvironmentLayout),
    /// Stop.
    Finish(Result<(), SetupError>),
}

/// The action that a phase waits for.
pub open spec fn awaited_setup_action(phase: SetupPhase) -> SetupAction {
    match phase {
        SetupPhase::Inspecting => SetupAction::InspectEnvironment,
        SetupPhase::Creating => SetupAction::CreateEnvironment,
        SetupPhase::Locating => SetupAction::InspectEnvironment,
        SetupPhase::CheckingRequirements(_) => SetupAction::CheckRequirements,
        SetupPhase::Installing(layout) => SetupAction::Install(layout),
        SetupPhase::Finished(result) => SetupAction::Finish(result),
    }
}

/// The phase that follows when `event` arrives in `phase`.
///
/// An environment that holds an interpreter is used as it is; one that
/// holds none is created first, which fails only where the command cannot
/// be started. The installation needs the list of dependencies and succeeds
/// where its command ends with success. An event that the phase does not
/// wait for changes nothing.
pub open spec fn next_setup_phase(phase: SetupPhase, event: SetupEvent) -> SetupPhase {
    match (phase, event) {
        (SetupPhase::Inspecting, SetupEvent::Environment { windows, unix }) => {
            match present_layout_of(windows, unix) {
                Some(layout) => SetupPhase::CheckingRequirements(layout),
                None => SetupPhase::Creating,
            }
        },
        (SetupPhase::Creating, SetupEvent::Created { spawned }) => {
            if spawned {
                SetupPhase::Locating
            } else {
                SetupPhase::Finished(Err(SetupError::EnvironmentNotCreated))
            }
        },
        (SetupPhase::Locating, SetupEvent::Environment { windows, unix }) => {
            match present_layout_of(windows, unix) {
                Some(layout) => SetupPhase::CheckingRequirements(layout),
                None => SetupPhase::Finished(Err(SetupError::InterpreterMissing)),
            }
        },
        (SetupPhase::CheckingRequirements(layout), SetupEvent::Requirements { exists }) => {
            if exists {
                SetupPhase::Installing(layout)
            } else {
                SetupPhase::Finished(Err(SetupError::RequirementsMissing))
            }
        },
        (SetupPhase::Installing(layout), SetupEvent::Installed { run }) => {
            if run == Some(true) {
                SetupPhase::Finished(Ok(()))
            } else {
                SetupPhase::Finished(Err(SetupError::InstallFailed))
            }
        },
        _ => phase,
    }
}

/// Which of the environment's interpreters is there, the Windows layout
/// first.
pub fn present_layout(windows: bool, unix: bool) -> (r: Option<EnvironmentLayout>)
    ensures
        r == present_layout_of(windows, unix),
{
    if windows {
        Some(EnvironmentLayout::Windows)
    } else if unix {
        Some(EnvironmentLayout::Unix)
    } else {
        None
    }
}

/// One setup of the backend's dependencies.
#[derive(Clone, Copy, Debug, PartialEq, Eq)]
pub struct Setup {
    pub phase: SetupPhase,
}

impl Setup {
    /// A setup that has not looked at anything yet.
    pub fn new() -> (r: Setup)
        ensures
            r.phase == SetupPhase::Inspecting,
    {
        Setup { phase: SetupPhase::Inspecting }
    }

    /// What the caller is to do next.
    pub fn action(&self) -> (r: SetupAction)
        ensures
            r == awaited_setup_action(self.phase),
    {
        match self.phase {
            SetupPhase::Inspecting => SetupAction::InspectEnvironment,
            SetupPhase::Creating => SetupAction::CreateEnvironment,
            SetupPhase::Locating => SetupAction::InspectEnvironment,
            SetupPhase::CheckingRequirements(_) => SetupAction::CheckRequirements,
            SetupPhase::Installing(layout) => SetupAction::Install(layout),
            SetupPhase::Finished(result) => SetupAction::Finish(result),
        }
    }

    /// Takes in what the caller observed and returns what to do next.
    pub fn handle(&mut self, event: SetupEvent) -> (r: SetupAction)
        ensures
            final(self).phase == next_setup_phase(old(self).phase, event),
            r == awaited_setup_action(final(self).phase),
    {
        let next: SetupPhase = match self.phase {
            SetupPhase::Inspecting => match event {
                SetupEvent::Environment { windows, unix } => match present_layout(windows, unix) {
                    Some(layout) => SetupPhase::CheckingRequirements(layout),
                    None => SetupPhase::Creating,
                },
                _ => self.phase,
            },
            SetupPhase::Creating => match event {
                SetupEvent::Created { spawned } => {
                    if spawned {
                        SetupPhase::Locating
                    } else {
                        SetupPhase::Finished(Err(SetupError::EnvironmentNotCreated))
                    }
                },
                _ => self.phase,
            },
            SetupPhase::Locating => match event {
                SetupEvent::Environment { windows, unix } => match present_layout(windows, unix) {
                    Some(layout) => SetupPhase::CheckingRequirements(layout),
                    None => SetupPhase::Finished(Err(SetupError::InterpreterMissing)),
                },
                _ => self.phase,
            },
            SetupPhase::CheckingRequirements(layout) => match event {
                SetupEvent::Requirements { exists } => {
                    if exists {
                        SetupPhase::Installing(layout)
                    } else {
                        SetupPhase::Finished(Err(SetupError::RequirementsMissing))
                    }
                },
                _ => self.phase,
            },
            SetupPhase::Installing(_) => match event {
                SetupEvent::Installed { run } => {
                    if dependencies_present(run) {
                        SetupPhase::Finished(Ok(()))
                    } else {
                        SetupPhase::Finished(Err(SetupError::InstallFailed))
                    }
                },
                _ => self.phase,
            },
            SetupPhase::Finished(_) => self.phase,
        };
        self.phase = next;
        self.action()
    }
}

/// A setup succeeds only where the installation ran and ended with
/// success.
pub proof fn lemma_setup_succeeds_through_install(phase: SetupPhase, event: SetupEvent)
    requires
        !(phase is Finished),
        next_setup_phase(phase, event) == SetupPhase::Finished(Ok(())),
    ensures
        phase is Installing,
        event == (SetupEvent::Installed { run: Some(true) }),
{
}

} // verus!
