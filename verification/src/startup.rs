//! Startup sequence: the order of the steps from a located runtime to a
//! server that answers, as a state machine. The caller performs the action
//! that the current stage waits for and hands the result back as an event.

use crate::launcher::ExitInfo;
use crate::launcher::ProcessState;
use crate::locator::CandidateKind;
use crate::prober::awaited_action;
use crate::prober::next_phase;
use crate::prober::ProbeAction;
use crate::prober::ProbeEvent;
use crate::prober::ProbePhase;
use crate::prober::ProbePolicy;
use crate::prober::ProbeVerdict;
use crate::prober::Prober;
use vstd::prelude::*;

verus! {

/// Why the server could not be brought up. None of these is retried: each
/// needs the user or the operator to act.
#[derive(Clone, Copy, Debug, PartialEq, Eq)]
pub enum StartupError {
    /// No bundled binary and no interpreter is usable.
    NoRuntimeFound,
    /// The slot is not empty: another launch or process is in the way.
    Busy,
    /// The interpreter lacks the server's dependencies and they could not
    /// be installed.
    DependenciesMissing,
    /// The bundled binary may not be executed and the permission could not
    /// be repaired.
    NotExecutable,
    /// The server's command could not be started.
    SpawnFailed,
    /// The process had ended by the first liveness check.
    ImmediateExit(ExitInfo),
    /// The first liveness check itself failed.
    StatusUnavailable,
    /// The process ended before the service was confirmed ready.
    DiedDuringStartup(ExitInfo),
    /// The service did not answer within the wait budget.
    TimedOut,
    /// A kill request ended the launch.
    Cancelled,
}

/// Where a launch stands.
#[derive(Clone, Copy, Debug, PartialEq, Eq)]
pub enum LaunchStage {
    /// Waiting for the port reaper's pass to end.
    Reaping,
    /// Waiting to learn whether the bundled binary may be executed.
    PreparingBinary,
    /// Waiting to learn whether the interpreter has the dependencies.
    CheckingDependencies,
    /// Waiting for the dependencies to be installed.
    InstallingDependencies,
    /// Waiting for the server's process to be spawned.
    Spawning,
    /// Waiting for the first liveness check.
    ConfirmingSpawn,
    /// The readiness probe runs.
    Probing(ProbePhase),
    /// The launch is over, with the startup latency in milliseconds or the
    /// reason of the failure.
    Finished(Result<u64, StartupError>),
}

/// What the caller observed.
#[derive(Clone, Copy, Debug, PartialEq, Eq)]
pub enum LaunchEvent {
    /// The port reaper's pass is over, however it went.
    PortReaped,
    /// Whether the bundled binary may be executed, after a repair of its
    /// permission where it was needed.
    BinaryPrepared { executable: bool },
    /// Whether the interpreter has the dependencies.
    DependenciesChecked { present: bool },
    /// Whether the dependencies could be installed.
    DependenciesInstalled { installed: bool },
    /// Whether the server's process was spawned.
    Spawned { spawned: bool },
    /// An observation for the liveness check or the readiness probe.
    Probe(ProbeEvent),
}

/// What the caller is to do next.
#[derive(Clone, Copy, Debug, PartialEq, Eq)]
pub enum LaunchAction {
    /// Run one pass of the port reaper.
    ReapPort,
    /// Make sure that the bundled binary may be executed, repairing its
    /// permission where it lacks.
    PrepareBinary,
    /// Check whether the interpreter has the dependencies.
    CheckDependencies,
    /// Set up the isolated environment and install the dependencies.
    InstallDependencies,
    /// Start the migrations in the background and spawn the server.
    Spawn,
    /// An action of the liveness check or the readiness probe.
    Probe(ProbeAction),
    /// Stop.
    Finish(Result<u64, StartupError>),
}

/// The stage that a finished or unfinished probe phase stands for.
pub open spec fn stage_of_phase(phase: ProbePhase) -> LaunchStage {
    match phase {
        ProbePhase::Finished(ProbeVerdict::Ready { elapsed_ms }) => LaunchStage::Finished(
            Ok(elapsed_ms),
        ),
        ProbePhase::Finished(ProbeVerdict::DiedDuringStartup(info)) => LaunchStage::Finished(
            Err(StartupError::DiedDuringStartup(info)),
        ),
        ProbePhase::Finished(ProbeVerdict::TimedOut) => LaunchStage::Finished(
            Err(StartupError::TimedOut),
        ),
        other => LaunchStage::Probing(other),
    }
}

/// The stage is one that a launch can be in: while the stage is probing,
/// the probe is not over.
pub open spec fn stage_is_valid(stage: LaunchStage) -> bool {
    match stage {
        LaunchStage::Probing(phase) => !(phase is Finished),
        _ => true,
    }
}

/// The action that a stage waits for.
pub open spec fn awaited_launch_action(stage: LaunchStage, policy: ProbePolicy) -> LaunchAction {
    match stage {
        LaunchStage::Reaping => LaunchAction::ReapPort,
        LaunchStage::PreparingBinary => LaunchAction::PrepareBinary,
        LaunchStage::CheckingDependencies => LaunchAction::CheckDependencies,
        LaunchStage::InstallingDependencies => LaunchAction::InstallDependencies,
        LaunchStage::Spawning => LaunchAction::Spawn,
        LaunchStage::ConfirmingSpawn => LaunchAction::Probe(ProbeAction::CheckProcess),
        LaunchStage::Probing(phase) => LaunchAction::Probe(awaited_action(phase, policy)),
        LaunchStage::Finished(result) => LaunchAction::Finish(result),
    }
}

/// The stage that follows when `event` arrives in `stage`.
///
/// Every launch begins with a pass of the port reaper. A bundled binary is
/// spawned once it may be executed; an interpreter is spawned once it has
/// the dependencies, which are installed where they are missing. The first
/// liveness check after the spawn ends the launch unless the process runs;
/// only then does the readiness probe begin, with that check as the first
/// of its rounds, and its verdict ends the launch. An event that the stage
/// does not wait for changes nothing.
pub open spec fn next_stage(
    kind: CandidateKind,
    stage: LaunchStage,
    event: LaunchEvent,
    policy: ProbePolicy,
) -> LaunchStage {
    match (stage, event) {
        (LaunchStage::Reaping, LaunchEvent::PortReaped) => match kind {
            CandidateKind::BundledExecutable => LaunchStage::PreparingBinary,
            CandidateKind::InterpreterScript => LaunchStage::CheckingDependencies,
        },
        (LaunchStage::PreparingBinary, LaunchEvent::BinaryPrepared { executable }) => {
            if executable {
                LaunchStage::Spawning
            } else {
                LaunchStage::Finished(Err(StartupError::NotExecutable))
            }
        },
        (LaunchStage::CheckingDependencies, LaunchEvent::DependenciesChecked { present }) => {
            if present {
                LaunchStage::Spawning
            } else {
                LaunchStage::InstallingDependencies
            }
        },
        (LaunchStage::InstallingDependencies, LaunchEvent::DependenciesInstalled { installed }) => {
            if installed {
                LaunchStage::Spawning
            } else {
                LaunchStage::Finished(Err(StartupError::DependenciesMissing))
            }
        },
        (LaunchStage::Spawning, LaunchEvent::Spawned { spawned }) => {
            if spawned {
                LaunchStage::ConfirmingSpawn
            } else {
                LaunchStage::Finished(Err(StartupError::SpawnFailed))
            }
        },
        (
            LaunchStage::ConfirmingSpawn,
            LaunchEvent::Probe(ProbeEvent::Process { state, elapsed_ms }),
        ) => {
            match state {
                ProcessState::Running => stage_of_phase(
                    next_phase(
                        ProbePhase::CheckingProcess,
                        ProbeEvent::Process { state, elapsed_ms },
                        policy,
                    ),
                ),
                ProcessState::Exited(info) => LaunchStage::Finished(
                    Err(StartupError::ImmediateExit(info)),
                ),
                ProcessState::Unknown => LaunchStage::Finished(
                    Err(StartupError::StatusUnavailable),
                ),
            }
        },
        (LaunchStage::Probing(phase), LaunchEvent::Probe(observed)) => stage_of_phase(
            next_phase(phase, observed, policy),
        ),
        _ => stage,
    }
}

/// The stage that a probe phase stands for.
fn stage_for(phase: ProbePhase) -> (r: LaunchStage)
    ensures
        r == stage_of_phase(phase),
{
    match phase {
        ProbePhase::Finished(verdict) => match verdict {
            ProbeVerdict::Ready { elapsed_ms } => LaunchStage::Finished(Ok(elapsed_ms)),
            ProbeVerdict::DiedDuringStartup(info) => LaunchStage::Finished(
                Err(StartupError::DiedDuringStartup(info)),
            ),
            ProbeVerdict::TimedOut => LaunchStage::Finished(Err(StartupError::TimedOut)),
        },
        other => LaunchStage::Probing(other),
    }
}

/// One launch of the server.
#[derive(Clone, Copy, Debug, PartialEq, Eq)]
pub struct Launch {
    pub kind: CandidateKind,
    pub policy: ProbePolicy,
    pub stage: LaunchStage,
}

impl Launch {
    /// A launch of a runtime of the given kind that has not begun.
    pub fn new(kind: CandidateKind, policy: ProbePolicy) -> (r: Launch)
        ensures
            r == (Launch { kind, policy, stage: LaunchStage::Reaping }),
    {
        Launch { kind, policy, stage: LaunchStage::Reaping }
    }

    /// What the caller is to do next.
    pub fn action(&self) -> (r: LaunchAction)
        ensures
            r == awaited_launch_action(self.stage, self.policy),
    {
        match self.stage {
            LaunchStage::Reaping => LaunchAction::ReapPort,
            LaunchStage::PreparingBinary => LaunchAction::PrepareBinary,
            LaunchStage::CheckingDependencies => LaunchAction::CheckDependencies,
            LaunchStage::InstallingDependencies => LaunchAction::InstallDependencies,
            LaunchStage::Spawning => LaunchAction::Spawn,
            LaunchStage::ConfirmingSpawn => LaunchAction::Probe(ProbeAction::CheckProcess),
            LaunchStage::Probing(phase) => {
                let prober = Prober { phase, policy: self.policy };
                LaunchAction::Probe(prober.action())
            },
            LaunchStage::Finished(result) => LaunchAction::Finish(result),
        }
    }

    /// The result, once the launch is over.
    pub fn result(&self) -> (r: Option<Result<u64, StartupError>>)
        ensures
            r == match self.stage {
                LaunchStage::Finished(result) => Some(result),
                _ => None::<Result<u64, StartupError>>,
            },
    {
        match self.stage {
            LaunchStage::Finished(result) => Some(result),
            _ => None,
        }
    }

    /// Takes in what the caller observed and returns what to do next.
    pub fn handle(&mut self, event: LaunchEvent) -> (r: LaunchAction)
        ensures
            final(self).kind == old(self).kind,
            final(self).policy == old(self).policy,
            final(self).stage == next_stage(
                old(self).kind,
                old(self).stage,
                event,
                old(self).policy,
            ),
            r == awaited_launch_action(final(self).stage, final(self).policy),
    {
        let next: LaunchStage = match self.stage {
            LaunchStage::Reaping => match event {
                LaunchEvent::PortReaped => match self.kind {
                    CandidateKind::BundledExecutable => LaunchStage::PreparingBinary,
                    CandidateKind::InterpreterScript => LaunchStage::CheckingDependencies,
                },
                _ => self.stage,
            },
            LaunchStage::PreparingBinary => match event {
                LaunchEvent::BinaryPrepared { executable } => {
                    if executable {
                        LaunchStage::Spawning
                    } else {
                        LaunchStage::Finished(Err(StartupError::NotExecutable))
                    }
                },
                _ => self.stage,
            },
            LaunchStage::CheckingDependencies => match event {
                LaunchEvent::DependenciesChecked { present } => {
                    if present {
                        LaunchStage::Spawning
                    } else {
                        LaunchStage::InstallingDependencies
                    }
                },
                _ => self.stage,
            },
            LaunchStage::InstallingDependencies => match event {
                LaunchEvent::DependenciesInstalled { installed } => {
                    if installed {
                        LaunchStage::Spawning
                    } else {
                        LaunchStage::Finished(Err(StartupError::DependenciesMissing))
                    }
                },
                _ => self.stage,
            },
            LaunchStage::Spawning => match event {
                LaunchEvent::Spawned { spawned } => {
                    if spawned {
                        LaunchStage::ConfirmingSpawn
                    } else {
                        LaunchStage::Finished(Err(StartupError::SpawnFailed))
                    }
                },
                _ => self.stage,
            },
            LaunchStage::ConfirmingSpawn => match event {
                LaunchEvent::Probe(ProbeEvent::Process { state, elapsed_ms }) => match state {
                    ProcessState::Running => {
                        let mut prober = Prober::new(self.policy);
                        let _ = prober.handle(ProbeEvent::Process { state, elapsed_ms });
                        stage_for(prober.phase)
                    },
                    ProcessState::Exited(info) => LaunchStage::Finished(
                        Err(StartupError::ImmediateExit(info)),
                    ),
                    ProcessState::Unknown => LaunchStage::Finished(
                        Err(StartupError::StatusUnavailable),
                    ),
                },
                _ => self.stage,
            },
            LaunchStage::Probing(phase) => match event {
                LaunchEvent::Probe(observed) => {
                    let mut prober = Prober { phase, policy: self.policy };
                    let _ = prober.handle(observed);
                    stage_for(prober.phase)
                },
                _ => self.stage,
            },
            LaunchStage::Finished(_) => self.stage,
        };
        self.stage = next;
        self.action()
    }
}

/// No launch spawns before the port reaper has passed: a launch leaves its
/// first stage only on the report that the pass is over, and the stage in
/// which the process is spawned is never reached straight from the start.
pub proof fn lemma_reap_comes_first(
    kind: CandidateKind,
    event: LaunchEvent,
    policy: ProbePolicy,
)
    ensures
        awaited_launch_action(LaunchStage::Reaping, policy) == LaunchAction::ReapPort,
        event != LaunchEvent::PortReaped ==> next_stage(kind, LaunchStage::Reaping, event, policy)
            == LaunchStage::Reaping,
        event == LaunchEvent::PortReaped ==> next_stage(kind, LaunchStage::Reaping, event, policy)
            == match kind {
            CandidateKind::BundledExecutable => LaunchStage::PreparingBinary,
            CandidateKind::InterpreterScript => LaunchStage::CheckingDependencies,
        },
{
}

/// A process that has ended by the first liveness check ends the launch as
/// an immediate exit: the readiness probe never begins, and no request is
/// sent.
pub proof fn lemma_immediate_exit_skips_probe(
    kind: CandidateKind,
    info: ExitInfo,
    elapsed_ms: u64,
    policy: ProbePolicy,
)
    ensures
        ({
            let after = next_stage(
                kind,
                LaunchStage::ConfirmingSpawn,
                LaunchEvent::Probe(
                    ProbeEvent::Process { state: ProcessState::Exited(info), elapsed_ms },
                ),
                policy,
            );
            &&& after == LaunchStage::Finished(Err(StartupError::ImmediateExit(info)))
            &&& awaited_launch_action(after, policy) == LaunchAction::Finish(
                Err(StartupError::ImmediateExit(info)),
            )
            &&& forall|event: LaunchEvent| next_stage(kind, after, event, policy) == after
        }),
{
}

/// The readiness probe begins only after a liveness check that found the
/// process running.
pub proof fn lemma_probe_needs_live_process(
    kind: CandidateKind,
    stage: LaunchStage,
    event: LaunchEvent,
    policy: ProbePolicy,
)
    requires
        !(stage is Probing),
        next_stage(kind, stage, event, policy) is Probing,
    ensures
        stage is ConfirmingSpawn,
        event is Probe,
        event->Probe_0 is Process,
        event->Probe_0->state == ProcessState::Running,
{
}

/// The probing of a launch is a run of the readiness prober that begins
/// with the first liveness check: each observation moves the launch as it
/// moves the prober, so what holds of every run of the prober, its deadline
/// among it, holds of every launch.
pub proof fn lemma_launch_follows_prober(
    kind: CandidateKind,
    phase: ProbePhase,
    observed: ProbeEvent,
    elapsed_ms: u64,
    policy: ProbePolicy,
)
    ensures
        next_stage(
            kind,
            LaunchStage::ConfirmingSpawn,
            LaunchEvent::Probe(ProbeEvent::Process { state: ProcessState::Running, elapsed_ms }),
            policy,
        ) == stage_of_phase(
            next_phase(
                ProbePhase::CheckingProcess,
                ProbeEvent::Process { state: ProcessState::Running, elapsed_ms },
                policy,
            ),
        ),
        next_stage(kind, LaunchStage::Probing(phase), LaunchEvent::Probe(observed), policy)
            == stage_of_phase(next_phase(phase, observed, policy)),
{
}

/// A launch succeeds only through the readiness probe: the stage before
/// success is the probe's confirming phase, which only a successful reply
/// of the health endpoint leads to, and the latency reported is the one
/// measured at that reply.
pub proof fn lemma_success_needs_confirmed_reply(
    kind: CandidateKind,
    stage: LaunchStage,
    event: LaunchEvent,
    policy: ProbePolicy,
)
    requires
        stage_is_valid(stage),
        !(stage is Finished),
        next_stage(kind, stage, event, policy) is Finished,
        next_stage(kind, stage, event, policy)->Finished_0 is Ok,
    ensures
        stage is Probing,
        stage->Probing_0 is Confirming,
        next_stage(kind, stage, event, policy)->Finished_0->Ok_0 == stage->Probing_0->elapsed_ms,
{
}

/// A launch begins in a valid stage and every step keeps the stage valid.
pub proof fn lemma_stage_stays_valid(
    kind: CandidateKind,
    stage: LaunchStage,
    event: LaunchEvent,
    policy: ProbePolicy,
)
    requires
        stage_is_valid(stage),
    ensures
        stage_is_valid(LaunchStage::Reaping),
        stage_is_valid(next_stage(kind, stage, event, policy)),
{
}

/// A finished launch stays finished, whatever arrives.
pub proof fn lemma_finished_is_final(
    kind: CandidateKind,
    result: Result<u64, StartupError>,
    event: LaunchEvent,
    policy: ProbePolicy,
)
    ensures
        next_stage(kind, LaunchStage::Finished(result), event, policy) == LaunchStage::Finished(
            result,
        ),
{
}

} // verus!
