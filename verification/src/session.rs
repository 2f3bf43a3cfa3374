//! One application session: the supervisor's slot together with the launch
//! that fills it. Every event of the session passes through here, so that
//! the slot and the launch never disagree.

use crate::locator::CandidateKind;
use crate::locator::LocateError;
use crate::prober::ProbeAction;
use crate::prober::ProbePolicy;
use crate::startup::awaited_launch_action;
use crate::startup::next_stage;
use crate::startup::Launch;
use crate::startup::LaunchAction;
use crate::startup::LaunchEvent;
use crate::startup::LaunchStage;
use crate::startup::StartupError;
use crate::supervisor::ProcessHandle;
use crate::supervisor::Slot;
use crate::supervisor::StopStep;
use crate::supervisor::Supervisor;
use vstd::prelude::*;

verus! {

/// The supervisor and the launch of one application session.
#[derive(Debug, PartialEq, Eq)]
pub struct Session {
    pub supervisor: Supervisor,
    /// The launch of this session, once one was begun.
    pub launch: Option<Launch>,
}

/// The event reports a spawned process. Such a report comes with the
/// process's handle and is not taken as a bare event.
pub open spec fn reports_spawn(event: LaunchEvent) -> bool {
    event == (LaunchEvent::Spawned { spawned: true })
}

/// The stage that the launch's own rules lead to when a bare event arrives.
pub open spec fn stage_by_rules(launch: Launch, event: LaunchEvent) -> LaunchStage {
    if reports_spawn(event) {
        launch.stage
    } else {
        next_stage(launch.kind, launch.stage, event, launch.policy)
    }
}

/// The launch has just ended: it was not over before and is over now.
pub open spec fn just_finished(before: LaunchStage, after: LaunchStage) -> bool {
    !(before is Finished) && after is Finished
}

/// The slot holds a process of a launch under way.
pub open spec fn holds_starting_process(slot: Slot) -> bool {
    slot is Starting && slot.handle_of() is Some
}

/// The stage of the launch after a bare event. A launch that ends in
/// success while the slot holds no starting process was overtaken by a kill
/// request, and ends as cancelled.
pub open spec fn stage_after_event(slot: Slot, launch: Launch, event: LaunchEvent) -> LaunchStage {
    let after = stage_by_rules(launch, event);
    if just_finished(launch.stage, after) && after->Finished_0 is Ok && !holds_starting_process(
        slot,
    ) {
        LaunchStage::Finished(Err(StartupError::Cancelled))
    } else {
        after
    }
}

/// The slot after a bare event. A launch that ends in success makes the
/// slot running; one that ends in failure has the slot stop whatever
/// process it holds; any other step leaves the slot alone.
pub open spec fn slot_after_event(slot: Slot, launch: Launch, event: LaunchEvent) -> Slot {
    let after = stage_by_rules(launch, event);
    if just_finished(launch.stage, after) {
        if after->Finished_0 is Ok {
            slot.after_ready()
        } else {
            slot.after_kill_request()
        }
    } else {
        slot
    }
}

/// The stage of a launch after a kill request: an unfinished launch ends as
/// cancelled.
pub open spec fn stage_after_kill(stage: LaunchStage) -> LaunchStage {
    if stage is Finished {
        stage
    } else {
        LaunchStage::Finished(Err(StartupError::Cancelled))
    }
}

/// The slot and the launch agree: before the spawn the slot is starting
/// and holds nothing, and from the spawn until the launch ends it is
/// starting and holds the process.
pub open spec fn consistent(slot: Slot, launch: Option<Launch>) -> bool {
    match launch {
        Some(l) => match l.stage {
            LaunchStage::Reaping
            | LaunchStage::PreparingBinary
            | LaunchStage::CheckingDependencies
            | LaunchStage::InstallingDependencies
            | LaunchStage::Spawning => slot == Slot::Starting(None),
            LaunchStage::ConfirmingSpawn => holds_starting_process(slot),
            LaunchStage::Probing(phase) => holds_starting_process(slot) && !(phase is Finished),
            LaunchStage::Finished(_) => !(slot is Starting),
        },
        None => !(slot is Starting),
    }
}

impl Session {
    /// A session with an empty slot and no launch.
    pub fn new() -> (r: Session)
        ensures
            r.supervisor.slot == Slot::Empty,
            r.launch is None,
            consistent(r.supervisor.slot, r.launch),
    {
        Session { supervisor: Supervisor::new(), launch: None }
    }

    /// Begins the launch of what the locator found. Where the locator found
    /// nothing, or the slot is not empty, the launch is refused and nothing
    /// changes.
    pub fn start(&mut self, located: Result<CandidateKind, LocateError>, policy: ProbePolicy) -> (r:
        LaunchAction)
        ensures
            located is Err ==> r == LaunchAction::Finish(Err(StartupError::NoRuntimeFound))
                && *final(self) == *old(self),
            located is Ok && !(old(self).supervisor.slot is Empty) ==> r == LaunchAction::Finish(
                Err(StartupError::Busy),
            ) && *final(self) == *old(self),
            located is Ok && old(self).supervisor.slot is Empty ==> r == LaunchAction::ReapPort
                && final(self).supervisor.slot == Slot::Starting(None) && final(self).launch
                == Some(Launch { kind: located->Ok_0, policy, stage: LaunchStage::Reaping }),
    {
        match located {
            Err(_) => LaunchAction::Finish(Err(StartupError::NoRuntimeFound)),
            Ok(kind) => match self.supervisor.begin_launch() {
                Err(_) => LaunchAction::Finish(Err(StartupError::Busy)),
                Ok(_) => {
                    let launch = Launch::new(kind, policy);
                    self.launch = Some(launch);
                    launch.action()
                },
            },
        }
    }

    /// The launch waits for the spawn and the slot can take the process.
    pub open spec fn awaits_spawn(self) -> bool {
        self.launch is Some && self.launch.unwrap().stage is Spawning && self.supervisor.slot
            == Slot::Starting(None)
    }

    /// Takes in the process that was spawned. The session takes it only
    /// while its launch waits for the spawn; else the handle comes back and
    /// nothing changes, and the caller has to end that process.
    pub fn spawned(&mut self, handle: ProcessHandle) -> (r: Result<LaunchAction, ProcessHandle>)
        ensures
            old(self).awaits_spawn() ==> r == Ok::<LaunchAction, ProcessHandle>(
                LaunchAction::Probe(ProbeAction::CheckProcess),
            ) && final(self).supervisor.slot == Slot::Starting(Some(handle)) && final(self).launch
                == Some(
                Launch { stage: LaunchStage::ConfirmingSpawn, ..old(self).launch.unwrap() },
            ),
            !old(self).awaits_spawn() ==> r == Err::<LaunchAction, ProcessHandle>(handle)
                && *final(self) == *old(self),
    {
        match self.launch {
            Some(launch) => match launch.stage {
                LaunchStage::Spawning => match self.supervisor.attach(handle) {
                    Ok(_) => {
                        let mut next = launch;
                        let action = next.handle(LaunchEvent::Spawned { spawned: true });
                        self.launch = Some(next);
                        Ok(action)
                    },
                    Err(back) => Err(back),
                },
                _ => Err(handle),
            },
            None => Err(handle),
        }
    }

    /// Takes in what the caller observed and returns what to do next, or
    /// `None` where no launch was begun. The report of a spawned process is
    /// not taken here: it comes with the handle, through `spawned`.
    pub fn observe(&mut self, event: LaunchEvent) -> (r: Option<LaunchAction>)
        ensures
            old(self).launch is None ==> r is None && *final(self) == *old(self),
            old(self).launch is Some ==> ({
                let launch = old(self).launch.unwrap();
                let slot = old(self).supervisor.slot;
                &&& final(self).launch == Some(
                    Launch { stage: stage_after_event(slot, launch, event), ..launch },
                )
                &&& final(self).supervisor.slot == slot_after_event(slot, launch, event)
                &&& r == Some(
                    awaited_launch_action(stage_after_event(slot, launch, event), launch.policy),
                )
            }),
    {
        match self.launch {
            None => None,
            Some(launch) => {
                let mut next = launch;
                let was_finished = launch.result().is_some();
                let is_spawn = match event {
                    LaunchEvent::Spawned { spawned } => spawned,
                    _ => false,
                };
                if !is_spawn {
                    let _ = next.handle(event);
                }
                if !was_finished {
                    match next.stage {
                        LaunchStage::Finished(Ok(_)) => {
                            if !self.supervisor.mark_ready() {
                                next.stage = LaunchStage::Finished(Err(StartupError::Cancelled));
                            }
                        },
                        LaunchStage::Finished(Err(_)) => {
                            let _ = self.supervisor.request_kill();
                        },
                        _ => {},
                    }
                }
                self.launch = Some(next);
                Some(next.action())
            },
        }
    }

    /// Asks for the process to be stopped, from whatever state, and ends a
    /// launch that is under way. Returns the first step of the teardown: to
    /// ask the process to end of its own accord, or nothing where the slot
    /// holds none.
    pub fn kill(&mut self) -> (r: StopStep)
        ensures
            final(self).supervisor.slot == old(self).supervisor.slot.after_kill_request(),
            r == old(self).supervisor.slot.kill_step_of(),
            final(self).launch == match old(self).launch {
                Some(l) => Some(Launch { stage: stage_after_kill(l.stage), ..l }),
                None => None::<Launch>,
            },
    {
        match self.launch {
            Some(launch) => {
                if launch.result().is_none() {
                    let mut ended = launch;
                    ended.stage = LaunchStage::Finished(Err(StartupError::Cancelled));
                    self.launch = Some(ended);
                }
            },
            None => {},
        }
        self.supervisor.request_kill()
    }

    /// Takes in whether the process is still alive `waited_ms` after the
    /// kill request, and says what to do next.
    pub fn confirm_stopped(&mut self, alive: bool, waited_ms: u64) -> (r: StopStep)
        ensures
            final(self).supervisor.slot == old(self).supervisor.slot.after_stop_report(
                alive,
                waited_ms,
            ),
            r == old(self).supervisor.slot.stop_step_of(alive, waited_ms),
            final(self).launch == old(self).launch,
    {
        self.supervisor.confirm_stopped(alive, waited_ms)
    }
}

/// The launch `launch` moved on to `stage`.
pub open spec fn at_stage(launch: Launch, stage: LaunchStage) -> Launch {
    Launch { stage, ..launch }
}

/// A session begins with slot and launch in agreement, and every event
/// keeps them so.
pub proof fn lemma_event_keeps_consistency(slot: Slot, launch: Launch, event: LaunchEvent)
    requires
        consistent(slot, Some(launch)),
    ensures
        consistent(Slot::Empty, None),
        consistent(
            slot_after_event(slot, launch, event),
            Some(at_stage(launch, stage_after_event(slot, launch, event))),
        ),
{
}

/// Beginning a launch, taking in the spawned process, a kill request and a
/// report on the stopping process each keep slot and launch in agreement.
pub proof fn lemma_session_keeps_consistency(
    slot: Slot,
    launch: Option<Launch>,
    kind: CandidateKind,
    policy: ProbePolicy,
    handle: ProcessHandle,
    alive: bool,
    waited_ms: u64,
)
    requires
        consistent(slot, launch),
    ensures
        slot is Empty ==> consistent(
            slot.after_begin_launch(),
            Some(Launch { kind, policy, stage: LaunchStage::Reaping }),
        ),
        launch is Some && launch.unwrap().stage is Spawning ==> consistent(
            slot.after_attach(handle),
            Some(at_stage(launch.unwrap(), LaunchStage::ConfirmingSpawn)),
        ),
        consistent(
            slot.after_kill_request(),
            match launch {
                Some(l) => Some(at_stage(l, stage_after_kill(l.stage))),
                None => None,
            },
        ),
        consistent(slot.after_stop_report(alive, waited_ms), launch),
{
}

/// The slot becomes running only when the readiness probe has seen the
/// service answer: the step that makes it running is the one that confirms
/// a successful reply, whatever the operating system says of the process
/// before.
pub proof fn lemma_running_needs_confirmed_reply(slot: Slot, launch: Launch, event: LaunchEvent)
    requires
        consistent(slot, Some(launch)),
        !(slot is Running),
        slot_after_event(slot, launch, event) is Running,
    ensures
        launch.stage is Probing,
        launch.stage->Probing_0 is Confirming,
        stage_after_event(slot, launch, event) == LaunchStage::Finished(
            Ok(launch.stage->Probing_0->elapsed_ms),
        ),
        slot_after_event(slot, launch, event) == Slot::Running(slot.handle_of().unwrap()),
{
}

/// While a launch is under way or a process is held, a second launch is
/// refused: the slot is not empty, so beginning a launch changes nothing.
pub proof fn lemma_second_launch_is_refused(slot: Slot, launch: Option<Launch>)
    requires
        consistent(slot, launch),
        (launch is Some && !(launch.unwrap().stage is Finished)) || slot.handle_of() is Some,
    ensures
        !(slot is Empty),
        slot.after_begin_launch() == slot,
{
}

/// A kill request that arrives while the launch is under way ends it: the
/// launch is cancelled, no later event makes the slot running, and the slot
/// is empty once the process is reported gone or its grace period is over.
pub proof fn lemma_kill_during_launch(
    slot: Slot,
    launch: Launch,
    event: LaunchEvent,
    alive: bool,
    waited_ms: u64,
)
    requires
        consistent(slot, Some(launch)),
        !(launch.stage is Finished),
        !alive || waited_ms >= crate::supervisor::KILL_GRACE_MS,
    ensures
        ({
            let stopping = slot.after_kill_request();
            let ended = at_stage(launch, stage_after_kill(launch.stage));
            &&& ended.stage == LaunchStage::Finished(Err(StartupError::Cancelled))
            &&& slot_after_event(stopping, ended, event) == stopping
            &&& stage_after_event(stopping, ended, event) == ended.stage
            &&& !(stopping is Running)
            &&& stopping.after_stop_report(alive, waited_ms) == Slot::Empty
        }),
{
}

/// A launch that fails after the spawn has the slot stop the process: the
/// slot is stopping with the very process that the launch stored.
pub proof fn lemma_failed_launch_stops_process(slot: Slot, launch: Launch, event: LaunchEvent)
    requires
        consistent(slot, Some(launch)),
        !(launch.stage is Finished),
        stage_after_event(slot, launch, event) is Finished,
        stage_after_event(slot, launch, event)->Finished_0 is Err,
    ensures
        slot.handle_of() is Some ==> slot_after_event(slot, launch, event) == Slot::Stopping(
            slot.handle_of().unwrap(),
        ),
        slot.handle_of() is None ==> slot_after_event(slot, launch, event) == Slot::Empty,
{
}

} // verus!
