//! Lifecycle supervisor: owns the slot that holds the one backend process,
//! and drives its teardown on every exit path.

use vstd::prelude::*;

verus! {

/// How long, in milliseconds, a process is given to end after it was asked
/// to, before the whole process tree is killed by force.
pub const KILL_GRACE_MS: u64 = 100;

/// How long, in milliseconds, an application exit waits after the kill
/// for the process to be gone.
pub const EXIT_SETTLE_MS: u64 = 200;

/// How long, in milliseconds, to wait before blocking on the slot's lock
/// when it could not be taken at once.
pub const LOCK_RETRY_MS: u64 = 50;

/// The handle of a spawned backend process. There is never more than one,
/// and it is never copied.
#[derive(Debug, PartialEq, Eq)]
pub struct ProcessHandle {
    pub pid: u32,
    /// The process's output streams are captured.
    pub captures_output: bool,
    /// When the process was spawned, in milliseconds on the caller's clock.
    pub started_at_ms: u64,
}

/// The slot for the one backend process.
#[derive(Debug, PartialEq, Eq)]
pub enum Slot {
    /// No process and no launch under way.
    Empty,
    /// A launch is under way; the process is there once it was spawned.
    Starting(Option<ProcessHandle>),
    /// The process runs and the service has answered.
    Running(ProcessHandle),
    /// The process was asked to end.
    Stopping(ProcessHandle),
}

/// The four states of the slot.
#[derive(Clone, Copy, Debug, PartialEq, Eq, Structural)]
pub enum SlotState {
    Empty,
    Starting,
    Running,
    Stopping,
}

/// A launch was refused.
#[derive(Clone, Copy, Debug, PartialEq, Eq, Structural)]
pub enum SupervisorError {
    /// The slot is not empty: a launch is under way, a process runs, or one
    /// is being stopped.
    Busy(SlotState),
}

/// What the caller does next to stop the process.
#[derive(Clone, Copy, Debug, PartialEq, Eq, Structural)]
pub enum StopStep {
    /// Nothing is being stopped.
    Idle,
    /// Ask the process to end of its own accord. This is the first request
    /// of every teardown.
    AskToEnd { pid: u32 },
    /// The process is still alive and its grace period is not over: look
    /// again after at most `remaining_ms`.
    KeepWaiting { remaining_ms: u64 },
    /// The grace period is over: kill the whole process tree by force.
    Escalate { pid: u32 },
    /// The process is gone.
    Done,
}

impl Slot {
    /// The state that the slot is in.
    pub open spec fn state_of(self) -> SlotState {
        match self {
            Slot::Empty => SlotState::Empty,
            Slot::Starting(_) => SlotState::Starting,
            Slot::Running(_) => SlotState::Running,
            Slot::Stopping(_) => SlotState::Stopping,
        }
    }

    /// The process that the slot holds, if it holds one.
    pub open spec fn handle_of(self) -> Option<ProcessHandle> {
        match self {
            Slot::Empty => None,
            Slot::Starting(h) => h,
            Slot::Running(h) => Some(h),
            Slot::Stopping(h) => Some(h),
        }
    }

    /// The slot after a launch was asked for: only an empty slot takes it.
    pub open spec fn after_begin_launch(self) -> Slot {
        match self {
            Slot::Empty => Slot::Starting(None),
            other => other,
        }
    }

    /// The slot after a spawned process was offered to it: only a starting
    /// slot that holds no process takes it.
    pub open spec fn after_attach(self, handle: ProcessHandle) -> Slot {
        match self {
            Slot::Starting(None) => Slot::Starting(Some(handle)),
            other => other,
        }
    }

    /// The slot after the service was seen to answer: only a starting slot
    /// that holds a process becomes running.
    pub open spec fn after_ready(self) -> Slot {
        match self {
            Slot::Starting(Some(h)) => Slot::Running(h),
            other => other,
        }
    }

    /// The slot after a kill request: a slot that holds a process is
    /// stopping it; one that holds none is empty.
    pub open spec fn after_kill_request(self) -> Slot {
        match self.handle_of() {
            Some(h) => Slot::Stopping(h),
            None => Slot::Empty,
        }
    }

    /// What the caller does on a kill request: it asks the process that
    /// the slot holds to end of its own accord, and does nothing where the
    /// slot holds none.
    pub open spec fn kill_step_of(self) -> StopStep {
        match self.handle_of() {
            Some(h) => StopStep::AskToEnd { pid: h.pid },
            None => StopStep::Idle,
        }
    }

    /// The slot after the caller reported, `waited_ms` after the kill
    /// request, whether the process is still alive: a stopping slot becomes
    /// empty once the process is gone or its grace period is over.
    pub open spec fn after_stop_report(self, alive: bool, waited_ms: u64) -> Slot {
        match self {
            Slot::Stopping(h) => if alive && waited_ms < KILL_GRACE_MS {
                Slot::Stopping(h)
            } else {
                Slot::Empty
            },
            other => other,
        }
    }

    /// What the caller does after such a report.
    pub open spec fn stop_step_of(self, alive: bool, waited_ms: u64) -> StopStep {
        match self {
            Slot::Stopping(h) => if !alive {
                StopStep::Done
            } else if waited_ms < KILL_GRACE_MS {
                StopStep::KeepWaiting { remaining_ms: (KILL_GRACE_MS - waited_ms) as u64 }
            } else {
                StopStep::Escalate { pid: h.pid }
            },
            _ => StopStep::Idle,
        }
    }
}

/// The owner of the slot. Every access to the backend process goes through
/// it.
#[derive(Debug, PartialEq, Eq)]
pub struct Supervisor {
    pub slot: Slot,
}

impl Supervisor {
    /// A supervisor with an empty slot.
    pub fn new() -> (r: Supervisor)
        ensures
            r.slot == Slot::Empty,
    {
        Supervisor { slot: Slot::Empty }
    }

    /// The state that the slot is in.
    pub fn state(&self) -> (r: SlotState)
        ensures
            r == self.slot.state_of(),
    {
        match &self.slot {
            Slot::Empty => SlotState::Empty,
            Slot::Starting(_) => SlotState::Starting,
            Slot::Running(_) => SlotState::Running,
            Slot::Stopping(_) => SlotState::Stopping,
        }
    }

    /// The id of the process that the slot holds, if it holds one.
    pub fn pid(&self) -> (r: Option<u32>)
        ensures
            r == match self.slot.handle_of() {
                Some(h) => Some(h.pid),
                None => None::<u32>,
            },
    {
        match &self.slot {
            Slot::Empty => None,
            Slot::Starting(h) => match h {
                Some(h) => Some(h.pid),
                None => None,
            },
            Slot::Running(h) => Some(h.pid),
            Slot::Stopping(h) => Some(h.pid),
        }
    }

    /// Begins a launch. Only an empty slot takes one: while a launch is
    /// under way, a process runs or one is being stopped, the launch is
    /// refused and nothing changes.
    pub fn begin_launch(&mut self) -> (r: Result<(), SupervisorError>)
        ensures
            final(self).slot == old(self).slot.after_begin_launch(),
            old(self).slot is Empty ==> r is Ok,
            !(old(self).slot is Empty) ==> r == Err::<(), SupervisorError>(
                SupervisorError::Busy(old(self).slot.state_of()),
            ),
    {
        let state = self.state();
        match state {
            SlotState::Empty => {
                self.slot = Slot::Starting(None);
                Ok(())
            },
            _ => Err(SupervisorError::Busy(state)),
        }
    }

    /// Stores the process that the launch spawned. The slot takes it only
    /// while it is starting and holds no process yet; else the handle comes
    /// back and nothing changes, and the caller has to end that process.
    pub fn attach(&mut self, handle: ProcessHandle) -> (r: Result<(), ProcessHandle>)
        ensures
            final(self).slot == old(self).slot.after_attach(handle),
            old(self).slot == Slot::Starting(None) ==> r is Ok,
            old(self).slot != Slot::Starting(None) ==> r == Err::<(), ProcessHandle>(handle),
    {
        let vacant: bool = match &self.slot {
            Slot::Starting(h) => h.is_none(),
            _ => false,
        };
        if vacant {
            self.slot = Slot::Starting(Some(handle));
            Ok(())
        } else {
            Err(handle)
        }
    }

    /// Records that the readiness probe saw the service answer. Only a
    /// starting slot that holds a process becomes running; else nothing
    /// changes and the result is `false`.
    pub fn mark_ready(&mut self) -> (r: bool)
        ensures
            final(self).slot == old(self).slot.after_ready(),
            r == (old(self).slot is Starting && old(self).slot.handle_of() is Some),
    {
        let mut taken: Slot = Slot::Empty;
        core::mem::swap(&mut self.slot, &mut taken);
        match taken {
            Slot::Starting(Some(h)) => {
                self.slot = Slot::Running(h);
                true
            },
            other => {
                self.slot = other;
                false
            },
        }
    }

    /// Asks for the process to be stopped, from whatever state. Returns the
    /// first step of the teardown: to ask the process to end of its own
    /// accord, or nothing where the slot holds none.
    pub fn request_kill(&mut self) -> (r: StopStep)
        ensures
            final(self).slot == old(self).slot.after_kill_request(),
            r == old(self).slot.kill_step_of(),
    {
        let mut taken: Slot = Slot::Empty;
        core::mem::swap(&mut self.slot, &mut taken);
        match taken {
            Slot::Empty => StopStep::Idle,
            Slot::Starting(None) => StopStep::Idle,
            Slot::Starting(Some(h)) => {
                let pid = h.pid;
                self.slot = Slot::Stopping(h);
                StopStep::AskToEnd { pid }
            },
            Slot::Running(h) => {
                let pid = h.pid;
                self.slot = Slot::Stopping(h);
                StopStep::AskToEnd { pid }
            },
            Slot::Stopping(h) => {
                let pid = h.pid;
                self.slot = Slot::Stopping(h);
                StopStep::AskToEnd { pid }
            },
        }
    }

    /// Takes in whether the process is still alive `waited_ms` after the
    /// kill request, and says what to do next.
    pub fn confirm_stopped(&mut self, alive: bool, waited_ms: u64) -> (r: StopStep)
        ensures
            final(self).slot == old(self).slot.after_stop_report(alive, waited_ms),
            r == old(self).slot.stop_step_of(alive, waited_ms),
    {
        let mut taken: Slot = Slot::Empty;
        core::mem::swap(&mut self.slot, &mut taken);
        match taken {
            Slot::Stopping(h) => {
                if !alive {
                    StopStep::Done
                } else if waited_ms < KILL_GRACE_MS {
                    self.slot = Slot::Stopping(h);
                    StopStep::KeepWaiting { remaining_ms: KILL_GRACE_MS - waited_ms }
                } else {
                    StopStep::Escalate { pid: h.pid }
                }
            },
            other => {
                self.slot = other;
                StopStep::Idle
            },
        }
    }
}

/// The slot never holds two processes, and a process that it holds is
/// never replaced: a launch that is asked for, or a process that is offered,
/// while the slot holds a process changes nothing.
pub proof fn lemma_held_process_is_kept(slot: Slot, offered: ProcessHandle)
    requires
        slot.handle_of() is Some,
    ensures
        slot.after_begin_launch() == slot,
        slot.after_attach(offered) == slot,
{
}

/// A second launch while a process runs is refused.
pub proof fn lemma_running_refuses_launch(slot: Slot, offered: ProcessHandle)
    requires
        slot is Running,
    ensures
        slot.after_begin_launch() == slot,
        slot.after_attach(offered) == slot,
        slot.after_ready() == slot,
{
}

/// The slot becomes running only from starting, with the process that the
/// launch stored.
pub proof fn lemma_running_comes_from_starting(slot: Slot)
    requires
        !(slot is Running),
        slot.after_ready() is Running,
    ensures
        slot is Starting,
        slot.handle_of() == Some(slot.after_ready()->Running_0),
{
}

/// A kill request from any state leads to an empty slot: at once where the
/// slot holds no process, and else as soon as the process is reported gone
/// or its grace period is over.
pub proof fn lemma_kill_empties_slot(slot: Slot, alive: bool, waited_ms: u64)
    requires
        !alive || waited_ms >= KILL_GRACE_MS,
    ensures
        slot.handle_of() is None ==> slot.after_kill_request() == Slot::Empty,
        slot.after_kill_request().after_stop_report(alive, waited_ms) == Slot::Empty,
        !(slot.after_kill_request().stop_step_of(alive, waited_ms) is KeepWaiting),
{
}

/// While a stopping process is alive within its grace period, the caller
/// is told to wait for what is left of that period, and the slot keeps the
/// process.
pub proof fn lemma_stop_wait_is_bounded(slot: Slot, waited_ms: u64)
    requires
        slot is Stopping,
        waited_ms < KILL_GRACE_MS,
    ensures
        slot.stop_step_of(true, waited_ms) == (StopStep::KeepWaiting {
            remaining_ms: (KILL_GRACE_MS - waited_ms) as u64,
        }),
        slot.after_stop_report(true, waited_ms) == slot,
{
}

/// Every teardown begins with the request to end of its own accord, and
/// force follows only for a process that is still alive when its grace
/// period is over.
pub proof fn lemma_graceful_request_comes_first(slot: Slot, alive: bool, waited_ms: u64)
    requires
        slot.handle_of() is Some,
    ensures
        slot.kill_step_of() == (StopStep::AskToEnd { pid: slot.handle_of().unwrap().pid }),
        slot.after_kill_request().stop_step_of(alive, waited_ms) is Escalate <==> alive && waited_ms
            >= KILL_GRACE_MS,
        slot.after_kill_request().stop_step_of(alive, waited_ms) is Escalate
            ==> slot.after_kill_request().stop_step_of(alive, waited_ms)->Escalate_pid
            == slot.handle_of().unwrap().pid,
        !(slot.after_kill_request().stop_step_of(alive, waited_ms) is AskToEnd),
{
}

} // verus!
