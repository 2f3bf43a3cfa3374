//! Readiness prober: turns "the process exists" into "the service answers"
//! by asking the health endpoint at intervals until it answers, the process
//! dies, or the wait budget runs out.
//!
//! The prober is a state machine. The caller performs the action that the
//! current phase waits for and hands the result back as an event.

use crate::launcher::ExitInfo;
use crate::launcher::ProcessState;
use vstd::prelude::*;

verus! {

/// The prober's timing.
#[derive(Clone, Copy, Debug, PartialEq, Eq)]
pub struct ProbePolicy {
    /// Pause between two probes, in milliseconds.
    pub poll_interval_ms: u64,
    /// The whole wait budget, in milliseconds.
    pub max_wait_ms: u64,
    /// How long a single request may take, in milliseconds.
    pub request_timeout_ms: u64,
}

/// What came back from one request to the health endpoint.
#[derive(Clone, Copy, Debug, PartialEq, Eq)]
pub enum HealthReply {
    /// A response with this status code.
    Status(u16),
    /// No response: the connection failed or the request timed out.
    NoAnswer,
}

/// How a probe run ended.
#[derive(Clone, Copy, Debug, PartialEq, Eq)]
pub enum ProbeVerdict {
    /// The service answered; `elapsed_ms` is the startup latency.
    Ready { elapsed_ms: u64 },
    /// The process ended before the service was confirmed ready.
    DiedDuringStartup(ExitInfo),
    /// The wait budget ran out while the process stayed alive.
    TimedOut,
}

/// Where a probe run stands.
#[derive(Clone, Copy, Debug, PartialEq, Eq)]
pub enum ProbePhase {
    /// Waiting to learn whether the process still runs.
    CheckingProcess,
    /// Waiting for the health endpoint's reply to a request that was sent
    /// `sent_ms` after the probe began.
    AwaitingReply { sent_ms: u64 },
    /// Waiting for the pause between two probes to end.
    Pausing,
    /// The service answered after `elapsed_ms`; waiting to learn whether
    /// the process still runs.
    Confirming { elapsed_ms: u64 },
    /// The run is over.
    Finished(ProbeVerdict),
}

/// What the caller is to do next.
#[derive(Clone, Copy, Debug, PartialEq, Eq)]
pub enum ProbeAction {
    /// Ask the operating system, without waiting, whether the process runs.
    CheckProcess,
    /// Send one request to the health endpoint, giving up after
    /// `timeout_ms`.
    SendRequest { timeout_ms: u64 },
    /// Sleep for `duration_ms`.
    Sleep { duration_ms: u64 },
    /// Stop probing.
    Finish(ProbeVerdict),
}

/// What the caller observed. Every event carries the caller's clock: the
/// milliseconds since the probe began.
#[derive(Clone, Copy, Debug, PartialEq, Eq)]
pub enum ProbeEvent {
    /// The answer to `CheckProcess`.
    Process { state: ProcessState, elapsed_ms: u64 },
    /// The answer to `SendRequest`.
    Reply { reply: HealthReply, elapsed_ms: u64 },
    /// The pause is over.
    Slept { elapsed_ms: u64 },
}

/// The reply shows a service that is ready: a status from 200 to 299.
pub open spec fn is_success(reply: HealthReply) -> bool {
    match reply {
        HealthReply::Status(code) => 200 <= code && code <= 299,
        HealthReply::NoAnswer => false,
    }
}

/// The clock that an event carries.
pub open spec fn elapsed_of(event: ProbeEvent) -> u64 {
    match event {
        ProbeEvent::Process { state, elapsed_ms } => elapsed_ms,
        ProbeEvent::Reply { reply, elapsed_ms } => elapsed_ms,
        ProbeEvent::Slept { elapsed_ms } => elapsed_ms,
    }
}

/// The time by which every probe run is over: the wait budget and one poll
/// interval.
pub open spec fn deadline(policy: ProbePolicy) -> int {
    policy.max_wait_ms + policy.poll_interval_ms
}

/// How long a request that is sent at `now` may take: the request timeout,
/// but no longer than what is left until the deadline.
pub open spec fn capped_timeout(policy: ProbePolicy, now: u64) -> u64 {
    if now >= deadline(policy) {
        0
    } else if deadline(policy) - now < policy.request_timeout_ms {
        (deadline(policy) - now) as u64
    } else {
        policy.request_timeout_ms
    }
}

/// The action that a phase waits for.
pub open spec fn awaited_action(phase: ProbePhase, policy: ProbePolicy) -> ProbeAction {
    match phase {
        ProbePhase::CheckingProcess => ProbeAction::CheckProcess,
        ProbePhase::AwaitingReply { sent_ms } => ProbeAction::SendRequest {
            timeout_ms: capped_timeout(policy, sent_ms),
        },
        ProbePhase::Pausing => ProbeAction::Sleep { duration_ms: policy.poll_interval_ms },
        ProbePhase::Confirming { elapsed_ms } => ProbeAction::CheckProcess,
        ProbePhase::Finished(verdict) => ProbeAction::Finish(verdict),
    }
}

/// The phase that follows when `event` arrives in `phase`.
///
/// Each round checks the process first: a process that has ended finishes
/// the run; for one that runs (or whose state could not be read) a request
/// is sent, unless the deadline has come, which finishes the run as timed
/// out. A successful reply is confirmed by one more check of the process.
/// An unsuccessful reply ends the run once the wait budget is exceeded, and
/// else leads to a pause. An event that the phase does not wait for changes
/// nothing.
pub open spec fn next_phase(phase: ProbePhase, event: ProbeEvent, policy: ProbePolicy) ->
    ProbePhase {
    match (phase, event) {
        (ProbePhase::CheckingProcess, ProbeEvent::Process { state, elapsed_ms }) => {
            match state {
                ProcessState::Exited(info) => ProbePhase::Finished(
                    ProbeVerdict::DiedDuringStartup(info),
                ),
                _ => if elapsed_ms >= deadline(policy) {
                    ProbePhase::Finished(ProbeVerdict::TimedOut)
                } else {
                    ProbePhase::AwaitingReply { sent_ms: elapsed_ms }
                },
            }
        },
        (ProbePhase::AwaitingReply { sent_ms }, ProbeEvent::Reply { reply, elapsed_ms }) => {
            if is_success(reply) {
                ProbePhase::Confirming { elapsed_ms }
            } else if elapsed_ms > policy.max_wait_ms {
                ProbePhase::Finished(ProbeVerdict::TimedOut)
            } else {
                ProbePhase::Pausing
            }
        },
        (ProbePhase::Pausing, ProbeEvent::Slept { elapsed_ms }) => ProbePhase::CheckingProcess,
        (ProbePhase::Confirming { elapsed_ms }, ProbeEvent::Process { state, elapsed_ms: _ }) => {
            match state {
                ProcessState::Exited(info) => ProbePhase::Finished(
                    ProbeVerdict::DiedDuringStartup(info),
                ),
                _ => ProbePhase::Finished(ProbeVerdict::Ready { elapsed_ms }),
            }
        },
        _ => phase,
    }
}

/// The usual timing: a probe every 500 ms, 2 s for each request, 30 s in
/// all.
pub fn standard_policy() -> (r: ProbePolicy)
    ensures
        r == (ProbePolicy { poll_interval_ms: 500, max_wait_ms: 30_000, request_timeout_ms: 2_000 }),
{
    ProbePolicy { poll_interval_ms: 500, max_wait_ms: 30_000, request_timeout_ms: 2_000 }
}

/// Whether a reply shows a service that is ready.
pub fn reply_is_success(reply: HealthReply) -> (r: bool)
    ensures
        r == is_success(reply),
{
    match reply {
        HealthReply::Status(code) => 200 <= code && code <= 299,
        HealthReply::NoAnswer => false,
    }
}

/// Whether the deadline has come at `now`.
pub fn deadline_reached(policy: ProbePolicy, now: u64) -> (r: bool)
    ensures
        r == (now >= deadline(policy)),
{
    now >= policy.max_wait_ms && now - policy.max_wait_ms >= policy.poll_interval_ms
}

/// How long a request that is sent at `now` may take.
pub fn request_timeout(policy: ProbePolicy, now: u64) -> (r: u64)
    ensures
        r == capped_timeout(policy, now),
{
    if deadline_reached(policy, now) {
        0
    } else if now >= policy.max_wait_ms {
        let left: u64 = policy.poll_interval_ms - (now - policy.max_wait_ms);
        if left < policy.request_timeout_ms {
            left
        } else {
            policy.request_timeout_ms
        }
    } else {
        let before: u64 = policy.max_wait_ms - now;
        if before >= policy.request_timeout_ms {
            policy.request_timeout_ms
        } else if policy.poll_interval_ms >= policy.request_timeout_ms - before {
            policy.request_timeout_ms
        } else {
            before + policy.poll_interval_ms
        }
    }
}

/// One run of the readiness probe.
#[derive(Clone, Copy, Debug, PartialEq, Eq)]
pub struct Prober {
    pub phase: ProbePhase,
    pub policy: ProbePolicy,
}

impl Prober {
    /// A run that has not looked at anything yet.
    pub fn new(policy: ProbePolicy) -> (r: Prober)
        ensures
            r.phase == ProbePhase::CheckingProcess,
            r.policy == policy,
    {
        Prober { phase: ProbePhase::CheckingProcess, policy }
    }

    /// What the caller is to do next.
    pub fn action(&self) -> (r: ProbeAction)
        ensures
            r == awaited_action(self.phase, self.policy),
    {
        match self.phase {
            ProbePhase::CheckingProcess => ProbeAction::CheckProcess,
            ProbePhase::AwaitingReply { sent_ms } => ProbeAction::SendRequest {
                timeout_ms: request_timeout(self.policy, sent_ms),
            },
            ProbePhase::Pausing => ProbeAction::Sleep { duration_ms: self.policy.poll_interval_ms },
            ProbePhase::Confirming { elapsed_ms: _ } => ProbeAction::CheckProcess,
            ProbePhase::Finished(verdict) => ProbeAction::Finish(verdict),
        }
    }

    /// The verdict, once the run is over.
    pub fn verdict(&self) -> (r: Option<ProbeVerdict>)
        ensures
            r == match self.phase {
                ProbePhase::Finished(v) => Some(v),
                _ => None::<ProbeVerdict>,
            },
    {
        match self.phase {
            ProbePhase::Finished(v) => Some(v),
            _ => None,
        }
    }

    /// Takes in what the caller observed and returns what to do next.
    pub fn handle(&mut self, event: ProbeEvent) -> (r: ProbeAction)
        ensures
            final(self).policy == old(self).policy,
            final(self).phase == next_phase(old(self).phase, event, old(self).policy),
            r == awaited_action(final(self).phase, final(self).policy),
    {
        let next: ProbePhase = match self.phase {
            ProbePhase::CheckingProcess => match event {
                ProbeEvent::Process { state, elapsed_ms } => match state {
                    ProcessState::Exited(info) => ProbePhase::Finished(
                        ProbeVerdict::DiedDuringStartup(info),
                    ),
                    _ => {
                        if deadline_reached(self.policy, elapsed_ms) {
                            ProbePhase::Finished(ProbeVerdict::TimedOut)
                        } else {
                            ProbePhase::AwaitingReply { sent_ms: elapsed_ms }
                        }
                    },
                },
                _ => self.phase,
            },
            ProbePhase::AwaitingReply { sent_ms: _ } => match event {
                ProbeEvent::Reply { reply, elapsed_ms } => {
                    if reply_is_success(reply) {
                        ProbePhase::Confirming { elapsed_ms }
                    } else if elapsed_ms > self.policy.max_wait_ms {
                        ProbePhase::Finished(ProbeVerdict::TimedOut)
                    } else {
                        ProbePhase::Pausing
                    }
                },
                _ => self.phase,
            },
            ProbePhase::Pausing => match event {
                ProbeEvent::Slept { elapsed_ms: _ } => ProbePhase::CheckingProcess,
                _ => self.phase,
            },
            ProbePhase::Confirming { elapsed_ms } => match event {
                ProbeEvent::Process { state, elapsed_ms: _ } => match state {
                    ProcessState::Exited(info) => ProbePhase::Finished(
                        ProbeVerdict::DiedDuringStartup(info),
                    ),
                    _ => ProbePhase::Finished(ProbeVerdict::Ready { elapsed_ms }),
                },
                _ => self.phase,
            },
            ProbePhase::Finished(_) => self.phase,
        };
        self.phase = next;
        self.action()
    }
}

/// The phase is one in which the run is over.
pub open spec fn is_finished(phase: ProbePhase) -> bool {
    phase is Finished
}

/// The event answers the action that the phase waits for, and comes when
/// that action is over at the latest, counted from `now`, the time the
/// action was asked for: a look at the process takes no time, a reply comes
/// within the timeout of its request, and a pause lasts what was asked.
pub open spec fn in_time(phase: ProbePhase, now: int, event: ProbeEvent, policy: ProbePolicy) -> bool {
    match (phase, event) {
        (ProbePhase::CheckingProcess, ProbeEvent::Process { state, elapsed_ms }) => elapsed_ms
            == now,
        (ProbePhase::Confirming { elapsed_ms: _ }, ProbeEvent::Process { state, elapsed_ms }) => {
            elapsed_ms == now
        },
        (ProbePhase::AwaitingReply { sent_ms }, ProbeEvent::Reply { reply, elapsed_ms }) => now
            <= elapsed_ms <= now + capped_timeout(policy, sent_ms),
        (ProbePhase::Pausing, ProbeEvent::Slept { elapsed_ms }) => elapsed_ms == now
            + policy.poll_interval_ms,
        _ => false,
    }
}

/// The phase fits the time `now`: nothing is under way after the
/// deadline, a request is under way only if it was sent before the
/// deadline, and a pause begins only within the wait budget.
pub open spec fn within_deadline(phase: ProbePhase, now: int, policy: ProbePolicy) -> bool {
    0 <= now <= deadline(policy) && match phase {
        ProbePhase::AwaitingReply { sent_ms } => sent_ms == now && now < deadline(policy),
        ProbePhase::Pausing => now <= policy.max_wait_ms,
        ProbePhase::Confirming { elapsed_ms } => elapsed_ms == now,
        _ => true,
    }
}

/// How many pauses can still begin at time `now`.
pub open spec fn pauses_left(policy: ProbePolicy, now: int) -> int {
    if now > policy.max_wait_ms || policy.poll_interval_ms == 0 {
        0
    } else {
        (policy.max_wait_ms - now) / (policy.poll_interval_ms as int) + 1
    }
}

/// An upper bound on the number of events that a run can still take in
/// from a phase at time `now`.
pub open spec fn steps_left(phase: ProbePhase, now: int, policy: ProbePolicy) -> int {
    match phase {
        ProbePhase::CheckingProcess => 3 * pauses_left(policy, now) + 3,
        ProbePhase::AwaitingReply { sent_ms } => 3 * pauses_left(policy, now) + 2,
        ProbePhase::Pausing => 3 * pauses_left(policy, now) + 1,
        ProbePhase::Confirming { elapsed_ms } => 1,
        ProbePhase::Finished(_) => 0,
    }
}

/// A run that begins in `phase` at time `now`: each event answers, in
/// time, the action that the phase before it waits for.
pub open spec fn is_run(
    phase: ProbePhase,
    now: int,
    events: Seq<ProbeEvent>,
    policy: ProbePolicy,
) -> bool
    decreases events.len(),
{
    events.len() == 0 || (in_time(phase, now, events[0], policy) && is_run(
        next_phase(phase, events[0], policy),
        elapsed_of(events[0]) as int,
        events.drop_first(),
        policy,
    ))
}

/// The phase that a run ends in.
pub open spec fn phase_after_run(
    phase: ProbePhase,
    events: Seq<ProbeEvent>,
    policy: ProbePolicy,
) -> ProbePhase
    decreases events.len(),
{
    if events.len() == 0 {
        phase
    } else {
        phase_after_run(next_phase(phase, events[0], policy), events.drop_first(), policy)
    }
}

/// The number of pauses that can still begin does not grow with time, is
/// never negative, and is one less a poll interval after a time within the
/// wait budget.
pub proof fn lemma_pauses_left(policy: ProbePolicy, now: int, later: int)
    requires
        policy.poll_interval_ms > 0,
        0 <= now <= later,
    ensures
        0 <= pauses_left(policy, later) <= pauses_left(policy, now),
        pauses_left(policy, now) <= policy.max_wait_ms / policy.poll_interval_ms + 1,
        now <= policy.max_wait_ms ==> pauses_left(policy, now + policy.poll_interval_ms)
            == pauses_left(policy, now) - 1,
{
    let p = policy.poll_interval_ms as int;
    let m = policy.max_wait_ms as int;
    if now <= m {
        let a = m - now;
        assert(0 <= a / p <= m / p) by (nonlinear_arith)
            requires
                p > 0,
                0 <= a <= m,
        ;
        if later <= m {
            let b = m - later;
            assert(0 <= b / p <= a / p) by (nonlinear_arith)
                requires
                    p > 0,
                    0 <= b <= a,
            ;
        }
        if now + p <= m {
            assert((a - p) / p == a / p - 1) by (nonlinear_arith)
                requires
                    p > 0,
                    a >= p,
            ;
        } else {
            assert(a / p == 0) by (nonlinear_arith)
                requires
                    p > 0,
                    0 <= a < p,
            ;
        }
    } else {
        assert(m / p >= 0) by (nonlinear_arith)
            requires
                p > 0,
                m >= 0,
        ;
    }
}

/// Every event of a run comes by the deadline and leaves the probe in a
/// phase that fits its time.
pub proof fn lemma_step_meets_deadline(
    phase: ProbePhase,
    now: int,
    event: ProbeEvent,
    policy: ProbePolicy,
)
    requires
        within_deadline(phase, now, policy),
        in_time(phase, now, event, policy),
    ensures
        now <= elapsed_of(event) <= deadline(policy),
        within_deadline(next_phase(phase, event, policy), elapsed_of(event) as int, policy),
{
}

/// Every event of a run uses up one of the steps that are left.
pub proof fn lemma_step_uses_budget(
    phase: ProbePhase,
    now: int,
    event: ProbeEvent,
    policy: ProbePolicy,
)
    requires
        policy.poll_interval_ms > 0,
        within_deadline(phase, now, policy),
        in_time(phase, now, event, policy),
    ensures
        0 <= steps_left(next_phase(phase, event, policy), elapsed_of(event) as int, policy)
            < steps_left(phase, now, policy),
{
    lemma_pauses_left(policy, now, elapsed_of(event) as int);
    if phase is Pausing {
        lemma_pauses_left(policy, now, now);
    }
}

/// In a run from any phase that fits its time, every event comes by the
/// deadline.
pub proof fn lemma_run_meets_deadline(
    phase: ProbePhase,
    now: int,
    events: Seq<ProbeEvent>,
    policy: ProbePolicy,
)
    requires
        within_deadline(phase, now, policy),
        is_run(phase, now, events, policy),
    ensures
        forall|i: int| 0 <= i < events.len() ==> elapsed_of(#[trigger] events[i]) <= deadline(policy),
    decreases events.len(),
{
    if events.len() > 0 {
        lemma_step_meets_deadline(phase, now, events[0], policy);
        let rest = events.drop_first();
        lemma_run_meets_deadline(
            next_phase(phase, events[0], policy),
            elapsed_of(events[0]) as int,
            rest,
            policy,
        );
        assert forall|i: int| 0 <= i < events.len() implies elapsed_of(#[trigger] events[i])
            <= deadline(policy) by {
            if i > 0 {
                assert(events[i] == rest[i - 1]);
            }
        }
    }
}

/// A run from any phase that fits its time is no longer than the steps
/// that are left, and is over once none is left.
pub proof fn lemma_run_is_bounded(
    phase: ProbePhase,
    now: int,
    events: Seq<ProbeEvent>,
    policy: ProbePolicy,
)
    requires
        policy.poll_interval_ms > 0,
        within_deadline(phase, now, policy),
        is_run(phase, now, events, policy),
    ensures
        events.len() <= steps_left(phase, now, policy),
        events.len() == steps_left(phase, now, policy) ==> phase_after_run(phase, events, policy)
            is Finished,
    decreases events.len(),
{
    lemma_pauses_left(policy, now, now);
    if events.len() > 0 {
        lemma_step_meets_deadline(phase, now, events[0], policy);
        lemma_step_uses_budget(phase, now, events[0], policy);
        lemma_run_is_bounded(
            next_phase(phase, events[0], policy),
            elapsed_of(events[0]) as int,
            events.drop_first(),
            policy,
        );
    }
}

/// The readiness probe ends within `max_wait + poll_interval`. In every run
/// from the start in which the caller's actions take the time they were
/// given, each event, and so the one that brings the verdict, comes no
/// later than `max_wait + poll_interval` after the probe began.
pub proof fn lemma_verdict_comes_by_deadline(events: Seq<ProbeEvent>, policy: ProbePolicy)
    requires
        is_run(ProbePhase::CheckingProcess, 0, events, policy),
    ensures
        forall|i: int|
            0 <= i < events.len() ==> elapsed_of(#[trigger] events[i]) <= policy.max_wait_ms
                + policy.poll_interval_ms,
{
    lemma_run_meets_deadline(ProbePhase::CheckingProcess, 0, events, policy);
}

/// The readiness probe ends after a bounded number of steps: a run from the
/// start takes in no more than `3 * (max_wait / poll_interval + 1) + 3`
/// events, and one of that length has brought the verdict.
pub proof fn lemma_probe_takes_bounded_steps(events: Seq<ProbeEvent>, policy: ProbePolicy)
    requires
        policy.poll_interval_ms > 0,
        is_run(ProbePhase::CheckingProcess, 0, events, policy),
    ensures
        events.len() <= 3 * (policy.max_wait_ms / policy.poll_interval_ms + 1) + 3,
        events.len() == 3 * (policy.max_wait_ms / policy.poll_interval_ms + 1) + 3
            ==> phase_after_run(ProbePhase::CheckingProcess, events, policy) is Finished,
{
    lemma_pauses_left(policy, 0, 0);
    lemma_run_is_bounded(ProbePhase::CheckingProcess, 0, events, policy);
}

/// No request is sent at or after the deadline, and none may outlast it:
/// a request is asked for only before the deadline, with a timeout that
/// ends by the deadline and is never longer than the request timeout.
pub proof fn lemma_request_ends_by_deadline(
    state: ProcessState,
    elapsed_ms: u64,
    policy: ProbePolicy,
)
    ensures
        ({
            let after = next_phase(
                ProbePhase::CheckingProcess,
                ProbeEvent::Process { state, elapsed_ms },
                policy,
            );
            &&& after is AwaitingReply ==> elapsed_ms < deadline(policy) && after->sent_ms
                == elapsed_ms
            &&& elapsed_ms >= deadline(policy) ==> after is Finished
            &&& capped_timeout(policy, elapsed_ms) <= policy.request_timeout_ms
            &&& elapsed_ms <= deadline(policy) ==> elapsed_ms + capped_timeout(policy, elapsed_ms)
                <= deadline(policy)
        }),
{
}

/// A pause begins only on an unsuccessful reply that came within the wait
/// budget, and lasts one poll interval.
pub proof fn lemma_pause_within_budget(phase: ProbePhase, event: ProbeEvent, policy: ProbePolicy)
    requires
        !(phase is Pausing),
        next_phase(phase, event, policy) is Pausing,
    ensures
        phase is AwaitingReply,
        event is Reply,
        !is_success(event->reply),
        elapsed_of(event) <= policy.max_wait_ms,
        awaited_action(next_phase(phase, event, policy), policy) == (ProbeAction::Sleep {
            duration_ms: policy.poll_interval_ms,
        }),
{
}

/// A run is ready only after the health endpoint answered with success:
/// whatever the operating system says of the process, no phase but
/// `Confirming`, which only a successful reply leads to, gives `Ready`.
pub proof fn lemma_ready_needs_successful_reply(
    phase: ProbePhase,
    event: ProbeEvent,
    policy: ProbePolicy,
)
    requires
        !is_finished(phase),
        next_phase(phase, event, policy) is Finished,
        next_phase(phase, event, policy)->Finished_0 is Ready,
    ensures
        phase is Confirming,
        next_phase(phase, event, policy)->Finished_0->elapsed_ms == phase->elapsed_ms,
{
}

/// The confirming phase is entered only on a successful reply.
pub proof fn lemma_confirming_needs_successful_reply(
    phase: ProbePhase,
    event: ProbeEvent,
    policy: ProbePolicy,
)
    requires
        !(phase is Confirming),
        next_phase(phase, event, policy) is Confirming,
    ensures
        phase is AwaitingReply,
        event is Reply,
        is_success(event->reply),
        next_phase(phase, event, policy)->elapsed_ms == elapsed_of(event),
{
}

} // verus!
