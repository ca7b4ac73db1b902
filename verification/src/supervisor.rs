//! The `start` command's decisions: launch the server, wait for it to come
//! up, watch it, and restart it with backoff when it fails, within a restart
//! budget that a successful start gives back. The caller performs each
//! requested action and reports what happened.

use vstd::prelude::*;
use crate::health::{
    monitor_next_spec, monitor_start_spec, readiness_next_spec, readiness_start_spec,
    HealthAction, HealthEvent, HealthMonitor, ReadinessWait, MONITOR_INTERVAL_MS,
};
use crate::retry::{backoff_ms, RetryPolicy, RetryPolicyView};

verus! {

/// How long a started server gets to accept connections, in nanoseconds.
pub const READY_TIMEOUT_NS: u128 = 30_000_000_000;

/// What the caller is asked to do next.
#[derive(Clone, Copy, Debug, PartialEq, Eq, Structural)]
pub enum SupervisorAction {
    /// Start the server (this is launch number `attempt`) and report
    /// `Spawned` with the time, or `SpawnFailed`.
    Spawn { attempt: u64 },
    /// Try a TCP connection to the server, giving up after `timeout_ms`, and report `Probed`.
    Probe { timeout_ms: u64 },
    /// Pause for `ms` milliseconds, then report `Woke` with the time.
    Sleep { ms: u64 },
    /// Stop the server process, then report `Killed`.
    Kill,
    /// End the program with this exit status.
    Exit { code: i32 },
}

/// What the caller reports back.
#[derive(Clone, Copy, Debug, PartialEq, Eq, Structural)]
pub enum SupervisorEvent {
    /// The server process was started at `now_ns` on the caller's monotonic clock.
    Spawned { now_ns: u128 },
    /// The server process could not be started.
    SpawnFailed,
    /// A probe ended; `healthy` tells whether the connection was made.
    Probed { healthy: bool },
    /// A pause ended at `now_ns`.
    Woke { now_ns: u128 },
    /// The server process was stopped.
    Killed,
    /// A termination signal arrived.
    ShutdownRequested,
}

/// Where the supervision stands.
#[derive(Clone, Copy, Debug, PartialEq, Eq, Structural)]
pub enum Phase {
    /// Before the first launch, whatever already holds the server's port is
    /// being stopped, so that it is not taken for the server.
    ClearingPort,
    /// A launch was requested.
    Launching,
    /// The server was started and is given time to come up.
    WaitingReady(ReadinessWait),
    /// The server came up and is watched.
    Monitoring(HealthMonitor),
    /// The server failed and is being stopped.
    Killing,
    /// Pausing before the next launch.
    BackingOff,
    /// Stopping the server before the program ends.
    ShuttingDown,
    /// Nothing more to do; the program ends with this status.
    Finished(i32),
}

/// What a supervisor holds, as plain values.
pub struct SupervisorView {
    pub phase: Phase,
    pub retry: RetryPolicyView,
    pub attempt: nat,
    pub pending: SupervisorAction,
}

/// The supervision of one server, launch after launch.
pub struct Supervisor {
    phase: Phase,
    retry: RetryPolicy,
    attempt: u64,
    pending: SupervisorAction,
}

impl View for Supervisor {
    type V = SupervisorView;

    closed spec fn view(&self) -> SupervisorView {
        SupervisorView {
            phase: self.phase,
            retry: self.retry@,
            attempt: self.attempt as nat,
            pending: self.pending,
        }
    }
}

/// The state reached and the request made, in one value.
pub open spec fn moved(s: SupervisorView, phase: Phase, a: SupervisorAction) -> (SupervisorView, SupervisorAction) {
    (SupervisorView { phase, pending: a, ..s }, a)
}

/// After a failure: restart after the backoff pause if the budget allows,
/// else give up with status 1.
pub open spec fn after_failure(s: SupervisorView) -> (SupervisorView, SupervisorAction) {
    if s.retry.current_attempt < s.retry.max_attempts {
        let a = SupervisorAction::Sleep {
            ms: backoff_ms(s.retry.initial_delay_ms, s.retry.current_attempt) as u64,
        };
        (
            SupervisorView {
                phase: Phase::BackingOff,
                retry: RetryPolicyView { current_attempt: s.retry.current_attempt + 1, ..s.retry },
                pending: a,
                ..s
            },
            a,
        )
    } else {
        moved(s, Phase::Finished(1), SupervisorAction::Exit { code: 1 })
    }
}

/// A probe or a pause asked for by a health machine, as the supervisor's request.
pub open spec fn relay(a: HealthAction) -> SupervisorAction {
    match a {
        HealthAction::Probe { timeout_ms } => SupervisorAction::Probe { timeout_ms },
        HealthAction::Sleep { ms } => SupervisorAction::Sleep { ms },
        _ => SupervisorAction::Kill,
    }
}

/// The report handed on to a health machine, if it is one for it.
pub open spec fn health_event(e: SupervisorEvent) -> Option<HealthEvent> {
    match e {
        SupervisorEvent::Probed { healthy } => Some(HealthEvent::Probed { healthy }),
        SupervisorEvent::Woke { now_ns } => Some(HealthEvent::Woke { now_ns }),
        _ => None,
    }
}

/// The request that comes first: stop whatever already holds the port.
pub open spec fn supervisor_start_spec(max_restarts: u32, retry_delay_ms: u64) -> (SupervisorView, SupervisorAction) {
    let a = SupervisorAction::Kill;
    (
        SupervisorView {
            phase: Phase::ClearingPort,
            retry: RetryPolicyView {
                max_attempts: max_restarts as nat,
                current_attempt: 0,
                initial_delay_ms: retry_delay_ms as nat,
            },
            attempt: 1,
            pending: a,
        },
        a,
    )
}

/// One step of the supervision. A report that does not answer the pending
/// request changes nothing and gets that request again.
pub open spec fn supervisor_next_spec(s: SupervisorView, e: SupervisorEvent) -> (SupervisorView, SupervisorAction) {
    let unchanged = (s, s.pending);
    match s.phase {
        Phase::ClearingPort => match e {
            SupervisorEvent::Killed => moved(s, Phase::Launching, SupervisorAction::Spawn { attempt: 1 }),
            SupervisorEvent::ShutdownRequested => moved(s, Phase::ShuttingDown, SupervisorAction::Kill),
            _ => unchanged,
        },
        Phase::Launching => match e {
            SupervisorEvent::Spawned { now_ns } => {
                let (w, a) = readiness_start_spec(now_ns, READY_TIMEOUT_NS);
                moved(s, Phase::WaitingReady(w), relay(a))
            },
            SupervisorEvent::SpawnFailed => after_failure(s),
            SupervisorEvent::ShutdownRequested => moved(s, Phase::ShuttingDown, SupervisorAction::Kill),
            _ => unchanged,
        },
        Phase::WaitingReady(w) => match health_event(e) {
            Some(he) => {
                let (w2, a) = readiness_next_spec(w, he);
                match a {
                    HealthAction::Ready => {
                        let (m, ma) = monitor_start_spec(MONITOR_INTERVAL_MS);
                        (
                            SupervisorView {
                                phase: Phase::Monitoring(m),
                                retry: RetryPolicyView { current_attempt: 0, ..s.retry },
                                pending: relay(ma),
                                ..s
                            },
                            relay(ma),
                        )
                    },
                    HealthAction::Failed => moved(s, Phase::Killing, SupervisorAction::Kill),
                    _ => moved(s, Phase::WaitingReady(w2), relay(a)),
                }
            },
            None => if e == SupervisorEvent::ShutdownRequested {
                moved(s, Phase::ShuttingDown, SupervisorAction::Kill)
            } else {
                unchanged
            },
        },
        Phase::Monitoring(m) => match health_event(e) {
            Some(he) => {
                let (m2, a) = monitor_next_spec(m, he);
                match a {
                    HealthAction::Failed => moved(s, Phase::Killing, SupervisorAction::Kill),
                    HealthAction::Ready => unchanged,
                    _ => moved(s, Phase::Monitoring(m2), relay(a)),
                }
            },
            None => if e == SupervisorEvent::ShutdownRequested {
                moved(s, Phase::ShuttingDown, SupervisorAction::Kill)
            } else {
                unchanged
            },
        },
        Phase::Killing => match e {
            SupervisorEvent::Killed => after_failure(s),
            SupervisorEvent::ShutdownRequested => moved(s, Phase::ShuttingDown, SupervisorAction::Kill),
            _ => unchanged,
        },
        Phase::BackingOff => match e {
            SupervisorEvent::Woke { .. } => {
                let n = if s.attempt < u64::MAX { s.attempt + 1 } else { s.attempt };
                let a = SupervisorAction::Spawn { attempt: n as u64 };
                (SupervisorView { phase: Phase::Launching, attempt: n, pending: a, ..s }, a)
            },
            SupervisorEvent::ShutdownRequested => moved(s, Phase::Finished(0), SupervisorAction::Exit { code: 0 }),
            _ => unchanged,
        },
        Phase::ShuttingDown => match e {
            SupervisorEvent::Killed => moved(s, Phase::Finished(0), SupervisorAction::Exit { code: 0 }),
            _ => unchanged,
        },
        Phase::Finished(_) => unchanged,
    }
}

impl Supervisor {
    /// Supervision that allows `max_restarts` restarts in a row without the
    /// server coming up, the first after `retry_delay_ms`; its first request
    /// is to stop whatever already holds the server's port.
    pub fn new(max_restarts: u32, retry_delay_ms: u64) -> (r: (Self, SupervisorAction))
        ensures
            (r.0@, r.1) == supervisor_start_spec(max_restarts, retry_delay_ms),
            budget_ok(r.0@),
            coherent(r.0@),
    {
        let a = SupervisorAction::Kill;
        (
            Supervisor {
                phase: Phase::ClearingPort,
                retry: RetryPolicy::new(max_restarts, retry_delay_ms),
                attempt: 1,
                pending: a,
            },
            a,
        )
    }

    /// Where the supervision stands.
    pub fn phase(&self) -> (r: Phase)
        ensures
            r == self@.phase,
    {
        self.phase
    }

    /// The launch number of the current or last launch.
    pub fn attempt(&self) -> (r: u64)
        ensures
            r == self@.attempt,
    {
        self.attempt
    }

    /// The restart budget as it stands.
    pub fn retry_policy(&self) -> (r: RetryPolicy)
        ensures
            r@ == self@.retry,
    {
        self.retry
    }

    fn relay_exec(a: HealthAction) -> (r: SupervisorAction)
        ensures
            r == relay(a),
    {
        match a {
            HealthAction::Probe { timeout_ms } => SupervisorAction::Probe { timeout_ms },
            HealthAction::Sleep { ms } => SupervisorAction::Sleep { ms },
            _ => SupervisorAction::Kill,
        }
    }

    fn fail(&mut self) -> (a: SupervisorAction)
        ensures
            (final(self)@, a) == after_failure(old(self)@),
    {
        if self.retry.should_retry() {
            let ms = self.retry.next_delay();
            proof {
                crate::retry::backoff_is_capped(
                    old(self)@.retry.initial_delay_ms,
                    old(self)@.retry.current_attempt,
                );
            }
            self.phase = Phase::BackingOff;
            self.pending = SupervisorAction::Sleep { ms };
        } else {
            self.phase = Phase::Finished(1);
            self.pending = SupervisorAction::Exit { code: 1 };
        }
        self.pending
    }

    fn go(&mut self, phase: Phase, a: SupervisorAction) -> (r: SupervisorAction)
        ensures
            (final(self)@, r) == moved(old(self)@, phase, a),
    {
        self.phase = phase;
        self.pending = a;
        a
    }

    /// Takes in a report and gives the next request.
    pub fn step(&mut self, e: SupervisorEvent) -> (a: SupervisorAction)
        ensures
            (final(self)@, a) == supervisor_next_spec(old(self)@, e),
    {
        match self.phase {
            Phase::ClearingPort => match e {
                SupervisorEvent::Killed => self.go(Phase::Launching, SupervisorAction::Spawn { attempt: 1 }),
                SupervisorEvent::ShutdownRequested => self.go(Phase::ShuttingDown, SupervisorAction::Kill),
                _ => self.pending,
            },
            Phase::Launching => match e {
                SupervisorEvent::Spawned { now_ns } => {
                    let (w, ha) = ReadinessWait::start(now_ns, READY_TIMEOUT_NS);
                    let a = Self::relay_exec(ha);
                    self.go(Phase::WaitingReady(w), a)
                },
                SupervisorEvent::SpawnFailed => self.fail(),
                SupervisorEvent::ShutdownRequested => self.go(Phase::ShuttingDown, SupervisorAction::Kill),
                _ => self.pending,
            },
            Phase::WaitingReady(w) => {
                let he = match e {
                    SupervisorEvent::Probed { healthy } => Some(HealthEvent::Probed { healthy }),
                    SupervisorEvent::Woke { now_ns } => Some(HealthEvent::Woke { now_ns }),
                    _ => None,
                };
                match he {
                    Some(he) => {
                        let mut w2 = w;
                        let ha = w2.step(he);
                        match ha {
                            HealthAction::Ready => {
                                let (m, ma) = HealthMonitor::start(MONITOR_INTERVAL_MS);
                                self.retry.reset();
                                let a = Self::relay_exec(ma);
                                self.go(Phase::Monitoring(m), a)
                            },
                            HealthAction::Failed => self.go(Phase::Killing, SupervisorAction::Kill),
                            _ => {
                                let a = Self::relay_exec(ha);
                                self.go(Phase::WaitingReady(w2), a)
                            },
                        }
                    },
                    None => {
                        if e == SupervisorEvent::ShutdownRequested {
                            self.go(Phase::ShuttingDown, SupervisorAction::Kill)
                        } else {
                            self.pending
                        }
                    },
                }
            },
            Phase::Monitoring(m) => {
                let he = match e {
                    SupervisorEvent::Probed { healthy } => Some(HealthEvent::Probed { healthy }),
                    SupervisorEvent::Woke { now_ns } => Some(HealthEvent::Woke { now_ns }),
                    _ => None,
                };
                match he {
                    Some(he) => {
                        let mut m2 = m;
                        let ha = m2.step(he);
                        match ha {
                            HealthAction::Failed => self.go(Phase::Killing, SupervisorAction::Kill),
                            HealthAction::Ready => self.pending,
                            _ => {
                                let a = Self::relay_exec(ha);
                                self.go(Phase::Monitoring(m2), a)
                            },
                        }
                    },
                    None => {
                        if e == SupervisorEvent::ShutdownRequested {
                            self.go(Phase::ShuttingDown, SupervisorAction::Kill)
                        } else {
                            self.pending
                        }
                    },
                }
            },
            Phase::Killing => match e {
                SupervisorEvent::Killed => self.fail(),
                SupervisorEvent::ShutdownRequested => self.go(Phase::ShuttingDown, SupervisorAction::Kill),
                _ => self.pending,
            },
            Phase::BackingOff => match e {
                SupervisorEvent::Woke { .. } => {
                    if self.attempt < u64::MAX {
                        self.attempt = self.attempt + 1;
                    }
                    let a = SupervisorAction::Spawn { attempt: self.attempt };
                    self.go(Phase::Launching, a)
                },
                SupervisorEvent::ShutdownRequested => self.go(Phase::Finished(0), SupervisorAction::Exit { code: 0 }),
                _ => self.pending,
            },
            Phase::ShuttingDown => match e {
                SupervisorEvent::Killed => self.go(Phase::Finished(0), SupervisorAction::Exit { code: 0 }),
                _ => self.pending,
            },
            Phase::Finished(_) => self.pending,
        }
    }
}


/// The restart budget is never overdrawn.
pub open spec fn budget_ok(s: SupervisorView) -> bool {
    s.retry.current_attempt <= s.retry.max_attempts
}

/// Whether the step from `s` to `t` is the server coming up.
pub open spec fn came_up(s: SupervisorView, t: SupervisorView) -> bool {
    s.phase is WaitingReady && t.phase is Monitoring
}

/// Whether the step from `s` to `t` is a relaunch after a backoff pause.
pub open spec fn relaunched(s: SupervisorView, t: SupervisorView) -> bool {
    s.phase is BackingOff && t.phase is Launching
}

/// A run of reports from `s`: the state reached, how many relaunches it
/// made, and whether the server came up on the way.
pub open spec fn run_spec(s: SupervisorView, es: Seq<SupervisorEvent>) -> (SupervisorView, nat, bool)
    decreases es.len(),
{
    if es.len() == 0 {
        (s, 0, false)
    } else {
        let (t, n, up) = run_spec(s, es.drop_last());
        let (u, a) = supervisor_next_spec(t, es.last());
        (u, n + if relaunched(t, u) { 1nat } else { 0nat }, up || came_up(t, u))
    }
}

/// One relaunch is owed to a state that is already pausing before one.
pub open spec fn owed_relaunch(s: SupervisorView) -> nat {
    if s.phase is BackingOff {
        1
    } else {
        0
    }
}

/// Every step keeps the restart budget from being overdrawn.
pub proof fn budget_is_kept(s: SupervisorView, e: SupervisorEvent)
    requires
        budget_ok(s),
    ensures
        budget_ok(supervisor_next_spec(s, e).0),
        supervisor_next_spec(s, e).0.retry.max_attempts == s.retry.max_attempts,
        supervisor_next_spec(s, e).0.retry.initial_delay_ms == s.retry.initial_delay_ms,
{
}

proof fn lemma_step_accounting(s: SupervisorView, e: SupervisorEvent)
    requires
        budget_ok(s),
        !came_up(s, supervisor_next_spec(s, e).0),
    ensures
        ({
            let t = supervisor_next_spec(s, e).0;
            (if relaunched(s, t) { 1int } else { 0int }) + owed_relaunch(t)
                <= t.retry.current_attempt - s.retry.current_attempt + owed_relaunch(s)
        }),
{
}

proof fn lemma_run_accounting(s: SupervisorView, es: Seq<SupervisorEvent>)
    requires
        budget_ok(s),
        !run_spec(s, es).2,
    ensures
        budget_ok(run_spec(s, es).0),
        run_spec(s, es).0.retry.max_attempts == s.retry.max_attempts,
        run_spec(s, es).1 + owed_relaunch(run_spec(s, es).0) <= run_spec(s, es).0.retry.current_attempt
            - s.retry.current_attempt + owed_relaunch(s),
    decreases es.len(),
{
    if es.len() > 0 {
        lemma_run_accounting(s, es.drop_last());
        let t = run_spec(s, es.drop_last()).0;
        budget_is_kept(t, es.last());
        lemma_step_accounting(t, es.last());
    }
}

/// Restarts are bounded: as long as the server does not come up, a run
/// relaunches it at most as many times as the restart budget has left (plus
/// the relaunch already being paused for).
pub proof fn relaunches_stay_within_budget(s: SupervisorView, es: Seq<SupervisorEvent>)
    requires
        budget_ok(s),
        !run_spec(s, es).2,
    ensures
        run_spec(s, es).1 <= s.retry.max_attempts - s.retry.current_attempt + owed_relaunch(s),
{
    lemma_run_accounting(s, es);
}

/// The pending request is an exit exactly when the supervision is finished,
/// and then with the status it finished with.
pub open spec fn coherent(s: SupervisorView) -> bool {
    &&& (s.phase matches Phase::Finished(c) ==> s.pending == (SupervisorAction::Exit { code: c }))
    &&& (!(s.phase is Finished) ==> !(s.pending is Exit))
}

/// Every step keeps the pending request in line with the phase.
pub proof fn coherence_is_kept(s: SupervisorView, e: SupervisorEvent)
    requires
        coherent(s),
    ensures
        coherent(supervisor_next_spec(s, e).0),
        supervisor_next_spec(s, e).1 == supervisor_next_spec(s, e).0.pending,
{
}

/// The supervision gives up (status 1) only when the restart budget is spent.
pub proof fn gives_up_only_when_budget_spent(s: SupervisorView, e: SupervisorEvent)
    requires
        coherent(s),
        !(s.phase is Finished),
        supervisor_next_spec(s, e).1 == (SupervisorAction::Exit { code: 1 }),
    ensures
        s.retry.current_attempt >= s.retry.max_attempts,
{
}

/// A failure (a launch that failed, or a server stopped after failing) with
/// budget left leads to a pause of the backoff length, and uses up one restart.
pub proof fn failure_backs_off(s: SupervisorView, e: SupervisorEvent)
    requires
        (s.phase is Launching && e == SupervisorEvent::SpawnFailed) || (s.phase is Killing && e
            == SupervisorEvent::Killed),
        s.retry.current_attempt < s.retry.max_attempts,
    ensures
        supervisor_next_spec(s, e).0.phase is BackingOff,
        supervisor_next_spec(s, e).1 == (SupervisorAction::Sleep {
            ms: backoff_ms(s.retry.initial_delay_ms, s.retry.current_attempt) as u64,
        }),
        supervisor_next_spec(s, e).0.retry.current_attempt == s.retry.current_attempt + 1,
{
}

/// A server that comes up gets its whole restart budget back and is then watched.
pub proof fn coming_up_restores_budget(s: SupervisorView, e: SupervisorEvent)
    requires
        s.phase matches Phase::WaitingReady(w) && w.stage == crate::health::Stage::AwaitingProbe,
        e == (SupervisorEvent::Probed { healthy: true }),
    ensures
        supervisor_next_spec(s, e).0.phase is Monitoring,
        supervisor_next_spec(s, e).0.retry.current_attempt == 0,
        supervisor_next_spec(s, e).1 == (SupervisorAction::Sleep { ms: MONITOR_INTERVAL_MS }),
{
}

/// A server that is not up more than thirty seconds after it was started is
/// stopped; before that, it is probed again.
pub proof fn slow_start_is_stopped(s: SupervisorView, now_ns: u128)
    requires
        s.phase matches Phase::WaitingReady(w) && w.stage == crate::health::Stage::AwaitingWake
            && w.timeout_ns == READY_TIMEOUT_NS,
    ensures
        ({
            let w = s.phase->WaitingReady_0;
            let r = supervisor_next_spec(s, SupervisorEvent::Woke { now_ns });
            if crate::health::elapsed_ns(w.started_ns, now_ns) > READY_TIMEOUT_NS {
                r.0.phase is Killing && r.1 == SupervisorAction::Kill
            } else {
                r.0.phase is WaitingReady && r.1 == (SupervisorAction::Probe {
                    timeout_ms: crate::health::PROBE_TIMEOUT_MS,
                })
            }
        }),
{
}

/// A watched server that stops answering is stopped.
pub proof fn dead_server_is_stopped(s: SupervisorView)
    requires
        s.phase matches Phase::Monitoring(m) && m.stage == crate::health::Stage::AwaitingProbe,
    ensures
        supervisor_next_spec(s, SupervisorEvent::Probed { healthy: false }).0.phase is Killing,
        supervisor_next_spec(s, SupervisorEvent::Probed { healthy: false }).1
            == SupervisorAction::Kill,
{
}

/// A termination signal stops a server that may be running and then ends the
/// program with status 0; while pausing before a relaunch it ends the program at once.
pub proof fn shutdown_is_graceful(s: SupervisorView)
    requires
        !(s.phase is Finished),
        !(s.phase is ShuttingDown),
    ensures
        ({
            let r = supervisor_next_spec(s, SupervisorEvent::ShutdownRequested);
            if s.phase is BackingOff {
                r.0.phase == Phase::Finished(0) && r.1 == (SupervisorAction::Exit { code: 0 })
            } else {
                r.0.phase is ShuttingDown && r.1 == SupervisorAction::Kill && supervisor_next_spec(
                    r.0,
                    SupervisorEvent::Killed,
                ).1 == (SupervisorAction::Exit { code: 0 })
            }
        }),
{
}

/// Before the first launch, whatever already listens on the server's port is
/// stopped, so that a stranger's listener is never taken for the server; the
/// first launch follows once that is done.
pub proof fn port_is_cleared_before_first_launch(max_restarts: u32, retry_delay_ms: u64)
    ensures
        ({
            let (s, a) = supervisor_start_spec(max_restarts, retry_delay_ms);
            &&& a == SupervisorAction::Kill
            &&& forall|e: SupervisorEvent|
                e != SupervisorEvent::Killed && e != SupervisorEvent::ShutdownRequested
                    ==> #[trigger] supervisor_next_spec(s, e) == (s, a)
            &&& supervisor_next_spec(s, SupervisorEvent::Killed).0.phase is Launching
            &&& supervisor_next_spec(s, SupervisorEvent::Killed).1 == (SupervisorAction::Spawn {
                attempt: 1,
            })
        }),
{
}

/// A failure (a launch that failed, or a server stopped after failing) once
/// the restart budget is spent ends the supervision with status 1, however
/// the server fared before: giving up is never reported as success.
pub proof fn spent_budget_gives_up(s: SupervisorView, e: SupervisorEvent)
    requires
        (s.phase is Launching && e == SupervisorEvent::SpawnFailed) || (s.phase is Killing && e
            == SupervisorEvent::Killed),
        s.retry.current_attempt >= s.retry.max_attempts,
    ensures
        supervisor_next_spec(s, e).0.phase == Phase::Finished(1),
        supervisor_next_spec(s, e).1 == (SupervisorAction::Exit { code: 1 }),
{
}

/// Once finished, the supervision stays finished.
pub proof fn finished_is_final(s: SupervisorView, e: SupervisorEvent)
    requires
        s.phase is Finished,
    ensures
        supervisor_next_spec(s, e) == (s, s.pending),
{
}

} // verus!
