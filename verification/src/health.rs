//! Health decisions over TCP probes: waiting for the server to come up, and
//! watching it until it stops answering. The probes and the pauses are made
//! by the caller; these machines say which comes next.

use vstd::prelude::*;
use crate::text::{decimal_spec, push_decimal};

verus! {

/// How long one TCP probe may take, in milliseconds.
pub const PROBE_TIMEOUT_MS: u64 = 2000;

/// The pause between two readiness probes, in milliseconds.
pub const READY_POLL_MS: u64 = 500;

/// How long the server gets to come up after it was started, in milliseconds.
pub const READY_TIMEOUT_MS: u64 = 30000;

/// The pause between two liveness probes, in milliseconds.
pub const MONITOR_INTERVAL_MS: u64 = 5000;

/// What the caller is asked to do next.
#[derive(Clone, Copy, Debug, PartialEq, Eq, Structural)]
pub enum HealthAction {
    /// Try a TCP connection, giving up after `timeout_ms`, and report `Probed`.
    Probe { timeout_ms: u64 },
    /// Pause for `ms` milliseconds, then report `Woke` with the time.
    Sleep { ms: u64 },
    /// The server answers: the wait is over.
    Ready,
    /// The server did not answer in time, or stopped answering.
    Failed,
}

/// What the caller reports back.
#[derive(Clone, Copy, Debug, PartialEq, Eq, Structural)]
pub enum HealthEvent {
    /// A probe ended; `healthy` tells whether the connection was made.
    Probed { healthy: bool },
    /// A pause ended at `now_ns` nanoseconds on the caller's monotonic clock.
    Woke { now_ns: u128 },
}

/// Which report a health machine is waiting for.
#[derive(Clone, Copy, Debug, PartialEq, Eq, Structural)]
pub enum Stage {
    AwaitingProbe,
    AwaitingWake,
    Done,
}

/// The time that passed from `start_ns` to `now_ns` (none if the clock went back).
pub open spec fn elapsed_ns(start_ns: u128, now_ns: u128) -> nat {
    if now_ns >= start_ns {
        (now_ns - start_ns) as nat
    } else {
        0
    }
}

/// Waiting for a freshly started server to accept connections: probe, pause,
/// probe again, until a probe succeeds or more than the timeout has passed.
#[derive(Clone, Copy, Debug, PartialEq, Eq, Structural)]
pub struct ReadinessWait {
    pub started_ns: u128,
    pub timeout_ns: u128,
    pub stage: Stage,
    pub pending: HealthAction,
}

/// A readiness wait that began at `now_ns`, and its first request: a pause
/// of no length, so that the time is read again and checked against the
/// timeout before the first probe, as before every later one.
pub open spec fn readiness_start_spec(now_ns: u128, timeout_ns: u128) -> (ReadinessWait, HealthAction) {
    let a = HealthAction::Sleep { ms: 0 };
    (ReadinessWait { started_ns: now_ns, timeout_ns, stage: Stage::AwaitingWake, pending: a }, a)
}

/// One step of a readiness wait. A report that does not answer the pending
/// request changes nothing and gets that request again.
pub open spec fn readiness_next_spec(w: ReadinessWait, e: HealthEvent) -> (ReadinessWait, HealthAction) {
    match (w.stage, e) {
        (Stage::AwaitingProbe, HealthEvent::Probed { healthy }) => {
            if healthy {
                (ReadinessWait { stage: Stage::Done, pending: HealthAction::Ready, ..w }, HealthAction::Ready)
            } else {
                let a = HealthAction::Sleep { ms: READY_POLL_MS };
                (ReadinessWait { stage: Stage::AwaitingWake, pending: a, ..w }, a)
            }
        },
        (Stage::AwaitingWake, HealthEvent::Woke { now_ns }) => {
            if elapsed_ns(w.started_ns, now_ns) > w.timeout_ns {
                (ReadinessWait { stage: Stage::Done, pending: HealthAction::Failed, ..w }, HealthAction::Failed)
            } else {
                let a = HealthAction::Probe { timeout_ms: PROBE_TIMEOUT_MS };
                (ReadinessWait { stage: Stage::AwaitingProbe, pending: a, ..w }, a)
            }
        },
        _ => (w, w.pending),
    }
}

impl ReadinessWait {
    /// Starts waiting at `now_ns` for at most `timeout_ns`.
    pub fn start(now_ns: u128, timeout_ns: u128) -> (r: (Self, HealthAction))
        ensures
            r == readiness_start_spec(now_ns, timeout_ns),
    {
        let a = HealthAction::Sleep { ms: 0 };
        (ReadinessWait { started_ns: now_ns, timeout_ns, stage: Stage::AwaitingWake, pending: a }, a)
    }

    /// Takes in a report and gives the next request.
    pub fn step(&mut self, e: HealthEvent) -> (a: HealthAction)
        ensures
            (*final(self), a) == readiness_next_spec(*old(self), e),
    {
        match (self.stage, e) {
            (Stage::AwaitingProbe, HealthEvent::Probed { healthy }) => {
                if healthy {
                    self.stage = Stage::Done;
                    self.pending = HealthAction::Ready;
                } else {
                    self.stage = Stage::AwaitingWake;
                    self.pending = HealthAction::Sleep { ms: READY_POLL_MS };
                }
            },
            (Stage::AwaitingWake, HealthEvent::Woke { now_ns }) => {
                let elapsed: u128 = if now_ns >= self.started_ns {
                    now_ns - self.started_ns
                } else {
                    0
                };
                if elapsed > self.timeout_ns {
                    self.stage = Stage::Done;
                    self.pending = HealthAction::Failed;
                } else {
                    self.stage = Stage::AwaitingProbe;
                    self.pending = HealthAction::Probe { timeout_ms: PROBE_TIMEOUT_MS };
                }
            },
            _ => {},
        }
        self.pending
    }
}

/// Watching a running server: pause, probe, and again, until a probe fails.
#[derive(Clone, Copy, Debug, PartialEq, Eq, Structural)]
pub struct HealthMonitor {
    pub interval_ms: u64,
    pub stage: Stage,
    pub pending: HealthAction,
}

/// A monitor that probes every `interval_ms`, and its first request: a pause.
pub open spec fn monitor_start_spec(interval_ms: u64) -> (HealthMonitor, HealthAction) {
    let a = HealthAction::Sleep { ms: interval_ms };
    (HealthMonitor { interval_ms, stage: Stage::AwaitingWake, pending: a }, a)
}

/// One step of a monitor. A report that does not answer the pending request
/// changes nothing and gets that request again.
pub open spec fn monitor_next_spec(m: HealthMonitor, e: HealthEvent) -> (HealthMonitor, HealthAction) {
    match (m.stage, e) {
        (Stage::AwaitingWake, HealthEvent::Woke { .. }) => {
            let a = HealthAction::Probe { timeout_ms: PROBE_TIMEOUT_MS };
            (HealthMonitor { stage: Stage::AwaitingProbe, pending: a, ..m }, a)
        },
        (Stage::AwaitingProbe, HealthEvent::Probed { healthy }) => {
            if healthy {
                let a = HealthAction::Sleep { ms: m.interval_ms };
                (HealthMonitor { stage: Stage::AwaitingWake, pending: a, ..m }, a)
            } else {
                (HealthMonitor { stage: Stage::Done, pending: HealthAction::Failed, ..m }, HealthAction::Failed)
            }
        },
        _ => (m, m.pending),
    }
}

impl HealthMonitor {
    /// Starts watching, with a probe every `interval_ms`.
    pub fn start(interval_ms: u64) -> (r: (Self, HealthAction))
        ensures
            r == monitor_start_spec(interval_ms),
    {
        let a = HealthAction::Sleep { ms: interval_ms };
        (HealthMonitor { interval_ms, stage: Stage::AwaitingWake, pending: a }, a)
    }

    /// Takes in a report and gives the next request.
    pub fn step(&mut self, e: HealthEvent) -> (a: HealthAction)
        ensures
            (*final(self), a) == monitor_next_spec(*old(self), e),
    {
        match (self.stage, e) {
            (Stage::AwaitingWake, HealthEvent::Woke { .. }) => {
                self.stage = Stage::AwaitingProbe;
                self.pending = HealthAction::Probe { timeout_ms: PROBE_TIMEOUT_MS };
            },
            (Stage::AwaitingProbe, HealthEvent::Probed { healthy }) => {
                if healthy {
                    self.stage = Stage::AwaitingWake;
                    self.pending = HealthAction::Sleep { ms: self.interval_ms };
                } else {
                    self.stage = Stage::Done;
                    self.pending = HealthAction::Failed;
                }
            },
            _ => {},
        }
        self.pending
    }
}

/// The text `host:port` that names the server's address.
pub open spec fn endpoint_spec(host: Seq<char>, port: u16) -> Seq<char> {
    host + seq![':'] + decimal_spec(port as nat)
}

/// Writes the server's address as `host:port`.
pub fn endpoint_text(host: &str, port: u16) -> (r: String)
    ensures
        r@ == endpoint_spec(host@, port),
{
    proof {
        reveal_strlit(":");
    }
    let mut r = String::from_str(host);
    r.append(":");
    push_decimal(&mut r, port as u64);
    r
}


/// The pending request matches the stage: a probe while a probe result is
/// awaited, a pause while a wake-up is awaited, a verdict once done.
pub open spec fn stage_matches(stage: Stage, pending: HealthAction) -> bool {
    match stage {
        Stage::AwaitingProbe => pending is Probe,
        Stage::AwaitingWake => pending is Sleep,
        Stage::Done => pending is Ready || pending is Failed,
    }
}

/// Every step of a readiness wait or a monitor keeps the request in line with the stage.
pub proof fn stages_stay_in_line(
    w: ReadinessWait,
    m: HealthMonitor,
    e: HealthEvent,
    now_ns: u128,
    timeout_ns: u128,
    interval_ms: u64,
)
    ensures
        stage_matches(
            readiness_start_spec(now_ns, timeout_ns).0.stage,
            readiness_start_spec(now_ns, timeout_ns).0.pending,
        ),
        stage_matches(monitor_start_spec(interval_ms).0.stage, monitor_start_spec(interval_ms).0.pending),
        stage_matches(w.stage, w.pending) ==> stage_matches(
            readiness_next_spec(w, e).0.stage,
            readiness_next_spec(w, e).0.pending,
        ),
        stage_matches(m.stage, m.pending) ==> stage_matches(
            monitor_next_spec(m, e).0.stage,
            monitor_next_spec(m, e).0.pending,
        ),
{
}

/// A readiness wait reports the server ready only right after a probe that connected.
pub proof fn ready_only_after_answer(w: ReadinessWait, e: HealthEvent)
    requires
        stage_matches(w.stage, w.pending),
        w.stage != Stage::Done,
        readiness_next_spec(w, e).1 == HealthAction::Ready,
    ensures
        w.stage == Stage::AwaitingProbe,
        e == (HealthEvent::Probed { healthy: true }),
{
}

/// A readiness wait gives up only after more than its timeout has passed
/// since it began, and it keeps probing every half second until then.
pub proof fn gives_up_only_after_timeout(w: ReadinessWait, e: HealthEvent)
    requires
        stage_matches(w.stage, w.pending),
        w.stage != Stage::Done,
    ensures
        readiness_next_spec(w, e).1 == HealthAction::Failed ==> (e matches HealthEvent::Woke {
            now_ns,
        } && elapsed_ns(w.started_ns, now_ns) > w.timeout_ns),
        (w.stage == Stage::AwaitingProbe && e == HealthEvent::Probed { healthy: false })
            ==> readiness_next_spec(w, e).1 == (HealthAction::Sleep { ms: READY_POLL_MS }),
{
}

/// A monitor declares the server dead exactly when a probe does not connect,
/// and otherwise pauses for its interval before the next probe.
pub proof fn monitor_fails_exactly_on_silence(m: HealthMonitor, healthy: bool)
    requires
        m.stage == Stage::AwaitingProbe,
    ensures
        monitor_next_spec(m, HealthEvent::Probed { healthy }).1 == if healthy {
            HealthAction::Sleep { ms: m.interval_ms }
        } else {
            HealthAction::Failed
        },
{
}

/// A finished wait or monitor stays finished.
pub proof fn done_is_final(w: ReadinessWait, m: HealthMonitor, e: HealthEvent)
    ensures
        w.stage == Stage::Done ==> readiness_next_spec(w, e) == (w, w.pending),
        m.stage == Stage::Done ==> monitor_next_spec(m, e) == (m, m.pending),
{
}

} // verus!
