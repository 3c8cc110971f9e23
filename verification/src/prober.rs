//! The readiness prober: polling a TCP endpoint until it accepts or a
//! deadline passes.
//!
//! The prober never opens a connection itself. [`Prober`] holds the
//! deadline arithmetic that the surrounding binary consults between
//! real connection attempts, and [`wait_ready_trace`] is the whole
//! polling loop run over a given schedule of attempt outcomes on an
//! idealized clock: attempt `i` happens `i` poll intervals after the
//! start, which is exact when connection attempts return immediately.

use vstd::prelude::*;

verus! {

/// How long a readiness check waits before giving up, by default.
pub const READY_TIMEOUT_MS: i64 = 10_000;

/// The fixed delay between consecutive connection attempts.
pub const POLL_INTERVAL_MS: i64 = 150;

/// Whether the `i`-th connection attempt in `outcomes` succeeds; an
/// attempt beyond the schedule finds no listener.
pub open spec fn outcome_at(outcomes: Seq<bool>, i: int) -> bool {
    0 <= i < outcomes.len() && outcomes[i]
}

/// What one probing run observed: whether the endpoint became ready,
/// how many connection attempts were made, and how much time had
/// passed, in milliseconds, when the run ended.
pub struct ProbeReport {
    pub ready: bool,
    pub attempts: i64,
    pub elapsed_ms: i64,
}

/// The endpoint one readiness check probes and the time allowed for it
/// to start accepting connections. Fixed for the whole check.
pub struct ReadinessTarget {
    pub host: String,
    pub port: u16,
    pub timeout_ms: i64,
}

impl ReadinessTarget {
    /// Opens the probing window for this target at clock reading `now_ms`.
    pub fn open_window(&self, now_ms: i64) -> (p: Prober)
        requires
            0 <= now_ms,
            self.timeout_ms <= i64::MAX - now_ms,
        ensures
            p.deadline_ms == now_ms + self.timeout_ms,
    {
        Prober::start(now_ms, self.timeout_ms)
    }
}

/// The deadline of one readiness check.
///
/// Opened once per check with the clock reading at the start and the
/// allowed timeout; between connection attempts the caller asks whether
/// the current clock reading still lies before the deadline.
pub struct Prober {
    pub deadline_ms: i64,
}

impl Prober {
    /// Opens the probing window: the deadline is `timeout_ms` after `now_ms`.
    pub fn start(now_ms: i64, timeout_ms: i64) -> (p: Prober)
        requires
            0 <= now_ms,
            timeout_ms <= i64::MAX - now_ms,
        ensures
            p.deadline_ms == now_ms + timeout_ms,
    {
        Prober { deadline_ms: now_ms + timeout_ms }
    }

    /// Whether a connection attempt at clock reading `now_ms` is still
    /// within the window.
    pub fn should_attempt(&self, now_ms: i64) -> (r: bool)
        ensures
            r <==> now_ms < self.deadline_ms,
    {
        now_ms < self.deadline_ms
    }
}

/// A window opened with a nonpositive timeout admits no attempt: every
/// clock reading at or after the start already lies past the deadline.
pub proof fn lemma_nonpositive_timeout_admits_no_attempt(
    now_ms: int,
    timeout_ms: int,
    later_ms: int,
)
    requires
        timeout_ms <= 0,
        now_ms <= later_ms,
    ensures
        !(later_ms < now_ms + timeout_ms),
{
}

/// The whole polling loop, run over a schedule of attempt outcomes.
///
/// Attempt `i` is taken at time `i * interval_ms`; after a failed
/// attempt the prober sleeps one interval and, once the clock reaches
/// the deadline, gives up. The report says that the run succeeded at
/// the first scheduled success inside the window if there is one, made
/// exactly the attempts before it, and otherwise gave up within one
/// interval of the timeout; with a nonpositive timeout no attempt at
/// all is made, and an immediately reachable endpoint is seen on the
/// first attempt with no sleep taken.
pub fn wait_ready_trace(timeout_ms: i64, interval_ms: i64, outcomes: &Vec<bool>) -> (r: ProbeReport)
    requires
        1 <= interval_ms,
        timeout_ms <= i64::MAX - interval_ms,
    ensures
        r.ready ==> {
            &&& 1 <= r.attempts
            &&& (r.attempts - 1) * interval_ms < timeout_ms
            &&& outcome_at(outcomes@, r.attempts - 1)
            &&& forall|j: int| 0 <= j < r.attempts - 1 ==> !outcome_at(outcomes@, j)
            &&& r.elapsed_ms == (r.attempts - 1) * interval_ms
        },
        !r.ready ==> forall|i: int|
            0 <= i && i * interval_ms < timeout_ms ==> !#[trigger] outcome_at(outcomes@, i),
        !r.ready && timeout_ms > 0 ==> {
            &&& 1 <= r.attempts
            &&& (r.attempts - 1) * interval_ms < timeout_ms
            &&& r.elapsed_ms == r.attempts * interval_ms
            &&& timeout_ms <= r.elapsed_ms < timeout_ms + interval_ms
        },
        timeout_ms <= 0 ==> !r.ready && r.attempts == 0 && r.elapsed_ms == 0,
        timeout_ms > 0 && outcome_at(outcomes@, 0) ==> r.ready && r.attempts == 1
            && r.elapsed_ms == 0,
{
    let mut attempts: i64 = 0;
    let mut idx: usize = 0;
    let mut now: i64 = 0;
    while now < timeout_ms
        invariant
            1 <= interval_ms,
            timeout_ms <= i64::MAX - interval_ms,
            0 <= attempts,
            now == attempts * interval_ms,
            attempts > 0 ==> (attempts - 1) * interval_ms < timeout_ms,
            forall|j: int| 0 <= j < attempts ==> !outcome_at(outcomes@, j),
            attempts <= outcomes@.len() ==> idx == attempts,
            attempts > outcomes@.len() ==> idx == outcomes@.len(),
        decreases timeout_ms + interval_ms - now,
    {
        proof {
            assert(attempts * interval_ms >= attempts) by (nonlinear_arith)
                requires
                    attempts >= 0,
                    interval_ms >= 1,
            ;
        }
        let connected: bool = if idx < outcomes.len() {
            let b = outcomes[idx];
            idx = idx + 1;
            b
        } else {
            false
        };
        if connected {
            return ProbeReport { ready: true, attempts: attempts + 1, elapsed_ms: now };
        }
        attempts = attempts + 1;
        proof {
            assert(attempts * interval_ms == (attempts - 1) * interval_ms + interval_ms)
                by (nonlinear_arith);
        }
        now = now + interval_ms;
    }
    proof {
        if attempts > 0 {
            assert(attempts * interval_ms == (attempts - 1) * interval_ms + interval_ms)
                by (nonlinear_arith);
        }
        assert forall|i: int| 0 <= i && i * interval_ms < timeout_ms implies !outcome_at(
            outcomes@,
            i,
        ) by {
            if i >= attempts {
                assert(i * interval_ms >= attempts * interval_ms) by (nonlinear_arith)
                    requires
                        i >= attempts,
                        attempts >= 0,
                        interval_ms >= 1,
                ;
            }
        }
    }
    ProbeReport { ready: false, attempts, elapsed_ms: now }
}

} // verus!
