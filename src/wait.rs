use vstd::prelude::*;

verus! {

/// The interval between two checks of a condition when none is given:
/// ten milliseconds, in nanoseconds.
pub const DEFAULT_POLL_INTERVAL: u64 = 10_000_000;

/// How a wait for a condition proceeds. Times are in nanoseconds.
#[derive(Clone, Copy, Debug, PartialEq, Eq, Structural)]
pub struct WaitPlan {
    /// When to stop waiting; `None` waits for as long as it takes.
    pub deadline: Option<u64>,
    /// The time between two checks of the condition.
    pub poll_interval: u64,
}

/// Why a wait was refused.
#[derive(Clone, Copy, Debug, PartialEq, Eq, Structural)]
pub enum WaitError {
    /// The timeout was zero.
    NonPositiveTimeout,
    /// The poll interval was zero.
    NonPositiveInterval,
}

/// The deadline of a wait started at `now`: a timeout that reaches past the
/// end of the clock never expires.
pub open spec fn spec_deadline(now: u64, timeout: Option<u64>) -> Option<u64> {
    match timeout {
        Some(t) => if now + t <= u64::MAX {
            Some((now + t) as u64)
        } else {
            None
        },
        None => None,
    }
}

/// Plans a wait started at `now`, with an optional timeout (none waits
/// forever) and an optional poll interval (ten milliseconds by default).
/// Both, when given, must be positive.
pub fn plan_wait(now: u64, timeout: Option<u64>, poll_interval: Option<u64>) -> (r: Result<WaitPlan, WaitError>)
    ensures
        timeout == Some(0u64) ==> r == Err::<WaitPlan, WaitError>(WaitError::NonPositiveTimeout),
        timeout != Some(0u64) && poll_interval == Some(0u64) ==> r == Err::<WaitPlan, WaitError>(
            WaitError::NonPositiveInterval,
        ),
        timeout != Some(0u64) && poll_interval != Some(0u64) ==> r == Ok::<WaitPlan, WaitError>(
            WaitPlan {
                deadline: spec_deadline(now, timeout),
                poll_interval: match poll_interval {
                    Some(p) => p,
                    None => DEFAULT_POLL_INTERVAL,
                },
            },
        ),
{
    let deadline = match timeout {
        Some(0) => {
            return Err(WaitError::NonPositiveTimeout);
        },
        Some(t) => now.checked_add(t),
        None => None,
    };
    let poll_interval = match poll_interval {
        Some(0) => {
            return Err(WaitError::NonPositiveInterval);
        },
        Some(p) => p,
        None => DEFAULT_POLL_INTERVAL,
    };
    Ok(WaitPlan { deadline, poll_interval })
}

/// Whether to wait on: the condition is still false and the deadline has
/// not been reached.
pub open spec fn spec_keep_waiting(plan: WaitPlan, condition_met: bool, now: u64) -> bool {
    !condition_met && match plan.deadline {
        Some(d) => now < d,
        None => true,
    }
}

/// Decides, after a check of the condition at time `now`, whether to sleep
/// for the poll interval and check again.
pub fn keep_waiting(plan: &WaitPlan, condition_met: bool, now: u64) -> (r: bool)
    ensures
        r == spec_keep_waiting(*plan, condition_met, now),
{
    if condition_met {
        return false;
    }
    match plan.deadline {
        Some(d) => now < d,
        None => true,
    }
}

/// The number of sleeps a wait on a condition that never holds goes through
/// before it stops, when each check comes one interval after the last.
pub open spec fn polls_until_timeout(timeout: nat, interval: nat) -> nat {
    ((timeout + interval - 1) as nat / interval) as nat
}

/// A wait on a condition that never holds, checked once every interval from
/// its start, stops at the first check at or after the timeout: after at
/// least the timeout, and less than one interval later.
pub proof fn lemma_wait_stops_after_timeout(start: u64, timeout: u64, interval: u64)
    requires
        timeout > 0,
        interval > 0,
        start + timeout + interval <= u64::MAX,
    ensures
        ({
            let plan = WaitPlan { deadline: spec_deadline(start, Some(timeout)), poll_interval: interval };
            let n = polls_until_timeout(timeout as nat, interval as nat);
            &&& timeout <= n * interval < timeout + interval
            &&& !spec_keep_waiting(plan, false, (start + n * interval) as u64)
            &&& forall|k: nat| k < n ==> #[trigger] spec_keep_waiting(plan, false, (start + k * interval) as u64)
        }),
{
    let n = polls_until_timeout(timeout as nat, interval as nat);
    let t = timeout as int;
    let i = interval as int;
    assert(n * i <= t + i - 1 && t + i - 1 < n * i + i) by (nonlinear_arith)
        requires
            n == (t + i - 1) / i,
            i > 0,
            t > 0,
    ;
    let plan = WaitPlan { deadline: spec_deadline(start, Some(timeout)), poll_interval: interval };
    assert forall|k: nat| k < n implies #[trigger] spec_keep_waiting(
        plan,
        false,
        (start + k * interval) as u64,
    ) by {
        assert(k * i <= (n - 1) * i) by (nonlinear_arith)
            requires
                k < n,
                i > 0,
        ;
        assert((n - 1) * i == n * i - i) by (nonlinear_arith);
    }
}

} // verus!
