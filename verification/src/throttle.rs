//! Password-login throttling: a per-user failure counter that locks the
//! account for a while after five consecutive bad passwords.
use vstd::prelude::*;

use crate::session::{LoginFailureOutcome, Micros, Timestamp};

verus! {

/// Failures that lock an account.
pub const LOGIN_FAILURE_LIMIT: i64 = 5;

/// The throttle columns of a user row.
#[derive(Debug, Clone, Copy, PartialEq, Eq, Structural)]
pub struct LoginThrottle {
    pub failed_count: i64,
    /// Set while (or after) the account is locked.
    pub locked_until: Option<Timestamp>,
}

/// The row holds a lock that has not elapsed at `now`.
pub open spec fn is_locked(t: LoginThrottle, now: Timestamp) -> bool {
    t.locked_until matches Some(u) && u > now
}

/// Throttle state after one more failure at `now`.
pub open spec fn after_failure(t: LoginThrottle, now: Timestamp, lockout: Micros) -> LoginThrottle {
    match t.locked_until {
        Some(u) => if u > now {
            t
        } else {
            LoginThrottle { failed_count: 1, locked_until: None }
        },
        None => LoginThrottle {
            failed_count: (t.failed_count + 1) as i64,
            locked_until: if t.failed_count + 1 >= LOGIN_FAILURE_LIMIT {
                Some((now + lockout) as i64)
            } else {
                None
            },
        },
    }
}

/// What a failure at `now` reports, given the state it produced.
pub open spec fn failure_outcome(after: LoginThrottle, now: Timestamp) -> LoginFailureOutcome {
    match after.locked_until {
        Some(u) => if u > now {
            LoginFailureOutcome::Locked { until: u }
        } else {
            LoginFailureOutcome::Recorded { remaining: remaining_of(after.failed_count) }
        },
        None => LoginFailureOutcome::Recorded { remaining: remaining_of(after.failed_count) },
    }
}

/// `5 - count` saturated to the `i64` range and floored at zero.
pub open spec fn remaining_wide(count: i64) -> int {
    if 5 - count > i64::MAX {
        i64::MAX as int
    } else if 5 - count < 0 {
        0
    } else {
        5 - count
    }
}

/// Failures left before the lock, as reported (the low 32 bits of
/// `remaining_wide`, as the `as u32` conversion gives).
pub open spec fn remaining_of(count: i64) -> u32 {
    remaining_wide(count) as u32
}

fn remaining_count(count: i64) -> (r: u32)
    ensures
        r == remaining_of(count),
{
    let d: i64 = if count < 5 - i64::MAX {
        i64::MAX
    } else if count > 5 {
        0
    } else {
        5 - count
    };
    d as u32
}

impl LoginThrottle {
    /// A row with no failures and no lock.
    pub fn idle() -> (t: LoginThrottle)
        ensures
            t.failed_count == 0,
            t.locked_until is None,
    {
        LoginThrottle { failed_count: 0, locked_until: None }
    }

    /// Counts a bad password at `now`. A live lock is left exactly as it
    /// is (hammering cannot slide the unlock time forward); an elapsed
    /// lock restarts the window at one failure; otherwise the counter
    /// grows and the fifth failure locks the account until
    /// `now + lockout`.
    pub fn record_failure(&mut self, now: Timestamp, lockout: Micros) -> (o: LoginFailureOutcome)
        requires
            old(self).failed_count < i64::MAX,
            i64::MIN <= now + lockout <= i64::MAX,
        ensures
            *final(self) == after_failure(*old(self), now, lockout),
            o == failure_outcome(*final(self), now),
    {
        match self.locked_until {
            Some(u) => {
                if u <= now {
                    self.failed_count = 1;
                    self.locked_until = None;
                }
            },
            None => {
                self.failed_count = self.failed_count + 1;
                if self.failed_count >= LOGIN_FAILURE_LIMIT {
                    self.locked_until = Some(now + lockout);
                }
            },
        }
        let remaining = remaining_count(self.failed_count);
        match self.locked_until {
            Some(u) => if u > now {
                LoginFailureOutcome::Locked { until: u }
            } else {
                LoginFailureOutcome::Recorded { remaining }
            },
            None => LoginFailureOutcome::Recorded { remaining },
        }
    }

    /// The live lock at `now`, if any. An elapsed lock is cleared
    /// together with the counter, so the next failure starts a fresh
    /// window instead of re-locking on a stale count.
    pub fn check_lockout(&mut self, now: Timestamp) -> (r: Option<Timestamp>)
        ensures
            match old(self).locked_until {
                None => r is None && *final(self) == *old(self),
                Some(u) => if u > now {
                    r == Some(u) && *final(self) == *old(self)
                } else {
                    r is None && final(self).failed_count == 0 && final(self).locked_until is None
                },
            },
            r matches Some(u) ==> u > now,
            r == live_lock(*old(self), now),
    {
        match self.locked_until {
            None => None,
            Some(u) => {
                if u > now {
                    Some(u)
                } else {
                    self.failed_count = 0;
                    self.locked_until = None;
                    None
                }
            },
        }
    }

    /// A successful login wipes out earlier failures and any lock.
    pub fn clear(&mut self)
        ensures
            final(self).failed_count == 0,
            final(self).locked_until is None,
    {
        self.failed_count = 0;
        self.locked_until = None;
    }
}

/// A live lock does not move: failing again while locked changes
/// nothing and reports the same unlock time.
pub proof fn lemma_lock_does_not_slide(t: LoginThrottle, now: Timestamp, lockout: Micros)
    requires
        is_locked(t, now),
    ensures
        after_failure(t, now, lockout) == t,
        failure_outcome(after_failure(t, now, lockout), now) == (LoginFailureOutcome::Locked {
            until: t.locked_until->0,
        }),
{
}

/// From a clean row, four failures leave one attempt, and the fifth
/// locks the account until `now + lockout` (for a positive lockout).
pub proof fn lemma_fifth_failure_locks(now: Timestamp, lockout: Micros)
    requires
        lockout > 0,
        now + lockout <= i64::MAX,
    ensures
        ({
            let t0 = LoginThrottle { failed_count: 0, locked_until: None };
            let t1 = after_failure(t0, now, lockout);
            let t2 = after_failure(t1, now, lockout);
            let t3 = after_failure(t2, now, lockout);
            let t4 = after_failure(t3, now, lockout);
            let t5 = after_failure(t4, now, lockout);
            &&& failure_outcome(t1, now) == (LoginFailureOutcome::Recorded { remaining: 4 })
            &&& failure_outcome(t4, now) == (LoginFailureOutcome::Recorded { remaining: 1 })
            &&& failure_outcome(t5, now) == (LoginFailureOutcome::Locked { until: (now + lockout) as i64 })
            &&& is_locked(t5, now)
        }),
{
}

/// Once a lock has elapsed, the next failure starts a fresh window: the
/// counter is back to one and the account is not locked.
pub proof fn lemma_elapsed_lock_restarts_window(t: LoginThrottle, now: Timestamp, lockout: Micros)
    requires
        t.locked_until matches Some(u) && u <= now,
    ensures
        after_failure(t, now, lockout) == (LoginThrottle { failed_count: 1, locked_until: None }),
        failure_outcome(after_failure(t, now, lockout), now) == (LoginFailureOutcome::Recorded {
            remaining: 4,
        }),
{
}

/// The lock a row holds at `now`, if it has not elapsed.
pub open spec fn live_lock(t: LoginThrottle, now: Timestamp) -> Option<Timestamp> {
    if is_locked(t, now) {
        t.locked_until
    } else {
        None
    }
}

/// The row after failures at the given times, in order.
pub open spec fn after_failures(t: LoginThrottle, times: Seq<Timestamp>, lockout: Micros) -> LoginThrottle
    decreases times.len(),
{
    if times.len() == 0 {
        t
    } else {
        after_failure(after_failures(t, times.drop_last(), lockout), times.last(), lockout)
    }
}

pub open spec fn idle_throttle() -> LoginThrottle {
    LoginThrottle { failed_count: 0, locked_until: None }
}

/// From a clean row, failures at any times up to four leave the account
/// unlocked with that many failures counted, each reporting the
/// attempts left; the fifth locks it until its time plus the lockout.
/// (That end must fit the time range, as `record_failure` requires.)
pub proof fn lemma_failure_sequence(times: Seq<Timestamp>, lockout: Micros)
    requires
        times.len() <= 5,
        lockout > 0,
        times.len() == 5 ==> times[4] + lockout <= i64::MAX,
    ensures
        times.len() <= 4 ==> after_failures(idle_throttle(), times, lockout) == (LoginThrottle {
            failed_count: times.len() as i64,
            locked_until: None,
        }),
        1 <= times.len() <= 4 ==> failure_outcome(after_failures(idle_throttle(), times, lockout), times.last())
            == (LoginFailureOutcome::Recorded { remaining: (5 - times.len()) as u32 }),
        times.len() == 5 ==> after_failures(idle_throttle(), times, lockout) == (LoginThrottle {
            failed_count: 5,
            locked_until: Some((times[4] + lockout) as i64),
        }),
        times.len() == 5 ==> failure_outcome(after_failures(idle_throttle(), times, lockout), times[4])
            == (LoginFailureOutcome::Locked { until: (times[4] + lockout) as i64 }),
    decreases times.len(),
{
    if times.len() > 0 {
        let p = times.drop_last();
        if p.len() == 4 {
            assert(p[3] == times[3]);
        }
        lemma_failure_sequence(p, lockout);
        assert(times.last() == times[times.len() - 1]);
    }
}

/// While the lock holds, further failures change nothing: the row and
/// the reported end of the lock stay the same.
pub proof fn lemma_locked_stays(t: LoginThrottle, times: Seq<Timestamp>, lockout: Micros)
    requires
        forall|i: int| 0 <= i < times.len() ==> is_locked(t, #[trigger] times[i]),
    ensures
        after_failures(t, times, lockout) == t,
        times.len() > 0 ==> failure_outcome(after_failures(t, times, lockout), times.last())
            == (LoginFailureOutcome::Locked { until: t.locked_until->0 }),
    decreases times.len(),
{
    if times.len() > 0 {
        let p = times.drop_last();
        assert forall|i: int| 0 <= i < p.len() implies is_locked(t, #[trigger] p[i]) by {
            assert(p[i] == times[i]);
        }
        lemma_locked_stays(t, p, lockout);
        assert(is_locked(t, times[times.len() - 1]));
    }
}

} // verus!
