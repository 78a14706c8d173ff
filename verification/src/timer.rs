//! The round timer: counts a fixed duration down while the session is
//! playing; on expiry it resets itself and reports the expiry, so that the
//! session can raise a round-end request. It fires exactly once per round:
//! one reset, one report.

use vstd::prelude::*;

verus! {

/// Counts down from `limit` to zero in integer time units. The timer only
/// reports expiry; changing the session phase on a round's end is the session
/// state machine's job, so that one authority owns all transitions.
#[derive(Clone, Copy, Debug)]
pub struct RoundTimer {
    /// Time units left until the round ends.
    pub remaining: u64,
    /// The duration the timer counts down from, constant per session.
    pub limit: u64,
}

impl RoundTimer {
    /// A running timer: it has time left, and never more than its limit.
    pub open spec fn wf(self) -> bool {
        0 < self.remaining <= self.limit
    }

    /// One tick of the countdown: the delta is taken off the remaining time,
    /// and the tick that would reach (or pass) zero instead resets the timer
    /// to its limit and reports the expiry in the second component.
    pub open spec fn tick_spec(self, dt: u64) -> (RoundTimer, bool) {
        if dt >= self.remaining {
            (RoundTimer { remaining: self.limit, limit: self.limit }, true)
        } else {
            (RoundTimer { remaining: (self.remaining - dt) as u64, limit: self.limit }, false)
        }
    }

    /// A fresh timer for a round of length `limit`.
    pub fn new(limit: u64) -> (t: RoundTimer)
        requires
            limit > 0,
        ensures
            t.remaining == limit,
            t.limit == limit,
            t.wf(),
    {
        RoundTimer { remaining: limit, limit }
    }

    /// Counts `dt` time units down. Returns whether the round's time expired
    /// on this tick; if it did, the timer has already reset to its limit.
    pub fn tick(&mut self, dt: u64) -> (expired: bool)
        requires
            old(self).wf(),
        ensures
            (*final(self), expired) == old(self).tick_spec(dt),
            expired == (dt >= old(self).remaining),
            final(self).limit == old(self).limit,
            final(self).remaining == if expired {
                old(self).limit as int
            } else {
                old(self).remaining - dt
            },
            final(self).wf(),
    {
        if dt >= self.remaining {
            self.remaining = self.limit;
            true
        } else {
            self.remaining = self.remaining - dt;
            false
        }
    }
}

} // verus!
