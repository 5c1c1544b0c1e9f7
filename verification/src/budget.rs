//! The two brakes on upstream traffic: an hourly request budget shared by all
//! symbols, and a pool of permits that bounds the fetches in flight.

use vstd::prelude::*;

verus! {

/// Seconds in the budget's window.
pub const WINDOW_SECS: i64 = 3600;

/// Seconds to stand still when the budget is spent.
pub const THROTTLE_SECS: u64 = 60;

/// A count of the requests made since the window opened, against an hourly cap.
#[derive(Clone, Copy, Debug, PartialEq, Eq, Structural)]
pub struct RateBudget {
    pub request_count: u64,
    /// Seconds since the Unix epoch at which the window opened.
    pub window_start: i64,
    pub max_requests_per_hour: u64,
}

impl RateBudget {
    /// Whether the cap is reached: no further request may be made.
    pub open spec fn exhausted(&self) -> bool {
        self.request_count >= self.max_requests_per_hour
    }

    /// Whether the window that opened at `window_start` is over at `now`.
    pub open spec fn window_over(&self, now: i64) -> bool {
        now - self.window_start >= WINDOW_SECS
    }

    /// The budget after `n` more requests were counted. The count stops at the
    /// largest `u64`.
    pub open spec fn after_requests(self, n: nat) -> RateBudget {
        RateBudget {
            request_count: if self.request_count + n <= u64::MAX {
                (self.request_count + n) as u64
            } else {
                u64::MAX
            },
            ..self
        }
    }

    /// The budget after a look at the clock at `now`: a fresh window where the
    /// old one is over, the same budget where it is not.
    pub open spec fn rolled(self, now: i64) -> RateBudget {
        if self.window_over(now) {
            RateBudget { request_count: 0, window_start: now, ..self }
        } else {
            self
        }
    }

    /// A budget of `max_requests_per_hour` whose window opens at `now`.
    pub fn new(max_requests_per_hour: u64, now: i64) -> (b: RateBudget)
        ensures
            b == (RateBudget { request_count: 0, window_start: now, max_requests_per_hour }),
    {
        RateBudget { request_count: 0, window_start: now, max_requests_per_hour }
    }

    /// Whether the cap is reached.
    pub fn is_exhausted(&self) -> (r: bool)
        ensures
            r == self.exhausted(),
    {
        self.request_count >= self.max_requests_per_hour
    }

    /// Counts one request.
    pub fn record_request(&mut self)
        ensures
            *final(self) == old(self).after_requests(1),
    {
        if self.request_count < u64::MAX {
            self.request_count = self.request_count + 1;
        }
    }

    /// Opens a fresh window at `now` where the old one has lasted an hour, and
    /// says whether it did.
    pub fn check_and_reset(&mut self, now: i64) -> (reset: bool)
        ensures
            reset == old(self).window_over(now),
            *final(self) == old(self).rolled(now),
    {
        if (now as i128) - (self.window_start as i128) >= WINDOW_SECS as i128 {
            self.request_count = 0;
            self.window_start = now;
            true
        } else {
            false
        }
    }
}

/// In a window that started empty, the budget allows exactly as many requests
/// as the cap says: after `n` of them the next one is refused if and only if
/// `n` has reached the cap.
pub proof fn law_budget_spent_at_cap(budget: RateBudget, n: nat)
    requires
        budget.request_count == 0,
    ensures
        budget.after_requests(n).exhausted() <==> n >= budget.max_requests_per_hour,
{
}

/// A spent budget stays spent while its window lasts, whatever the clock says
/// in between, and is whole again at the first look once the hour is over,
/// provided the cap allows any request at all.
pub proof fn law_budget_recovers_with_window(budget: RateBudget, now: i64)
    requires
        budget.exhausted(),
    ensures
        !budget.window_over(now) ==> budget.rolled(now) == budget && budget.rolled(now).exhausted(),
        budget.window_over(now) && budget.max_requests_per_hour > 0 ==> !budget.rolled(
            now,
        ).exhausted(),
{
}

/// A pool of permits: at most `capacity` are out at any time.
#[derive(Debug)]
pub struct PermitPool {
    capacity: usize,
    in_flight: usize,
}

impl PermitPool {
    /// No more permits are out than the pool has.
    pub closed spec fn well_formed(&self) -> bool {
        self.in_flight <= self.capacity
    }

    /// The number of permits the pool has.
    pub closed spec fn spec_capacity(&self) -> nat {
        self.capacity as nat
    }

    /// The number of permits that are out.
    pub closed spec fn spec_in_flight(&self) -> nat {
        self.in_flight as nat
    }

    /// A pool of `capacity` permits, none of them out.
    pub fn new(capacity: usize) -> (pool: PermitPool)
        ensures
            pool.well_formed(),
            pool.spec_capacity() == capacity,
            pool.spec_in_flight() == 0,
    {
        PermitPool { capacity, in_flight: 0 }
    }

    /// The number of permits the pool has.
    pub fn capacity(&self) -> (n: usize)
        ensures
            n == self.spec_capacity(),
    {
        self.capacity
    }

    /// The number of permits that are out.
    pub fn in_flight(&self) -> (n: usize)
        ensures
            n == self.spec_in_flight(),
    {
        self.in_flight
    }

    /// Hands out a permit if one is left, and says whether it did.
    pub fn try_acquire(&mut self) -> (granted: bool)
        requires
            old(self).well_formed(),
        ensures
            final(self).well_formed(),
            final(self).spec_capacity() == old(self).spec_capacity(),
            granted == (old(self).spec_in_flight() < old(self).spec_capacity()),
            final(self).spec_in_flight() == old(self).spec_in_flight() + if granted {
                1nat
            } else {
                0nat
            },
    {
        if self.in_flight < self.capacity {
            self.in_flight = self.in_flight + 1;
            true
        } else {
            false
        }
    }

    /// Takes a permit back. With none out, nothing changes.
    pub fn release(&mut self)
        requires
            old(self).well_formed(),
        ensures
            final(self).well_formed(),
            final(self).spec_capacity() == old(self).spec_capacity(),
            final(self).spec_in_flight() == if old(self).spec_in_flight() > 0 {
                (old(self).spec_in_flight() - 1) as nat
            } else {
                0nat
            },
    {
        if self.in_flight > 0 {
            self.in_flight = self.in_flight - 1;
        }
    }
}

} // verus!
