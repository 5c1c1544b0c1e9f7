//! Bounded retry with exponential backoff.
//!
//! One adapter call may be tried up to `max_retries` times. After the failure
//! of attempt `n`, counted from 1, the caller waits `2^n` seconds before the
//! next attempt; after the last allowed attempt it gives up at once.

use vstd::prelude::*;
use vstd::arithmetic::power2::{lemma2_to64, lemma2_to64_rest, lemma_pow2_strictly_increases, lemma_pow2_unfold, pow2};

verus! {

/// Seconds to wait after failed attempt number `attempt`: two to that power,
/// or the largest `u64` where the power does not fit.
pub open spec fn backoff_secs(attempt: nat) -> nat {
    if attempt < 64 {
        pow2(attempt)
    } else {
        u64::MAX as nat
    }
}

/// Seconds to wait after failed attempt number `attempt`.
pub fn backoff_delay(attempt: u32) -> (secs: u64)
    ensures
        secs == backoff_secs(attempt as nat),
{
    if attempt >= 64 {
        return u64::MAX;
    }
    let mut secs: u64 = 1;
    let mut k: u32 = 0;
    proof {
        lemma2_to64();
    }
    while k < attempt
        invariant
            k <= attempt < 64,
            secs == pow2(k as nat),
        decreases attempt - k,
    {
        proof {
            lemma_pow2_unfold((k + 1) as nat);
            lemma2_to64_rest();
            if k + 1 < 63 {
                lemma_pow2_strictly_increases((k + 1) as nat, 63);
            }
        }
        secs = secs * 2;
        k += 1;
    }
    secs
}

/// What to do after a failed attempt.
#[derive(Clone, Copy, Debug, PartialEq, Eq, Structural)]
pub enum RetryDecision {
    /// Wait, then try again.
    Retry { delay_secs: u64 },
    /// The attempts are used up.
    GiveUp,
}

/// How far a bounded retry has come.
#[derive(Clone, Copy, Debug, PartialEq, Eq, Structural)]
pub struct RetryState {
    pub max_retries: u32,
    /// Attempts that have failed so far.
    pub failures: u32,
}

impl RetryState {
    /// Whether another attempt is allowed.
    pub open spec fn open(&self) -> bool {
        self.failures < self.max_retries
    }

    /// What follows the failure of one more attempt: a wait of
    /// `2^failures` seconds while attempts are left, the end otherwise.
    pub open spec fn after_failure(&self) -> RetryDecision {
        if self.failures + 1 < self.max_retries {
            RetryDecision::Retry { delay_secs: backoff_secs((self.failures + 1) as nat) as u64 }
        } else {
            RetryDecision::GiveUp
        }
    }

    /// The state before the first of at most `max_retries` attempts.
    pub fn new(max_retries: u32) -> (s: RetryState)
        ensures
            s == (RetryState { max_retries, failures: 0 }),
    {
        RetryState { max_retries, failures: 0 }
    }

    /// Whether another attempt is allowed.
    pub fn may_attempt(&self) -> (r: bool)
        ensures
            r == self.open(),
    {
        self.failures < self.max_retries
    }

    /// Counts a failed attempt and says what follows. With no attempt left to
    /// fail, nothing is counted and the answer is to give up.
    pub fn on_failure(&mut self) -> (d: RetryDecision)
        ensures
            final(self).max_retries == old(self).max_retries,
            old(self).open() ==> final(self).failures == old(self).failures + 1 && d == old(
                self,
            ).after_failure(),
            !old(self).open() ==> *final(self) == *old(self) && d == RetryDecision::GiveUp,
    {
        if self.failures >= self.max_retries {
            return RetryDecision::GiveUp;
        }
        self.failures = self.failures + 1;
        if self.failures < self.max_retries {
            RetryDecision::Retry { delay_secs: backoff_delay(self.failures) }
        } else {
            RetryDecision::GiveUp
        }
    }
}

impl RetryState {
    /// The state after one more failed attempt.
    pub open spec fn failed_once_more(self) -> RetryState {
        RetryState { failures: (self.failures + 1) as u32, ..self }
    }

    /// The waits that lie ahead if every attempt from here on fails, in order.
    pub open spec fn waits_ahead(self) -> Seq<u64>
        decreases self.max_retries - self.failures,
    {
        if self.open() {
            match self.after_failure() {
                RetryDecision::Retry { delay_secs } => seq![delay_secs]
                    + self.failed_once_more().waits_ahead(),
                RetryDecision::GiveUp => Seq::empty(),
            }
        } else {
            Seq::empty()
        }
    }
}

/// A wait fits the type it is counted in.
proof fn lemma_backoff_fits(attempt: nat)
    ensures
        backoff_secs(attempt) <= u64::MAX,
{
    if attempt < 64 {
        lemma2_to64_rest();
        if attempt < 63 {
            lemma_pow2_strictly_increases(attempt, 63);
        }
    }
}

/// A retry that never succeeds makes exactly `max_retries` attempts, where any
/// is allowed at all, and waits once between each two of them: after the
/// failure of attempt `n`, counted from 1, for `2^n` seconds, or for as long
/// as fits where that does not.
pub proof fn law_retry_schedule(state: RetryState)
    requires
        state.open(),
    ensures
        state.waits_ahead().len() == state.max_retries - state.failures - 1,
        forall|k: int|
            0 <= k < state.waits_ahead().len() ==> #[trigger] state.waits_ahead()[k]
                == backoff_secs((state.failures + k + 1) as nat),
    decreases state.max_retries - state.failures,
{
    if state.failures + 1 < state.max_retries {
        let next = state.failed_once_more();
        lemma_backoff_fits((state.failures + 1) as nat);
        law_retry_schedule(next);
        assert forall|k: int| 0 <= k < state.waits_ahead().len() implies #[trigger] state.waits_ahead()[k]
            == backoff_secs((state.failures + k + 1) as nat) by {
            if k > 0 {
                assert(state.waits_ahead()[k] == next.waits_ahead()[k - 1]);
            }
        }
    }
}

} // verus!
