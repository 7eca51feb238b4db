//! The retry controller for stream establishment.
//!
//! Retry wraps only the initial handshake, never an already-open byte
//! stream. A rate-limited attempt is retried with exponential backoff — one
//! time unit after the first failure, doubling each time — up to five
//! attempts in all; any other failure, and the fifth failure, surface to the
//! caller at once.

use vstd::prelude::*;

verus! {

/// The most establishment attempts one turn may make.
pub const MAX_ATTEMPTS: u8 = 5;

/// Two to the given power.
pub open spec fn pow2(n: nat) -> int
    decreases n,
{
    if n == 0 {
        1
    } else {
        2 * pow2((n - 1) as nat)
    }
}

/// Tracks the establishment attempts of one turn.
#[derive(Debug, Clone, Copy, PartialEq, Eq)]
pub struct RetryController {
    /// How many attempts have failed so far.
    pub failures: u8,
}

impl RetryController {
    /// A controller that has seen no attempt yet.
    pub fn new() -> (r: RetryController)
        ensures
            r.failures == 0,
    {
        RetryController { failures: 0 }
    }

    /// Records one failed establishment attempt and decides what follows:
    /// `Some(wait)` orders one backoff of `wait` time units (1, 2, 4, 8 after
    /// the first, second, third and fourth failure) and then a retry, and is
    /// returned exactly when the failure was a rate limit and the attempt
    /// budget of five is not yet spent; `None` surfaces the failure at once.
    pub fn on_failure(&mut self, rate_limited: bool) -> (r: Option<u64>)
        requires
            old(self).failures < MAX_ATTEMPTS,
        ensures
            final(self).failures == old(self).failures + 1,
            rate_limited && old(self).failures + 1 < MAX_ATTEMPTS ==> r == Some(
                pow2(old(self).failures as nat) as u64,
            ),
            !(rate_limited && old(self).failures + 1 < MAX_ATTEMPTS) ==> r is None,
    {
        let k = self.failures;
        self.failures = k + 1;
        if rate_limited && k + 1 < MAX_ATTEMPTS {
            let wait: u64 = match k {
                0 => 1,
                1 => 2,
                2 => 4,
                _ => 8,
            };
            proof {
                reveal_with_fuel(pow2, 5);
            }
            Some(wait)
        } else {
            None
        }
    }
}

} // verus!
