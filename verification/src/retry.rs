use vstd::prelude::*;

use crate::error::VaultError;

verus! {

/// Bounded retry policy wrapping only the authoritative-state fetch: a
/// fixed number of attempts with a linearly growing delay.  A ledger
/// invariant failure is deterministic, not transient, and is never
/// retried; this policy applies to the one network-bound operation.
#[derive(Clone, Copy, Debug, PartialEq, Eq, Structural)]
pub struct RetryPolicy {
    /// How many fetch attempts are made before giving up.
    pub max_attempts: u32,
    /// Delay before the second attempt; later delays grow linearly.
    pub base_delay_ms: u64,
}

impl RetryPolicy {
    /// Bounds under which every computed delay fits in 64 bits: at most a
    /// thousand attempts, at most an hour of base delay.
    pub open spec fn wf(self) -> bool {
        &&& self.max_attempts <= 1000
        &&& self.base_delay_ms <= 3_600_000
    }

    /// A policy within the representable bounds.
    pub fn new(max_attempts: u32, base_delay_ms: u64) -> (r: RetryPolicy)
        requires
            max_attempts <= 1000,
            base_delay_ms <= 3_600_000,
        ensures
            r == (RetryPolicy { max_attempts, base_delay_ms }),
            r.wf(),
    {
        RetryPolicy { max_attempts, base_delay_ms }
    }

    /// The default policy: three attempts, starting one second apart.
    pub fn standard() -> (r: RetryPolicy)
        ensures
            r == (RetryPolicy { max_attempts: 3, base_delay_ms: 1000 }),
            r.wf(),
    {
        RetryPolicy { max_attempts: 3, base_delay_ms: 1000 }
    }

    /// Whether another fetch attempt may be made after `attempts_made`
    /// failed ones.
    pub fn should_retry(&self, attempts_made: u32) -> (r: bool)
        ensures
            r == (attempts_made < self.max_attempts),
    {
        attempts_made < self.max_attempts
    }

    /// Delay before the attempt after `attempts_made` failed ones: grows
    /// linearly, so repeated failures back off further and further.
    pub fn delay_before_ms(&self, attempts_made: u32) -> (r: u64)
        requires
            self.wf(),
        ensures
            r == self.base_delay_ms * (attempts_made + 1),
    {
        proof {
            assert(self.base_delay_ms * ((attempts_made as u64) + 1) <= 3_600_000 * (
            0x1_0000_0000u64 as int)) by (nonlinear_arith)
                requires
                    self.base_delay_ms <= 3_600_000,
                    attempts_made <= 0xffff_ffffu32,
            ;
        }
        self.base_delay_ms * ((attempts_made as u64) + 1)
    }

    /// The error surfaced to the caller once the retry budget is
    /// exhausted: retryable by the next pass, never fatal to the process.
    pub fn give_up(&self, attempts_made: u32) -> (r: Option<VaultError>)
        ensures
            attempts_made >= self.max_attempts ==> r == Some(VaultError::AuthoritativeFetchFailed),
            attempts_made < self.max_attempts ==> r is None,
    {
        if attempts_made >= self.max_attempts {
            Some(VaultError::AuthoritativeFetchFailed)
        } else {
            None
        }
    }
}

} // verus!
