use vstd::prelude::*;
use backon::{BackoffBuilder, ExponentialBuilder};
use core::time::Duration;
use vstd::arithmetic::power2::{lemma_pow2_pos, pow2};

verus! {

/// Ceiling of the delay between two attempts, in milliseconds.
pub const RETRY_MAX_DELAY_MS: u64 = 10000;
/// Retries allowed when binding a local listener.
pub const LISTENER_MAX_RETRIES: usize = 10;

/// Delay in milliseconds before retry number `retry` (from zero) of an
/// exponential backoff with ceiling `max_delay_ms`: one second first, then
/// doubling, held at the ceiling once it would pass it.
pub open spec fn exponential_delay_ms(max_delay_ms: u64, retry: nat) -> nat {
    if retry == 0 {
        1000
    } else if 1000 * pow2(retry) < max_delay_ms {
        1000 * pow2(retry)
    } else {
        max_delay_ms as nat
    }
}

/// Relies on backon's `ExponentialBuilder` with its defaults (no jitter, first
/// delay one second, factor two) and `with_max_delay`: the first delay is one
/// second; each later one doubles the previous while that is below the
/// ceiling, and is held at the ceiling from the first time it would pass it.
#[verifier::external_body]
fn exponential_delay(max_delay_ms: u64, retry: usize) -> (r: u64)
    ensures
        r as nat == exponential_delay_ms(max_delay_ms, retry as nat),
{
    ExponentialBuilder::default()
        .with_max_delay(Duration::from_millis(max_delay_ms))
        .without_max_times()
        .build()
        .nth(retry)
        .unwrap_or_default()
        .as_millis() as u64
}

/// What to do after a failed attempt.
#[derive(Clone, Copy, Debug, PartialEq, Eq, Structural)]
pub enum RetryDecision {
    /// Sleep this many milliseconds, then try again.
    Wait(u64),
    /// Stop trying and report the last error.
    GiveUp,
}

/// Exponential backoff with a 10 s ceiling and a limit on the number of
/// retries.
#[derive(Clone, Copy, Debug, PartialEq, Eq, Structural)]
pub struct RetryPolicy {
    pub max_retries: usize,
    pub retries: usize,
}

impl RetryPolicy {
    /// Connection establishment: retries until shutdown.
    pub fn unlimited() -> (r: RetryPolicy)
        ensures
            r.max_retries == usize::MAX,
            r.retries == 0,
    {
        RetryPolicy { max_retries: usize::MAX, retries: 0 }
    }

    /// Binding a local listener: at most ten retries.
    pub fn for_listener() -> (r: RetryPolicy)
        ensures
            r.max_retries == LISTENER_MAX_RETRIES,
            r.retries == 0,
    {
        RetryPolicy { max_retries: LISTENER_MAX_RETRIES, retries: 0 }
    }

    /// Decides after a failed attempt. Once the client is quitting, or the
    /// retries are used up, it gives up; otherwise it waits the backoff delay
    /// of this retry (between 1 s and 10 s) and counts the retry.
    pub fn on_failure(&mut self, quitting: bool) -> (r: RetryDecision)
        ensures
            (quitting || old(self).retries >= old(self).max_retries) ==> r == RetryDecision::GiveUp
                && *final(self) == *old(self),
            !(quitting || old(self).retries >= old(self).max_retries) ==> r == RetryDecision::Wait(
                exponential_delay_ms(RETRY_MAX_DELAY_MS, old(self).retries as nat) as u64,
            ) && final(self).retries == old(self).retries + 1 && final(self).max_retries == old(
                self,
            ).max_retries,
            r matches RetryDecision::Wait(ms) ==> 1000 <= ms <= RETRY_MAX_DELAY_MS,
    {
        if quitting || self.retries >= self.max_retries {
            return RetryDecision::GiveUp;
        }
        let ms = exponential_delay(RETRY_MAX_DELAY_MS, self.retries);
        proof {
            lemma_pow2_pos(self.retries as nat);
        }
        self.retries = self.retries + 1;
        RetryDecision::Wait(ms)
    }
}

} // verus!
