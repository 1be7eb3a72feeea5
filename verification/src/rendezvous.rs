//! Client-side policy for the rendezvous service: bounded retries with
//! capped exponential backoff, registration-lease renewal, and the rate
//! limit on relay allocation requests.
//!
//! The wire traffic itself is the caller's: this module only decides when
//! to try again, when to renew, and when a relay request must be refused
//! locally to spare the shared relay service.

use vstd::prelude::*;

verus! {

/// The longest backoff delay ever waited, in milliseconds.
pub const BACKOFF_CAP_MS: u64 = 600000;

/// A bounded-retry schedule with exponential backoff.
#[derive(Clone, Copy, Debug, PartialEq, Eq, Structural)]
pub struct RetryPolicy {
    /// How many attempts may be made in all, the first included.
    pub max_attempts: u32,
    /// The delay before the first retry, in milliseconds; it doubles per
    /// further retry up to `BACKOFF_CAP_MS`.
    pub base_delay_ms: u64,
}

impl RetryPolicy {
    /// Well-formed: at least one attempt, and a base delay between one
    /// millisecond and the cap.
    pub open spec fn wf(self) -> bool {
        &&& self.max_attempts >= 1
        &&& 1 <= self.base_delay_ms <= BACKOFF_CAP_MS
    }

    /// The delay before the retry that follows `failures` failed
    /// attempts: the base delay doubled per failure beyond the first,
    /// capped.
    pub open spec fn backoff_spec(self, failures: nat) -> int
        decreases failures,
    {
        if failures <= 1 {
            self.base_delay_ms as int
        } else {
            let prev = self.backoff_spec((failures - 1) as nat);
            if 2 * prev > BACKOFF_CAP_MS {
                BACKOFF_CAP_MS as int
            } else {
                2 * prev
            }
        }
    }

    /// Whether another attempt is allowed after `attempts_made` of them.
    pub fn should_retry(&self, attempts_made: u32) -> (r: bool)
        ensures
            r == (attempts_made < self.max_attempts),
    {
        attempts_made < self.max_attempts
    }

    /// The delay before the next retry, after `failures` failed attempts.
    pub fn backoff_ms(&self, failures: u32) -> (r: u64)
        requires
            self.wf(),
        ensures
            r == self.backoff_spec(failures as nat),
            r <= BACKOFF_CAP_MS,
    {
        let mut d: u64 = self.base_delay_ms;
        let mut k: u32 = 1;
        while k < failures
            invariant
                self.wf(),
                1 <= k,
                failures >= 1 ==> k <= failures,
                d == self.backoff_spec(if k <= failures { k as nat } else { 1 as nat }),
                d <= BACKOFF_CAP_MS,
            decreases failures - k,
        {
            d = if d > BACKOFF_CAP_MS / 2 {
                BACKOFF_CAP_MS
            } else {
                2 * d
            };
            k = k + 1;
        }
        d
    }
}

/// A registration lease with the rendezvous server.  Re-registering is
/// idempotent on the server; the client's duty is only to renew before
/// expiry, which this type decides.
#[derive(Clone, Copy, Debug, PartialEq, Eq, Structural)]
pub struct Lease {
    /// When the lease lapses, in milliseconds of the caller's clock.
    pub expires_at_ms: u64,
    /// How long before expiry renewal should already happen.
    pub renew_margin_ms: u64,
}

impl Lease {
    /// Whether the renewal task must re-register now.
    pub fn needs_renewal(&self, now_ms: u64) -> (r: bool)
        ensures
            r == (now_ms + self.renew_margin_ms >= self.expires_at_ms),
    {
        if self.expires_at_ms <= self.renew_margin_ms {
            true
        } else {
            now_ms >= self.expires_at_ms - self.renew_margin_ms
        }
    }

    /// The lease after a successful re-registration at `now_ms` for
    /// `duration_ms`; the expiry saturates rather than wraps.
    pub fn renewed(&self, now_ms: u64, duration_ms: u64) -> (r: Lease)
        ensures
            r.renew_margin_ms == self.renew_margin_ms,
            r.expires_at_ms == if now_ms + duration_ms <= u64::MAX {
                (now_ms + duration_ms) as int
            } else {
                u64::MAX as int
            },
    {
        let expires_at_ms = if now_ms <= u64::MAX - duration_ms {
            now_ms + duration_ms
        } else {
            u64::MAX
        };
        Lease { expires_at_ms, renew_margin_ms: self.renew_margin_ms }
    }
}

/// The per-identifier rate limit on relay allocation requests: at most
/// `max_in_window` requests per window, so one peer cannot exhaust the
/// shared relay service.
#[derive(Clone, Copy, Debug, PartialEq, Eq, Structural)]
pub struct RelayLimiter {
    /// The window length in milliseconds.
    pub window_ms: u64,
    /// How many requests one window admits.
    pub max_in_window: u32,
    /// When the current window started.
    pub window_start_ms: u64,
    /// How many requests the current window has admitted.
    pub used: u32,
}

impl RelayLimiter {
    /// Whether the current window is over at `now_ms`.
    pub open spec fn window_over(self, now_ms: u64) -> bool {
        now_ms >= self.window_start_ms + self.window_ms
    }

    /// Admits or refuses one relay request at `now_ms`.  A fresh window is
    /// opened when the old one is over; within a window, requests beyond
    /// `max_in_window` are refused and change nothing.
    pub fn try_acquire(&mut self, now_ms: u64) -> (admitted: bool)
        requires
            old(self).max_in_window >= 1,
            now_ms >= old(self).window_start_ms,
        ensures
            old(self).window_over(now_ms) ==> admitted && *final(self) == (RelayLimiter {
                window_start_ms: now_ms,
                used: 1,
                ..*old(self)
            }),
            !old(self).window_over(now_ms) && old(self).used < old(self).max_in_window
                ==> admitted && *final(self) == (RelayLimiter {
                used: (old(self).used + 1) as u32,
                ..*old(self)
            }),
            !old(self).window_over(now_ms) && old(self).used >= old(self).max_in_window
                ==> !admitted && *final(self) == *old(self),
    {
        let over = self.window_ms <= u64::MAX - self.window_start_ms && now_ms
            >= self.window_start_ms + self.window_ms;
        if over {
            self.window_start_ms = now_ms;
            self.used = 1;
            true
        } else if self.used < self.max_in_window {
            self.used = self.used + 1;
            true
        } else {
            false
        }
    }
}

} // verus!
