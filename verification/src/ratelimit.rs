//! A token-bucket rate limiter, keyed globally, guarding the public API
//! group. A bucket holds up to `capacity` tokens (the burst), gains
//! `refill_per_sec` tokens each second, and each admitted request spends
//! one; a request finding the bucket empty is rejected before any handler
//! runs. Its counters are the only concurrently-mutated state of the
//! server; the surrounding program serializes calls to `allow`.

use vstd::prelude::*;
use crate::error::AppError;

verus! {

/// The limiter's whole state: current tokens, the second it was last
/// refilled at, and its fixed configuration.
#[derive(Clone, Copy)]
pub struct TokenBucket {
    pub tokens: u64,
    pub last_refill: u64,
    pub capacity: u64,
    pub refill_per_sec: u64,
}

impl TokenBucket {
    /// Well-formed: a positive burst, a positive rate, and never more
    /// tokens than the burst allows.
    pub open spec fn wf(&self) -> bool {
        self.capacity >= 1 && self.refill_per_sec >= 1 && self.tokens <= self.capacity
    }

    /// A fresh limiter starts with a full bucket.
    pub fn new(refill_per_sec: u64, capacity: u64, now: u64) -> (b: TokenBucket)
        requires
            refill_per_sec >= 1,
            capacity >= 1,
        ensures
            b.wf(),
            b.tokens == capacity,
            b.capacity == capacity,
            b.refill_per_sec == refill_per_sec,
            b.last_refill == now,
    {
        TokenBucket { tokens: capacity, last_refill: now, capacity, refill_per_sec }
    }
}

/// The bucket topped up at `now`: one token per elapsed second and rate
/// unit, clamped at the capacity; the refill moment advances.
pub open spec fn spec_refill(b: TokenBucket, now: u64) -> TokenBucket {
    if now <= b.last_refill {
        b
    } else {
        let gained = (now - b.last_refill) * b.refill_per_sec;
        let t: int = if b.tokens + gained >= b.capacity {
            b.capacity as int
        } else {
            b.tokens + gained
        };
        TokenBucket {
            tokens: t as u64,
            last_refill: now,
            capacity: b.capacity,
            refill_per_sec: b.refill_per_sec,
        }
    }
}

/// One request against the bucket at `now`: top up, then spend a token if
/// one is left; the flag says whether the request was admitted.
pub open spec fn spec_allow(b: TokenBucket, now: u64) -> (TokenBucket, bool) {
    let r = spec_refill(b, now);
    if r.tokens >= 1 {
        (
            TokenBucket {
                tokens: (r.tokens - 1) as u64,
                last_refill: r.last_refill,
                capacity: r.capacity,
                refill_per_sec: r.refill_per_sec,
            },
            true,
        )
    } else {
        (r, false)
    }
}

impl TokenBucket {
    /// Admit or reject one request arriving at `now` (seconds; the caller's
    /// clock must not run backwards).
    pub fn allow(&mut self, now: u64) -> (r: bool)
        requires
            old(self).wf(),
            old(self).last_refill <= now,
        ensures
            *final(self) == spec_allow(*old(self), now).0,
            r == spec_allow(*old(self), now).1,
            final(self).wf(),
    {
        if now > self.last_refill {
            let delta = now - self.last_refill;
            let full: bool = if delta >= self.capacity {
                assert(delta * self.refill_per_sec >= delta) by (nonlinear_arith)
                    requires
                        self.refill_per_sec >= 1,
                        delta >= 0,
                ;
                true
            } else if delta > u64::MAX / self.refill_per_sec {
                assert(delta * self.refill_per_sec > u64::MAX) by (nonlinear_arith)
                    requires
                        delta > u64::MAX as int / self.refill_per_sec as int,
                        self.refill_per_sec >= 1,
                ;
                true
            } else {
                assert(delta * self.refill_per_sec <= u64::MAX) by (nonlinear_arith)
                    requires
                        0 <= delta <= u64::MAX as int / self.refill_per_sec as int,
                        self.refill_per_sec >= 1,
                ;
                false
            };
            if full {
                self.tokens = self.capacity;
            } else {
                let gained = delta * self.refill_per_sec;
                if gained >= self.capacity - self.tokens {
                    self.tokens = self.capacity;
                } else {
                    self.tokens = self.tokens + gained;
                }
            }
            self.last_refill = now;
        }
        assert(*self == spec_refill(*old(self), now));
        if self.tokens >= 1 {
            self.tokens = self.tokens - 1;
            true
        } else {
            false
        }
    }
}

/// The rate-limit gate in front of the public routes: spend a token or
/// reject with the rate-limited error.
pub fn check_rate(bucket: &mut TokenBucket, now: u64) -> (r: Result<(), AppError>)
    requires
        old(bucket).wf(),
        old(bucket).last_refill <= now,
    ensures
        *final(bucket) == spec_allow(*old(bucket), now).0,
        (r is Ok) == spec_allow(*old(bucket), now).1,
        r matches Err(e) ==> (e matches AppError::RateLimited(m) && m@ == "Too many requests"@),
        final(bucket).wf(),
{
    if bucket.allow(now) {
        Ok(())
    } else {
        Err(AppError::RateLimited("Too many requests".to_owned()))
    }
}

/// The bucket's verdicts on `n` back-to-back requests all arriving at
/// `now`, oldest first, with the state they leave behind.
pub open spec fn spec_run(b: TokenBucket, now: u64, n: nat) -> (TokenBucket, Seq<bool>)
    decreases n,
{
    if n == 0 {
        (b, Seq::empty())
    } else {
        let prev = spec_run(b, now, (n - 1) as nat);
        let step = spec_allow(prev.0, now);
        (step.0, prev.1.push(step.1))
    }
}

/// Burst exhaustion: against a full bucket, of any number of requests
/// landing within one refill interval (the same second) exactly the first
/// `capacity` are admitted and every later one is rejected.
pub proof fn lemma_burst_limit(b: TokenBucket, now: u64, n: nat)
    requires
        b.wf(),
        b.tokens == b.capacity,
        b.last_refill <= now,
    ensures
        spec_run(b, now, n).1.len() == n,
        forall|i: int| 0 <= i < n ==> (spec_run(b, now, n).1[i] <==> i < b.capacity),
        spec_run(b, now, n).0.tokens == if n >= b.capacity {
            0int
        } else {
            b.capacity - n
        },
        n >= 1 ==> spec_run(b, now, n).0.last_refill == now,
        spec_run(b, now, n).0.capacity == b.capacity,
        spec_run(b, now, n).0.refill_per_sec == b.refill_per_sec,
    decreases n,
{
    if n == 0 {
    } else {
        lemma_burst_limit(b, now, (n - 1) as nat);
        let prev = spec_run(b, now, (n - 1) as nat);
        if n == 1 && now > b.last_refill {
            assert((now - b.last_refill) * b.refill_per_sec >= 1) by (nonlinear_arith)
                requires
                    now - b.last_refill >= 1,
                    b.refill_per_sec >= 1,
            ;
        }
        assert(spec_run(b, now, n).1 == prev.1.push(spec_allow(prev.0, now).1));
        assert(forall|i: int| 0 <= i < n - 1 ==> spec_run(b, now, n).1[i] == prev.1[i]);
    }
}

} // verus!
