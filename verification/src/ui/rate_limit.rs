use vstd::prelude::*;

verus! {

#[verifier::external_type_specification]
#[verifier::external_body]
pub struct ExInstant(std::time::Instant);

/// Reads the monotonic clock.
///
/// Calls `std::time::Instant::now`. Nothing is claimed of the result: it is the time.
#[verifier::external_body]
fn instant_now() -> std::time::Instant {
    std::time::Instant::now()
}

/// Whole milliseconds from `origin` to now on the monotonic clock.
///
/// Calls `std::time::Instant::elapsed` and `std::time::Duration::as_millis`.
/// Nothing is claimed of the result: it depends on the time of the call.
#[verifier::external_body]
fn millis_since(origin: &std::time::Instant) -> u128 {
    origin.elapsed().as_millis()
}

/// Initial ceiling of rate limited requests.
pub const RATE_LIMIT_CEILING: u32 = 25;

/// Milliseconds after which one request is forgiven.
pub const RATE_LIMIT_RETRY_MS: u32 = 2000;

/// Plain view of a [`MediaRateLimit`]: the counter, its ceiling, the decay period,
/// and the clock reading (in milliseconds since the limiter was made) of the last update.
pub struct RateLimitView {
    pub current: u32,
    pub ceiling: u32,
    pub retry_ms: u32,
    pub last_update_ms: u128,
}

/// Milliseconds from the last update to `now_ms`; zero when the clock reads earlier.
pub open spec fn spec_elapsed(v: RateLimitView, now_ms: u128) -> u128 {
    if now_ms >= v.last_update_ms {
        (now_ms - v.last_update_ms) as u128
    } else {
        0
    }
}

/// The limiter after the requests forgiven since the last update are taken off:
/// one request per whole `retry_ms` elapsed, the clock of the last update moved on
/// by as many whole periods.
pub open spec fn spec_decay(v: RateLimitView, now_ms: u128) -> RateLimitView {
    let elapsed = spec_elapsed(v, now_ms);
    if elapsed >= v.retry_ms {
        let decay = (elapsed / (v.retry_ms as u128)) as u32;
        RateLimitView {
            current: if v.current >= decay { (v.current - decay) as u32 } else { 0 },
            last_update_ms: (v.last_update_ms + (decay as u64) * (v.retry_ms as u64)) as u128,
            ..v
        }
    } else {
        v
    }
}

/// Whether a request at `now_ms` is allowed: the decayed count is under the ceiling.
pub open spec fn spec_allows(v: RateLimitView, now_ms: u128) -> bool {
    spec_decay(v, now_ms).current < v.ceiling
}

/// The limiter after a check at `now_ms`: decayed, then counted once more if allowed.
pub open spec fn spec_step(v: RateLimitView, now_ms: u128) -> RateLimitView {
    let d = spec_decay(v, now_ms);
    if d.current < d.ceiling {
        RateLimitView { current: (d.current + 1) as u32, ..d }
    } else {
        d
    }
}

/// Global rate limit counter
pub struct MediaRateLimit {
    /// The current count of rate limited requests since the last update/poll
    current: u32,
    /// The ceiling; functionality requiring rate limited requests should
    /// be exited before making a new request if this is hit
    ceiling: u32,
    /// Timeout before decrementing the rate limit since the last update/poll
    retry_ms: u32,
    /// The clock reading against which `last_update_ms` counts
    origin: std::time::Instant,
    /// Last time the counter was updated, in milliseconds after `origin`
    last_update_ms: u128,
}

impl MediaRateLimit {
    pub closed spec fn view(&self) -> RateLimitView {
        RateLimitView {
            current: self.current,
            ceiling: self.ceiling,
            retry_ms: self.retry_ms,
            last_update_ms: self.last_update_ms,
        }
    }

    /// The limiter's invariant: a positive decay period and a count within the ceiling.
    pub open spec fn wf(&self) -> bool {
        &&& self.view().retry_ms > 0
        &&& self.view().current <= self.view().ceiling
    }

    /// A fresh limiter: nothing counted, a ceiling of 25 per 2000 ms.
    pub fn init() -> (rl: Self)
        ensures
            rl.wf(),
            rl.view() == (RateLimitView {
                current: 0,
                ceiling: RATE_LIMIT_CEILING,
                retry_ms: RATE_LIMIT_RETRY_MS,
                last_update_ms: 0,
            }),
    {
        MediaRateLimit {
            current: 0,
            ceiling: RATE_LIMIT_CEILING,
            retry_ms: RATE_LIMIT_RETRY_MS,
            origin: instant_now(),
            last_update_ms: 0,
        }
    }

    /// The count of rate limited requests since the last update.
    pub fn current(&self) -> (c: u32)
        ensures
            c == self.view().current,
    {
        self.current
    }

    /// The ceiling of rate limited requests.
    pub fn ceiling(&self) -> (c: u32)
        ensures
            c == self.view().ceiling,
    {
        self.ceiling
    }

    /// The check of [`Self::check_and_increment`] for a clock reading of `now_ms`
    /// milliseconds after the limiter was made.
    pub fn check_and_increment_at(&mut self, now_ms: u128) -> (can_request: bool)
        requires
            old(self).wf(),
        ensures
            final(self).wf(),
            final(self).view() == spec_step(old(self).view(), now_ms),
            can_request == spec_allows(old(self).view(), now_ms),
    {
        let elapsed: u128 = if now_ms >= self.last_update_ms {
            now_ms - self.last_update_ms
        } else {
            0
        };
        if elapsed >= self.retry_ms as u128 {
            let quotient: u128 = elapsed / (self.retry_ms as u128);
            let decay: u32 = #[verifier::truncate] (quotient as u32);
            assert(decay <= quotient) by (bit_vector)
                requires
                    decay == #[verifier::truncate] (quotient as u32),
            ;
            assert((decay as u64) * (self.retry_ms as u64) <= u64::MAX) by (nonlinear_arith)
                requires
                    decay <= u32::MAX,
                    self.retry_ms <= u32::MAX,
            ;
            assert((decay as u64) * (self.retry_ms as u64) <= elapsed) by (nonlinear_arith)
                requires
                    decay <= quotient,
                    quotient == elapsed / (self.retry_ms as u128),
                    self.retry_ms > 0,
            ;
            self.current = self.current.saturating_sub(decay);
            let advance: u64 = (decay as u64) * (self.retry_ms as u64);
            self.last_update_ms = self.last_update_ms + advance as u128;
        }
        if self.current < self.ceiling {
            self.current = self.current + 1;
            true
        } else {
            false
        }
    }

    /// Check the counter and increment by 1.
    /// Handles decreasing the counter based on time passed.
    ///
    /// This should be used right before making requests to rate-limited endpoints.
    pub fn check_and_increment(&mut self) -> (can_request: bool)
        requires
            old(self).wf(),
        ensures
            final(self).wf(),
            exists|now_ms: u128|
                {
                    &&& final(self).view() == #[trigger] spec_step(old(self).view(), now_ms)
                    &&& can_request == spec_allows(old(self).view(), now_ms)
                },
    {
        let now_ms = millis_since(&self.origin);
        let r = self.check_and_increment_at(now_ms);
        r
    }
}


/// The limiter after `n` checks at the same clock reading `now_ms`, and how many of them
/// were allowed.
pub open spec fn spec_run(v: RateLimitView, now_ms: u128, n: nat) -> (RateLimitView, nat)
    decreases n,
{
    if n == 0 {
        (v, 0)
    } else {
        let rest = spec_run(spec_step(v, now_ms), now_ms, (n - 1) as nat);
        (rest.0, rest.1 + if spec_allows(v, now_ms) {
            1nat
        } else {
            0nat
        })
    }
}

proof fn lemma_decay_settles(v: RateLimitView, now_ms: u128)
    requires
        v.retry_ms > 0,
        spec_elapsed(v, now_ms) / (v.retry_ms as u128) <= u32::MAX,
    ensures
        spec_elapsed(spec_decay(v, now_ms), now_ms) < v.retry_ms,
        spec_decay(v, now_ms).ceiling == v.ceiling,
        spec_decay(v, now_ms).retry_ms == v.retry_ms,
        spec_decay(v, now_ms).current <= v.current,
{
    let elapsed = spec_elapsed(v, now_ms);
    if elapsed >= v.retry_ms {
        let r = v.retry_ms as u128;
        let q = elapsed / r;
        assert(q * r <= elapsed && elapsed - q * r < r) by (nonlinear_arith)
            requires
                r > 0,
                q == elapsed / r,
        ;
        assert((q as u32) as u128 == q);
        assert((q as u32 as u64) * (v.retry_ms as u64) == q * r) by (nonlinear_arith)
            requires
                (q as u32) as u128 == q,
                r == v.retry_ms as u128,
        ;
        assert(q * r <= u128::MAX);
    }
}

proof fn lemma_settled_run(v: RateLimitView, now_ms: u128, n: nat)
    requires
        v.current <= v.ceiling,
        spec_elapsed(v, now_ms) < v.retry_ms,
    ensures
        spec_run(v, now_ms, n).1 == if n <= v.ceiling - v.current {
            n as int
        } else {
            v.ceiling - v.current
        },
    decreases n,
{
    if n > 0 {
        assert(spec_decay(v, now_ms) == v);
        lemma_settled_run(spec_step(v, now_ms), now_ms, (n - 1) as nat);
    }
}

/// Within one decay period the ceiling caps the requests: of `n` checks made at the same
/// moment, exactly as many are allowed as the ceiling leaves room for after the forgiven
/// requests are taken off (and never more than `n`).
pub proof fn law_ceiling_caps_burst(v: RateLimitView, now_ms: u128, n: nat)
    requires
        v.retry_ms > 0,
        v.current <= v.ceiling,
        spec_elapsed(v, now_ms) / (v.retry_ms as u128) <= u32::MAX,
    ensures
        spec_run(v, now_ms, n).1 == if n <= v.ceiling - spec_decay(v, now_ms).current {
            n as int
        } else {
            v.ceiling - spec_decay(v, now_ms).current
        },
{
    lemma_decay_settles(v, now_ms);
    let d = spec_decay(v, now_ms);
    if n > 0 {
        assert(spec_decay(d, now_ms) == d);
        lemma_settled_run(spec_step(v, now_ms), now_ms, (n - 1) as nat);
    }
}

} // verus!
