//! Token-bucket rate limiter capability.
//!
//! The limiter bounds the rate of outbound operations a sandboxed module may
//! trigger. It keeps its burst capacity and refill period as plain values —
//! readable back exactly as set — beside an opaque token bucket from the
//! `governor` crate. Changing either parameter rejects zero, leaves the prior
//! configuration untouched on rejection, and otherwise rebuilds the bucket
//! full (the burst is available immediately, partial fill is not preserved).
//!
//! The bucket accounts for grants in `u64` nanoseconds, so the quota handed
//! to it is kept within that arithmetic: the burst the bucket is built for
//! is capped — see [`bucket_burst`] — so that period × burst stays within
//! half the `u64` nanosecond range, the other half being headroom for
//! elapsed time. The readable configuration is stored uncapped; every
//! rebuild records the capped quota in the contracts.

use vstd::prelude::*;

verus! {

/// An opaque token bucket of governor's `DefaultDirectRateLimiter`. Verus
/// sees nothing inside; the bucket is read and replaced only through the
/// trusted functions below.
#[verifier::external_body]
pub(crate) struct Bucket {
    inner: governor::DefaultDirectRateLimiter,
}

/// Whether a (burst, period in milliseconds) quota fits the bucket's
/// nanosecond arithmetic. The bucket's tolerance is period × (burst − 1)
/// nanoseconds, computed with unchecked `u64` multiplication, and each grant
/// adds one period to a theoretical arrival time measured from the bucket's
/// creation — so the product is kept within half the `u64` range, leaving
/// the other half for elapsed time.
pub open spec fn quota_fits(burst: int, period_ms: int) -> bool {
    period_ms * 1_000_000 * burst <= u64::MAX as int / 2
}

/// The longest period, in milliseconds, whose nanosecond count alone stays
/// within half the `u64` range.
pub const MAX_BUCKET_PERIOD_MS: u64 = u64::MAX / 2 / 1_000_000;

/// A well-formed bucket quota: positive burst and period whose product fits
/// the bucket's arithmetic.
pub open spec fn quota_wf(q: (int, int)) -> bool {
    0 < q.0 && 0 < q.1 && quota_fits(q.0, q.1)
}

/// The burst the bucket is actually built for: the configured burst, capped
/// at the largest value whose quota fits the bucket's arithmetic. A quota
/// that already fits is not changed.
pub open spec fn bucket_burst(burst: u32, period_ms: int) -> int {
    let cap = (u64::MAX as int / 2) / (period_ms * 1_000_000);
    if burst as int > cap {
        cap
    } else {
        burst as int
    }
}

/// From `x <= a / b` (integer division, positive divisor) conclude
/// `x * b <= a`.
proof fn lemma_le_div_implies_mul_le(x: int, a: int, b: int)
    requires
        0 < b,
        0 <= a,
        0 <= x,
        x <= a / b,
    ensures
        x * b <= a,
{
    vstd::arithmetic::div_mod::lemma_fundamental_div_mod(a, b);
    vstd::arithmetic::div_mod::lemma_mod_bound(a, b);
    vstd::arithmetic::mul::lemma_mul_inequality(x, a / b, b);
    vstd::arithmetic::mul::lemma_mul_is_commutative(b, a / b);
}

/// From `x * b <= a` (positive divisor) conclude `x <= a / b`.
proof fn lemma_mul_le_implies_le_div(x: int, a: int, b: int)
    requires
        0 < b,
        0 <= x,
        x * b <= a,
    ensures
        x <= a / b,
{
    vstd::arithmetic::div_mod::lemma_div_is_ordered(x * b, a, b);
    vstd::arithmetic::div_mod::lemma_div_multiples_vanish(x, b);
    vstd::arithmetic::mul::lemma_mul_is_commutative(x, b);
}

/// Cap a burst so that the quota handed to the bucket fits its arithmetic.
pub(crate) fn clamped_burst(burst: u32, period_ms: u64) -> (r: u32)
    requires
        burst != 0,
        0 < period_ms <= MAX_BUCKET_PERIOD_MS,
    ensures
        r as int == bucket_burst(burst, period_ms as int),
        1 <= r <= burst,
        quota_fits(r as int, period_ms as int),
        quota_fits(burst as int, period_ms as int) ==> r == burst,
{
    let period_ns: u64 = period_ms * 1_000_000;
    let cap: u64 = u64::MAX / 2 / period_ns;
    proof {
        let a = u64::MAX as int / 2;
        let pns = period_ns as int;
        lemma_le_div_implies_mul_le(cap as int, a, pns);
        lemma_mul_le_implies_le_div(1, a, pns);
        if quota_fits(burst as int, period_ms as int) {
            vstd::arithmetic::mul::lemma_mul_is_commutative(pns, burst as int);
            lemma_mul_le_implies_le_div(burst as int, a, pns);
        }
        if burst as u64 <= cap {
            vstd::arithmetic::mul::lemma_mul_inequality(burst as int, cap as int, pns);
            vstd::arithmetic::mul::lemma_mul_is_commutative(burst as int, pns);
        } else {
            vstd::arithmetic::mul::lemma_mul_is_commutative(cap as int, pns);
        }
    }
    if (burst as u64) > cap {
        cap as u32
    } else {
        burst
    }
}

/// Relies on governor's `Quota::with_period` (which returns `Some` exactly
/// when the period is nonzero, guaranteed here), `Quota::allow_burst` and
/// `RateLimiter::direct`: builds a fresh token bucket that starts full and
/// refills one token per `period_ms` milliseconds up to `burst` tokens.
///
/// The `requires` are the machine limits of governor's arithmetic: the
/// period must convert to `u64` nanoseconds (the conversion panics beyond
/// that), the bucket's tolerance is period × (burst − 1) nanoseconds with an
/// unchecked multiply, and each later grant in `check`/`until_ready` adds
/// one period to an elapsed-time value with an unchecked add — `quota_fits`
/// bounds all three, with half the `u64` range left as headroom for elapsed
/// time.
#[verifier::external_body]
pub(crate) fn make_bucket(burst: u32, period_ms: u64) -> Bucket
    requires
        burst != 0,
        period_ms != 0,
        quota_fits(burst as int, period_ms as int),
{
    let burst = core::num::NonZeroU32::new(burst).unwrap();
    let quota = governor::Quota::with_period(core::time::Duration::from_millis(period_ms))
        .unwrap()
        .allow_burst(burst);
    Bucket { inner: governor::RateLimiter::direct(quota) }
}

/// Relies on governor's `RateLimiter::check`: consumes one token and returns
/// `Ok` exactly when one is available right now. Availability depends on the
/// bucket's real-time clock, so nothing is promised of the outcome. The
/// grant arithmetic stays in range because every bucket is built under
/// `make_bucket`'s quota bound.
#[verifier::external_body]
pub(crate) fn bucket_check(bucket: &Bucket) -> bool {
    bucket.inner.check().is_ok()
}

/// Relies on governor's `until_ready`, driven to completion on the calling
/// thread by futures' `block_on`: returns once one token has become
/// available and been consumed. When it returns depends on the bucket's
/// real-time clock, so nothing is promised of the outcome. The grant
/// arithmetic stays in range because every bucket is built under
/// `make_bucket`'s quota bound.
#[verifier::external_body]
pub(crate) fn bucket_block(bucket: &Bucket) {
    futures::executor::block_on(bucket.inner.until_ready());
}

/// A token-bucket rate limiter with burst capacity `burst` and a refill
/// period of `period_ms` milliseconds per token.
pub struct RateLimiter {
    burst: u32,
    period_ms: u32,
    limiter: Bucket,
    bucket_quota: Ghost<(int, int)>,
}

impl RateLimiter {
    /// The configured burst capacity.
    pub closed spec fn burst_spec(self) -> u32 {
        self.burst
    }

    /// The configured refill period, in milliseconds.
    pub closed spec fn period_ms_spec(self) -> u32 {
        self.period_ms
    }

    /// The (burst, period in milliseconds) quota the bucket was last built
    /// for: the configured pair of that rebuild, with the burst capped per
    /// `bucket_burst`.
    pub closed spec fn bucket_quota_spec(self) -> (int, int) {
        self.bucket_quota@
    }

    /// Well-formedness: the stored configuration is never zero, and the
    /// bucket was built for a positive quota within its arithmetic.
    pub open spec fn wf(self) -> bool {
        &&& self.burst_spec() != 0
        &&& self.period_ms_spec() != 0
        &&& 0 < self.bucket_quota_spec().0
        &&& 0 < self.bucket_quota_spec().1
        &&& quota_fits(self.bucket_quota_spec().0, self.bucket_quota_spec().1)
    }

    /// Read the burst capacity back, exactly as set.
    pub fn burst(&self) -> (r: u32)
        ensures
            r == self.burst_spec(),
    {
        self.burst
    }

    /// Read the refill period back, exactly as set.
    pub fn period_ms(&self) -> (r: u32)
        ensures
            r == self.period_ms_spec(),
    {
        self.period_ms
    }

    /// Set the burst capacity. Zero is rejected and leaves the prior
    /// configuration unchanged; otherwise the new capacity is stored and the
    /// bucket is rebuilt full for (new capacity, existing period), capped
    /// per `bucket_burst`.
    pub fn set_burst(&mut self, burst: u32) -> (r: Result<(), ()>)
        requires
            old(self).wf(),
        ensures
            final(self).wf(),
            burst == 0 ==> r is Err && *final(self) == *old(self),
            burst != 0 ==> r is Ok && final(self).burst_spec() == burst
                && final(self).period_ms_spec() == old(self).period_ms_spec()
                && final(self).bucket_quota_spec() == (
                bucket_burst(burst, old(self).period_ms_spec() as int),
                old(self).period_ms_spec() as int,
            ),
    {
        if burst == 0 {
            return Err(());
        }
        self.set_limiter(burst, self.period_ms)?;
        self.burst = burst;
        Ok(())
    }

    /// Set the refill period, in milliseconds. Zero is rejected and leaves
    /// the prior configuration unchanged; otherwise the new period is stored
    /// and the bucket is rebuilt full for (existing capacity, new period),
    /// capped per `bucket_burst`.
    pub fn set_period_ms(&mut self, period_ms: u32) -> (r: Result<(), ()>)
        requires
            old(self).wf(),
        ensures
            final(self).wf(),
            period_ms == 0 ==> r is Err && *final(self) == *old(self),
            period_ms != 0 ==> r is Ok && final(self).period_ms_spec() == period_ms
                && final(self).burst_spec() == old(self).burst_spec()
                && final(self).bucket_quota_spec() == (
                bucket_burst(old(self).burst_spec(), period_ms as int),
                period_ms as int,
            ),
    {
        if period_ms == 0 {
            return Err(());
        }
        self.set_limiter(self.burst, period_ms)?;
        self.period_ms = period_ms;
        Ok(())
    }

    /// Rebuild the bucket for the given configuration without storing it:
    /// the readable burst and period are left unchanged. A zero burst or
    /// period is rejected, and the bucket is then left unchanged too; an
    /// accepted rebuild gives the bucket the quota (burst capped per
    /// `bucket_burst`, period).
    pub fn set_limiter(&mut self, burst: u32, period_ms: u32) -> (r: Result<(), ()>)
        ensures
            final(self).burst_spec() == old(self).burst_spec(),
            final(self).period_ms_spec() == old(self).period_ms_spec(),
            r is Ok <==> (burst != 0 && period_ms != 0),
            r is Err ==> *final(self) == *old(self),
            r is Ok ==> final(self).bucket_quota_spec() == (
                bucket_burst(burst, period_ms as int),
                period_ms as int,
            ) && quota_wf(final(self).bucket_quota_spec()),
    {
        if burst == 0 || period_ms == 0 {
            return Err(());
        }
        let safe_burst = clamped_burst(burst, period_ms as u64);
        self.limiter = make_bucket(safe_burst, period_ms as u64);
        proof {
            self.bucket_quota@ = (safe_burst as int, period_ms as int);
        }
        Ok(())
    }

    /// Attempt to consume one token immediately: a consuming probe, not a
    /// peek. Whether a token is available depends on elapsed real time, so
    /// nothing is stated of the outcome.
    pub fn ready(&self) -> bool {
        bucket_check(&self.limiter)
    }

    /// Wait on the calling thread until one token is available, then consume
    /// it. When this returns depends on elapsed real time.
    pub fn block(&self) {
        bucket_block(&self.limiter)
    }
}

impl Default for RateLimiter {
    /// The default limiter allows a burst of one token refilled every
    /// millisecond: effectively unthrottled for the first call and maximally
    /// strict afterward.
    fn default() -> (r: Self)
        ensures
            r.wf(),
            r.burst_spec() == 1u32,
            r.period_ms_spec() == 1u32,
            r.bucket_quota_spec() == (1int, 1int),
    {
        RateLimiter {
            burst: 1,
            period_ms: 1,
            limiter: make_bucket(1, 1u64),
            bucket_quota: Ghost((1int, 1int)),
        }
    }
}

} // verus!
