//! Rate-limited HTTP client capability.
//!
//! The client keeps an optional rate limit — a refill period in seconds and
//! a burst size — beside an opaque token bucket. Configuring either half
//! rejects zero, stores the new value, and rebuilds the bucket from the
//! stored pair with one as the default for the half never set; the burst the
//! bucket is built for is capped per [`crate::limiter::bucket_burst`] so the
//! bucket's arithmetic stays in range. Before a request is sent,
//! [`Client::wait_ready`] waits for the bucket's grant; the transport itself
//! lives outside the verified core, which hands it the normalized header
//! list of [`crate::headers::prepare_headers`].

use vstd::prelude::*;

use crate::limiter::{bucket_block, bucket_burst, make_bucket, quota_fits, Bucket};

verus! {

/// An outbound HTTP client with an optional request-rate limit.
pub struct Client {
    period_seconds: Option<u32>,
    burst_size: Option<u32>,
    limiter: Option<Bucket>,
    bucket_quota: Ghost<(int, int)>,
}

impl Client {
    /// The configured refill period, in seconds, if one was set.
    pub closed spec fn period_seconds_spec(self) -> Option<u32> {
        self.period_seconds
    }

    /// The configured burst size, if one was set.
    pub closed spec fn burst_size_spec(self) -> Option<u32> {
        self.burst_size
    }

    /// Whether a rate limit is active at all.
    pub closed spec fn limited(self) -> bool {
        self.limiter is Some
    }

    /// The (burst, period in milliseconds) quota the bucket was last built
    /// for, with the burst capped per `bucket_burst`; meaningful only while
    /// a rate limit is active.
    pub closed spec fn bucket_quota_spec(self) -> (int, int) {
        self.bucket_quota@
    }

    /// Well-formedness: a stored period or burst is never zero, and an
    /// active bucket was built for a positive quota within its arithmetic.
    pub open spec fn wf(self) -> bool {
        &&& self.period_seconds_spec() matches Some(p) ==> p != 0
        &&& self.burst_size_spec() matches Some(b) ==> b != 0
        &&& self.limited() ==> 0 < self.bucket_quota_spec().0 && 0 < self.bucket_quota_spec().1
            && quota_fits(self.bucket_quota_spec().0, self.bucket_quota_spec().1)
    }

    /// A fresh client: no rate limit configured.
    pub fn new() -> (r: Self)
        ensures
            r.wf(),
            r.period_seconds_spec() is None,
            r.burst_size_spec() is None,
            !r.limited(),
    {
        Client {
            period_seconds: None,
            burst_size: None,
            limiter: None,
            bucket_quota: Ghost((0int, 0int)),
        }
    }

    /// Read the configured refill period back, exactly as set.
    pub fn period_seconds(&self) -> (r: Option<u32>)
        ensures
            r == self.period_seconds_spec(),
    {
        self.period_seconds
    }

    /// Read the configured burst size back, exactly as set.
    pub fn burst_size(&self) -> (r: Option<u32>)
        ensures
            r == self.burst_size_spec(),
    {
        self.burst_size
    }

    /// Set the refill period and rebuild the bucket for it, bursting at the
    /// stored burst size (one when none was set), capped per `bucket_burst`.
    /// Zero is rejected and leaves the configuration unchanged.
    pub fn set_rate_limit_period(&mut self, seconds: u32) -> (r: Result<(), ()>)
        requires
            old(self).wf(),
        ensures
            final(self).wf(),
            r is Ok <==> seconds != 0,
            seconds == 0 ==> *final(self) == *old(self),
            seconds != 0 ==> final(self).period_seconds_spec() == Some(seconds)
                && final(self).burst_size_spec() == old(self).burst_size_spec()
                && final(self).limited()
                && final(self).bucket_quota_spec() == ({
                let b = match old(self).burst_size_spec() {
                    Some(b) => b,
                    None => 1u32,
                };
                (bucket_burst(b, (seconds as int) * 1000), (seconds as int) * 1000)
            }),
    {
        if seconds == 0 {
            return Err(());
        }
        self.period_seconds = Some(seconds);
        let burst_size = match self.burst_size {
            Some(b) => b,
            None => 1,
        };
        self.rebuild_bucket(burst_size, seconds);
        Ok(())
    }

    /// Set the burst size and rebuild the bucket for it, refilling over the
    /// stored period (one second when none was set), with the burst capped
    /// per `bucket_burst`. Zero is rejected and leaves the configuration
    /// unchanged.
    pub fn set_rate_limit_burst(&mut self, burst_size: u32) -> (r: Result<(), ()>)
        requires
            old(self).wf(),
        ensures
            final(self).wf(),
            r is Ok <==> burst_size != 0,
            burst_size == 0 ==> *final(self) == *old(self),
            burst_size != 0 ==> final(self).burst_size_spec() == Some(burst_size)
                && final(self).period_seconds_spec() == old(self).period_seconds_spec()
                && final(self).limited()
                && final(self).bucket_quota_spec() == ({
                let p = match old(self).period_seconds_spec() {
                    Some(p) => p,
                    None => 1u32,
                };
                (bucket_burst(burst_size, (p as int) * 1000), (p as int) * 1000)
            }),
    {
        if burst_size == 0 {
            return Err(());
        }
        let period_seconds = match self.period_seconds {
            Some(p) => p,
            None => 1,
        };
        self.burst_size = Some(burst_size);
        self.rebuild_bucket(burst_size, period_seconds);
        Ok(())
    }

    /// Rebuild the bucket for (burst, period in seconds), capping the burst
    /// per `bucket_burst`. The readable configuration is untouched.
    fn rebuild_bucket(&mut self, burst: u32, seconds: u32)
        requires
            burst != 0,
            seconds != 0,
        ensures
            final(self).limited(),
            final(self).period_seconds_spec() == old(self).period_seconds_spec(),
            final(self).burst_size_spec() == old(self).burst_size_spec(),
            final(self).bucket_quota_spec() == (
                bucket_burst(burst, (seconds as int) * 1000),
                (seconds as int) * 1000,
            ),
            0 < final(self).bucket_quota_spec().0 && 0 < final(self).bucket_quota_spec().1,
            quota_fits(final(self).bucket_quota_spec().0, final(self).bucket_quota_spec().1),
    {
        let period_ms: u64 = (seconds as u64) * 1000;
        let safe_burst = crate::limiter::clamped_burst(burst, period_ms);
        self.limiter = Some(make_bucket(safe_burst, period_ms));
        proof {
            self.bucket_quota@ = (safe_burst as int, period_ms as int);
        }
    }

    /// Wait until the rate limit grants one request; returns immediately
    /// when no rate limit was configured.
    pub fn wait_ready(&self) {
        match &self.limiter {
            Some(bucket) => bucket_block(bucket),
            None => (),
        }
    }
}

} // verus!
