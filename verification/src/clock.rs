//! A wall clock assembled from a unix timestamp obtained once (over the
//! network, at boot) and the monotonic uptime, plus the arithmetic that
//! aligns the next wakeup to a whole multiple of a period.

use vstd::prelude::*;
use vstd::arithmetic::div_mod::{
    lemma_fundamental_div_mod, lemma_mod_add_multiples_vanish, lemma_mod_bound,
};

verus! {

/// Relies on embassy_time::Instant::now and Instant::as_secs: the seconds
/// elapsed since boot according to the monotonic time driver. Nothing is
/// assumed about the value.
#[verifier::external_body]
fn uptime_seconds() -> u64 {
    embassy_time::Instant::now().as_secs()
}

/// A clock anchored at the unix time of boot. Turning an epoch into a civil
/// date-time is a display concern and stays with the display collaborator.
#[derive(Clone, Debug)]
pub struct Clock {
    unix_time: u64,
}

impl Clock {
    /// The unix time (in seconds) at which this clock was anchored.
    pub closed spec fn spec_unix_time(&self) -> u64 {
        self.unix_time
    }

    /// Create a new clock anchored at the given unix time in seconds.
    pub fn new(unix_time: u64) -> (r: Self)
        ensures
            r.spec_unix_time() == unix_time,
    {
        Clock { unix_time }
    }

    /// Return the current time as a unix epoch in seconds: the anchor plus
    /// the uptime, saturating at the integer limit. The uptime itself comes
    /// from the monotonic clock, so only the lower bound can be promised
    /// here; the sum is pinned by [`Clock::epoch_after`].
    pub fn now_as_epoch(&self) -> (r: u64)
        ensures
            r >= self.spec_unix_time(),
    {
        let from_boot = uptime_seconds();
        self.epoch_after(from_boot)
    }

    /// The epoch the clock reads after the given uptime: the anchor plus
    /// the elapsed seconds, saturating at the integer limit.
    pub fn epoch_after(&self, from_boot: u64) -> (r: u64)
        ensures
            r == spec_epoch_after(self.spec_unix_time(), from_boot),
            r >= self.spec_unix_time(),
    {
        if from_boot <= u64::MAX - self.unix_time {
            self.unix_time + from_boot
        } else {
            u64::MAX
        }
    }

    /// Duration from now to the next wakeup aligned to the given period in
    /// seconds.
    ///
    /// * At 09:46:12 with a period of 1 minute, the next rounded wakeup is
    ///   09:47:00.
    /// * At 09:46:12 with a period of 5 minutes, it is 09:50:00.
    /// * At 09:46:12 with a period of 1 hour, it is 10:00:00.
    pub fn duration_to_next_rounded_wakeup(&self, period: u64) -> (r: u64)
        requires
            0 < period,
        ensures
            1 <= r <= period,
    {
        let epoch = self.now_as_epoch();
        duration_to_next_rounded_wakeup(epoch, period)
    }
}

/// The anchor plus the elapsed seconds, saturating at the integer limit.
pub open spec fn spec_epoch_after(anchor: u64, from_boot: u64) -> u64 {
    if anchor + from_boot <= u64::MAX {
        (anchor + from_boot) as u64
    } else {
        u64::MAX
    }
}

/// The next wakeup instant: one period after `now`, rounded down to a whole
/// multiple of the period.
pub open spec fn spec_next_rounded_wakeup(now: int, period: int) -> int
    recommends
        0 < period,
{
    ((now + period) / period) * period
}

/// Compute the next wakeup aligned to a period, as an absolute time in
/// seconds.
pub fn next_rounded_wakeup(now: u64, period: u64) -> (r: u64)
    requires
        0 < period,
        now + period <= u64::MAX,
    ensures
        r == spec_next_rounded_wakeup(now as int, period as int),
{
    let then = now + period;
    proof {
        lemma_fundamental_div_mod(then as int, period as int);
        lemma_mod_bound(then as int, period as int);
        assert((then as int / period as int) * period as int == period as int * (then as int
            / period as int)) by {
            vstd::arithmetic::mul::lemma_mul_is_commutative(
                then as int / period as int,
                period as int,
            );
        }
    }
    (then / period) * period
}

/// Compute the duration from `now` to the next wakeup aligned to a period.
/// The result equals the remainder the period is missing, and always lands
/// within one period.
pub fn duration_to_next_rounded_wakeup(now: u64, period: u64) -> (r: u64)
    requires
        0 < period,
    ensures
        r == period - now as int % period as int,
        1 <= r <= period,
        now + period <= u64::MAX ==> r == spec_next_rounded_wakeup(now as int, period as int)
            - now,
{
    proof {
        lemma_mod_bound(now as int, period as int);
        if now + period <= u64::MAX {
            let n = now as int;
            let p = period as int;
            lemma_fundamental_div_mod(n + p, p);
            lemma_mod_add_multiples_vanish(n, p);
            assert(spec_next_rounded_wakeup(n, p) == (n + p) - (n + p) % p) by {
                vstd::arithmetic::mul::lemma_mul_is_commutative((n + p) / p, p);
            }
            assert((n + p) % p == n % p);
        }
    }
    period - now % period
}

} // verus!
