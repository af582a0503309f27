//! The rate gate: one shared token bucket with a quota of requests per second.
//!
//! The bucket itself is governor's direct rate limiter, and nothing of it is
//! verified here. This module states, for each call into governor that the
//! crate makes, what the rest of the crate assumes of it and what the call
//! asks of its caller.

use governor::clock::{QuantaClock, QuantaInstant};
use governor::middleware::NoOpMiddleware;
use governor::state::{InMemoryState, NotKeyed};
use governor::{Jitter, Quota, RateLimiter};
use std::num::NonZeroU32;
use std::sync::Arc;
use vstd::prelude::*;

verus! {

/// `governor::Quota`: how many cells a limiter lets through in one burst, and
/// the time it takes to refill one cell.
#[verifier::external_type_specification]
#[verifier::external_body]
pub struct ExQuota(Quota);

/// `governor::Jitter`: an interval from which a random extra delay is drawn
/// for each wait on the rate gate.
#[verifier::external_type_specification]
#[verifier::external_body]
pub struct ExJitter(Jitter);

/// The limiter behind the rate gate: un-keyed, in memory, on the real-time clock.
pub type Throttle = RateLimiter<NotKeyed, InMemoryState, QuantaClock, NoOpMiddleware<QuantaInstant>>;

/// The rate gate. It holds governor's `RateLimiter`, whose own declaration
/// Verus does not take, so the verifier sees nothing inside a gate: what is
/// known of one is what [`quota_of`] says.
#[verifier::external_body]
#[derive(Debug)]
pub struct RateGate {
    /// The token bucket, for whoever waits on the rate gate.
    pub limiter: Throttle,
}

/// The burst size of a quota, in cells: what `Quota::burst_size` returns.
pub uninterp spec fn burst_size(quota: Quota) -> nat;

/// The time in which a quota refills one cell, in nanoseconds: what
/// `Quota::replenish_interval` returns.
pub uninterp spec fn replenish_nanos(quota: Quota) -> nat;

/// The quota that the rate gate's limiter was made for: the one that was
/// handed to its constructor.
pub uninterp spec fn quota_of(gate: RateGate) -> Quota;

/// One second, in nanoseconds.
pub const NANOS_PER_SECOND: u64 = 1_000_000_000;

impl RateGate {
    /// The quota of the rate gate, in requests per second: as many as its
    /// bucket holds when it is full.
    pub open spec fn requests_per_second(self) -> nat {
        burst_size(quota_of(self))
    }

    /// The time that the quota gives the bucket to refill one token, in
    /// nanoseconds.
    pub open spec fn refill_nanos(self) -> nat {
        replenish_nanos(quota_of(self))
    }

    /// Whether the quota is one of requests per second: not zero, and with one
    /// token refilled in the quota's share of a second, rounded down to whole
    /// nanoseconds.
    pub open spec fn is_per_second(self) -> bool {
        &&& 0 < self.requests_per_second() <= u32::MAX
        &&& self.refill_nanos() == NANOS_PER_SECOND as nat / self.requests_per_second()
    }
}

/// `Quota::per_second`, which takes the rate as a `NonZeroU32`: so the rate
/// must not be zero. The quota has the rate as its burst size, and refills one
/// cell in the rate's share of a second, rounded down to whole nanoseconds.
#[verifier::external_body]
pub(crate) fn per_second(rate: u32) -> (quota: Quota)
    requires
        rate != 0,
    ensures
        burst_size(quota) == rate,
        replenish_nanos(quota) == NANOS_PER_SECOND as nat / rate as nat,
{
    Quota::per_second(NonZeroU32::new(rate).unwrap())
}

/// Whether a limiter can be made for `quota`. The limiter counts in whole
/// nanoseconds, in 64 bits: one cell weighs the time of its refill, or one
/// nanosecond where that is zero, and the cells of a burst after the first
/// must not weigh more than the counter holds.
pub open spec fn fits_limiter(quota: Quota) -> bool {
    let weight = if replenish_nanos(quota) == 0 {
        1
    } else {
        replenish_nanos(quota)
    };
    &&& weight <= u64::MAX
    &&& weight * (burst_size(quota) - 1) <= u64::MAX
}

/// `RateLimiter::direct`: a new limiter for the given quota, which must fit
/// the limiter's counter. Of the limiter's state, which changes with time,
/// nothing is claimed.
#[verifier::external_body]
pub(crate) fn direct(quota: Quota) -> (gate: RateGate)
    requires
        fits_limiter(quota),
    ensures
        quota_of(gate) == quota,
{
    RateGate { limiter: RateLimiter::direct(quota) }
}

/// A quota of requests per second fits a limiter, whatever the rate: a cell
/// weighs a second at most, and a burst has fewer than 2^32 of them.
pub(crate) proof fn lemma_per_second_fits(quota: Quota, rate: u32)
    requires
        rate != 0,
        burst_size(quota) == rate,
        replenish_nanos(quota) == NANOS_PER_SECOND as nat / rate as nat,
    ensures
        fits_limiter(quota),
{
    let weight: int = if replenish_nanos(quota) == 0 {
        1
    } else {
        replenish_nanos(quota) as int
    };
    assert(weight <= NANOS_PER_SECOND) by (nonlinear_arith)
        requires
            rate >= 1,
            weight == 1 || weight == NANOS_PER_SECOND as int / rate as int,
            NANOS_PER_SECOND == 1_000_000_000,
    ;
    assert(weight * (rate - 1) <= 1_000_000_000 * 0xffff_ffff) by (nonlinear_arith)
        requires
            0 <= weight <= 1_000_000_000,
            0 <= rate - 1 <= 0xffff_ffff,
    ;
}

/// `Arc::clone`: a second handle to the same value. Nothing is copied, so what
/// is behind the new handle is what is behind the old one.
#[verifier::external_body]
pub(crate) fn share<T>(handle: &Arc<T>) -> (shared: Arc<T>)
    ensures
        shared == *handle,
{
    Arc::clone(handle)
}

} // verus!
