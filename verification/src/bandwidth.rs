//! Bandwidth throttling: how a throttled stream sizes its rate limiter and
//! decides, for each read or write, whether to let bytes through or wait.

use vstd::prelude::*;
use crate::config::BandwidthSettings;
use crate::types::BandwidthUnit;

verus! {

/// How the bandwidth rate is given.
pub enum BandwidthStrategy {
    /// One rate for both directions.
    Single { rate: usize, unit: BandwidthUnit },
    /// Separate rates for reads (ingress) and writes (egress).
    Dual {
        ingress_rate: usize,
        ingress_unit: BandwidthUnit,
        egress_rate: usize,
        egress_unit: BandwidthUnit,
    },
}

/// Options of the bandwidth fault.
pub struct BandwidthOptions {
    pub strategy: BandwidthStrategy,
}

/// The bandwidth fault injector's configuration.
pub struct BandwidthLimitFaultInjector {
    pub options: BandwidthOptions,
}

impl BandwidthLimitFaultInjector {
    /// Creates an injector with the given options.
    pub fn new(options: BandwidthOptions) -> (r: BandwidthLimitFaultInjector)
        ensures
            r.options == options,
    {
        BandwidthLimitFaultInjector { options }
    }
}

/// Options of the bandwidth fault configured by `settings`: one rate in the
/// configured unit.
pub fn options_from_settings(settings: &BandwidthSettings) -> (r: BandwidthOptions)
    ensures
        r.strategy == (BandwidthStrategy::Single {
            rate: settings.bandwidth_rate,
            unit: settings.bandwidth_unit,
        }),
{
    BandwidthOptions {
        strategy: BandwidthStrategy::Single { rate: settings.bandwidth_rate, unit: settings.bandwidth_unit },
    }
}

/// Rate and unit governing reads (`reading`) or writes under `strategy`:
/// a dual strategy reads at the ingress rate and writes at the egress rate.
pub open spec fn spec_side_rate(strategy: BandwidthStrategy, reading: bool) -> (usize, BandwidthUnit) {
    match strategy {
        BandwidthStrategy::Single { rate, unit } => (rate, unit),
        BandwidthStrategy::Dual { ingress_rate, ingress_unit, egress_rate, egress_unit } => if reading {
            (ingress_rate, ingress_unit)
        } else {
            (egress_rate, egress_unit)
        },
    }
}

/// Limiter sizing of a throttled stream: the permits per second of its rate
/// limiter and the largest read or write it lets through at once, both the
/// byte rate. `None` where no limiter can be made: the rate is zero, or the
/// byte rate does not fit the limiter's 32-bit quota.
pub open spec fn spec_limiter_quota(strategy: BandwidthStrategy, reading: bool) -> Option<(u32, usize)> {
    let (rate, unit) = spec_side_rate(strategy, reading);
    match unit.spec_bytes_per_second(rate as nat) {
        Some(bps) => if bps == 0 || bps > u32::MAX {
            None
        } else {
            Some((bps as u32, bps as usize))
        },
        None => None,
    }
}

/// Sizes the rate limiter of a throttled read (`reading`) or write stream.
pub fn limiter_quota(options: &BandwidthOptions, reading: bool) -> (r: Option<(u32, usize)>)
    ensures
        r == spec_limiter_quota(options.strategy, reading),
{
    let (rate, unit) = match &options.strategy {
        BandwidthStrategy::Single { rate, unit } => (*rate, *unit),
        BandwidthStrategy::Dual { ingress_rate, ingress_unit, egress_rate, egress_unit } => if reading {
            (*ingress_rate, *ingress_unit)
        } else {
            (*egress_rate, *egress_unit)
        },
    };
    match unit.to_bytes_per_second(rate) {
        Some(bps) => {
            if bps == 0 || bps > 0xffff_ffff {
                None
            } else {
                Some((bps as u32, bps))
            }
        },
        None => None,
    }
}

/// A limiter that can be made has a positive quota, and lets through at
/// once exactly as many bytes as its quota has permits.
pub proof fn lemma_limiter_quota_positive(strategy: BandwidthStrategy, reading: bool)
    ensures
        spec_limiter_quota(strategy, reading) matches Some((q, m)) ==> q > 0 && q as nat == m as nat,
{
}

/// What the rate limiter answered when asked for a number of permits.
pub enum PermitCheck {
    /// The permits conform now.
    Conforming,
    /// The permits will conform later.
    NotYet,
    /// The limiter's burst can never hold that many permits.
    Insufficient,
}

/// How a throttled read or write proceeds.
pub enum Admission {
    /// No limiter: the inner stream is used as is.
    Unlimited,
    /// Nothing to transfer: the call completes at once with no bytes.
    Empty,
    /// Ask the limiter for this many permits, then transfer up to this many
    /// bytes.
    Check(u32, usize),
}

/// Bytes a throttled read or write may move at once: the request, capped
/// by the largest transfer.
pub open spec fn spec_chunk(max_size: usize, requested: usize) -> usize {
    if max_size < requested {
        max_size
    } else {
        requested
    }
}

/// First decision of a throttled read or write of `requested` bytes.
pub open spec fn spec_admission(limited: bool, max_size: usize, requested: usize) -> Admission {
    if !limited {
        Admission::Unlimited
    } else {
        let chunk = spec_chunk(max_size, requested);
        if chunk == 0 || chunk as u32 == 0 {
            Admission::Empty
        } else {
            Admission::Check(chunk as u32, chunk)
        }
    }
}

/// Decides how a throttled read or write of `requested` bytes proceeds,
/// given whether the stream has a limiter and its largest transfer.
pub fn admission(limited: bool, max_size: usize, requested: usize) -> (r: Admission)
    ensures
        r == spec_admission(limited, max_size, requested),
{
    if !limited {
        return Admission::Unlimited;
    }
    let chunk = if max_size < requested { max_size } else { requested };
    if chunk == 0 {
        return Admission::Empty;
    }
    let permits = chunk as u32;
    if permits == 0 {
        Admission::Empty
    } else {
        Admission::Check(permits, chunk)
    }
}

/// A throttled transfer never asks for more permits, nor moves more bytes,
/// than was requested or than the stream lets through at once.
pub proof fn lemma_admission_bounded(limited: bool, max_size: usize, requested: usize)
    ensures
        spec_admission(limited, max_size, requested) matches Admission::Check(p, n) ==> (n <= max_size
            && n <= requested && p > 0 && p as nat <= n as nat),
{
    let chunk = spec_chunk(max_size, requested);
    assert(chunk as u32 <= chunk) by (bit_vector);
}

/// What a throttled transfer does once the limiter has answered.
pub enum AfterCheck {
    /// Transfer through the inner stream.
    Transfer,
    /// Wait for the limiter before trying again.
    Wait,
}

/// The transfer goes ahead only when the permits conform now; when they
/// will conform later, or never fit in the burst, it waits for the
/// limiter.
pub fn after_check(check: PermitCheck) -> (r: AfterCheck)
    ensures
        (r is Transfer) <==> (check is Conforming),
{
    match check {
        PermitCheck::Conforming => AfterCheck::Transfer,
        PermitCheck::NotYet => AfterCheck::Wait,
        PermitCheck::Insufficient => AfterCheck::Wait,
    }
}

/// What a throttled transfer does once its pending wait was polled.
pub enum AfterDelay {
    /// The wait is over: ask the limiter again at once.
    Retry,
    /// The wait goes on: the transfer stays pending until it is woken.
    Pending,
}

/// State of a throttled stream between polls: whether a wait for the
/// limiter is pending.
pub struct ThrottleState {
    pub delay_armed: bool,
}

impl ThrottleState {
    /// A stream starts with no pending wait.
    pub fn new() -> (r: ThrottleState)
        ensures
            !r.delay_armed,
    {
        ThrottleState { delay_armed: false }
    }

    /// Whether a wait has to be started before polling it: only when none is
    /// pending.
    pub fn must_arm_delay(&self) -> (r: bool)
        ensures
            r == !self.delay_armed,
    {
        !self.delay_armed
    }

    /// Records the start of a wait.
    pub fn arm_delay(&mut self)
        ensures
            final(self).delay_armed,
    {
        self.delay_armed = true;
    }

    /// Records the outcome of polling the pending wait: a finished wait is
    /// dropped and the transfer retried at once; an unfinished one is kept
    /// and the transfer stays pending.
    pub fn on_delay_polled(&mut self, ready: bool) -> (r: AfterDelay)
        requires
            old(self).delay_armed,
        ensures
            final(self).delay_armed == !ready,
            (r is Retry) <==> ready,
    {
        self.delay_armed = !ready;
        if ready {
            AfterDelay::Retry
        } else {
            AfterDelay::Pending
        }
    }
}

/// A stream made of a (possibly throttled) read half and write half.
pub struct BandwidthLimitedBidirectional<R, W> {
    pub reader: R,
    pub writer: W,
}

impl<R, W> BandwidthLimitedBidirectional<R, W> {
    /// Joins a read half and a write half.
    pub fn new(reader: R, writer: W) -> (r: Self)
        ensures
            r.reader == reader,
            r.writer == writer,
    {
        Self { reader, writer }
    }
}

} // verus!
