//! Decisions behind the live progress display: how statuses, latencies,
//! rates, directions and faults are shown.

use vstd::prelude::*;
use vstd::string::*;
use crate::event::FaultEventKind;
use crate::text::{push_decimal, spec_decimal};
use crate::types::Direction;

verus! {

/// How a response status is shown.
#[derive(Clone, Copy, Debug, PartialEq, Eq, Structural)]
pub enum StatusStyle {
    /// 2xx, in green.
    Success,
    /// 4xx, in yellow.
    ClientError,
    /// No status (0), shown as a dimmed dash.
    Missing,
    /// Anything else, in red.
    Other,
}

/// Style of a response status.
pub open spec fn spec_status_style(code: u16) -> StatusStyle {
    if 200 <= code < 300 {
        StatusStyle::Success
    } else if 400 <= code < 500 {
        StatusStyle::ClientError
    } else if code == 0 {
        StatusStyle::Missing
    } else {
        StatusStyle::Other
    }
}

/// Chooses how a response status is shown.
pub fn status_style(code: u16) -> (r: StatusStyle)
    ensures
        r == spec_status_style(code),
{
    if 200 <= code && code < 300 {
        StatusStyle::Success
    } else if 400 <= code && code < 500 {
        StatusStyle::ClientError
    } else if code == 0 {
        StatusStyle::Missing
    } else {
        StatusStyle::Other
    }
}

/// Colour of a sparkline bar.
#[derive(Clone, Copy, Debug, PartialEq, Eq, Structural)]
pub enum Tone {
    Green,
    Yellow,
    Red,
}

/// Nanoseconds in a millisecond.
pub const NANOS_PER_MILLI: u128 = 1_000_000;

/// Bar and colour of a latency in the sparkline: thresholds at 50, 100,
/// 200, 400 and 800 milliseconds.
pub open spec fn spec_sparkline_bar(latency_nanos: u128) -> (char, Tone) {
    if latency_nanos < 50 * NANOS_PER_MILLI {
        ('\u{2581}', Tone::Green)
    } else if latency_nanos < 100 * NANOS_PER_MILLI {
        ('\u{2582}', Tone::Green)
    } else if latency_nanos < 200 * NANOS_PER_MILLI {
        ('\u{2583}', Tone::Yellow)
    } else if latency_nanos < 400 * NANOS_PER_MILLI {
        ('\u{2584}', Tone::Yellow)
    } else if latency_nanos < 800 * NANOS_PER_MILLI {
        ('\u{2585}', Tone::Red)
    } else {
        ('\u{2586}', Tone::Red)
    }
}

/// Maps a latency, in nanoseconds, to its sparkline bar.
pub fn latency_to_sparkline_bar(latency_nanos: u128) -> (r: (char, Tone))
    ensures
        r == spec_sparkline_bar(latency_nanos),
{
    if latency_nanos < 50 * NANOS_PER_MILLI {
        ('\u{2581}', Tone::Green)
    } else if latency_nanos < 100 * NANOS_PER_MILLI {
        ('\u{2582}', Tone::Green)
    } else if latency_nanos < 200 * NANOS_PER_MILLI {
        ('\u{2583}', Tone::Yellow)
    } else if latency_nanos < 400 * NANOS_PER_MILLI {
        ('\u{2584}', Tone::Yellow)
    } else if latency_nanos < 800 * NANOS_PER_MILLI {
        ('\u{2585}', Tone::Red)
    } else {
        ('\u{2586}', Tone::Red)
    }
}

/// Unit in which a byte rate is shown.
#[derive(Clone, Copy, Debug, PartialEq, Eq, Structural)]
pub enum BandwidthTier {
    /// GBps, the rate divided by 10^9.
    Giga,
    /// MBps, divided by 10^6.
    Mega,
    /// KBps, divided by 10^3.
    Kilo,
    /// Bps, as is.
    Bytes,
}

/// Unit in which a byte rate is shown: the largest whose unit it reaches.
pub open spec fn spec_bandwidth_tier(bps: usize) -> BandwidthTier {
    if bps >= 1_000_000_000 {
        BandwidthTier::Giga
    } else if bps >= 1_000_000 {
        BandwidthTier::Mega
    } else if bps >= 1_000 {
        BandwidthTier::Kilo
    } else {
        BandwidthTier::Bytes
    }
}

/// Chooses the unit a byte rate is shown in.
pub fn bandwidth_tier(bps: usize) -> (r: BandwidthTier)
    ensures
        r == spec_bandwidth_tier(bps),
{
    if bps >= 1_000_000_000 {
        BandwidthTier::Giga
    } else if bps >= 1_000_000 {
        BandwidthTier::Mega
    } else if bps >= 1_000 {
        BandwidthTier::Kilo
    } else {
        BandwidthTier::Bytes
    }
}

/// Writes a byte rate below one kilobyte per second, as `<n> Bps`.
pub fn format_bandwidth_bytes(bps: usize) -> (r: String)
    requires
        spec_bandwidth_tier(bps) == BandwidthTier::Bytes,
    ensures
        r@ == spec_decimal(bps as nat) + " Bps"@,
{
    let mut s = String::new();
    push_decimal(&mut s, bps as u64);
    s.append(" Bps");
    s
}

/// Arrow(s) shown for a traffic direction.
pub open spec fn spec_direction_character(d: Direction) -> Seq<char> {
    match d {
        Direction::Ingress => "\u{2b6d}"@,
        Direction::Egress => "\u{2b6b}"@,
        Direction::Both => "\u{2b6d}\u{2b6b}"@,
    }
}

/// The arrow(s) shown for a traffic direction.
pub fn direction_character(d: Direction) -> (r: String)
    ensures
        r@ == spec_direction_character(d),
{
    match d {
        Direction::Ingress => String::from_str("\u{2b6d}"),
        Direction::Egress => String::from_str("\u{2b6b}"),
        Direction::Both => String::from_str("\u{2b6d}\u{2b6b}"),
    }
}

/// Name under which a task's fault is shown; `None` for a DNS fault whose
/// outcome is not known and for HTTP response faults, which the display
/// does not describe.
pub open spec fn spec_fault_display_name(kind: FaultEventKind, dns_triggered: Option<bool>) -> Option<Seq<char>> {
    match kind {
        FaultEventKind::Latency => Some("latency"@),
        FaultEventKind::Dns => match dns_triggered {
            Some(true) => Some("dns triggered"@),
            Some(false) => Some("dns not triggered"@),
            None => None,
        },
        FaultEventKind::Bandwidth => Some("bandwidth"@),
        FaultEventKind::Jitter => Some("jitter"@),
        FaultEventKind::PacketLoss => Some("packet loss"@),
        FaultEventKind::HttpResponseFault => None,
    }
}

/// The name under which a task's fault is shown.
pub fn fault_display_name(kind: FaultEventKind, dns_triggered: Option<bool>) -> (r: Option<String>)
    ensures
        match spec_fault_display_name(kind, dns_triggered) {
            Some(n) => r matches Some(s) && s@ == n,
            None => r is None,
        },
{
    match kind {
        FaultEventKind::Latency => Some(String::from_str("latency")),
        FaultEventKind::Dns => match dns_triggered {
            Some(true) => Some(String::from_str("dns triggered")),
            Some(false) => Some(String::from_str("dns not triggered")),
            None => None,
        },
        FaultEventKind::Bandwidth => Some(String::from_str("bandwidth")),
        FaultEventKind::Jitter => Some(String::from_str("jitter")),
        FaultEventKind::PacketLoss => Some(String::from_str("packet loss")),
        FaultEventKind::HttpResponseFault => None,
    }
}

/// Sum of the values.
pub open spec fn spec_sum(v: Seq<usize>) -> nat
    decreases v.len(),
{
    if v.len() == 0 {
        0
    } else {
        spec_sum(v.drop_last()) + v.last() as nat
    }
}

/// A sum of `n` values of `usize` is at most `n` times the largest `usize`.
proof fn lemma_sum_bound(v: Seq<usize>)
    ensures
        spec_sum(v) <= v.len() * (usize::MAX as nat),
    decreases v.len(),
{
    if v.len() > 0 {
        lemma_sum_bound(v.drop_last());
        let n = v.len() as int;
        let m = usize::MAX as int;
        assert((n - 1) * m + m == n * m) by (nonlinear_arith);
    }
}

/// Average of bandwidth samples, rounded down; `None` when there are none.
pub fn average_rate(values: &Vec<usize>) -> (r: Option<usize>)
    ensures
        values@.len() == 0 ==> r is None,
        values@.len() > 0 ==> (r matches Some(a) && a as nat == spec_sum(values@) / values@.len() as nat),
{
    if values.len() == 0 {
        return None;
    }
    let mut sum: u128 = 0;
    let mut i: usize = 0;
    while i < values.len()
        invariant
            i <= values.len(),
            sum == spec_sum(values@.take(i as int)),
        decreases values.len() - i,
    {
        proof {
            assert(values@.take(i + 1).drop_last() =~= values@.take(i as int));
            lemma_sum_bound(values@.take(i + 1));
            let n = (i + 1) as int;
            let m = usize::MAX as int;
            assert(n <= m);
            assert(n * m <= m * m) by (nonlinear_arith)
                requires
                    0 <= n <= m,
            ;
            assert(m * m < 0x1_0000_0000_0000_0000_0000_0000_0000_0000) by (nonlinear_arith)
                requires
                    0 <= m <= 0xffff_ffff_ffff_ffff,
            ;
        }
        sum = sum + values[i] as u128;
        i += 1;
    }
    assert(values@.take(values.len() as int) =~= values@);
    proof {
        lemma_sum_bound(values@);
        let n = values@.len() as int;
        let m = usize::MAX as int;
        let s = sum as int;
        assert(s / n <= m) by (nonlinear_arith)
            requires
                0 <= s <= n * m,
                n > 0,
        ;
    }
    Some((sum / values.len() as u128) as usize)
}

/// The last `n` elements of `v`, in order (all of them when there are
/// fewer).
pub open spec fn spec_last_n<T>(v: Seq<T>, n: nat) -> Seq<T> {
    if v.len() <= n {
        v
    } else {
        v.skip(v.len() - n)
    }
}

/// Keeps the most recent `n` samples.
pub fn last_n<T: Copy>(v: &Vec<T>, n: usize) -> (r: Vec<T>)
    ensures
        r@ == spec_last_n(v@, n as nat),
{
    let start = if v.len() <= n { 0 } else { v.len() - n };
    let mut out: Vec<T> = Vec::new();
    let mut i: usize = start;
    while i < v.len()
        invariant
            start <= i <= v.len(),
            out@ == v@.subrange(start as int, i as int),
        decreases v.len() - i,
    {
        out.push(v[i]);
        i += 1;
        assert(out@ =~= v@.subrange(start as int, i as int));
    }
    assert(v@.subrange(start as int, v.len() as int) =~= spec_last_n(v@, n as nat));
    out
}

} // verus!
