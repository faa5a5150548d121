//! Fault settings derived from the command line or from a scenario, and
//! the textual summaries of scenario fault configurations.

use vstd::prelude::*;
use vstd::string::*;
use crate::cli::{RunCommandBandwidth, RunCommandDNS};
use crate::text::{push_decimal, spec_decimal, unicode_lowercase};
use crate::types::{BandwidthUnit, Direction, LatencyDistribution, PacketLossType};

verus! {

/// Settings of the packet loss fault.
#[derive(Clone, Copy, Debug, PartialEq, Eq, Structural)]
pub struct PacketLossSettings {
    pub direction: Direction,
}

/// Settings of the bandwidth throttling fault.
#[derive(Clone, Copy, Debug, PartialEq, Eq, Structural)]
pub struct BandwidthSettings {
    pub direction: Direction,
    /// Rate, in `bandwidth_unit`s.
    pub bandwidth_rate: usize,
    pub bandwidth_unit: BandwidthUnit,
}

/// Settings of the DNS failure fault.
#[derive(Clone, Copy, Debug, PartialEq, Eq, Structural)]
pub struct DnsSettings {
    pub direction: Direction,
    /// Failure probability, between 0 and 100.
    pub dns_rate: u8,
}

impl Default for PacketLossSettings {
    fn default() -> (r: Self)
        ensures
            r.direction == Direction::Egress,
    {
        PacketLossSettings { direction: Direction::Egress }
    }
}

impl Default for BandwidthSettings {
    fn default() -> (r: Self)
        ensures
            r.direction == Direction::Egress,
            r.bandwidth_rate == 0,
            r.bandwidth_unit == BandwidthUnit::Bps,
    {
        BandwidthSettings { direction: Direction::Egress, bandwidth_rate: 0, bandwidth_unit: BandwidthUnit::Bps }
    }
}

impl Default for DnsSettings {
    fn default() -> (r: Self)
        ensures
            r.direction == Direction::Egress,
            r.dns_rate == 0,
    {
        DnsSettings { direction: Direction::Egress, dns_rate: 0 }
    }
}

impl BandwidthSettings {
    /// Settings of a `run bandwidth` command.
    pub fn from_run_command(cmd: &RunCommandBandwidth) -> (r: Self)
        ensures
            r.direction == cmd.common.direction,
            r.bandwidth_rate == cmd.config.rate,
            r.bandwidth_unit == cmd.config.unit,
    {
        BandwidthSettings {
            direction: cmd.common.direction,
            bandwidth_rate: cmd.config.rate as usize,
            bandwidth_unit: cmd.config.unit,
        }
    }
}

impl DnsSettings {
    /// Settings of a `run dns` command; DNS failures always apply on egress.
    pub fn from_run_command(cmd: &RunCommandDNS) -> (r: Self)
        ensures
            r.direction == Direction::Egress,
            r.dns_rate == cmd.config.rate,
    {
        DnsSettings { direction: Direction::Egress, dns_rate: cmd.config.rate }
    }
}

impl PacketLossSettings {
    /// Settings of a `run packet-loss` command.
    pub fn from_direction(direction: Direction) -> (r: Self)
        ensures
            r.direction == direction,
    {
        PacketLossSettings { direction }
    }
}

/// The element of an option, as a sequence of zero or one element.
pub open spec fn option_seq<T>(o: Option<T>) -> Seq<T> {
    match o {
        Some(x) => seq![x],
        None => Seq::empty(),
    }
}

/// The faults a run enables, in the order latency, bandwidth, DNS, jitter,
/// packet loss.
pub open spec fn spec_enabled_faults<T>(
    latency: Option<T>,
    bandwidth: Option<T>,
    dns: Option<T>,
    jitter: Option<T>,
    packet_loss: Option<T>,
) -> Seq<T> {
    option_seq(latency) + option_seq(bandwidth) + option_seq(dns) + option_seq(jitter) + option_seq(
        packet_loss,
    )
}

fn push_option<T>(v: &mut Vec<T>, o: Option<T>)
    ensures
        final(v)@ == old(v)@ + option_seq(o),
{
    match o {
        Some(x) => {
            v.push(x);
        },
        None => {},
    }
    assert(final(v)@ =~= old(v)@ + option_seq(o));
}

/// Collects the enabled faults of a run into the proxy's fault list.
pub fn collect_enabled_faults<T>(
    latency: Option<T>,
    bandwidth: Option<T>,
    dns: Option<T>,
    jitter: Option<T>,
    packet_loss: Option<T>,
) -> (r: Vec<T>)
    ensures
        r@ == spec_enabled_faults(latency, bandwidth, dns, jitter, packet_loss),
{
    let mut faults: Vec<T> = Vec::new();
    push_option(&mut faults, latency);
    push_option(&mut faults, bandwidth);
    push_option(&mut faults, dns);
    push_option(&mut faults, jitter);
    push_option(&mut faults, packet_loss);
    assert(faults@ =~= spec_enabled_faults(latency, bandwidth, dns, jitter, packet_loss));
    faults
}

/// 1 for an option that holds a value, 0 for none.
pub open spec fn some_count<T>(o: Option<T>) -> nat {
    if o is Some {
        1
    } else {
        0
    }
}

/// Every enabled fault is kept and nothing else: the fault list has one
/// entry per fault given, holds each fault given, and holds only faults
/// that were given.
pub proof fn lemma_enabled_faults_kept<T>(
    latency: Option<T>,
    bandwidth: Option<T>,
    dns: Option<T>,
    jitter: Option<T>,
    packet_loss: Option<T>,
)
    ensures
        spec_enabled_faults(latency, bandwidth, dns, jitter, packet_loss).len() == some_count(latency)
            + some_count(bandwidth) + some_count(dns) + some_count(jitter) + some_count(packet_loss),
        latency matches Some(x) ==> spec_enabled_faults(latency, bandwidth, dns, jitter, packet_loss).contains(x),
        bandwidth matches Some(x) ==> spec_enabled_faults(latency, bandwidth, dns, jitter, packet_loss).contains(x),
        dns matches Some(x) ==> spec_enabled_faults(latency, bandwidth, dns, jitter, packet_loss).contains(x),
        jitter matches Some(x) ==> spec_enabled_faults(latency, bandwidth, dns, jitter, packet_loss).contains(x),
        packet_loss matches Some(x) ==> spec_enabled_faults(latency, bandwidth, dns, jitter, packet_loss).contains(x),
        forall|y: T| #[trigger] spec_enabled_faults(latency, bandwidth, dns, jitter, packet_loss).contains(y) ==> (
            latency == Some(y) || bandwidth == Some(y) || dns == Some(y) || jitter == Some(y) || packet_loss == Some(y)),
{
    let s1 = option_seq(latency);
    let s2 = s1 + option_seq(bandwidth);
    let s3 = s2 + option_seq(dns);
    let s4 = s3 + option_seq(jitter);
    let s5 = s4 + option_seq(packet_loss);
    assert(s5 == spec_enabled_faults(latency, bandwidth, dns, jitter, packet_loss));
    if let Some(x) = latency {
        assert(s5[0] == x);
    }
    if let Some(x) = bandwidth {
        assert(s5[s1.len() as int] == x);
    }
    if let Some(x) = dns {
        assert(s5[s2.len() as int] == x);
    }
    if let Some(x) = jitter {
        assert(s5[s3.len() as int] == x);
    }
    if let Some(x) = packet_loss {
        assert(s5[s4.len() as int] == x);
    }
    assert forall|y: T| #[trigger] s5.contains(y) implies (latency == Some(y) || bandwidth == Some(y) || dns
        == Some(y) || jitter == Some(y) || packet_loss == Some(y)) by {
        let k = choose|k: int| 0 <= k < s5.len() && s5[k] == y;
        if k < s1.len() {
            assert(s1[k] == y);
        } else if k < s2.len() {
            assert(option_seq(bandwidth)[k - s1.len()] == y);
        } else if k < s3.len() {
            assert(option_seq(dns)[k - s2.len()] == y);
        } else if k < s4.len() {
            assert(option_seq(jitter)[k - s3.len()] == y);
        } else {
            assert(option_seq(packet_loss)[k - s4.len()] == y);
        }
    }
}

/// The direction a scenario names, "egress" when it names none.
pub open spec fn spec_direction_or_default(direction: Option<Seq<char>>) -> Option<Direction> {
    match direction {
        Some(d) => Direction::spec_from_lowercase(unicode_lowercase(d)),
        None => Some(Direction::Egress),
    }
}

/// Parses a scenario direction, defaulting to egress.
pub fn direction_or_default(direction: Option<&str>) -> (r: Option<Direction>)
    ensures
        r == spec_direction_or_default(
            match direction {
                Some(d) => Some(d@),
                None => None,
            },
        ),
{
    match direction {
        Some(d) => Direction::from_str(d),
        None => {
            let r = Direction::from_lowercase("egress");
            proof {
                reveal_strlit("egress");
                reveal_strlit("ingress");
                assert("egress"@.len() != "ingress"@.len());
            }
            r
        },
    }
}

/// The distribution a scenario names, "normal" when it names none.
pub open spec fn spec_distribution_or_default(distribution: Option<Seq<char>>) -> Option<LatencyDistribution> {
    match distribution {
        Some(d) => LatencyDistribution::spec_from_lowercase(unicode_lowercase(d)),
        None => Some(LatencyDistribution::Normal),
    }
}

/// Parses a scenario latency distribution, defaulting to normal.
pub fn distribution_or_default(distribution: Option<&str>) -> (r: Option<LatencyDistribution>)
    ensures
        r == spec_distribution_or_default(
            match distribution {
                Some(d) => Some(d@),
                None => None,
            },
        ),
{
    match distribution {
        Some(d) => LatencyDistribution::from_str(d),
        None => {
            let r = LatencyDistribution::from_lowercase("normal");
            proof {
                reveal_strlit("normal");
                reveal_strlit("uniform");
                assert("normal"@.len() != "uniform"@.len());
            }
            r
        },
    }
}

/// Bandwidth settings of a scenario fault; `None` when the direction is not
/// a direction name.
pub fn build_bandwidth_settings(rate: u32, direction: &str) -> (r: Option<BandwidthSettings>)
    ensures
        match Direction::spec_from_lowercase(unicode_lowercase(direction@)) {
            Some(d) => r matches Some(s) && s.direction == d && s.bandwidth_rate == rate
                && s.bandwidth_unit == BandwidthUnit::Bps,
            None => r is None,
        },
{
    match Direction::from_str(direction) {
        Some(d) => Some(
            BandwidthSettings { direction: d, bandwidth_rate: rate as usize, bandwidth_unit: BandwidthUnit::Bps },
        ),
        None => None,
    }
}

/// DNS settings of a scenario fault; `None` when the direction is not a
/// direction name.
pub fn build_dns_settings(rate: u8, direction: &str) -> (r: Option<DnsSettings>)
    ensures
        match Direction::spec_from_lowercase(unicode_lowercase(direction@)) {
            Some(d) => r matches Some(s) && s.direction == d && s.dns_rate == rate,
            None => r is None,
        },
{
    match Direction::from_str(direction) {
        Some(d) => Some(DnsSettings { direction: d, dns_rate: rate }),
        None => None,
    }
}

/// Packet loss settings of a scenario fault; `None` when the loss model or
/// the direction is not recognised.
pub fn build_packet_loss_settings(loss_type: &str, direction: &str) -> (r: Option<PacketLossSettings>)
    ensures
        match (
            PacketLossType::spec_from_lowercase(unicode_lowercase(loss_type@)),
            Direction::spec_from_lowercase(unicode_lowercase(direction@)),
        ) {
            (Some(_), Some(d)) => r matches Some(s) && s.direction == d,
            _ => r is None,
        },
{
    match PacketLossType::from_str(loss_type) {
        Some(_) => match Direction::from_str(direction) {
            Some(d) => Some(PacketLossSettings { direction: d }),
            None => None,
        },
        None => None,
    }
}

/// Summary line of a scenario bandwidth fault.
pub open spec fn spec_bandwidth_summary(rate: nat, direction: Seq<char>) -> Seq<char> {
    "Bandwidth Fault - Rate: "@ + spec_decimal(rate) + " kbps, Direction: "@ + direction
}

/// Summary line of a scenario DNS fault.
pub open spec fn spec_dns_summary(rate: nat, direction: Seq<char>) -> Seq<char> {
    "DNS Fault - Rate: "@ + spec_decimal(rate) + "%, Direction: "@ + direction
}

/// Describes a scenario bandwidth fault.
pub fn bandwidth_fault_summary(rate: u32, direction: &str) -> (r: String)
    ensures
        r@ == spec_bandwidth_summary(rate as nat, direction@),
{
    let mut s = String::from_str("Bandwidth Fault - Rate: ");
    push_decimal(&mut s, rate as u64);
    s.append(" kbps, Direction: ");
    s.append(direction);
    s
}

/// Describes a scenario DNS fault.
pub fn dns_fault_summary(rate: u8, direction: &str) -> (r: String)
    ensures
        r@ == spec_dns_summary(rate as nat, direction@),
{
    let mut s = String::from_str("DNS Fault - Rate: ");
    push_decimal(&mut s, rate as u64);
    s.append("%, Direction: ");
    s.append(direction);
    s
}

/// The strings of `list` joined by `sep`.
pub open spec fn seq_join(list: Seq<Seq<char>>, sep: Seq<char>) -> Seq<char>
    decreases list.len(),
{
    if list.len() == 0 {
        Seq::empty()
    } else if list.len() == 1 {
        list[0]
    } else {
        seq_join(list.drop_last(), sep) + sep + list.last()
    }
}

/// The views of a list of strings.
pub open spec fn string_views(list: Seq<String>) -> Seq<Seq<char>> {
    list.map_values(|s: String| s@)
}

/// Joins strings with a separator, as `[String]::join` does.
pub fn join_strings(list: &Vec<String>, sep: &str) -> (r: String)
    ensures
        r@ == seq_join(string_views(list@), sep@),
{
    let mut out = String::new();
    let ghost views = string_views(list@);
    let mut i: usize = 0;
    while i < list.len()
        invariant
            i <= list.len(),
            views == string_views(list@),
            out@ == seq_join(views.take(i as int), sep@),
        decreases list.len() - i,
    {
        if i != 0 {
            out.append(sep);
        }
        out.append(list[i].as_str());
        assert(views.take(i + 1).drop_last() =~= views.take(i as int));
        i += 1;
    }
    assert(views.take(list.len() as int) =~= views);
    out
}

/// Summary line of a scenario latency fault, given its detail strings.
pub open spec fn spec_latency_summary(details: Seq<Seq<char>>) -> Seq<char> {
    if details.len() == 0 {
        "Latency Fault"@
    } else {
        "Latency Fault"@ + " ["@ + seq_join(details, ", "@) + "]"@
    }
}

/// Describes a scenario latency fault from the details it sets.
pub fn latency_fault_summary(details: &Vec<String>) -> (r: String)
    ensures
        r@ == spec_latency_summary(string_views(details@)),
{
    let mut s = String::from_str("Latency Fault");
    if details.len() > 0 {
        s.append(" [");
        let joined = join_strings(details, ", ");
        s.append(joined.as_str());
        s.append("]");
    }
    s
}

} // verus!
