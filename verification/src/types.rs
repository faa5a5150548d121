//! Option types shared by the CLI, the configuration and the fault
//! injectors, with their textual names.

use vstd::prelude::*;
use vstd::string::*;
use crate::text::{to_lowercase, str_eq, unicode_lowercase};

verus! {

/// Statistical distribution from which latency delays are drawn.
#[derive(Clone, Copy, Debug, PartialEq, Eq, Structural)]
pub enum LatencyDistribution {
    Uniform,
    Normal,
    Pareto,
    ParetoNormal,
}

impl LatencyDistribution {
    /// The name under which the distribution is displayed.
    pub open spec fn spec_name(self) -> Seq<char> {
        match self {
            LatencyDistribution::Uniform => "uniform"@,
            LatencyDistribution::Normal => "normal"@,
            LatencyDistribution::Pareto => "pareto"@,
            LatencyDistribution::ParetoNormal => "pareto-normal"@,
        }
    }

    /// The distribution named by an already lowercased string.
    pub open spec fn spec_from_lowercase(s: Seq<char>) -> Option<Self> {
        if s == "uniform"@ {
            Some(LatencyDistribution::Uniform)
        } else if s == "normal"@ {
            Some(LatencyDistribution::Normal)
        } else if s == "pareto"@ {
            Some(LatencyDistribution::Pareto)
        } else if s == "pareto-normal"@ {
            Some(LatencyDistribution::ParetoNormal)
        } else {
            None
        }
    }

    /// Recognises a lowercase distribution name.
    pub fn from_lowercase(s: &str) -> (r: Option<Self>)
        ensures
            r == Self::spec_from_lowercase(s@),
    {
        if str_eq(s, "uniform") {
            Some(LatencyDistribution::Uniform)
        } else if str_eq(s, "normal") {
            Some(LatencyDistribution::Normal)
        } else if str_eq(s, "pareto") {
            Some(LatencyDistribution::Pareto)
        } else if str_eq(s, "pareto-normal") {
            Some(LatencyDistribution::ParetoNormal)
        } else {
            None
        }
    }

    /// Parses a distribution name, ignoring case.
    pub fn from_str(s: &str) -> (r: Option<Self>)
        ensures
            r == Self::spec_from_lowercase(unicode_lowercase(s@)),
    {
        let lower = to_lowercase(s);
        Self::from_lowercase(lower.as_str())
    }

    /// The displayed name.
    pub fn to_string(&self) -> (r: String)
        ensures
            r@ == self.spec_name(),
    {
        match self {
            LatencyDistribution::Uniform => String::from_str("uniform"),
            LatencyDistribution::Normal => String::from_str("normal"),
            LatencyDistribution::Pareto => String::from_str("pareto"),
            LatencyDistribution::ParetoNormal => String::from_str("pareto-normal"),
        }
    }
}

impl Default for LatencyDistribution {
    fn default() -> (r: Self)
        ensures
            r == LatencyDistribution::Uniform,
    {
        LatencyDistribution::Uniform
    }
}

/// Direction of traffic a fault applies to.
#[derive(Clone, Copy, Debug, PartialEq, Eq, Structural)]
pub enum Direction {
    Ingress,
    Egress,
    Both,
}

impl Direction {
    /// The name under which the direction is displayed.
    pub open spec fn spec_name(self) -> Seq<char> {
        match self {
            Direction::Ingress => "ingress"@,
            Direction::Egress => "egress"@,
            Direction::Both => "both"@,
        }
    }

    /// The direction named by an already lowercased string.
    pub open spec fn spec_from_lowercase(s: Seq<char>) -> Option<Self> {
        if s == "ingress"@ {
            Some(Direction::Ingress)
        } else if s == "egress"@ {
            Some(Direction::Egress)
        } else if s == "both"@ {
            Some(Direction::Both)
        } else {
            None
        }
    }

    /// Ingress traffic is affected.
    pub open spec fn spec_is_ingress(self) -> bool {
        self == Direction::Ingress || self == Direction::Both
    }

    /// Egress traffic is affected.
    pub open spec fn spec_is_egress(self) -> bool {
        self == Direction::Egress || self == Direction::Both
    }

    /// Recognises a lowercase direction name.
    pub fn from_lowercase(s: &str) -> (r: Option<Self>)
        ensures
            r == Self::spec_from_lowercase(s@),
    {
        if str_eq(s, "ingress") {
            Some(Direction::Ingress)
        } else if str_eq(s, "egress") {
            Some(Direction::Egress)
        } else if str_eq(s, "both") {
            Some(Direction::Both)
        } else {
            None
        }
    }

    /// Parses a direction name, ignoring case.
    pub fn from_str(s: &str) -> (r: Option<Self>)
        ensures
            r == Self::spec_from_lowercase(unicode_lowercase(s@)),
    {
        let lower = to_lowercase(s);
        Self::from_lowercase(lower.as_str())
    }

    /// Whether the direction covers ingress traffic.
    pub fn is_ingress(&self) -> (r: bool)
        ensures
            r == self.spec_is_ingress(),
    {
        *self == Direction::Ingress || *self == Direction::Both
    }

    /// Whether the direction covers egress traffic.
    pub fn is_egress(&self) -> (r: bool)
        ensures
            r == self.spec_is_egress(),
    {
        *self == Direction::Egress || *self == Direction::Both
    }

    /// The displayed name.
    pub fn to_string(&self) -> (r: String)
        ensures
            r@ == self.spec_name(),
    {
        match self {
            Direction::Ingress => String::from_str("ingress"),
            Direction::Egress => String::from_str("egress"),
            Direction::Both => String::from_str("both"),
        }
    }
}

impl Default for Direction {
    fn default() -> (r: Self)
        ensures
            r == Direction::Egress,
    {
        Direction::Egress
    }
}

/// Model used to decide which packets are lost.
#[derive(Clone, Copy, Debug, PartialEq, Eq, Structural)]
pub enum PacketLossType {
    Bernoulli,
    GilbertElliott,
}

impl PacketLossType {
    /// The name under which the model is displayed.
    pub open spec fn spec_name(self) -> Seq<char> {
        match self {
            PacketLossType::Bernoulli => "bernoulli"@,
            PacketLossType::GilbertElliott => "gilbert-elliott"@,
        }
    }

    /// The model named by an already lowercased string; the Bernoulli model
    /// is also recognised under the older spelling "bernouilli".
    pub open spec fn spec_from_lowercase(s: Seq<char>) -> Option<Self> {
        if s == "bernoulli"@ || s == "bernouilli"@ {
            Some(PacketLossType::Bernoulli)
        } else if s == "gilbert-elliott"@ {
            Some(PacketLossType::GilbertElliott)
        } else {
            None
        }
    }

    /// Recognises a lowercase model name.
    pub fn from_lowercase(s: &str) -> (r: Option<Self>)
        ensures
            r == Self::spec_from_lowercase(s@),
    {
        if str_eq(s, "bernoulli") || str_eq(s, "bernouilli") {
            Some(PacketLossType::Bernoulli)
        } else if str_eq(s, "gilbert-elliott") {
            Some(PacketLossType::GilbertElliott)
        } else {
            None
        }
    }

    /// Parses a model name, ignoring case.
    pub fn from_str(s: &str) -> (r: Option<Self>)
        ensures
            r == Self::spec_from_lowercase(unicode_lowercase(s@)),
    {
        let lower = to_lowercase(s);
        Self::from_lowercase(lower.as_str())
    }

    /// The displayed name.
    pub fn to_string(&self) -> (r: String)
        ensures
            r@ == self.spec_name(),
    {
        match self {
            PacketLossType::Bernoulli => String::from_str("bernoulli"),
            PacketLossType::GilbertElliott => String::from_str("gilbert-elliott"),
        }
    }
}

impl Default for PacketLossType {
    fn default() -> (r: Self)
        ensures
            r == PacketLossType::Bernoulli,
    {
        PacketLossType::Bernoulli
    }
}

/// Unit in which a bandwidth rate is given: bytes, kilobytes, megabytes or
/// gigabytes per second.
#[derive(Clone, Copy, Debug, PartialEq, Eq, PartialOrd, Ord, Structural)]
pub enum BandwidthUnit {
    Bps,
    Kbps,
    Mbps,
    Gbps,
}

impl BandwidthUnit {
    /// Bytes per second in one unit.
    pub open spec fn spec_factor(self) -> nat {
        match self {
            BandwidthUnit::Bps => 1,
            BandwidthUnit::Kbps => 1_000,
            BandwidthUnit::Mbps => 1_000_000,
            BandwidthUnit::Gbps => 1_000_000_000,
        }
    }

    /// `rate` units in bytes per second, when that fits in a `usize`.
    pub open spec fn spec_bytes_per_second(self, rate: nat) -> Option<nat> {
        if rate * self.spec_factor() <= usize::MAX {
            Some(rate * self.spec_factor())
        } else {
            None
        }
    }

    /// Converts a rate in this unit to bytes per second; `None` where the
    /// product does not fit in a `usize`.
    pub fn to_bytes_per_second(&self, rate: usize) -> (r: Option<usize>)
        ensures
            match self.spec_bytes_per_second(rate as nat) {
                Some(v) => r == Some(v as usize),
                None => r is None,
            },
    {
        let factor: usize = match self {
            BandwidthUnit::Bps => 1,
            BandwidthUnit::Kbps => 1_000,
            BandwidthUnit::Mbps => 1_000_000,
            BandwidthUnit::Gbps => 1_000_000_000,
        };
        rate.checked_mul(factor)
    }
}

impl Default for BandwidthUnit {
    fn default() -> (r: Self)
        ensures
            r == BandwidthUnit::Bps,
    {
        BandwidthUnit::Bps
    }
}

/// Target of an HTTP CONNECT tunnel.
pub struct ConnectRequest {
    pub target_host: String,
    pub target_port: u16,
}

/// The kinds of fault the proxy can inject.
#[derive(Clone, Copy, Debug, PartialEq, Eq, Structural)]
pub enum FaultKind {
    Latency,
    PacketLoss,
    Bandwidth,
    Jitter,
    Dns,
}

impl FaultKind {
    /// Name of the kind as reported for a scenario's fault configuration.
    pub open spec fn spec_fault_type(self) -> Seq<char> {
        match self {
            FaultKind::Latency => "latency"@,
            FaultKind::PacketLoss => "packetloss"@,
            FaultKind::Bandwidth => "bandwidth"@,
            FaultKind::Jitter => "jitter"@,
            FaultKind::Dns => "dns"@,
        }
    }

    /// Name of the kind as displayed for a running fault configuration.
    pub open spec fn spec_config_name(self) -> Seq<char> {
        match self {
            FaultKind::Latency => "latency"@,
            FaultKind::PacketLoss => "packet-loss"@,
            FaultKind::Bandwidth => "bandwidth"@,
            FaultKind::Jitter => "jitter"@,
            FaultKind::Dns => "dns"@,
        }
    }

    /// The scenario fault type name ("latency", "packetloss", ...).
    pub fn fault_type(&self) -> (r: String)
        ensures
            r@ == self.spec_fault_type(),
    {
        match self {
            FaultKind::Latency => String::from_str("latency"),
            FaultKind::PacketLoss => String::from_str("packetloss"),
            FaultKind::Bandwidth => String::from_str("bandwidth"),
            FaultKind::Jitter => String::from_str("jitter"),
            FaultKind::Dns => String::from_str("dns"),
        }
    }

    /// The displayed configuration name ("latency", "packet-loss", ...).
    pub fn config_name(&self) -> (r: String)
        ensures
            r@ == self.spec_config_name(),
    {
        match self {
            FaultKind::Latency => String::from_str("latency"),
            FaultKind::PacketLoss => String::from_str("packet-loss"),
            FaultKind::Bandwidth => String::from_str("bandwidth"),
            FaultKind::Jitter => String::from_str("jitter"),
            FaultKind::Dns => String::from_str("dns"),
        }
    }
}

/// Parsing the displayed name of a distribution gives the distribution
/// back.
pub proof fn lemma_latency_distribution_name_roundtrip(d: LatencyDistribution)
    ensures
        LatencyDistribution::spec_from_lowercase(d.spec_name()) == Some(d),
{
    broadcast use vstd::string::group_string_axioms;
    reveal_strlit("uniform");
    reveal_strlit("normal");
    reveal_strlit("pareto");
    reveal_strlit("pareto-normal");
    assert("uniform"@.len() == 7);
    assert("normal"@.len() == 6);
    assert("pareto"@.len() == 6);
    assert("pareto"@[0] != "normal"@[0]);
}

/// Parsing the displayed name of a direction gives the direction back.
pub proof fn lemma_direction_name_roundtrip(d: Direction)
    ensures
        Direction::spec_from_lowercase(d.spec_name()) == Some(d),
{
    broadcast use vstd::string::group_string_axioms;
    reveal_strlit("ingress");
    reveal_strlit("egress");
    reveal_strlit("both");
    assert("ingress"@.len() == 7);
    assert("egress"@.len() == 6);
    assert("both"@.len() == 4);
}

/// Parsing the displayed name of a packet loss model gives the model back.
pub proof fn lemma_packet_loss_type_name_roundtrip(t: PacketLossType)
    ensures
        PacketLossType::spec_from_lowercase(t.spec_name()) == Some(t),
{
    broadcast use vstd::string::group_string_axioms;
    reveal_strlit("bernouilli");
    reveal_strlit("bernoulli");
    reveal_strlit("gilbert-elliott");
    assert("bernouilli"@.len() == 10);
    assert("bernoulli"@.len() == 9);
    assert("gilbert-elliott"@.len() == 15);
}

/// Every direction covers ingress or egress traffic, and it covers both
/// exactly when it is `Both`.
pub proof fn lemma_direction_coverage(d: Direction)
    ensures
        d.spec_is_ingress() || d.spec_is_egress(),
        (d.spec_is_ingress() && d.spec_is_egress()) <==> d == Direction::Both,
{
}

} // verus!
