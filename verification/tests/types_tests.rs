use lueur_cli::types::{BandwidthUnit, Direction, FaultKind, LatencyDistribution, PacketLossType};
use lueur_cli::event::FaultEventKind;
use lueur_cli::packet_loss::MultiState;

#[test]
fn latency_distribution_parses_names_in_any_case() {
    assert_eq!(LatencyDistribution::from_str("uniform"), Some(LatencyDistribution::Uniform));
    assert_eq!(LatencyDistribution::from_str("NORMAL"), Some(LatencyDistribution::Normal));
    assert_eq!(LatencyDistribution::from_str("Pareto"), Some(LatencyDistribution::Pareto));
    assert_eq!(LatencyDistribution::from_str("pareto-normal"), Some(LatencyDistribution::ParetoNormal));
    assert_eq!(LatencyDistribution::from_str("pareto_normal"), None);
    assert_eq!(LatencyDistribution::from_str(""), None);
}

#[test]
fn latency_distribution_names_roundtrip() {
    for d in [
        LatencyDistribution::Uniform,
        LatencyDistribution::Normal,
        LatencyDistribution::Pareto,
        LatencyDistribution::ParetoNormal,
    ] {
        assert_eq!(LatencyDistribution::from_str(&d.to_string()), Some(d));
    }
    assert_eq!(LatencyDistribution::ParetoNormal.to_string(), "pareto-normal");
    assert_eq!(LatencyDistribution::default(), LatencyDistribution::Uniform);
}

#[test]
fn direction_parses_and_displays() {
    assert_eq!(Direction::from_str("Ingress"), Some(Direction::Ingress));
    assert_eq!(Direction::from_str("EGRESS"), Some(Direction::Egress));
    assert_eq!(Direction::from_str("both"), Some(Direction::Both));
    assert_eq!(Direction::from_str("up"), None);
    for d in [Direction::Ingress, Direction::Egress, Direction::Both] {
        assert_eq!(Direction::from_str(&d.to_string()), Some(d));
    }
    assert_eq!(Direction::default(), Direction::Egress);
}

#[test]
fn direction_coverage() {
    assert!(Direction::Ingress.is_ingress());
    assert!(!Direction::Ingress.is_egress());
    assert!(!Direction::Egress.is_ingress());
    assert!(Direction::Egress.is_egress());
    assert!(Direction::Both.is_ingress());
    assert!(Direction::Both.is_egress());
}

#[test]
fn packet_loss_type_names() {
    assert_eq!(PacketLossType::from_str("Bernouilli"), Some(PacketLossType::Bernoulli));
    assert_eq!(PacketLossType::from_str("gilbert-elliott"), Some(PacketLossType::GilbertElliott));
    assert_eq!(PacketLossType::from_str("bernoulli"), Some(PacketLossType::Bernoulli));
    assert_eq!(PacketLossType::from_str("BERNOULLI"), Some(PacketLossType::Bernoulli));
    assert_eq!(PacketLossType::from_str("bernouli"), None);
    assert_eq!(
        PacketLossType::from_str(&PacketLossType::Bernoulli.to_string()),
        Some(PacketLossType::Bernoulli)
    );
    assert_eq!(PacketLossType::Bernoulli.to_string(), "bernoulli");
    assert_eq!(
        PacketLossType::from_str(&PacketLossType::GilbertElliott.to_string()),
        Some(PacketLossType::GilbertElliott)
    );
    assert_eq!(PacketLossType::default(), PacketLossType::Bernoulli);
}

#[test]
fn bandwidth_unit_conversion() {
    assert_eq!(BandwidthUnit::Bps.to_bytes_per_second(7), Some(7));
    assert_eq!(BandwidthUnit::Kbps.to_bytes_per_second(7), Some(7_000));
    assert_eq!(BandwidthUnit::Mbps.to_bytes_per_second(7), Some(7_000_000));
    assert_eq!(BandwidthUnit::Gbps.to_bytes_per_second(7), Some(7_000_000_000));
    assert_eq!(BandwidthUnit::Kbps.to_bytes_per_second(usize::MAX), None);
    assert_eq!(BandwidthUnit::default(), BandwidthUnit::Bps);
}

#[test]
fn fault_kind_names() {
    assert_eq!(FaultKind::PacketLoss.fault_type(), "packetloss");
    assert_eq!(FaultKind::PacketLoss.config_name(), "packet-loss");
    assert_eq!(FaultKind::Dns.fault_type(), "dns");
    assert_eq!(FaultKind::Latency.config_name(), "latency");
    assert_eq!(FaultEventKind::HttpResponseFault.event_type(), "httperror");
    assert_eq!(FaultEventKind::PacketLoss.event_type(), "packetloss");
    assert_eq!(FaultEventKind::Jitter.event_type(), "jitter");
}

#[test]
fn multi_state_index_roundtrip() {
    for i in 0..5usize {
        assert_eq!(MultiState::from_index(i).to_index(), i);
    }
    for s in [MultiState::Excellent, MultiState::Good, MultiState::Fair, MultiState::Poor, MultiState::Bad] {
        assert_eq!(MultiState::from_index(s.to_index()), s);
    }
    assert_eq!(MultiState::from_index(5), MultiState::Good);
    assert_eq!(MultiState::from_index(usize::MAX), MultiState::Good);
    assert_eq!(MultiState::initial(), MultiState::Good);
}
