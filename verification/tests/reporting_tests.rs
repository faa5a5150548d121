use lueur_cli::config::{
    bandwidth_fault_summary, build_bandwidth_settings, build_dns_settings, build_packet_loss_settings,
    collect_enabled_faults, direction_or_default, distribution_or_default, dns_fault_summary, join_strings,
    latency_fault_summary, DnsSettings,
};
use lueur_cli::cli::{CliDNSConfig, RunCommandCommon, RunCommandDNS};
use lueur_cli::plugin::{builtin_plugin_hooks, describe_remote_plugin, non_empty, RemotePluginInfo};
use lueur_cli::reporting::{
    count_failures, count_of, endpoint_counts, fault_analysis_text, recommendation, recommendations_with_label, tally,
    generate_fault_recommendations, ReportItemExpectationDecision,
};
use lueur_cli::scenario::{expectation_met, file_format, plugin_addresses, FileFormat, ScenarioPluginConfig};
use lueur_cli::termui::{
    average_rate, bandwidth_tier, direction_character, fault_display_name, format_bandwidth_bytes, last_n,
    latency_to_sparkline_bar, status_style, BandwidthTier, StatusStyle, Tone,
};
use lueur_cli::event::FaultEventKind;
use lueur_cli::types::{BandwidthUnit, Direction, FaultKind, LatencyDistribution};

fn strings(v: &[&str]) -> Vec<String> {
    v.iter().map(|s| s.to_string()).collect()
}

#[test]
fn tally_counts_in_first_seen_order() {
    let t = tally(&strings(&["latency", "bandwidth", "latency", "dns", "latency"]));
    assert_eq!(t, vec![("latency".to_string(), 3), ("bandwidth".to_string(), 1), ("dns".to_string(), 1)]);
    assert_eq!(t.iter().map(|e| e.1).sum::<usize>(), 5);
    assert_eq!(count_of(&t, "latency"), 3);
    assert_eq!(count_of(&t, "jitter"), 0);
    assert!(tally(&Vec::new()).is_empty());
}

#[test]
fn failures_are_counted() {
    let v = vec![
        ReportItemExpectationDecision::Success,
        ReportItemExpectationDecision::Failure,
        ReportItemExpectationDecision::Unknown,
        ReportItemExpectationDecision::Failure,
    ];
    assert_eq!(count_failures(&v), 2);
    assert_eq!(count_failures(&vec![]), 0);
}

#[test]
fn recommendation_thresholds() {
    assert_eq!(recommendation("latency", 3), None);
    assert!(recommendation("latency", 4).unwrap().starts_with("High latency"));
    assert_eq!(recommendation("bandwidth", 2), None);
    assert!(recommendation("bandwidth", 3).is_some());
    assert!(recommendation("jitter", 3).is_some());
    assert_eq!(recommendation("packetloss", 1), None);
    assert!(recommendation("packetloss", 2).unwrap().starts_with("Packet loss observed"));
    assert_eq!(recommendation("packet loss", 10), None);
    assert_eq!(recommendation("httperror", 1), None);
    assert!(recommendation("httperror", 2).unwrap().starts_with("Frequent HTTP errors"));
}

#[test]
fn recommendations_section() {
    let t = vec![("latency".to_string(), 5), ("dns".to_string(), 9)];
    assert_eq!(
        recommendations_with_label(&t, "R"),
        "R: High latency issues detected frequently. Consider optimizing network calls or improving service scalability.\n"
    );
    assert_eq!(
        recommendations_with_label(&vec![("dns".to_string(), 9)], "R"),
        "No specific recommendations based on fault types.\n"
    );
    let r = generate_fault_recommendations(&t);
    assert!(r.contains("\u{1f527} Recommendation"));
    assert!(r.ends_with(": High latency issues detected frequently. Consider optimizing network calls or improving service scalability.\n"));
    let keys: Vec<String> = ["packetloss", "latency", "packetloss"].iter().map(|s| s.to_string()).collect();
    let r = generate_fault_recommendations(&tally(&keys));
    assert!(r.contains("Packet loss observed in multiple endpoints. Investigate network stability and routing paths."));
}

#[test]
fn fault_analysis_section() {
    let t = vec![("latency".to_string(), 2), ("packetloss".to_string(), 1)];
    assert_eq!(
        fault_analysis_text(&t),
        "\n## Fault Type Analysis\n- **Latency** occurred 2 times.\n- **Packetloss** occurred 1 times.\n"
    );
}

#[test]
fn display_choices() {
    assert_eq!(status_style(200), StatusStyle::Success);
    assert_eq!(status_style(299), StatusStyle::Success);
    assert_eq!(status_style(404), StatusStyle::ClientError);
    assert_eq!(status_style(0), StatusStyle::Missing);
    assert_eq!(status_style(500), StatusStyle::Other);
    assert_eq!(latency_to_sparkline_bar(49_999_999), ('\u{2581}', Tone::Green));
    assert_eq!(latency_to_sparkline_bar(50_000_000), ('\u{2582}', Tone::Green));
    assert_eq!(latency_to_sparkline_bar(150_000_000), ('\u{2583}', Tone::Yellow));
    assert_eq!(latency_to_sparkline_bar(900_000_000), ('\u{2586}', Tone::Red));
    assert_eq!(bandwidth_tier(999), BandwidthTier::Bytes);
    assert_eq!(bandwidth_tier(1_000), BandwidthTier::Kilo);
    assert_eq!(bandwidth_tier(2_500_000), BandwidthTier::Mega);
    assert_eq!(bandwidth_tier(1_000_000_000), BandwidthTier::Giga);
    assert_eq!(format_bandwidth_bytes(512), "512 Bps");
    assert_eq!(direction_character(Direction::Both), "\u{2b6d}\u{2b6b}");
    assert_eq!(fault_display_name(FaultEventKind::Dns, Some(true)), Some("dns triggered".to_string()));
    assert_eq!(fault_display_name(FaultEventKind::Dns, None), None);
    assert_eq!(fault_display_name(FaultEventKind::PacketLoss, None), Some("packet loss".to_string()));
    assert_eq!(average_rate(&vec![10, 20, 31]), Some(20));
    assert_eq!(average_rate(&vec![]), None);
    assert_eq!(last_n(&vec![1, 2, 3, 4, 5], 2), vec![4, 5]);
    assert_eq!(last_n(&vec![1, 2], 20), vec![1, 2]);
}

#[test]
fn scenario_helpers() {
    assert_eq!(file_format("scenario.json"), FileFormat::Json);
    assert_eq!(file_format("s.yaml"), FileFormat::Yaml);
    assert_eq!(file_format("s.yml"), FileFormat::Yaml);
    assert_eq!(file_format("report.md"), FileFormat::Markdown);
    assert_eq!(file_format("report.html"), FileFormat::Html);
    assert_eq!(file_format("report.txt"), FileFormat::Unsupported);
    assert_eq!(file_format("md"), FileFormat::Unsupported);
    assert_eq!(expectation_met(Some(200), 200, None), Some(true));
    assert_eq!(expectation_met(Some(200), 500, None), Some(false));
    assert_eq!(expectation_met(Some(200), 500, Some(true)), Some(true));
    assert_eq!(expectation_met(None, 500, None), None);
    let p = plugin_addresses(&vec![ScenarioPluginConfig { address: "http://a:1".to_string() }]);
    assert_eq!(p, vec!["http://a:1".to_string()]);
}

#[test]
fn config_builders() {
    assert_eq!(collect_enabled_faults(Some(1), None, Some(3), Some(4), None), vec![1, 3, 4]);
    assert_eq!(collect_enabled_faults::<u8>(None, None, None, None, None), Vec::<u8>::new());
    assert_eq!(direction_or_default(None), Some(Direction::Egress));
    assert_eq!(direction_or_default(Some("BOTH")), Some(Direction::Both));
    assert_eq!(distribution_or_default(None), Some(LatencyDistribution::Normal));
    assert_eq!(distribution_or_default(Some("weird")), None);
    let b = build_bandwidth_settings(100, "ingress").unwrap();
    assert_eq!((b.direction, b.bandwidth_rate, b.bandwidth_unit), (Direction::Ingress, 100, BandwidthUnit::Bps));
    assert!(build_bandwidth_settings(100, "nowhere").is_none());
    let d = build_dns_settings(30, "egress").unwrap();
    assert_eq!((d.direction, d.dns_rate), (Direction::Egress, 30));
    assert!(build_packet_loss_settings("gilbert-elliott", "both").is_some());
    assert_eq!(build_packet_loss_settings("bernoulli", "both").map(|s| s.direction), Some(Direction::Both));
    assert!(build_packet_loss_settings("bernouli", "both").is_none());
    let cmd = RunCommandDNS { common: RunCommandCommon { direction: Direction::Ingress }, config: CliDNSConfig { rate: 20 } };
    let s = DnsSettings::from_run_command(&cmd);
    assert_eq!((s.direction, s.dns_rate), (Direction::Egress, 20));
}

#[test]
fn fault_summaries() {
    assert_eq!(bandwidth_fault_summary(1000, "egress"), "Bandwidth Fault - Rate: 1000 kbps, Direction: egress");
    assert_eq!(dns_fault_summary(50, "both"), "DNS Fault - Rate: 50%, Direction: both");
    assert_eq!(latency_fault_summary(&Vec::new()), "Latency Fault");
    assert_eq!(
        latency_fault_summary(&strings(&["Mean: 100.00 ms", "Direction: egress"])),
        "Latency Fault [Mean: 100.00 ms, Direction: egress]"
    );
    assert_eq!(join_strings(&strings(&["a", "b", "c"]), "-"), "a-b-c");
}

#[test]
fn plugin_helpers() {
    let h = builtin_plugin_hooks(FaultKind::Latency, Direction::Ingress);
    assert!(h.wraps_client && !h.wraps_server && h.on_response && !h.on_request && !h.prepares_client);
    let h = builtin_plugin_hooks(FaultKind::Bandwidth, Direction::Egress);
    assert!(h.wraps_client && h.wraps_server && h.on_response && !h.on_request);
    let h = builtin_plugin_hooks(FaultKind::Bandwidth, Direction::Both);
    assert!(h.on_request);
    let h = builtin_plugin_hooks(FaultKind::Dns, Direction::Egress);
    assert!(h.prepares_client && !h.on_response);
    assert_eq!(non_empty(String::new()), None);
    assert_eq!(non_empty("me".to_string()), Some("me".to_string()));
    assert_eq!(
        describe_remote_plugin("p", "1.0", None, Some("u"), None),
        "gRPC Plugin:\n---------------------\nPlugin IP          : p\nPlugin Version        : 1.0\nPlugin Author     : \nPlugin Url      : u\nPlugin Platform: "
    );
    let info = RemotePluginInfo::new("n".to_string(), "v".to_string(), "a".to_string(), "u".to_string());
    assert_eq!((info.name().as_str(), info.version().as_str(), info.author().as_str(), info.url().as_str()), ("n", "v", "a", "u"));
}

#[test]
fn endpoint_counts_total_and_failed_requests() {
    let rows = vec![
        ("http://a".to_string(), ReportItemExpectationDecision::Failure),
        ("http://b".to_string(), ReportItemExpectationDecision::Success),
        ("http://a".to_string(), ReportItemExpectationDecision::Success),
        ("http://a".to_string(), ReportItemExpectationDecision::Failure),
        ("http://b".to_string(), ReportItemExpectationDecision::Unknown),
    ];
    assert_eq!(endpoint_counts(&rows, "http://a"), (3, 2));
    assert_eq!(endpoint_counts(&rows, "http://b"), (2, 0));
    assert_eq!(endpoint_counts(&rows, "http://c"), (0, 0));
}
