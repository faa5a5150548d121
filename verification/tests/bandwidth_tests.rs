use lueur_cli::bandwidth::{
    admission, after_check, limiter_quota, options_from_settings, Admission, AfterCheck, AfterDelay, BandwidthLimitFaultInjector,
    BandwidthLimitedBidirectional, BandwidthOptions, BandwidthStrategy, PermitCheck, ThrottleState,
};
use lueur_cli::config::BandwidthSettings;
use lueur_cli::delay::{DelayGate, DelayStep};
use lueur_cli::jitter::{generate_jitter_millis, should_apply_fault_resolver};
use lueur_cli::packet_loss::PacketLossLimitedBidirectional;
use lueur_cli::types::{BandwidthUnit, Direction};
use rand::SeedableRng;

fn single(rate: usize, unit: BandwidthUnit) -> BandwidthOptions {
    BandwidthOptions { strategy: BandwidthStrategy::Single { rate, unit } }
}

#[test]
fn quota_of_single_rate() {
    assert_eq!(limiter_quota(&single(1000, BandwidthUnit::Bps), true), Some((1000, 1000)));
    assert_eq!(limiter_quota(&single(5, BandwidthUnit::Kbps), false), Some((5000, 5000)));
    assert_eq!(limiter_quota(&single(0, BandwidthUnit::Mbps), true), None);
}

#[test]
fn quota_of_dual_rate() {
    let o = BandwidthOptions {
        strategy: BandwidthStrategy::Dual {
            ingress_rate: 2,
            ingress_unit: BandwidthUnit::Kbps,
            egress_rate: 3,
            egress_unit: BandwidthUnit::Bps,
        },
    };
    assert_eq!(limiter_quota(&o, true), Some((2000, 2000)));
    assert_eq!(limiter_quota(&o, false), Some((3, 3)));
}

#[test]
fn quota_refuses_rates_beyond_32_bits() {
    let rate = 4_294_967_296usize + 7;
    assert_eq!(limiter_quota(&single(rate, BandwidthUnit::Bps), true), None);
    assert_eq!(limiter_quota(&single(4_294_967_295, BandwidthUnit::Bps), true), Some((u32::MAX, 4_294_967_295)));
    assert_eq!(limiter_quota(&single(4, BandwidthUnit::Gbps), true), Some((4_000_000_000, 4_000_000_000)));
    assert_eq!(limiter_quota(&single(5, BandwidthUnit::Gbps), true), None);
    assert_eq!(limiter_quota(&single(4_294_967_296, BandwidthUnit::Bps), true), None);
    assert_eq!(limiter_quota(&single(usize::MAX, BandwidthUnit::Gbps), true), None);
}

#[test]
fn admission_caps_transfers() {
    assert!(matches!(admission(false, 10, 100), Admission::Unlimited));
    assert!(matches!(admission(true, 10, 0), Admission::Empty));
    assert!(matches!(admission(true, 10, 100), Admission::Check(10, 10)));
    assert!(matches!(admission(true, 100, 42), Admission::Check(42, 42)));
    assert!(matches!(admission(true, usize::MAX, 4_294_967_296), Admission::Empty));
}

#[test]
fn permit_outcomes() {
    assert!(matches!(after_check(PermitCheck::Conforming), AfterCheck::Transfer));
    assert!(matches!(after_check(PermitCheck::NotYet), AfterCheck::Wait));
    assert!(matches!(after_check(PermitCheck::Insufficient), AfterCheck::Wait));
}

#[test]
fn throttle_wait_cycle() {
    let mut s = ThrottleState::new();
    assert!(s.must_arm_delay());
    s.arm_delay();
    assert!(!s.must_arm_delay());
    assert!(matches!(s.on_delay_polled(false), AfterDelay::Pending));
    assert!(s.delay_armed);
    assert!(matches!(s.on_delay_polled(true), AfterDelay::Retry));
    assert!(!s.delay_armed);
}

#[test]
fn injector_and_settings() {
    let settings = BandwidthSettings { direction: Direction::Both, bandwidth_rate: 12, bandwidth_unit: BandwidthUnit::Kbps };
    let options = options_from_settings(&settings);
    assert_eq!(limiter_quota(&options, true), Some((12_000, 12_000)));
    let injector = BandwidthLimitFaultInjector::new(options);
    assert!(matches!(injector.options.strategy, BandwidthStrategy::Single { rate: 12, unit: BandwidthUnit::Kbps }));
}

#[test]
fn bidirectional_pairs() {
    let b = BandwidthLimitedBidirectional::new(1u8, "w");
    assert_eq!((b.reader, b.writer), (1u8, "w"));
    let p = PacketLossLimitedBidirectional::new("r", 2u16);
    assert_eq!((p.reader, p.writer), ("r", 2u16));
}

#[test]
fn latency_gate_waits_on_every_poll() {
    let mut g = DelayGate::new();
    assert_eq!(g.latency_step(false), DelayStep::Forward);
    assert_eq!(g.latency_step(true), DelayStep::ArmAndPollSleep);
    g.arm();
    assert_eq!(g.latency_step(true), DelayStep::PollSleep);
    assert_eq!(g.on_sleep_polled(false), DelayStep::Wait);
    assert_eq!(g.on_sleep_polled(true), DelayStep::Forward);
    assert!(!g.armed);
}

#[test]
fn jitter_gate_draws_then_waits() {
    let mut g = DelayGate::new();
    assert_eq!(g.jitter_step(true), DelayStep::Draw);
    assert_eq!(g.on_jitter_drawn(false), DelayStep::Forward);
    assert!(!g.armed);
    assert_eq!(g.on_jitter_drawn(true), DelayStep::Forward);
    assert_eq!(g.jitter_step(true), DelayStep::PollSleep);
    assert_eq!(g.jitter_step(false), DelayStep::Forward);
}

#[test]
fn random_draws_respect_bounds() {
    let mut rng = rand::rngs::SmallRng::seed_from_u64(7);
    assert_eq!(generate_jitter_millis(&mut rng, 0), 0);
    for _ in 0..100 {
        assert!(generate_jitter_millis(&mut rng, 25) <= 25);
    }
    assert_eq!(generate_jitter_millis(&mut rng, (1u128 << 64) + 0), 0);
    for _ in 0..50 {
        assert!(!should_apply_fault_resolver(&mut rng, 0));
        assert!(should_apply_fault_resolver(&mut rng, 100));
    }
}
