//! Command-line option records and the validators of their integer values.

use vstd::prelude::*;
use vstd::string::*;
use crate::text::{lemma_parse_decimal_roundtrip, parse_unsigned, spec_decimal, spec_parse_unsigned};
use crate::types::{BandwidthUnit, Direction};

verus! {

/// Options shared by every command that starts the proxy.
pub struct ProxyAwareCommandCommon {
    /// Listening address for the proxy server.
    pub proxy_address: Option<String>,
    /// Stealth mode (eBPF redirection).
    pub ebpf: bool,
    /// Interface to bind the eBPF programs to.
    pub iface: Option<String>,
    /// gRPC plugin addresses.
    pub grpc_plugins: Vec<String>,
    /// Hosts whose traffic receives faults.
    pub upstream_hosts: Vec<String>,
}

/// Subcommands for executing scenarios.
pub enum ScenarioCommands {
    /// Execute a scenario from a file.
    Run(ScenarioConfig),
}

/// Subcommands for the demo server.
pub enum DemoCommands {
    /// Run the demo server.
    Run(DemoConfig),
}

/// Configuration for executing a scenario.
pub struct ScenarioConfig {
    /// Path to the scenario file (JSON or YAML).
    pub scenario: String,
    /// Path to the report file.
    pub report: String,
    /// Listening address overriding the scenario's.
    pub proxy_address: Option<String>,
}

/// Configuration of the demo server.
pub struct DemoConfig {
    pub address: String,
    pub port: u16,
}

/// Options common to every fault command.
pub struct RunCommandCommon {
    /// Direction the fault applies to.
    pub direction: Direction,
}

/// Bandwidth throttling command.
pub struct RunCommandBandwidth {
    pub common: RunCommandCommon,
    pub config: CliBandwidthConfig,
}

/// DNS failure command.
pub struct RunCommandDNS {
    pub common: RunCommandCommon,
    pub config: CliDNSConfig,
}

/// Bandwidth throttling options.
pub struct CliBandwidthConfig {
    /// Bandwidth rate, a positive integer.
    pub rate: u32,
    /// Unit of the rate.
    pub unit: BandwidthUnit,
}

/// DNS failure options.
pub struct CliDNSConfig {
    /// Probability (0 to 100) of a DNS failure.
    pub rate: u8,
}

/// Result of a validator that accepts positive integers up to `max`.
pub open spec fn spec_validate_positive(s: Seq<char>, max: nat) -> Result<nat, Seq<char>> {
    match spec_parse_unsigned(s, max) {
        Some(v) => if v > 0 {
            Ok(v)
        } else {
            Err("Value must be a positive integer."@)
        },
        None => Err("Invalid unsigned integer."@),
    }
}

/// Accepts a positive `u32` written in decimal.
pub fn validate_positive_u32(val: &str) -> (r: Result<u32, String>)
    ensures
        match spec_validate_positive(val@, u32::MAX as nat) {
            Ok(v) => r == Ok::<u32, String>(v as u32),
            Err(m) => r is Err && r->Err_0@ == m,
        },
{
    match parse_unsigned(val, 0xffff_ffff) {
        Some(v) => if v > 0 {
            Ok(v as u32)
        } else {
            Err(String::from_str("Value must be a positive integer."))
        },
        None => Err(String::from_str("Invalid unsigned integer.")),
    }
}

/// Result of the DNS rate validator: a positive integer written in
/// decimal, no greater than 100 (the rate is a probability in percent).
pub open spec fn spec_validate_percentage(s: Seq<char>) -> Result<nat, Seq<char>> {
    match spec_validate_positive(s, u8::MAX as nat) {
        Ok(v) => if v <= 100 {
            Ok(v)
        } else {
            Err("Value must be between 1 and 100."@)
        },
        Err(m) => Err(m),
    }
}

/// Accepts a DNS failure rate: a positive integer, at most 100, written in
/// decimal.
pub fn validate_positive_u8(val: &str) -> (r: Result<u8, String>)
    ensures
        match spec_validate_percentage(val@) {
            Ok(v) => r == Ok::<u8, String>(v as u8),
            Err(m) => r is Err && r->Err_0@ == m,
        },
{
    match parse_unsigned(val, 0xff) {
        Some(v) => if v == 0 {
            Err(String::from_str("Value must be a positive integer."))
        } else if v > 100 {
            Err(String::from_str("Value must be between 1 and 100."))
        } else {
            Ok(v as u8)
        },
        None => Err(String::from_str("Invalid unsigned integer.")),
    }
}

/// A value the positive validators accept is never zero, and a DNS rate
/// they accept is at most 100.
pub proof fn lemma_validated_is_positive(s: Seq<char>, max: nat)
    ensures
        spec_validate_positive(s, max) matches Ok(v) ==> 0 < v <= max,
        spec_validate_percentage(s) matches Ok(v) ==> 0 < v <= 100,
{
}

/// The validators accept every positive value written in decimal (up to
/// 100 for the DNS rate), and give it back; in particular the defaults the
/// command line renders for its options.
pub proof fn lemma_validate_accepts_decimal(n: nat, max: nat)
    requires
        0 < n <= max,
    ensures
        spec_validate_positive(spec_decimal(n), max) == Ok::<nat, Seq<char>>(n),
        n <= 100 ==> spec_validate_percentage(spec_decimal(n)) == Ok::<nat, Seq<char>>(n),
{
    lemma_parse_decimal_roundtrip(n, max);
    if n <= 100 {
        lemma_parse_decimal_roundtrip(n, u8::MAX as nat);
    }
}

} // verus!
