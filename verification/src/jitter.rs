//! Random draws of the jitter and DNS faults.

use vstd::prelude::*;
use rand::Rng;

verus! {

#[verifier::external_type_specification]
#[verifier::external_body]
pub struct ExSmallRng(rand::rngs::SmallRng);

/// Calls `Rng::gen_range` with the inclusive range `0..=max`; the draw is
/// random, and lies within the range.
#[verifier::external_body]
fn gen_range_up_to(rng: &mut rand::rngs::SmallRng, max: u64) -> (r: u64)
    ensures
        r <= max,
{
    rng.gen_range(0..=max)
}

/// Calls `Rng::gen_ratio(numerator, 100)`: true with probability
/// `numerator` in 100, never for 0 and always for 100; which way a draw in
/// between goes is random.
#[verifier::external_body]
fn gen_percent(rng: &mut rand::rngs::SmallRng, numerator: u32) -> (r: bool)
    requires
        numerator <= 100,
    ensures
        numerator == 0 ==> !r,
        numerator == 100 ==> r,
{
    rng.gen_ratio(numerator, 100)
}

/// Draws a jitter delay in milliseconds, between zero and the amplitude
/// (the amplitude's milliseconds cut to 64 bits).
pub fn generate_jitter_millis(rng: &mut rand::rngs::SmallRng, amplitude_millis: u128) -> (r: u64)
    ensures
        r <= amplitude_millis as u64,
{
    gen_range_up_to(rng, amplitude_millis as u64)
}

/// Draws whether a DNS resolution fails, with probability `dns_rate` in
/// 100.
pub fn should_apply_fault_resolver(rng: &mut rand::rngs::SmallRng, dns_rate: u8) -> (r: bool)
    requires
        dns_rate <= 100,
    ensures
        dns_rate == 0 ==> !r,
        dns_rate == 100 ==> r,
{
    gen_percent(rng, dns_rate as u32)
}

} // verus!
