use vstd::prelude::*;

verus! {

/// The one sample rate the inference engine runs at, in millihertz.
pub const ENGINE_RATE_MHZ: u64 = 48_000_000;

/// How far a host rate may stray from the engine's rate, in millihertz.
pub const RATE_TOLERANCE_MHZ: u64 = 1_000;

/// The distance between two rates.
pub open spec fn rate_distance(a: u64, b: u64) -> nat {
    if a >= b { (a - b) as nat } else { (b - a) as nat }
}

/// A host rate is usable when it lies within the tolerance of the engine's rate.
pub open spec fn rate_supported(rate_mhz: u64) -> bool {
    rate_distance(rate_mhz, ENGINE_RATE_MHZ) <= RATE_TOLERANCE_MHZ
}

/// Whether a session can run at `rate_mhz` (a sample rate given in millihertz).
pub fn sample_rate_supported(rate_mhz: u64) -> (r: bool)
    ensures
        r == rate_supported(rate_mhz),
{
    let distance: u64 = if rate_mhz >= ENGINE_RATE_MHZ {
        rate_mhz - ENGINE_RATE_MHZ
    } else {
        ENGINE_RATE_MHZ - rate_mhz
    };
    distance <= RATE_TOLERANCE_MHZ
}

} // verus!
