//! Conversion of an echo's round-trip time into a distance.
use vstd::prelude::*;

verus! {

/// Speed of sound in micrometres per microsecond (343 m/s).
pub const SPEED_OF_SOUND_UM_PER_US: u64 = 343;

/// Distance in micrometres for an echo that stayed high `echo_us`
/// microseconds: half the round trip (whole microseconds) times the speed of
/// sound.
pub open spec fn distance_um_of(echo_us: nat) -> nat {
    (echo_us / 2) * (SPEED_OF_SOUND_UM_PER_US as nat)
}

/// Distance in micrometres for an echo duration in microseconds.
///
/// A 1000 µs echo gives 171 500 µm, that is 0.1715 m.
pub fn distance_um(echo_us: u64) -> (r: u128)
    ensures
        r == distance_um_of(echo_us as nat),
{
    let one_way: u64 = echo_us / 2;
    assert(one_way as nat * 343 <= u64::MAX as nat * 343) by (nonlinear_arith)
        requires one_way <= u64::MAX;
    (one_way as u128) * (SPEED_OF_SOUND_UM_PER_US as u128)
}

} // verus!
