//! Fixed timing constants of the measurement cycle, in microseconds.
use vstd::prelude::*;

verus! {

/// How long the trigger line is held low before the pulse.
pub const TRIGGER_SETTLE_US: u64 = 5;

/// Width of the trigger pulse the sensor needs to start a burst.
pub const TRIGGER_PULSE_US: u64 = 10;

/// How long an echo may take, from the end of the trigger pulse, before the
/// attempt is given up.
pub const ECHO_TIMEOUT_US: u64 = 40_000;

/// How long the (active-low) reset line is held asserted after a timeout.
pub const RESET_ASSERT_US: u64 = 50_000;

/// Pause after a reported distance before the next cycle starts.
pub const CYCLE_IDLE_US: u64 = 1_000_000;

} // verus!
