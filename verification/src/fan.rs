//! Speed limits of the PWM-driven fan on the demo board.

use vstd::prelude::*;

verus! {

/// Lowest speed the fan runs at, in RPM.
pub const MIN_RPM: u16 = 0;

/// Highest speed the fan runs at, in RPM.
pub const MAX_RPM: u16 = 6000;

/// Speed the fan needs to start from a standstill, in RPM.
pub const MIN_START_RPM: u16 = 3000;

/// Lowest speed the fan runs at, in RPM.
pub fn min_rpm() -> (rpm: u16)
    ensures
        rpm == MIN_RPM,
{
    MIN_RPM
}

/// Highest speed the fan runs at, in RPM.
pub fn max_rpm() -> (rpm: u16)
    ensures
        rpm == MAX_RPM,
{
    MAX_RPM
}

/// Speed the fan needs to start from a standstill, in RPM.
pub fn min_start_rpm() -> (rpm: u16)
    ensures
        rpm == MIN_START_RPM,
{
    MIN_START_RPM
}

/// The starting speed lies within the running range, and the range is not
/// empty.
pub proof fn lemma_limits_ordered()
    ensures
        MIN_RPM <= MIN_START_RPM <= MAX_RPM,
        MIN_RPM < MAX_RPM,
{
}

} // verus!
