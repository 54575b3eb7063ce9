//! Per-device pointer configuration.

use vstd::prelude::*;

verus! {

/// How many raw counts make one whole: raw amounts and factors count thousandths.
pub const FACTOR_UNIT: i64 = 1000;

/// How many processed counts make one whole: processed amounts count millionths.
pub const PROCESSED_UNIT: i64 = 1_000_000;

/// The smallest multiplier that relative motion is ever scaled by, in
/// thousandths: one hundredth.
pub const MIN_MULTIPLIER: i64 = 10;

/// Configuration of one pointer device, fixed for the session.
#[derive(Clone, Copy, Debug, PartialEq, Eq)]
pub struct PointerConfig {
    /// Added to one to give the motion multiplier, in thousandths.
    pub acceleration_factor: i64,
    /// What scroll amounts are multiplied by, in thousandths.
    pub scroll_factor: i64,
    /// Whether finger scrolling moves the content with the finger.
    pub natural_scrolling: bool,
}

impl PointerConfig {
    /// The multiplier that relative motion is scaled by, in thousandths:
    /// one plus the acceleration factor, but never less than a hundredth.
    pub open spec fn multiplier(self) -> int {
        if FACTOR_UNIT + self.acceleration_factor >= MIN_MULTIPLIER {
            FACTOR_UNIT + self.acceleration_factor
        } else {
            MIN_MULTIPLIER as int
        }
    }

    /// Computes [`PointerConfig::multiplier`].
    pub fn effective_multiplier(&self) -> (m: i128)
        ensures
            m == self.multiplier(),
            m >= MIN_MULTIPLIER,
    {
        let sum: i128 = FACTOR_UNIT as i128 + self.acceleration_factor as i128;
        if sum >= MIN_MULTIPLIER as i128 {
            sum
        } else {
            MIN_MULTIPLIER as i128
        }
    }
}

} // verus!
