//! Angle normalization over fixed-point angles.
//!
//! Angular values that travel through the wire envelopes (altitudes and
//! azimuths of horizon events) are carried as integers in millionths of the
//! natural unit: microradians or microdegrees. Normalization maps any such
//! angle into one canonical turn, `[0, tau)` for radians and `[0, 360)` for
//! degrees, by Euclidean remainder, so equal directions compare equal.

use vstd::prelude::*;

verus! {

/// One full turn in microradians: `tau * 10^6`, rounded down.
pub const TAU_MICRORADIANS: i64 = 6283185;

/// One full turn in microdegrees.
pub const FULL_TURN_MICRODEGREES: i64 = 360000000;

/// Extensions for normalizing angles.
pub trait AngleExtensions {
    /// Normalize an angle given in microradians.
    fn normalize_radians(self) -> Self;

    /// Normalize an angle given in microdegrees.
    fn normalize_degrees(self) -> Self;
}

impl AngleExtensions for i64 {
    /// Normalize an angle given in microradians into `[0, tau)`.
    fn normalize_radians(self) -> (r: i64)
        ensures
            r == self as int % (TAU_MICRORADIANS as int),
            0 <= r < TAU_MICRORADIANS,
    {
        match self.checked_rem_euclid(TAU_MICRORADIANS) {
            Some(r) => r,
            None => {
                proof {
                    assert(false);
                }
                0
            },
        }
    }

    /// Normalize an angle given in microdegrees into `[0, 360)` degrees.
    fn normalize_degrees(self) -> (r: i64)
        ensures
            r == self as int % (FULL_TURN_MICRODEGREES as int),
            0 <= r < FULL_TURN_MICRODEGREES,
    {
        match self.checked_rem_euclid(FULL_TURN_MICRODEGREES) {
            Some(r) => r,
            None => {
                proof {
                    assert(false);
                }
                0
            },
        }
    }
}

} // verus!
