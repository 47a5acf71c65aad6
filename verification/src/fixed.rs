//! Fixed-point scale shared by the whole crate.
//!
//! A scalar quantity (a coordinate, a quaternion component, an angle in
//! radians, a time in seconds) is stored as an `i64` count of units of
//! `1 / FX_ONE`. The scale is divisible by 30, so the per-tick rotation
//! increment of `2.0 * (1/60)` radians is an exact number of units, and
//! fine enough that a unit quaternion is represented to within about a
//! millionth per component.

use vstd::prelude::*;

verus! {

/// Number of fixed-point units in 1.0.
pub const FX_ONE: i64 = 600_000;

/// Number of units in 1.0 at the cubed scale used for matrix entries:
/// `FX_ONE * FX_ONE * FX_ONE`.
pub const FX_ONE_CUBED: i64 = 216_000_000_000_000_000;

/// Largest magnitude, in units, of a quaternion component (1.5 in real
/// terms — comfortably past unit length); keeps rotation-matrix products
/// inside `i64`.
pub const FX_QUAT_MAX: i64 = 900_000;

/// Largest magnitude, in units, of a scale component (4.0 in real terms);
/// keeps the scaled rotation entries inside `i64`.
pub const FX_SCALE_MAX: i64 = 2_400_000;

/// Largest magnitude, in units, of a position component (16.0 in real
/// terms); keeps the translation entries inside `i64`.
pub const FX_POSITION_MAX: i64 = 9_600_000;

} // verus!
