//! The numeric capabilities that the shading core takes from its caller.
//!
//! Coherent noise and the sine are not computed here. The core asks an
//! `Oracle` for them and relies on one thing only: each answer is a function
//! of the oracle and of the coordinates asked for. Nothing is assumed of the
//! range of an answer.

use vstd::prelude::*;

verus! {

/// A source of noise samples and of sine values, all in fixed-point units.
pub trait Oracle {
    /// The noise sample that belongs to a point of the plane.
    spec fn noise_2d(&self, x: i64, y: i64) -> i32;

    /// The noise sample that belongs to a point of space.
    spec fn noise_3d(&self, x: i64, y: i64, z: i64) -> i32;

    /// The sine that belongs to an angle in radians.
    spec fn sine(&self, angle: i64) -> i32;

    /// Samples the noise at a point of the plane.
    fn get_noise_2d(&self, x: i64, y: i64) -> (sample: i32)
        ensures
            sample == self.noise_2d(x, y),
    ;

    /// Samples the noise at a point of space.
    fn get_noise_3d(&self, x: i64, y: i64, z: i64) -> (sample: i32)
        ensures
            sample == self.noise_3d(x, y, z),
    ;

    /// The sine of an angle in radians.
    fn sin(&self, angle: i64) -> (value: i32)
        ensures
            value == self.sine(angle),
    ;
}

/// An oracle that answers the same everywhere: one noise level at every
/// point and one sine value for every angle.
#[derive(Clone, Copy, Debug, PartialEq, Eq)]
pub struct Steady {
    pub level: i32,
    pub wave: i32,
}

impl Oracle for Steady {
    open spec fn noise_2d(&self, x: i64, y: i64) -> i32 {
        self.level
    }

    open spec fn noise_3d(&self, x: i64, y: i64, z: i64) -> i32 {
        self.level
    }

    open spec fn sine(&self, angle: i64) -> i32 {
        self.wave
    }

    fn get_noise_2d(&self, x: i64, y: i64) -> (sample: i32) {
        self.level
    }

    fn get_noise_3d(&self, x: i64, y: i64, z: i64) -> (sample: i32) {
        self.level
    }

    fn sin(&self, angle: i64) -> (value: i32) {
        self.wave
    }
}

} // verus!
