//! Lights.
use vstd::prelude::*;
use crate::scalar::Scalar;
use crate::vec3::Vec3;

verus! {

/// A light at a point. `radius` sets how soft the shadows are that it casts:
/// with radius zero they are hard.
#[derive(Clone, Copy, Debug, PartialEq, Eq, Structural)]
pub struct Light {
    pub position: Vec3,
    pub color: Vec3,
    pub intensity: Scalar,
    pub radius: Scalar,
}

impl Light {
    pub fn new(position: Vec3, color: Vec3, intensity: Scalar, radius: Scalar) -> (l: Light)
        ensures
            l == (Light { position, color, intensity, radius }),
    {
        Light { position, color, intensity, radius }
    }
}

} // verus!
