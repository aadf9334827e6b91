//! Surface materials.
use vstd::prelude::*;
use crate::scalar::Scalar;
use crate::vec3::Vec3;

verus! {

/// What a surface looks like. `reflectivity` is meant to lie between 0 and 1
/// and is brought into that range where it is used. A positive `emissivity`
/// makes a sphere glow; on other primitives it has no meaning.
#[derive(Clone, Copy, Debug, PartialEq, Eq, Structural)]
pub struct Material {
    pub color: Vec3,
    pub reflectivity: Scalar,
    pub emissivity: Scalar,
}

impl Material {
    pub fn new(color: Vec3, reflectivity: Scalar, emissivity: Scalar) -> (m: Material)
        ensures
            m == (Material { color, reflectivity, emissivity }),
    {
        Material { color, reflectivity, emissivity }
    }
}

} // verus!
