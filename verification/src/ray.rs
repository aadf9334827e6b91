//! Rays: a point of origin and a direction of travel.
use vstd::prelude::*;
use crate::scalar::Scalar;
use crate::vec3::Vec3;

verus! {

/// A ray from `A` along `B`. The direction need not have length one.
#[derive(Clone, Copy, Debug, PartialEq, Eq, Structural)]
pub struct Ray {
    pub A: Vec3,
    pub B: Vec3,
}

impl Ray {
    /// The point at parameter `t`: the origin plus `t` times the direction.
    pub open spec fn spec_at(self, t: Scalar) -> Vec3 {
        self.A.plus(self.B.scaled(t))
    }

    /// The ray that leaves `intersection`, moved off the surface by `bias`
    /// along `normal`, in the direction in which `incident` is mirrored by
    /// the surface: `incident - normal * 2 * dot(incident, normal)`, brought
    /// to length one.
    pub open spec fn spec_reflect(normal: Vec3, incident: Vec3, intersection: Vec3, bias: Scalar) -> Ray {
        Ray {
            A: intersection.plus(normal.scaled(bias)),
            B: Vec3::spec_unit_vec(
                incident.minus(
                    normal.scaled(Scalar::spec_from_int(2)).scaled(Vec3::spec_dot(incident, normal)),
                ),
            ),
        }
    }

    pub fn ray(a: Vec3, b: Vec3) -> (r: Ray)
        ensures
            r == (Ray { A: a, B: b }),
    {
        Ray { A: a, B: b }
    }

    pub fn origin(self) -> (p: Vec3)
        ensures
            p == self.A,
    {
        self.A
    }

    pub fn direction(self) -> (d: Vec3)
        ensures
            d == self.B,
    {
        self.B
    }

    /// The point at parameter `t`.
    pub fn at(self, t: Scalar) -> (p: Vec3)
        ensures
            p == self.spec_at(t),
    {
        self.A + (self.B * t)
    }

    /// The mirror reflection of a ray that travels along `incident` and meets
    /// a surface with the given `normal` at `intersection`.
    pub fn reflect(normal: Vec3, incident: Vec3, intersection: Vec3, bias: Scalar) -> (r: Ray)
        ensures
            r == Ray::spec_reflect(normal, incident, intersection, bias),
    {
        Ray {
            A: intersection + (normal * bias),
            B: Vec3::unit_vec(incident - (normal * Scalar::from_int(2) * Vec3::dot(incident, normal))),
        }
    }
}

} // verus!
