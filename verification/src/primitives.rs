//! The three primitives and their intersection with a ray.
//!
//! A distance that is positive is a hit in front of the ray's origin. Any
//! other value means that the ray does not hit.
use vstd::prelude::*;
use core::ops::Neg;
use crate::material::Material;
use crate::ray::Ray;
use crate::scalar::Scalar;
use crate::scalar::UNIT;
use crate::vec3::Vec3;
use crate::vec3::Vec4;

verus! {

/// The raw value below which a denominator counts as zero: a hundred-millionth.
pub const ALMOST_ZERO: i64 = 10;

/// The distance that a plane or a sphere reports where the ray misses it.
pub open spec fn no_hit() -> Scalar {
    Scalar::spec_from_int(-1)
}

/// The one record that a triangle reports where the ray misses it.
pub open spec fn no_hit_record() -> Vec4 {
    Vec4 { x: Scalar { raw: 0 }, y: Scalar { raw: 0 }, z: Scalar { raw: 0 }, w: Scalar { raw: 0 } }
}

/// An unbounded flat surface through `p0`. It is seen only by rays that
/// travel along its `normal`, not against it.
#[derive(Clone, Copy, Debug, PartialEq, Eq, Structural)]
pub struct Plane {
    pub p0: Vec3,
    pub normal: Vec3,
    pub material: Material,
}

impl Plane {
    /// The distance along `ray` to the plane, or `no_hit()`: where the ray
    /// grazes the plane or travels against the normal, or where the plane
    /// lies at or behind the origin.
    #[verifier::opaque]
    pub open spec fn spec_hit(self, ray: Ray) -> Scalar {
        let denom = Vec3::spec_dot(self.normal, ray.B);
        let dist = Vec3::spec_dot(self.p0.minus(ray.A), self.normal).over(denom);
        if denom.raw > ALMOST_ZERO && dist.raw > 0 {
            dist
        } else {
            no_hit()
        }
    }

    pub fn new(p0: Vec3, normal: Vec3, material: Material) -> (p: Plane)
        ensures
            p == (Plane { p0, normal, material }),
    {
        Plane { p0, normal, material }
    }

    /// The distance along `ray` at which it meets the plane, or -1.
    pub fn hit(self, ray: &Ray) -> (t: Scalar)
        ensures
            t == self.spec_hit(*ray),
            t.raw > 0 || t == no_hit(),
    {
        proof {
            reveal(Plane::spec_hit);
        }
        let normal = self.normal;
        let denom = Vec3::dot(normal, ray.direction());
        if denom.raw > ALMOST_ZERO {
            let v = self.p0 - ray.origin();
            let dist = Vec3::dot(v, normal) / denom;
            if dist.raw > 0 {
                return dist;
            }
        }
        Scalar::from_int(-1)
    }

    /// The same as `hit`.
    pub fn t(self, ray: &Ray) -> (t: Scalar)
        ensures
            t == self.spec_hit(*ray),
    {
        self.hit(ray)
    }
}

/// A triangle with corners `v0`, `v1` and `v2`.
#[derive(Clone, Copy, Debug, PartialEq, Eq, Structural)]
pub struct Triangle {
    pub v0: Vec3,
    pub v1: Vec3,
    pub v2: Vec3,
    pub material: Material,
}

impl Triangle {
    /// The unit normal of the face, by the right-hand rule over `v0`, `v1`, `v2`.
    pub open spec fn face_normal(self) -> Vec3 {
        Vec3::spec_unit_vec(Vec3::spec_cross(self.v1.minus(self.v0), self.v2.minus(self.v0)))
    }

    /// What `hit` returns. A miss is the one record `no_hit_record()`. A hit
    /// is two records: `(u, v, 1, t)`, with the barycentric coordinates `u`
    /// and `v` and the distance `t`, and the face normal with a fourth
    /// component of zero.
    #[verifier::opaque]
    pub open spec fn spec_hit(self, ray: Ray) -> Seq<Vec4> {
        let v0v1 = self.v1.minus(self.v0);
        let v0v2 = self.v2.minus(self.v0);
        let pvec = Vec3::spec_cross(ray.B, v0v2);
        let det = Vec3::spec_dot(v0v1, pvec);
        let inv_det = Scalar::spec_from_int(1).over(det);
        let tvec = ray.A.minus(self.v0);
        let u = Vec3::spec_dot(tvec, pvec).times(inv_det);
        let qvec = Vec3::spec_cross(tvec, v0v1);
        let v = Vec3::spec_dot(ray.B, qvec).times(inv_det);
        let t = Vec3::spec_dot(v0v2, qvec).times(inv_det);
        if det.spec_abs().raw < ALMOST_ZERO {
            seq![no_hit_record()]
        } else if u.raw < 0 || u.raw > UNIT {
            seq![no_hit_record()]
        } else if v.raw < 0 || u.plus(v).raw > UNIT {
            seq![no_hit_record()]
        } else {
            seq![
                Vec4 { x: u, y: v, z: Scalar::spec_from_int(1), w: t },
                self.face_normal().spec_to_Vec4(Scalar { raw: 0 }),
            ]
        }
    }

    /// What `t` returns: the distance along `ray` to the triangle's plane
    /// where the ray passes through the triangle, and zero where it misses.
    #[verifier::opaque]
    pub open spec fn spec_t(self, ray: Ray) -> Scalar {
        let v0v1 = self.v1.minus(self.v0);
        let v0v2 = self.v2.minus(self.v0);
        let pvec = Vec3::spec_cross(ray.B, v0v2);
        let det = Vec3::spec_dot(v0v1, pvec);
        let tvec = ray.A.minus(self.v0);
        let u = Vec3::spec_dot(tvec, pvec).over(det);
        let qvec = Vec3::spec_cross(tvec, v0v1);
        let v = Vec3::spec_dot(ray.B, qvec).over(det);
        if det.spec_abs().raw < ALMOST_ZERO {
            Scalar { raw: 0 }
        } else if u.raw < 0 || u.raw > UNIT {
            Scalar { raw: 0 }
        } else if v.raw < 0 || u.plus(v).raw > UNIT {
            Scalar { raw: 0 }
        } else {
            Vec3::spec_dot(v0v2, qvec).over(det)
        }
    }

    pub fn new(v0: Vec3, v1: Vec3, v2: Vec3, material: Material) -> (t: Triangle)
        ensures
            t == (Triangle { v0, v1, v2, material }),
    {
        Triangle { v0, v1, v2, material }
    }

    /// Where `ray` passes through the triangle, with the barycentric
    /// coordinates of that point and the face normal.
    pub fn hit(self, ray: &Ray) -> (h: Vec<Vec4>)
        ensures
            h@ == self.spec_hit(*ray),
            h@.len() == 1 || h@.len() == 2,
            h@.len() == 1 ==> h@[0] == no_hit_record(),
            h@.len() == 2 ==> h@[0].z.raw == UNIT && 0 <= h@[0].x.raw && 0 <= h@[0].y.raw
                && h@[0].x.raw + h@[0].y.raw <= UNIT,
    {
        proof {
            reveal(Triangle::spec_hit);
        }
        let zero = Scalar::zero();
        let orig = ray.origin();
        let dir = ray.direction();
        let v0v1 = self.v1 - self.v0;
        let v0v2 = self.v2 - self.v0;
        let pvec = Vec3::cross(dir, v0v2);
        let det = Vec3::dot(v0v1, pvec);

        if det.abs().raw < ALMOST_ZERO {
            let h = vec![Vec4::new(zero, zero, zero, zero)];
            assert(h@ =~= self.spec_hit(*ray));
            return h;
        }
        let inv_det = Scalar::from_int(1) / det;

        let tvec = orig - self.v0;
        let u = Vec3::dot(tvec, pvec) * inv_det;
        if u.raw < 0 || u.raw > UNIT {
            let h = vec![Vec4::new(zero, zero, zero, zero)];
            assert(h@ =~= self.spec_hit(*ray));
            return h;
        }
        let qvec = Vec3::cross(tvec, v0v1);
        let v = Vec3::dot(dir, qvec) * inv_det;
        if v.raw < 0 || (u + v).raw > UNIT {
            let h = vec![Vec4::new(zero, zero, zero, zero)];
            assert(h@ =~= self.spec_hit(*ray));
            return h;
        }
        let t = Vec3::dot(v0v2, qvec) * inv_det;

        let p_norm = Vec3::unit_vec(Vec3::cross(self.v1 - self.v0, self.v2 - self.v0));

        let h = vec![Vec4::new(u, v, Scalar::from_int(1), t), Vec4::new(p_norm.x, p_norm.y, p_norm.z, zero)];
        assert(h@ =~= self.spec_hit(*ray));
        h
    }

    /// The distance along `ray` at which it passes through the triangle, and
    /// zero where it does not. A distance that is not positive lies behind
    /// the origin.
    pub fn t(self, ray: &Ray) -> (t: Scalar)
        ensures
            t == self.spec_t(*ray),
    {
        proof {
            reveal(Triangle::spec_t);
        }
        let v0v1 = self.v1 - self.v0;
        let v0v2 = self.v2 - self.v0;
        let pvec = Vec3::cross(ray.direction(), v0v2);
        let det = Vec3::dot(v0v1, pvec);
        if det.abs().raw < ALMOST_ZERO {
            return Scalar::zero();
        }
        let tvec = ray.origin() - self.v0;
        let u = Vec3::dot(tvec, pvec) / det;
        if u.raw < 0 || u.raw > UNIT {
            return Scalar::zero();
        }
        let qvec = Vec3::cross(tvec, v0v1);
        let v = Vec3::dot(ray.direction(), qvec) / det;
        if v.raw < 0 || (u + v).raw > UNIT {
            return Scalar::zero();
        }
        Vec3::dot(v0v2, qvec) / det
    }
}

/// Whatever the triangle and the ray: a hit carries barycentric coordinates
/// that are not negative and sum to at most one, and anything else is
/// reported as a miss.
pub proof fn lemma_hit_lies_inside(triangle: Triangle, ray: Ray)
    ensures
        ({
            let h = triangle.spec_hit(ray);
            ||| h =~= seq![no_hit_record()]
            ||| h.len() == 2 && h[0].z.raw == UNIT && 0 <= h[0].x.raw && 0 <= h[0].y.raw && h[0].x.raw
                + h[0].y.raw <= UNIT
        }),
{
    reveal(Triangle::spec_hit);
}

/// A sphere.
#[derive(Clone, Copy, Debug, PartialEq, Eq, Structural)]
pub struct Sphere {
    pub center: Vec3,
    pub radius: Scalar,
    pub material: Material,
}

impl Sphere {
    /// The discriminant of the quadratic `a*t*t + b*t + c = 0` whose roots
    /// are the distances at which the ray's line meets the sphere.
    pub open spec fn discriminant(self, ray: Ray) -> Scalar {
        let oc = ray.A.minus(self.center);
        let a = Vec3::spec_dot(ray.B, ray.B);
        let b = Scalar::spec_from_int(2).times(Vec3::spec_dot(oc, ray.B));
        let c = Vec3::spec_dot(oc, oc).minus(self.radius.times(self.radius));
        b.times(b).minus(Scalar::spec_from_int(4).times(a).times(c))
    }

    /// The nearer of the two distances at which the ray's line meets the
    /// sphere, `(-b - sqrt(disc)) / (2a)`, or `no_hit()` where the line
    /// misses it. The farther one is never reported, so from inside the
    /// sphere the result lies behind the origin.
    #[verifier::opaque]
    pub open spec fn spec_hit(self, ray: Ray) -> Scalar {
        let oc = ray.A.minus(self.center);
        let a = Vec3::spec_dot(ray.B, ray.B);
        let b = Scalar::spec_from_int(2).times(Vec3::spec_dot(oc, ray.B));
        let disc = self.discriminant(ray);
        if disc.raw < 0 {
            no_hit()
        } else {
            b.negated().minus(disc.spec_sqrt()).over(Scalar::spec_from_int(2).times(a))
        }
    }

    pub fn new(center: Vec3, radius: Scalar, material: Material) -> (s: Sphere)
        ensures
            s == (Sphere { center, radius, material }),
    {
        Sphere { center, radius, material }
    }

    /// The distance along `ray` to the near side of the sphere, or -1 where
    /// the ray's line misses it.
    pub fn hit(self, ray: &Ray) -> (t: Scalar)
        ensures
            t == self.spec_hit(*ray),
    {
        proof {
            reveal(Sphere::spec_hit);
        }
        let oc: Vec3 = ray.origin() - self.center;
        let a = Vec3::dot(ray.direction(), ray.direction());
        let b = Scalar::from_int(2) * Vec3::dot(oc, ray.direction());
        let c = Vec3::dot(oc, oc) - self.radius * self.radius;
        let disc = b * b - Scalar::from_int(4) * a * c;

        if disc.raw < 0 {
            Scalar::from_int(-1)
        } else {
            (b.neg() - disc.sqrt()) / (Scalar::from_int(2) * a)
        }
    }

    /// The same as `hit`.
    pub fn t(self, ray: &Ray) -> (t: Scalar)
        ensures
            t == self.spec_hit(*ray),
    {
        self.hit(ray)
    }
}

} // verus!
