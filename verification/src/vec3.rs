//! Vectors of three and of four scalars.
use vstd::prelude::*;
use rand::Rng;
use crate::scalar::isqrt;
use crate::scalar::root;
use crate::scalar::Scalar;
use crate::scalar::HUNDREDTH;

verus! {

/// A vector of four scalars: a colour or a record with a flag in one slot.
#[derive(Clone, Copy, Debug, PartialEq, Eq, Structural)]
pub struct Vec4 {
    pub x: Scalar,
    pub y: Scalar,
    pub z: Scalar,
    pub w: Scalar,
}

impl Vec4 {
    /// The component-wise sum.
    pub open spec fn plus(self, rhs: Vec4) -> Vec4 {
        Vec4 {
            x: self.x.plus(rhs.x),
            y: self.y.plus(rhs.y),
            z: self.z.plus(rhs.z),
            w: self.w.plus(rhs.w),
        }
    }

    /// Every component divided by `rhs`.
    pub open spec fn divided(self, rhs: Scalar) -> Vec4 {
        Vec4 {
            x: self.x.over(rhs),
            y: self.y.over(rhs),
            z: self.z.over(rhs),
            w: self.w.over(rhs),
        }
    }

    /// The first three components.
    pub open spec fn spec_to_Vec3(self) -> Vec3 {
        Vec3 { x: self.x, y: self.y, z: self.z }
    }

    pub fn new(x: Scalar, y: Scalar, z: Scalar, w: Scalar) -> (v: Vec4)
        ensures
            v == (Vec4 { x, y, z, w }),
    {
        Vec4 { x, y, z, w }
    }

    /// The first three components.
    pub fn to_Vec3(self) -> (v: Vec3)
        ensures
            v == self.spec_to_Vec3(),
    {
        Vec3::new(self.x, self.y, self.z)
    }
}

impl core::ops::Add for Vec4 {
    type Output = Vec4;

    fn add(self, other: Vec4) -> (r: Vec4)
        ensures
            r == self.plus(other),
    {
        Vec4 {
            x: self.x + other.x,
            y: self.y + other.y,
            z: self.z + other.z,
            w: self.w + other.w,
        }
    }
}

impl vstd::std_specs::ops::AddSpecImpl for Vec4 {
    open spec fn obeys_add_spec() -> bool {
        true
    }

    open spec fn add_req(self, other: Vec4) -> bool {
        true
    }

    open spec fn add_spec(self, other: Vec4) -> Vec4 {
        self.plus(other)
    }
}

impl core::ops::Div<Scalar> for Vec4 {
    type Output = Vec4;

    fn div(self, other: Scalar) -> (r: Vec4)
        ensures
            r == self.divided(other),
    {
        Vec4 { x: self.x / other, y: self.y / other, z: self.z / other, w: self.w / other }
    }
}

impl vstd::std_specs::ops::DivSpecImpl<Scalar> for Vec4 {
    open spec fn obeys_div_spec() -> bool {
        true
    }

    open spec fn div_req(self, other: Scalar) -> bool {
        true
    }

    open spec fn div_spec(self, other: Scalar) -> Vec4 {
        self.divided(other)
    }
}

/// A vector of three scalars: a point, a direction or a colour.
#[derive(Clone, Copy, Debug, PartialEq, Eq, Structural)]
pub struct Vec3 {
    pub x: Scalar,
    pub y: Scalar,
    pub z: Scalar,
}

/// The scalar that is `k` hundredths, negated where `t` is zero.
pub open spec fn signed_hundredths(t: int, k: int) -> Scalar {
    if t == 0 {
        Scalar::of(-(k * HUNDREDTH))
    } else {
        Scalar::of(k * HUNDREDTH)
    }
}

/// `s` is a whole number of hundredths between `low` and `high`, of either sign.
pub open spec fn is_hundredths_between(s: Scalar, low: int, high: int) -> bool {
    exists|t: int, k: int| 0 <= t <= 1 && low <= k <= high && s == #[trigger] signed_hundredths(t, k)
}

impl Vec3 {
    /// The component-wise sum.
    pub open spec fn plus(self, rhs: Vec3) -> Vec3 {
        Vec3 { x: self.x.plus(rhs.x), y: self.y.plus(rhs.y), z: self.z.plus(rhs.z) }
    }

    /// The component-wise difference.
    pub open spec fn minus(self, rhs: Vec3) -> Vec3 {
        Vec3 { x: self.x.minus(rhs.x), y: self.y.minus(rhs.y), z: self.z.minus(rhs.z) }
    }

    /// The component-wise product.
    pub open spec fn times(self, rhs: Vec3) -> Vec3 {
        Vec3 { x: self.x.times(rhs.x), y: self.y.times(rhs.y), z: self.z.times(rhs.z) }
    }

    /// Every component multiplied by `rhs`.
    pub open spec fn scaled(self, rhs: Scalar) -> Vec3 {
        Vec3 { x: self.x.times(rhs), y: self.y.times(rhs), z: self.z.times(rhs) }
    }

    /// Every component divided by `rhs`.
    pub open spec fn divided(self, rhs: Scalar) -> Vec3 {
        Vec3 { x: self.x.over(rhs), y: self.y.over(rhs), z: self.z.over(rhs) }
    }

    /// The Euclidean length, rounded down to a billionth.
    #[verifier::opaque]
    pub open spec fn spec_length(self) -> Scalar {
        Scalar::of(root(self.x.raw * self.x.raw + self.y.raw * self.y.raw + self.z.raw * self.z.raw))
    }

    /// The sum of the squares of the components.
    pub open spec fn spec_length_squared(self) -> Scalar {
        self.x.times(self.x).plus(self.y.times(self.y)).plus(self.z.times(self.z))
    }

    /// The vector divided by its length; the zero vector stays zero.
    pub open spec fn spec_unit_vec(v: Vec3) -> Vec3 {
        v.divided(v.spec_length())
    }

    /// The dot product.
    pub open spec fn spec_dot(u: Vec3, v: Vec3) -> Scalar {
        u.x.times(v.x).plus(u.y.times(v.y)).plus(u.z.times(v.z))
    }

    /// The cross product.
    pub open spec fn spec_cross(u: Vec3, v: Vec3) -> Vec3 {
        Vec3 {
            x: u.y.times(v.z).minus(u.z.times(v.y)),
            y: u.z.times(v.x).minus(u.x.times(v.z)),
            z: u.x.times(v.y).minus(u.y.times(v.x)),
        }
    }

    /// The vector with `other` as a fourth component.
    pub open spec fn spec_to_Vec4(self, other: Scalar) -> Vec4 {
        Vec4 { x: self.x, y: self.y, z: self.z, w: other }
    }

    /// The vector whose components are `kx`, `ky` and `kz` hundredths, each
    /// negated where its `t` is zero.
    pub open spec fn spec_from_hundredths(tx: int, ty: int, tz: int, kx: int, ky: int, kz: int) -> Vec3 {
        Vec3 { x: signed_hundredths(tx, kx), y: signed_hundredths(ty, ky), z: signed_hundredths(tz, kz) }
    }

    pub fn new(x: Scalar, y: Scalar, z: Scalar) -> (v: Vec3)
        ensures
            v == (Vec3 { x, y, z }),
    {
        Vec3 { x, y, z }
    }

    /// The Euclidean length, rounded down to a billionth and clipped.
    pub fn length(self) -> (r: Scalar)
        ensures
            r == self.spec_length(),
    {
        proof {
            reveal(Vec3::spec_length);
        }
        let s: u128 = square_of(self.x.raw) + square_of(self.y.raw) + square_of(self.z.raw);
        let l: u128 = isqrt(s);
        if l > i64::MAX as u128 {
            Scalar { raw: i64::MAX }
        } else {
            Scalar { raw: l as i64 }
        }
    }

    /// The sum of the squares of the components.
    pub fn length_squared(self) -> (r: Scalar)
        ensures
            r == self.spec_length_squared(),
    {
        (self.x * self.x) + (self.y * self.y) + (self.z * self.z)
    }

    /// The vector divided by its length. The zero vector has no direction and
    /// is returned as it is.
    pub fn unit_vec(v: Vec3) -> (r: Vec3)
        ensures
            r == Vec3::spec_unit_vec(v),
    {
        v / v.length()
    }

    /// The dot product.
    pub fn dot(u: Vec3, v: Vec3) -> (r: Scalar)
        ensures
            r == Vec3::spec_dot(u, v),
    {
        u.x * v.x + u.y * v.y + u.z * v.z
    }

    /// The cross product.
    pub fn cross(u: Vec3, v: Vec3) -> (r: Vec3)
        ensures
            r == Vec3::spec_cross(u, v),
    {
        Vec3 {
            x: u.y * v.z - u.z * v.y,
            y: u.z * v.x - u.x * v.z,
            z: u.x * v.y - u.y * v.x,
        }
    }

    /// The vector with `other` as a fourth component.
    pub fn to_Vec4(self, other: Scalar) -> (r: Vec4)
        ensures
            r == self.spec_to_Vec4(other),
    {
        Vec4::new(self.x, self.y, self.z, other)
    }

    /// The vector whose components are `kx`, `ky` and `kz` hundredths, each
    /// negated where its `t` is zero.
    pub fn from_hundredths(tx: usize, ty: usize, tz: usize, kx: usize, ky: usize, kz: usize) -> (r: Vec3)
        ensures
            r == Vec3::spec_from_hundredths(tx as int, ty as int, tz as int, kx as int, ky as int, kz as int),
    {
        Vec3 { x: hundredths(tx, kx), y: hundredths(ty, ky), z: hundredths(tz, kz) }
    }

    /// A random vector. The magnitude of each component is a whole number of
    /// hundredths drawn between `min` and `max1 * 100`, and its sign is drawn
    /// apart from it.
    pub fn random(min: usize, max1: usize) -> (r: Vec3)
        requires
            max1 * 100 <= usize::MAX,
            min <= max1 * 100,
        ensures
            is_hundredths_between(r.x, min as int, max1 * 100),
            is_hundredths_between(r.y, min as int, max1 * 100),
            is_hundredths_between(r.z, min as int, max1 * 100),
    {
        let max: usize = max1 * 100;
        let tx: usize = uniform_between(0, 1);
        let ty: usize = uniform_between(0, 1);
        let tz: usize = uniform_between(0, 1);
        let kx: usize = uniform_between(min, max);
        let ky: usize = uniform_between(min, max);
        let kz: usize = uniform_between(min, max);
        proof {
            assert(signed_hundredths(tx as int, kx as int) == signed_hundredths(tx as int, kx as int));
            assert(signed_hundredths(ty as int, ky as int) == signed_hundredths(ty as int, ky as int));
            assert(signed_hundredths(tz as int, kz as int) == signed_hundredths(tz as int, kz as int));
        }
        Vec3::from_hundredths(tx, ty, tz, kx, ky, kz)
    }
}

/// The square of `v`.
fn square_of(v: i64) -> (s: u128)
    ensures
        s == v * v,
        s <= 0x4000_0000_0000_0000_0000_0000_0000_0000,
{
    let m: u128 = if v < 0 {
        (-(v as i128)) as u128
    } else {
        v as u128
    };
    assert(m * m == v * v && m * m <= 0x4000_0000_0000_0000_0000_0000_0000_0000) by (nonlinear_arith)
        requires
            m == v || m == -v,
            0 <= m <= 0x8000_0000_0000_0000,
    ;
    m * m
}

/// The scalar that is `k` hundredths, negated where `t` is zero.
fn hundredths(t: usize, k: usize) -> (s: Scalar)
    ensures
        s == signed_hundredths(t as int, k as int),
{
    let wide: i128 = (k as i128) * (HUNDREDTH as i128);
    let signed: i128 = if t == 0 {
        -wide
    } else {
        wide
    };
    if signed < i64::MIN as i128 {
        Scalar { raw: i64::MIN }
    } else if signed > i64::MAX as i128 {
        Scalar { raw: i64::MAX }
    } else {
        Scalar { raw: signed as i64 }
    }
}

/// A number drawn from the thread's generator by `rand::Rng::gen_range` over
/// the inclusive range from `low` to `high`. Nothing is claimed of the draw
/// but that it lies in that range; the range must not be empty.
#[verifier::external_body]
fn uniform_between(low: usize, high: usize) -> (r: usize)
    requires
        low <= high,
    ensures
        low <= r <= high,
{
    rand::thread_rng().gen_range(low..=high)
}

impl Default for Vec3 {
    fn default() -> (r: Vec3)
        ensures
            r.x.raw == 0,
            r.y.raw == 0,
            r.z.raw == 0,
    {
        Vec3 { x: Scalar { raw: 0 }, y: Scalar { raw: 0 }, z: Scalar { raw: 0 } }
    }
}

impl core::ops::Add for Vec3 {
    type Output = Vec3;

    fn add(self, other: Vec3) -> (r: Vec3)
        ensures
            r == self.plus(other),
    {
        Vec3 { x: self.x + other.x, y: self.y + other.y, z: self.z + other.z }
    }
}

impl vstd::std_specs::ops::AddSpecImpl for Vec3 {
    open spec fn obeys_add_spec() -> bool {
        true
    }

    open spec fn add_req(self, other: Vec3) -> bool {
        true
    }

    open spec fn add_spec(self, other: Vec3) -> Vec3 {
        self.plus(other)
    }
}

impl core::ops::Sub for Vec3 {
    type Output = Vec3;

    fn sub(self, other: Vec3) -> (r: Vec3)
        ensures
            r == self.minus(other),
    {
        Vec3 { x: self.x - other.x, y: self.y - other.y, z: self.z - other.z }
    }
}

impl vstd::std_specs::ops::SubSpecImpl for Vec3 {
    open spec fn obeys_sub_spec() -> bool {
        true
    }

    open spec fn sub_req(self, other: Vec3) -> bool {
        true
    }

    open spec fn sub_spec(self, other: Vec3) -> Vec3 {
        self.minus(other)
    }
}

impl core::ops::Mul for Vec3 {
    type Output = Vec3;

    fn mul(self, other: Vec3) -> (r: Vec3)
        ensures
            r == self.times(other),
    {
        Vec3 { x: self.x * other.x, y: self.y * other.y, z: self.z * other.z }
    }
}

impl vstd::std_specs::ops::MulSpecImpl for Vec3 {
    open spec fn obeys_mul_spec() -> bool {
        true
    }

    open spec fn mul_req(self, other: Vec3) -> bool {
        true
    }

    open spec fn mul_spec(self, other: Vec3) -> Vec3 {
        self.times(other)
    }
}

impl core::ops::Mul<Scalar> for Vec3 {
    type Output = Vec3;

    fn mul(self, other: Scalar) -> (r: Vec3)
        ensures
            r == self.scaled(other),
    {
        Vec3 { x: self.x * other, y: self.y * other, z: self.z * other }
    }
}

impl vstd::std_specs::ops::MulSpecImpl<Scalar> for Vec3 {
    open spec fn obeys_mul_spec() -> bool {
        true
    }

    open spec fn mul_req(self, other: Scalar) -> bool {
        true
    }

    open spec fn mul_spec(self, other: Scalar) -> Vec3 {
        self.scaled(other)
    }
}

impl core::ops::Div<Scalar> for Vec3 {
    type Output = Vec3;

    fn div(self, other: Scalar) -> (r: Vec3)
        ensures
            r == self.divided(other),
    {
        Vec3 { x: self.x / other, y: self.y / other, z: self.z / other }
    }
}

impl vstd::std_specs::ops::DivSpecImpl<Scalar> for Vec3 {
    open spec fn obeys_div_spec() -> bool {
        true
    }

    open spec fn div_req(self, other: Scalar) -> bool {
        true
    }

    open spec fn div_spec(self, other: Scalar) -> Vec3 {
        self.divided(other)
    }
}

} // verus!
