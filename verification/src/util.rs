//! Clamping and rotation matrices.
use vstd::prelude::*;
use crate::angle::Angle;
use crate::scalar::Scalar;
use crate::vec3::Vec3;

verus! {

/// `x` brought into the range from `min` to `max`. Where the range is empty
/// (`max < min`), an `x` below `min` gives `min` and any other gives `max`.
pub open spec fn spec_clamp(x: Scalar, min: Scalar, max: Scalar) -> Scalar {
    if x.raw < min.raw {
        min
    } else if x.raw > max.raw {
        max
    } else {
        x
    }
}

/// The three rows of the matrix that rotates by `angle` about the unit
/// vector `axis`.
pub open spec fn spec_angleAxis3x3(angle: Angle, axis: Vec3) -> Seq<Vec3> {
    let c = angle.cos;
    let s = angle.sin;
    let t = Scalar::spec_from_int(1).minus(c);
    let x = axis.x;
    let y = axis.y;
    let z = axis.z;
    seq![
        Vec3 {
            x: t.times(x).times(x).plus(c),
            y: t.times(x).times(y).minus(s.times(z)),
            z: t.times(x).times(z).plus(s.times(y)),
        },
        Vec3 {
            x: t.times(x).times(y).plus(s.times(z)),
            y: t.times(y).times(y).plus(c),
            z: t.times(y).times(z).minus(s.times(x)),
        },
        Vec3 {
            x: t.times(x).times(z).minus(s.times(y)),
            y: t.times(y).times(z).plus(s.times(x)),
            z: t.times(z).times(z).plus(c),
        },
    ]
}

/// `x` brought into the range from `min` to `max`.
pub fn clamp(x: Scalar, min: Scalar, max: Scalar) -> (r: Scalar)
    ensures
        r == spec_clamp(x, min, max),
{
    if x.raw < min.raw {
        return min;
    }
    if x.raw > max.raw {
        return max;
    }
    x
}

/// The three rows of the matrix that rotates by `angle` about `axis`, which
/// is expected to have length one.
pub fn angleAxis3x3(angle: Angle, axis: Vec3) -> (m: Vec<Vec3>)
    ensures
        m@ == spec_angleAxis3x3(angle, axis),
{
    let c = angle.cos();
    let s = angle.sin();
    let t = Scalar::from_int(1) - c;
    let x = axis.x;
    let y = axis.y;
    let z = axis.z;
    let top = Vec3::new(t * x * x + c, t * x * y - s * z, t * x * z + s * y);
    let middle = Vec3::new(t * x * y + s * z, t * y * y + c, t * y * z - s * x);
    let bottom = Vec3::new(t * x * z - s * y, t * y * z + s * x, t * z * z + c);
    let m = vec![top, middle, bottom];
    assert(m@ =~= spec_angleAxis3x3(angle, axis));
    m
}

} // verus!
