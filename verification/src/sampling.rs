//! Shadow rays: a direction drawn inside a cone about the way to a light.
use vstd::prelude::*;
use crate::angle::Angle;
use crate::light::Light;
use crate::ray::Ray;
use crate::scalar::lemma_one_squared;
use crate::scalar::lemma_sqrt_zero;
use crate::scalar::lemma_times_zero;
use crate::scalar::Scalar;
use crate::util::angleAxis3x3;
use crate::util::spec_angleAxis3x3;
use crate::vec3::Vec3;

verus! {

/// The two numbers, each between 0 and 1, that pick one direction inside a
/// cone: how far from the rim toward the axis, and how far round.
#[derive(Clone, Copy, Debug, PartialEq, Eq, Structural)]
pub struct ConeDraw {
    pub height: Scalar,
    pub turn: Scalar,
}

/// The `i`-th of `draws`, and the draw of two zeros where there is none.
pub open spec fn draw_at(draws: Seq<ConeDraw>, i: int) -> ConeDraw {
    if 0 <= i < draws.len() {
        draws[i]
    } else {
        ConeDraw { height: Scalar { raw: 0 }, turn: Scalar { raw: 0 } }
    }
}

/// What is left of `draws` after the first `n`.
pub open spec fn draws_after(draws: Seq<ConeDraw>, n: int) -> Seq<ConeDraw> {
    if 0 <= n <= draws.len() {
        draws.skip(n)
    } else {
        Seq::empty()
    }
}

/// The direction that `draw` picks inside the cone about `dir` whose angle
/// has the cosine `cone.cos`. On the cap about the third axis the draw's
/// height gives `z = height * (1 - cos) + cos` and its turn the angle round
/// the axis; the rotation that takes the third axis to `dir` then carries
/// that point over.
#[verifier::opaque]
pub open spec fn spec_cone_sample(dir: Vec3, cone: Angle, draw: ConeDraw) -> Vec3 {
    let one = Scalar::spec_from_int(1);
    let z = draw.height.times(one.minus(cone.cos)).plus(cone.cos);
    let phi = Angle::spec_of_turn(draw.turn);
    let ring = one.minus(z.times(z)).spec_sqrt();
    let cap = Vec3 { x: ring.times(phi.cos), y: ring.times(phi.sin), z };
    let north = Vec3 { x: Scalar { raw: 0 }, y: Scalar { raw: 0 }, z: one };
    let axis = Vec3::spec_unit_vec(Vec3::spec_cross(north, Vec3::spec_unit_vec(dir)));
    let angle = Angle::spec_acos(Vec3::spec_dot(Vec3::spec_unit_vec(dir), north));
    let r = spec_angleAxis3x3(angle, axis);
    Vec3 { x: Vec3::spec_dot(r[0], cap), y: Vec3::spec_dot(r[1], cap), z: Vec3::spec_dot(r[2], cap) }
}

/// A vector at right angles to `dir`: its cross product with the upward
/// axis, and where that is the zero vector, the same with a first component
/// of one.
pub open spec fn spec_perpendicular(dir: Vec3) -> Vec3 {
    let up = Vec3 { x: Scalar { raw: 0 }, y: Scalar::spec_from_int(1), z: Scalar { raw: 0 } };
    let p = Vec3::spec_cross(dir, up);
    if p.x.raw == 0 && p.y.raw == 0 && p.z.raw == 0 {
        Vec3 { x: Scalar::spec_from_int(1), y: p.y, z: p.z }
    } else {
        p
    }
}

/// The angle of the cone in which a shadow ray toward `light` is drawn, as
/// seen from `point`: twice the angle between the way to the light,
/// `to_light`, and the way to a point beside the light at the distance of
/// its radius. A light of radius zero has the cone of angle zero.
#[verifier::opaque]
pub open spec fn spec_cone_angle(light: Light, to_light: Vec3, point: Vec3) -> Angle {
    if light.radius.raw == 0 {
        Angle { cos: Scalar::spec_from_int(1), sin: Scalar { raw: 0 } }
    } else {
        let beside = light.position.plus(spec_perpendicular(to_light).scaled(light.radius));
        let to_light_edge = Vec3::spec_unit_vec(beside.minus(point));
        Angle::spec_acos(Vec3::spec_dot(to_light, to_light_edge)).spec_double()
    }
}

/// The shadow ray toward `light`: it leaves `point`, lifted off the surface
/// by a hundred-thousandth along `normal`, in the direction that `draw`
/// picks inside the light's cone.
pub open spec fn spec_shadow_ray(light: Light, to_light: Vec3, point: Vec3, normal: Vec3, draw: ConeDraw) -> Ray {
    Ray {
        A: point.plus(normal.scaled(Scalar::spec_ratio(1, 100_000))),
        B: spec_cone_sample(to_light, spec_cone_angle(light, to_light, point), draw),
    }
}

/// In a cone of angle zero every draw picks the same direction.
pub proof fn lemma_narrow_cone_ignores_draw(dir: Vec3, first: ConeDraw, second: ConeDraw)
    ensures
        ({
            let cone = Angle { cos: Scalar::spec_from_int(1), sin: Scalar { raw: 0 } };
            spec_cone_sample(dir, cone, first) == spec_cone_sample(dir, cone, second)
        }),
{
    reveal(spec_cone_sample);
    let one = Scalar::spec_from_int(1);
    let zero = Scalar { raw: 0 };
    assert(one.minus(one) == zero);
    lemma_times_zero(first.height);
    lemma_times_zero(second.height);
    assert(first.height.times(zero) == zero);
    assert(second.height.times(zero) == zero);
    let z = zero.plus(one);
    assert(z == one);
    lemma_one_squared();
    assert(one.times(one) == one);
    lemma_sqrt_zero();
    let ring = one.minus(z.times(z)).spec_sqrt();
    assert(ring == zero);
    lemma_times_zero(Angle::spec_of_turn(first.turn).cos);
    lemma_times_zero(Angle::spec_of_turn(first.turn).sin);
    lemma_times_zero(Angle::spec_of_turn(second.turn).cos);
    lemma_times_zero(Angle::spec_of_turn(second.turn).sin);
    assert(zero.times(Angle::spec_of_turn(first.turn).cos) == zero);
    assert(zero.times(Angle::spec_of_turn(first.turn).sin) == zero);
    assert(zero.times(Angle::spec_of_turn(second.turn).cos) == zero);
    assert(zero.times(Angle::spec_of_turn(second.turn).sin) == zero);
}

/// The shadow ray toward a light of radius zero is the same whatever is drawn.
pub proof fn lemma_point_light_ignores_draw(
    light: Light,
    to_light: Vec3,
    point: Vec3,
    normal: Vec3,
    first: ConeDraw,
    second: ConeDraw,
)
    requires
        light.radius.raw == 0,
    ensures
        spec_shadow_ray(light, to_light, point, normal, first) == spec_shadow_ray(
            light,
            to_light,
            point,
            normal,
            second,
        ),
{
    reveal(spec_cone_angle);
    lemma_narrow_cone_ignores_draw(to_light, first, second);
}

/// The direction that `draw` picks inside the cone of angle `cone` about `dir`.
pub fn cone_sample(dir: Vec3, cone: Angle, draw: ConeDraw) -> (sample: Vec3)
    ensures
        sample == spec_cone_sample(dir, cone, draw),
{
    proof {
        reveal(spec_cone_sample);
    }
    let cos_angle = cone.cos();
    let one = Scalar::from_int(1);

    let z = draw.height * (one - cos_angle) + cos_angle;
    let phi = Angle::of_turn(draw.turn);

    let ring = (one - z * z).sqrt();
    let x = ring * phi.cos();
    let y = ring * phi.sin();
    let north = Vec3::new(Scalar::zero(), Scalar::zero(), one);

    let axis = Vec3::unit_vec(Vec3::cross(north, Vec3::unit_vec(dir)));
    let angle = Angle::acos(Vec3::dot(Vec3::unit_vec(dir), north));

    let r = angleAxis3x3(angle, axis);

    let cap = Vec3::new(x, y, z);
    Vec3::new(Vec3::dot(r[0], cap), Vec3::dot(r[1], cap), Vec3::dot(r[2], cap))
}

/// A vector at right angles to `dir`.
pub fn perpendicular(dir: Vec3) -> (p: Vec3)
    ensures
        p == spec_perpendicular(dir),
{
    let up = Vec3::new(Scalar::zero(), Scalar::from_int(1), Scalar::zero());
    let mut p = Vec3::cross(dir, up);
    if p.x.raw == 0 && p.y.raw == 0 && p.z.raw == 0 {
        p.x = Scalar::from_int(1);
    }
    p
}

/// The angle of the cone in which a shadow ray toward `light` is drawn.
pub fn cone_angle(light: &Light, to_light: Vec3, point: Vec3) -> (cone: Angle)
    ensures
        cone == spec_cone_angle(*light, to_light, point),
{
    proof {
        reveal(spec_cone_angle);
    }
    if light.radius.raw == 0 {
        Angle { cos: Scalar::from_int(1), sin: Scalar::zero() }
    } else {
        let beside = light.position + perpendicular(to_light) * light.radius;
        let to_light_edge = Vec3::unit_vec(beside - point);
        Angle::acos(Vec3::dot(to_light, to_light_edge)).double()
    }
}

/// The shadow ray from `point` toward `light`.
pub fn shadow_ray(light: &Light, to_light: Vec3, point: Vec3, normal: Vec3, draw: ConeDraw) -> (ray: Ray)
    ensures
        ray == spec_shadow_ray(*light, to_light, point, normal, draw),
{
    Ray::ray(
        point + (normal * Scalar::ratio(1, 100_000)),
        cone_sample(to_light, cone_angle(light, to_light, point), draw),
    )
}

} // verus!
