use raytracer::angle::Angle;
use raytracer::material::Material;
use raytracer::primitives::Plane;
use raytracer::primitives::Sphere;
use raytracer::primitives::Triangle;
use raytracer::ray::Ray;
use raytracer::scalar::Scalar;
use raytracer::util::angleAxis3x3;
use raytracer::util::clamp;
use raytracer::vec3::Vec3;
use raytracer::vec3::Vec4;

fn s(raw: i64) -> Scalar {
    Scalar { raw }
}

/// A vector given in thousandths.
fn v(x: i64, y: i64, z: i64) -> Vec3 {
    Vec3::new(Scalar::ratio(x, 1000), Scalar::ratio(y, 1000), Scalar::ratio(z, 1000))
}

fn raw3(a: Vec3) -> (i64, i64, i64) {
    (a.x.raw, a.y.raw, a.z.raw)
}

fn raw4(a: Vec4) -> (i64, i64, i64, i64) {
    (a.x.raw, a.y.raw, a.z.raw, a.w.raw)
}

fn grey() -> Material {
    Material::new(v(500, 500, 500), Scalar::zero(), Scalar::zero())
}

fn forward() -> Ray {
    Ray::ray(v(0, 0, 0), v(0, 0, -1000))
}

#[test]
fn arc_cosine_keeps_the_cosine_and_finds_the_sine() {
    let a = Angle::acos(Scalar::ratio(1, 2));
    assert_eq!((a.cos().raw, a.sin().raw), (500_000_000, 866_025_403));
    let b = Angle::acos(Scalar::from_int(1));
    assert_eq!((b.cos.raw, b.sin.raw), (1_000_000_000, 0));
    let c = Angle::acos(Scalar::zero());
    assert_eq!((c.cos.raw, c.sin.raw), (0, 1_000_000_000));
}

#[test]
fn arc_cosine_takes_the_nearer_end_outside_its_range() {
    let a = Angle::acos(Scalar::from_int(2));
    assert_eq!((a.cos.raw, a.sin.raw), (1_000_000_000, 0));
    let b = Angle::acos(Scalar::from_int(-2));
    assert_eq!((b.cos.raw, b.sin.raw), (-1_000_000_000, 0));
}

#[test]
fn doubling_an_angle_uses_the_double_angle_formulas() {
    let a = Angle::acos(Scalar::zero()).double();
    assert_eq!((a.cos.raw, a.sin.raw), (-1_000_000_000, 0));
    let b = Angle::acos(Scalar::ratio(1, 2)).double();
    assert_eq!((b.cos.raw, b.sin.raw), (-500_000_000, 866_025_403));
    let z = Angle::zero();
    assert_eq!((z.cos.raw, z.sin.raw), (1_000_000_000, 0));
    assert_eq!(z.double(), z);
}

#[test]
fn fractions_of_a_turn_are_read_from_the_table() {
    let pairs = [
        (Scalar::zero(), (1_000_000_000, 0)),
        (Scalar::ratio(1, 100), (998_026_728, 62_790_520)),
        (Scalar::ratio(13, 100), (684_547_106, 728_968_627)),
        (Scalar::ratio(1, 4), (0, 1_000_000_000)),
        (Scalar::ratio(1, 2), (-1_000_000_000, 0)),
        (Scalar::ratio(62, 100), (-728_968_627, -684_547_106)),
        (Scalar::ratio(3, 4), (0, -1_000_000_000)),
        (Scalar::ratio(99, 100), (998_026_728, -62_790_520)),
    ];
    for (fraction, expected) in pairs {
        let a = Angle::of_turn(fraction);
        assert_eq!((a.cos.raw, a.sin.raw), expected);
    }
}

#[test]
fn fractions_of_a_turn_drop_whole_turns_and_round_down() {
    let whole = Angle::of_turn(Scalar::from_int(1));
    assert_eq!((whole.cos.raw, whole.sin.raw), (1_000_000_000, 0));
    let more = Angle::of_turn(Scalar::ratio(388, 100));
    assert_eq!((more.cos.raw, more.sin.raw), (728_968_627, -684_547_106));
    let back = Angle::of_turn(Scalar::ratio(-1, 100));
    assert_eq!((back.cos.raw, back.sin.raw), (998_026_728, -62_790_520));
    let just_above = Angle::of_turn(s(1));
    assert_eq!((just_above.cos.raw, just_above.sin.raw), (1_000_000_000, 0));
    let just_below = Angle::of_turn(s(-1));
    assert_eq!((just_below.cos.raw, just_below.sin.raw), (998_026_728, -62_790_520));
}

#[test]
fn table_of_cosines_stays_on_the_unit_circle() {
    let mut k: i64 = 0;
    while k < 100 {
        let a = Angle::of_turn(Scalar::ratio(k, 100));
        let c = a.cos.raw as i128;
        let sn = a.sin.raw as i128;
        let off = c * c + sn * sn - 1_000_000_000_000_000_000;
        assert!(off.abs() < 1_000_000_000, "hundredth {}", k);
        k += 1;
    }
}

#[test]
fn vectors_add_subtract_multiply_and_divide_by_component() {
    let a = v(1000, 2000, 3000);
    let b = v(4000, -5000, 6000);
    assert_eq!(raw3(a + b), (5_000_000_000, -3_000_000_000, 9_000_000_000));
    assert_eq!(raw3(a - b), (-3_000_000_000, 7_000_000_000, -3_000_000_000));
    assert_eq!(raw3(a * b), (4_000_000_000, -10_000_000_000, 18_000_000_000));
    assert_eq!(raw3(a * Scalar::ratio(1, 2)), (500_000_000, 1_000_000_000, 1_500_000_000));
    assert_eq!(raw3(a / Scalar::from_int(2)), (500_000_000, 1_000_000_000, 1_500_000_000));
    assert_eq!(raw3(a / Scalar::zero()), (0, 0, 0));
    assert_eq!(raw3(Vec3::default()), (0, 0, 0));
}

#[test]
fn dot_and_cross_products() {
    let a = v(1000, 2000, 3000);
    let b = v(4000, -5000, 6000);
    assert_eq!(Vec3::dot(a, b).raw, 12_000_000_000);
    assert_eq!(raw3(Vec3::cross(a, b)), (27_000_000_000, 6_000_000_000, -13_000_000_000));
    assert_eq!(raw3(Vec3::cross(v(1000, 0, 0), v(0, 1000, 0))), (0, 0, 1_000_000_000));
    assert_eq!(a.length_squared().raw, 14_000_000_000);
}

#[test]
fn length_is_the_floor_of_the_euclidean_norm() {
    assert_eq!(v(3000, 4000, 0).length().raw, 5_000_000_000);
    assert_eq!(v(1000, 1000, 1000).length().raw, 1_732_050_807);
    assert_eq!(v(0, 0, 0).length().raw, 0);
    assert_eq!(Vec3::new(s(1), s(0), s(0)).length().raw, 1);
    assert_eq!(Vec3::new(s(i64::MAX), s(i64::MAX), s(i64::MAX)).length().raw, i64::MAX);
    assert_eq!(Vec3::new(s(i64::MIN), s(0), s(0)).length().raw, i64::MAX);
}

#[test]
fn unit_vectors_and_the_zero_vector() {
    assert_eq!(raw3(Vec3::unit_vec(v(3000, 4000, 0))), (600_000_000, 800_000_000, 0));
    assert_eq!(raw3(Vec3::unit_vec(v(1000, 1000, 1000))), (577_350_269, 577_350_269, 577_350_269));
    assert_eq!(raw3(Vec3::unit_vec(v(0, -7000, 0))), (0, -1_000_000_000, 0));
    assert_eq!(raw3(Vec3::unit_vec(v(0, 0, 0))), (0, 0, 0));
}

#[test]
fn vectors_of_three_and_of_four_convert() {
    let a = v(1000, 2000, 3000);
    let b = a.to_Vec4(Scalar::from_int(1));
    assert_eq!(raw4(b), (1_000_000_000, 2_000_000_000, 3_000_000_000, 1_000_000_000));
    assert_eq!(b.to_Vec3(), a);
    let c = Vec4::new(s(1), s(2), s(3), s(4));
    assert_eq!(raw4(c + b), (1_000_000_001, 2_000_000_002, 3_000_000_003, 1_000_000_004));
    assert_eq!(raw4(b / Scalar::from_int(2)), (500_000_000, 1_000_000_000, 1_500_000_000, 500_000_000));
}

#[test]
fn vector_from_hundredths_takes_sign_and_size() {
    let a = Vec3::from_hundredths(0, 1, 1, 25, 100, 0);
    assert_eq!(raw3(a), (-250_000_000, 1_000_000_000, 0));
    let b = Vec3::from_hundredths(1, 0, 7, 3, 7, 250);
    assert_eq!(raw3(b), (30_000_000, -70_000_000, 2_500_000_000));
    let c = Vec3::from_hundredths(1, 0, 1, usize::MAX, usize::MAX, 0);
    assert_eq!(raw3(c), (i64::MAX, i64::MIN, 0));
}

#[test]
fn random_vector_lies_in_its_range() {
    let mut n = 0;
    while n < 300 {
        let a = Vec3::random(0, 1);
        for c in [a.x.raw, a.y.raw, a.z.raw] {
            assert!(c.abs() <= 1_000_000_000);
            assert_eq!(c % 10_000_000, 0);
        }
        let b = Vec3::random(150, 3);
        for c in [b.x.raw, b.y.raw, b.z.raw] {
            assert!(c.abs() >= 1_500_000_000 && c.abs() <= 3_000_000_000);
            assert_eq!(c % 10_000_000, 0);
        }
        n += 1;
    }
    let fixed = Vec3::random(200, 2);
    assert_eq!(fixed.x.raw.abs(), 2_000_000_000);
    let nothing = Vec3::random(0, 0);
    assert_eq!(raw3(nothing), (0, 0, 0));
}

#[test]
fn random_vector_varies_in_size_and_sign() {
    let mut seen: Vec<i64> = vec![];
    let mut n = 0;
    while n < 500 {
        let a = Vec3::random(0, 1);
        for c in [a.x.raw, a.y.raw, a.z.raw] {
            if !seen.contains(&c) {
                seen.push(c);
            }
        }
        n += 1;
    }
    assert!(seen.len() > 20);
    assert!(seen.iter().any(|c| *c < 0));
    assert!(seen.iter().any(|c| *c > 0));
}

#[test]
fn ray_keeps_origin_and_direction_and_finds_points() {
    let r = Ray::ray(v(1000, 2000, 3000), v(0, 0, -2000));
    assert_eq!(r.origin(), v(1000, 2000, 3000));
    assert_eq!(r.direction(), v(0, 0, -2000));
    assert_eq!(raw3(r.at(Scalar::ratio(3, 2))), (1_000_000_000, 2_000_000_000, 0));
    assert_eq!(r.at(Scalar::zero()), r.origin());
}

#[test]
fn reflection_mirrors_the_direction_and_lifts_the_origin() {
    let up = v(0, 1000, 0);
    let r = Ray::reflect(up, v(1000, -1000, 0), v(2000, 0, 0), Scalar::ratio(1, 100));
    assert_eq!(raw3(r.A), (2_000_000_000, 10_000_000, 0));
    assert_eq!(raw3(r.B), (707_106_781, 707_106_781, 0));
    let back = Ray::reflect(up, v(0, -2000, 0), v(0, 0, 0), Scalar::zero());
    assert_eq!(raw3(back.A), (0, 0, 0));
    assert_eq!(raw3(back.B), (0, 1_000_000_000, 0));
}

#[test]
fn clamp_brings_a_value_into_its_range() {
    let lo = Scalar::zero();
    let hi = Scalar::from_int(1);
    assert_eq!(clamp(Scalar::ratio(3, 5), lo, hi).raw, 600_000_000);
    assert_eq!(clamp(Scalar::from_int(7), lo, hi).raw, 1_000_000_000);
    assert_eq!(clamp(Scalar::from_int(-3), lo, hi).raw, 0);
    assert_eq!(clamp(lo, lo, hi).raw, 0);
    assert_eq!(clamp(hi, lo, hi).raw, 1_000_000_000);
    assert_eq!(clamp(Scalar::ratio(1, 2), hi, lo).raw, 1_000_000_000);
    assert_eq!(clamp(Scalar::from_int(2), hi, lo).raw, 0);
}

#[test]
fn rotation_matrix_of_a_quarter_turn_about_the_third_axis() {
    let m = angleAxis3x3(Angle::acos(Scalar::zero()), v(0, 0, 1000));
    assert_eq!(m.len(), 3);
    assert_eq!(raw3(m[0]), (0, -1_000_000_000, 0));
    assert_eq!(raw3(m[1]), (1_000_000_000, 0, 0));
    assert_eq!(raw3(m[2]), (0, 0, 1_000_000_000));
}

#[test]
fn rotation_matrix_about_a_diagonal_axis() {
    let m = angleAxis3x3(Angle::acos(Scalar::ratio(1, 2)), Vec3::unit_vec(v(1000, 1000, 1000)));
    assert_eq!(raw3(m[0]), (666_666_666, -333_333_333, 666_666_665));
    assert_eq!(raw3(m[1]), (666_666_665, 666_666_666, -333_333_333));
    assert_eq!(raw3(m[2]), (-333_333_333, 666_666_665, 666_666_666));
}

#[test]
fn plane_is_hit_only_from_the_side_its_normal_points_away_from() {
    let floor = Plane::new(v(0, -1000, 0), v(0, -1000, 0), grey());
    let down = Ray::ray(v(0, 0, 0), v(0, -1000, -1000));
    assert_eq!(floor.hit(&down).raw, 1_000_000_000);
    assert_eq!(floor.t(&down).raw, 1_000_000_000);
    let up = Ray::ray(v(0, 0, 0), v(0, 1000, 0));
    assert_eq!(floor.hit(&up).raw, -1_000_000_000);
    let grazing = Ray::ray(v(0, 0, 0), v(1000, 0, 0));
    assert_eq!(floor.hit(&grazing).raw, -1_000_000_000);
    let above = Plane::new(v(0, 1000, 0), v(0, -1000, 0), grey());
    assert_eq!(above.hit(&down).raw, -1_000_000_000);
}

#[test]
fn sphere_in_front_is_hit_at_its_near_side() {
    let ball = Sphere::new(v(0, 0, -5000), Scalar::from_int(1), grey());
    assert_eq!(ball.hit(&forward()).raw, 4_000_000_000);
    assert_eq!(ball.t(&forward()).raw, 4_000_000_000);
}

#[test]
fn sphere_misses_and_hits_behind_the_origin() {
    let ball = Sphere::new(v(0, 0, -4000), Scalar::from_int(1), grey());
    assert_eq!(ball.hit(&Ray::ray(v(0, 0, 0), v(0, 1000, 0))).raw, -1_000_000_000);
    assert_eq!(ball.hit(&Ray::ray(v(0, 0, 0), v(0, 0, 1000))).raw, -5_000_000_000);
    assert_eq!(ball.hit(&Ray::ray(v(1000, 0, 0), v(0, 0, -1000))).raw, 4_000_000_000);
    assert_eq!(ball.hit(&Ray::ray(v(0, 0, 0), v(0, 0, 0))).raw, 0);
    let around = Sphere::new(v(0, 0, 0), Scalar::from_int(2), grey());
    assert_eq!(around.hit(&forward()).raw, -2_000_000_000);
}

#[test]
fn triangle_hit_at_its_centroid_lies_inside() {
    let t = Triangle::new(v(-1000, -1000, -3000), v(1000, -1000, -3000), v(0, 1000, -3000), grey());
    let centroid = (t.v0 + t.v1 + t.v2) / Scalar::from_int(3);
    let h = t.hit(&Ray::ray(v(0, 0, 0), centroid));
    assert_eq!(h.len(), 2);
    assert_eq!(raw4(h[0]), (333_333_331, 333_333_332, 1_000_000_000, 999_999_996));
    assert_eq!(raw4(h[1]), (0, 0, 1_000_000_000, 0));
    assert!(h[0].x.raw >= 0 && h[0].y.raw >= 0 && h[0].x.raw + h[0].y.raw <= 1_000_000_000);
    assert_eq!(t.t(&Ray::ray(v(0, 0, 0), centroid)).raw, 1_000_000_000);
}

#[test]
fn triangle_reports_coordinates_distance_and_normal() {
    let t = Triangle::new(v(-1000, -1000, -3000), v(1000, -1000, -3000), v(0, 1000, -3000), grey());
    let h = t.hit(&forward());
    assert_eq!(h.len(), 2);
    assert_eq!(raw4(h[0]), (250_000_000, 500_000_000, 1_000_000_000, 3_000_000_000));
    assert_eq!(raw4(h[1]), (0, 0, 1_000_000_000, 0));
    assert_eq!(t.t(&forward()).raw, 3_000_000_000);
    let corner = t.hit(&Ray::ray(v(0, 0, 0), v(-1000, -1000, -3000)));
    assert_eq!(raw4(corner[0]), (0, 0, 1_000_000_000, 999_999_996));
}

#[test]
fn triangle_is_missed_outside_its_outline_whatever_the_distance() {
    let t = Triangle::new(v(-1000, -1000, -3000), v(1000, -1000, -3000), v(0, 1000, -3000), grey());
    let miss = vec![Vec4::new(s(0), s(0), s(0), s(0))];
    for scale in [1, 10, 1000] {
        let aim = Ray::ray(v(0, 0, 0), v(2 * scale, 2 * scale, -3 * scale));
        assert_eq!(t.hit(&aim), miss);
        assert_eq!(t.t(&aim).raw, 0);
    }
    assert_eq!(t.hit(&Ray::ray(v(0, 0, 0), v(5000, 0, -3000))), miss);
}

#[test]
fn triangle_without_area_or_edge_on_is_missed() {
    let miss = vec![Vec4::new(s(0), s(0), s(0), s(0))];
    let line = Triangle::new(v(0, 0, -3000), v(1000, 0, -3000), v(2000, 0, -3000), grey());
    assert_eq!(line.hit(&forward()), miss);
    assert_eq!(line.t(&forward()).raw, 0);
    let t = Triangle::new(v(-1000, -1000, -3000), v(1000, -1000, -3000), v(0, 1000, -3000), grey());
    let along = Ray::ray(v(0, 0, 0), v(1000, 0, 0));
    assert_eq!(t.hit(&along), miss);
    assert_eq!(t.t(&along).raw, 0);
}

#[test]
fn triangle_behind_the_origin_has_a_negative_distance() {
    let t = Triangle::new(v(-1000, -1000, -3000), v(1000, -1000, -3000), v(0, 1000, -3000), grey());
    let away = Ray::ray(v(0, 0, 0), v(0, 0, 1000));
    assert_eq!(t.t(&away).raw, -3_000_000_000);
    let h = t.hit(&away);
    assert_eq!(raw4(h[0]), (250_000_000, 500_000_000, 1_000_000_000, -3_000_000_000));
}
