//! What holds of every scene and every ray.
use vstd::prelude::*;
use crate::light::Light;
use crate::primitives::Sphere;
use crate::ray::Ray;
use crate::sampling::draw_at;
use crate::sampling::draws_after;
use crate::sampling::lemma_point_light_ignores_draw;
use crate::sampling::ConeDraw;
use crate::sampling::spec_cone_angle;
use crate::sampling::spec_shadow_ray;
use crate::scalar::lemma_over_monotone;
use crate::scalar::lemma_quotient_of_multiple;
use crate::scalar::lemma_times_monotone;
use crate::scalar::lemma_times_not_negative;
use crate::scalar::Scalar;
use crate::scalar::UNIT;
use crate::vec3::Vec3;
use crate::world::attenuated;
use crate::world::glow_lights;
use crate::world::lemma_nearest_is;
use crate::world::mirror_share;
use crate::world::bounce_ray;
use crate::world::sky_color;
use crate::world::to_light;
use crate::world::Hit;
use crate::world::Kind;
use crate::world::Scene;
use crate::world::Surface;

verus! {

/// Every one of `lights` has the radius zero.
pub open spec fn all_point_lights(lights: Seq<Light>) -> bool {
    forall|l: int| 0 <= l < lights.len() ==> (#[trigger] lights[l]).radius.raw == 0
}

/// A ray that hits no primitive sees the sky in its direction, however far
/// it is followed and whatever is drawn.
pub proof fn lemma_miss_shows_sky(scene: Scene, ray: Ray, depth: nat, draws: Seq<ConeDraw>)
    requires
        scene.nearest(ray).is_none(),
    ensures
        scene.trace(ray, depth, draws) == sky_color(ray),
{
}

/// A surface that mirrors nothing shows what the lights give it directly:
/// what any other ray would see has no part in it, nor has the number of
/// rays that may be followed.
pub proof fn lemma_matte_surface_shows_direct_light(
    scene: Scene,
    ray: Ray,
    depth: nat,
    draws: Seq<ConeDraw>,
    hit: Hit,
    surface: Surface,
)
    requires
        depth > 0,
        scene.nearest(ray) == Some(hit),
        !(hit.kind == Kind::Sphere && scene.spheres[hit.index as int].material.emissivity.raw > 0),
        scene.surface_at(ray, hit) == Some(surface),
        surface.material.reflectivity.raw <= 0,
    ensures
        scene.trace(ray, depth, draws) == scene.direct_color(
            scene.lights_in_play(),
            ray,
            hit,
            surface,
            draws,
        ).spec_to_Vec4(Scalar::spec_from_int(1)),
        scene.trace(ray, depth, draws) == scene.trace(ray, 1, draws),
{
}

/// Lights of radius zero add the same whatever is drawn.
proof fn lemma_lit_sum_ignores_draws(
    scene: Scene,
    lights: Seq<Light>,
    ray: Ray,
    hit: Hit,
    surface: Surface,
    first: Seq<ConeDraw>,
    second: Seq<ConeDraw>,
    n: int,
)
    requires
        all_point_lights(lights),
        n <= lights.len(),
    ensures
        scene.lit_sum(lights, ray, hit, surface, first, n) == scene.lit_sum(lights, ray, hit, surface, second, n),
    decreases n,
{
    if n > 0 {
        lemma_lit_sum_ignores_draws(scene, lights, ray, hit, surface, first, second, n - 1);
        let light = lights[n - 1];
        reveal(Scene::contribution);
        lemma_point_light_ignores_draw(
            light,
            to_light(light, ray, hit),
            surface.point,
            surface.normal,
            draw_at(first, n - 1),
            draw_at(second, n - 1),
        );
    }
}

/// Where every light in play has the radius zero, nothing is left to
/// chance: a ray sees the same whatever is drawn.
pub proof fn lemma_point_lights_leave_nothing_to_chance(
    scene: Scene,
    ray: Ray,
    depth: nat,
    first: Seq<ConeDraw>,
    second: Seq<ConeDraw>,
)
    requires
        all_point_lights(scene.lights_in_play()),
    ensures
        scene.trace(ray, depth, first) == scene.trace(ray, depth, second),
    decreases depth,
{
    if depth > 0 {
        match scene.nearest(ray) {
            None => {},
            Some(hit) => {
                match scene.surface_at(ray, hit) {
                    None => {},
                    Some(surface) => {
                        let lights = scene.lights_in_play();
                        reveal(Scene::direct_color);
                        lemma_lit_sum_ignores_draws(
                            scene,
                            lights,
                            ray,
                            hit,
                            surface,
                            first,
                            second,
                            lights.len() as int,
                        );
                        lemma_point_lights_leave_nothing_to_chance(
                            scene,
                            bounce_ray(ray, surface),
                            (depth - 1) as nat,
                            draws_after(first, lights.len() as int),
                            draws_after(second, lights.len() as int),
                        );
                    },
                }
            },
        }
    }
}

/// No component of `v` is negative.
pub open spec fn not_negative(v: Vec3) -> bool {
    0 <= v.x.raw && 0 <= v.y.raw && 0 <= v.z.raw
}

/// No channel of `a` is brighter than the same channel of `b`.
pub open spec fn no_brighter(a: Vec3, b: Vec3) -> bool {
    a.x.raw <= b.x.raw && a.y.raw <= b.y.raw && a.z.raw <= b.z.raw
}

/// No colour of the scene has a negative channel: not that of a material,
/// nor that of a light.
pub open spec fn colors_not_negative(scene: Scene) -> bool {
    &&& forall|i: int| 0 <= i < scene.planes.len() ==> not_negative((#[trigger] scene.planes[i]).material.color)
    &&& forall|i: int| 0 <= i < scene.spheres.len() ==> not_negative((#[trigger] scene.spheres[i]).material.color)
    &&& forall|i: int|
        0 <= i < scene.triangles.len() ==> not_negative((#[trigger] scene.triangles[i]).material.color)
    &&& forall|i: int| 0 <= i < scene.lights.len() ==> not_negative((#[trigger] scene.lights[i]).color)
}

/// `raised` is `light` with an intensity that is no lower.
pub open spec fn is_raised(light: Light, raised: Light) -> bool {
    &&& light.position == raised.position
    &&& light.color == raised.color
    &&& light.radius == raised.radius
    &&& light.intensity.raw <= raised.intensity.raw
}

/// `raised` holds the lights of `lights`, each with an intensity that is no
/// lower.
pub open spec fn all_raised(lights: Seq<Light>, raised: Seq<Light>) -> bool {
    &&& lights.len() == raised.len()
    &&& forall|l: int| 0 <= l < lights.len() ==> is_raised(#[trigger] lights[l], raised[l])
}

/// `bright` is the scene `dim` with lights that are no less intense: the
/// primitives are the same, and so are the places, colours and radii of the
/// lights.
pub open spec fn is_brightened(dim: Scene, bright: Scene) -> bool {
    &&& dim.planes == bright.planes
    &&& dim.spheres == bright.spheres
    &&& dim.triangles == bright.triangles
    &&& all_raised(dim.lights, bright.lights)
}

proof fn lemma_first_nearest_of_same_primitives(a: Scene, b: Scene, ray: Ray, p: int)
    requires
        a.planes == b.planes,
        a.spheres == b.spheres,
        a.triangles == b.triangles,
        a.is_first_nearest(ray, p),
    ensures
        b.is_first_nearest(ray, p),
        a.trial(ray, p) == b.trial(ray, p),
{
    assert(a.trial(ray, p) == b.trial(ray, p));
    assert forall|q: int| 0 <= q < b.count() && (#[trigger] b.trial(ray, q)).t.raw > 0 implies b.trial(
        ray,
        p,
    ).t.raw < b.trial(ray, q).t.raw || (b.trial(ray, p).t.raw == b.trial(ray, q).t.raw && p <= q) by {
        assert(a.trial(ray, q) == b.trial(ray, q));
    }
}

proof fn lemma_same_primitives_same_nearest(a: Scene, b: Scene, ray: Ray)
    requires
        a.planes == b.planes,
        a.spheres == b.spheres,
        a.triangles == b.triangles,
    ensures
        a.nearest(ray) == b.nearest(ray),
{
    reveal(Scene::nearest);
    if exists|p: int| a.is_first_nearest(ray, p) {
        let p = choose|p: int| a.is_first_nearest(ray, p);
        lemma_first_nearest_of_same_primitives(a, b, ray, p);
        lemma_nearest_is(a, ray, p);
        lemma_nearest_is(b, ray, p);
    } else {
        if exists|p: int| b.is_first_nearest(ray, p) {
            let p = choose|p: int| b.is_first_nearest(ray, p);
            lemma_first_nearest_of_same_primitives(b, a, ray, p);
        }
    }
}

proof fn lemma_same_primitives_same_occluders(a: Scene, b: Scene, shadow: Ray, hit: Hit, n: int)
    requires
        a.spheres == b.spheres,
        a.triangles == b.triangles,
    ensures
        a.spheres_blocking(shadow, hit, n) == b.spheres_blocking(shadow, hit, n),
        a.triangles_blocking(shadow, hit, n) == b.triangles_blocking(shadow, hit, n),
    decreases n,
{
    if n > 0 {
        lemma_same_primitives_same_occluders(a, b, shadow, hit, n - 1);
    }
}

proof fn lemma_tenth_not_negative()
    ensures
        0 <= Scalar::spec_ratio(1, 10).raw,
{
    assert(UNIT == 100_000_000 * 10);
    lemma_quotient_of_multiple(100_000_000, 10);
}

proof fn lemma_attenuated_monotone(low: Scalar, high: Scalar, k: nat)
    requires
        low.raw <= high.raw,
    ensures
        attenuated(low, k).raw <= attenuated(high, k).raw,
    decreases k,
{
    if k > 0 {
        lemma_attenuated_monotone(low, high, (k - 1) as nat);
        lemma_tenth_not_negative();
        lemma_times_monotone(
            attenuated(low, (k - 1) as nat),
            attenuated(high, (k - 1) as nat),
            Scalar::spec_ratio(1, 10),
        );
    }
}

proof fn lemma_scaled_monotone(u: Vec3, v: Vec3, c: Scalar)
    requires
        no_brighter(u, v),
        0 <= c.raw,
    ensures
        no_brighter(u.scaled(c), v.scaled(c)),
{
    lemma_times_monotone(u.x, v.x, c);
    lemma_times_monotone(u.y, v.y, c);
    lemma_times_monotone(u.z, v.z, c);
}

proof fn lemma_scaled_by_more(u: Vec3, low: Scalar, high: Scalar)
    requires
        not_negative(u),
        low.raw <= high.raw,
    ensures
        no_brighter(u.scaled(low), u.scaled(high)),
{
    lemma_times_monotone(low, high, u.x);
    lemma_times_monotone(low, high, u.y);
    lemma_times_monotone(low, high, u.z);
}

proof fn lemma_raised_light_adds_no_less(
    dim: Scene,
    bright: Scene,
    ray: Ray,
    hit: Hit,
    surface: Surface,
    light: Light,
    raised: Light,
    draw: ConeDraw,
)
    requires
        dim.spheres == bright.spheres,
        dim.triangles == bright.triangles,
        is_raised(light, raised),
        not_negative(surface.material.color),
        not_negative(light.color),
    ensures
        no_brighter(
            dim.contribution(ray, hit, surface, light, draw).spec_to_Vec3(),
            bright.contribution(ray, hit, surface, raised, draw).spec_to_Vec3(),
        ),
        dim.contribution(ray, hit, surface, light, draw).w == bright.contribution(ray, hit, surface, raised, draw).w,
{
    reveal(Scene::contribution);
    reveal(spec_cone_angle);
    let toward = to_light(light, ray, hit);
    assert(toward == to_light(raised, ray, hit));
    let shadow = spec_shadow_ray(light, toward, surface.point, surface.normal, draw);
    assert(shadow == spec_shadow_ray(raised, toward, surface.point, surface.normal, draw));
    lemma_same_primitives_same_occluders(dim, bright, shadow, hit, dim.spheres.len() as int);
    lemma_same_primitives_same_occluders(dim, bright, shadow, hit, dim.triangles.len() as int);
    let k = dim.occluders(shadow, hit);
    assert(k == bright.occluders(shadow, hit));
    lemma_attenuated_monotone(light.intensity, raised.intensity, k);
    let facing = Vec3::spec_dot(surface.normal, toward).spec_max(Scalar { raw: 0 });
    lemma_times_monotone(attenuated(light.intensity, k), attenuated(raised.intensity, k), facing);
    let tint = surface.material.color.times(light.color);
    lemma_times_not_negative(surface.material.color.x, light.color.x);
    lemma_times_not_negative(surface.material.color.y, light.color.y);
    lemma_times_not_negative(surface.material.color.z, light.color.z);
    lemma_scaled_by_more(
        tint,
        facing.times(attenuated(light.intensity, k)),
        facing.times(attenuated(raised.intensity, k)),
    );
}

proof fn lemma_raised_lights_add_no_less(
    dim: Scene,
    bright: Scene,
    lights: Seq<Light>,
    raised: Seq<Light>,
    ray: Ray,
    hit: Hit,
    surface: Surface,
    draws: Seq<ConeDraw>,
    n: int,
)
    requires
        dim.spheres == bright.spheres,
        dim.triangles == bright.triangles,
        all_raised(lights, raised),
        not_negative(surface.material.color),
        forall|l: int| 0 <= l < lights.len() ==> not_negative((#[trigger] lights[l]).color),
        n <= lights.len(),
    ensures
        no_brighter(
            dim.lit_sum(lights, ray, hit, surface, draws, n).spec_to_Vec3(),
            bright.lit_sum(raised, ray, hit, surface, draws, n).spec_to_Vec3(),
        ),
    decreases n,
{
    if n > 0 {
        lemma_raised_lights_add_no_less(dim, bright, lights, raised, ray, hit, surface, draws, n - 1);
        assert(is_raised(lights[n - 1], raised[n - 1]));
        lemma_raised_light_adds_no_less(
            dim,
            bright,
            ray,
            hit,
            surface,
            lights[n - 1],
            raised[n - 1],
            draw_at(draws, n - 1),
        );
    }
}

proof fn lemma_glow_lights_keep_colors(spheres: Seq<Sphere>)
    requires
        forall|i: int| 0 <= i < spheres.len() ==> not_negative((#[trigger] spheres[i]).material.color),
    ensures
        forall|l: int|
            0 <= l < glow_lights(spheres).len() ==> not_negative((#[trigger] glow_lights(spheres)[l]).color),
    decreases spheres.len(),
{
    if spheres.len() > 0 {
        let rest = spheres.drop_last();
        assert forall|i: int| 0 <= i < rest.len() implies not_negative((#[trigger] rest[i]).material.color) by {
            assert(rest[i] == spheres[i]);
        }
        lemma_glow_lights_keep_colors(rest);
        let last = spheres[spheres.len() - 1];
        assert(not_negative(last.material.color));
        let glow = glow_lights(spheres);
        assert forall|l: int| 0 <= l < glow.len() implies not_negative((#[trigger] glow[l]).color) by {
            if l < glow_lights(rest).len() {
                assert(glow[l] == glow_lights(rest)[l]);
            } else {
                assert(glow[l].color == last.material.color);
            }
        }
    }
}

proof fn lemma_surface_keeps_material(scene: Scene, ray: Ray, hit: Hit, surface: Surface)
    requires
        colors_not_negative(scene),
        scene.holds(hit),
        scene.surface_at(ray, hit) == Some(surface),
    ensures
        not_negative(surface.material.color),
{
    reveal(Scene::surface_at);
    match hit.kind {
        Kind::Triangle => {
            assert(not_negative(scene.triangles[hit.index as int].material.color));
        },
        Kind::Sphere => {
            assert(not_negative(scene.spheres[hit.index as int].material.color));
        },
        Kind::Plane => {
            assert(not_negative(scene.planes[hit.index as int].material.color));
        },
    }
}

proof fn lemma_nearest_is_held(scene: Scene, ray: Ray)
    ensures
        scene.nearest(ray) matches Some(hit) ==> scene.holds(hit),
{
    reveal(Scene::nearest);
}

/// Raising the intensity of lights darkens nothing: with the primitives,
/// the places, colours and radii of the lights, the ray and the draws all
/// the same, no channel of what the ray sees gets lower. It is asked that no
/// colour in the scene has a negative channel.
pub proof fn lemma_raised_lights_darken_nothing(
    dim: Scene,
    bright: Scene,
    ray: Ray,
    depth: nat,
    draws: Seq<ConeDraw>,
)
    requires
        is_brightened(dim, bright),
        colors_not_negative(dim),
    ensures
        no_brighter(dim.trace(ray, depth, draws).spec_to_Vec3(), bright.trace(ray, depth, draws).spec_to_Vec3()),
    decreases depth,
{
    lemma_same_primitives_same_nearest(dim, bright, ray);
    lemma_nearest_is_held(dim, ray);
    if depth > 0 {
        match dim.nearest(ray) {
            None => {},
            Some(hit) => {
                reveal(Scene::surface_at);
                assert(dim.surface_at(ray, hit) == bright.surface_at(ray, hit));
                match dim.surface_at(ray, hit) {
                    None => {},
                    Some(surface) => {
                        let lights = dim.lights_in_play();
                        let raised = bright.lights_in_play();
                        lemma_glow_lights_keep_colors(dim.spheres);
                        assert(all_raised(lights, raised)) by {
                            assert forall|l: int| 0 <= l < lights.len() implies is_raised(
                                #[trigger] lights[l],
                                raised[l],
                            ) by {
                                if l < dim.lights.len() {
                                    assert(is_raised(dim.lights[l], bright.lights[l]));
                                }
                            }
                        }
                        assert forall|l: int| 0 <= l < lights.len() implies not_negative(
                            (#[trigger] lights[l]).color,
                        ) by {
                            if l < dim.lights.len() {
                                assert(not_negative(dim.lights[l].color));
                            } else {
                                assert(lights[l] == glow_lights(dim.spheres)[l - dim.lights.len()]);
                            }
                        }
                        lemma_surface_keeps_material(dim, ray, hit, surface);
                        lemma_raised_lights_add_no_less(
                            dim,
                            bright,
                            lights,
                            raised,
                            ray,
                            hit,
                            surface,
                            draws,
                            lights.len() as int,
                        );
                        reveal(Scene::direct_color);
                        let count = Scalar::spec_from_int(lights.len() as int);
                        let low = dim.lit_sum(lights, ray, hit, surface, draws, lights.len() as int);
                        let high = bright.lit_sum(raised, ray, hit, surface, draws, lights.len() as int);
                        lemma_over_monotone(low.x, high.x, count);
                        lemma_over_monotone(low.y, high.y, count);
                        lemma_over_monotone(low.z, high.z, count);
                        let direct_low = dim.direct_color(lights, ray, hit, surface, draws);
                        let direct_high = bright.direct_color(raised, ray, hit, surface, draws);
                        assert(no_brighter(direct_low, direct_high));
                        let r = mirror_share(surface);
                        if r.raw > 0 {
                            let rest = draws_after(draws, lights.len() as int);
                            lemma_raised_lights_darken_nothing(
                                dim,
                                bright,
                                bounce_ray(ray, surface),
                                (depth - 1) as nat,
                                rest,
                            );
                            let seen_low = dim.trace(bounce_ray(ray, surface), (depth - 1) as nat, rest).spec_to_Vec3();
                            let seen_high = bright.trace(
                                bounce_ray(ray, surface),
                                (depth - 1) as nat,
                                rest,
                            ).spec_to_Vec3();
                            lemma_scaled_monotone(direct_low, direct_high, Scalar::spec_from_int(1).minus(r));
                            lemma_scaled_monotone(seen_low, seen_high, r);
                        }
                    },
                }
            },
        }
    }
}

} // verus!
