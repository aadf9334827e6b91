//! The scene and the tracing of a ray through it.
use vstd::prelude::*;
use crate::light::Light;
use crate::material::Material;
use crate::primitives::Plane;
use crate::primitives::Sphere;
use crate::primitives::Triangle;
use crate::ray::Ray;
use crate::sampling::draw_at;
use crate::sampling::draws_after;
use crate::sampling::shadow_ray;
use crate::sampling::spec_shadow_ray;
use crate::sampling::ConeDraw;
use crate::scalar::Scalar;
use crate::scalar::UNIT;
use crate::util::clamp;
use crate::util::spec_clamp;
use crate::vec3::signed_hundredths;
use crate::vec3::Vec3;
use crate::vec3::Vec4;

verus! {

/// How many times a ray is followed from mirror to mirror, itself included,
/// before the sky is taken in place of what it would have seen.
pub const MAX_DEPTH: usize = 8;

/// The kinds of primitive, in the order in which a ray is tried against them.
#[derive(Clone, Copy, Debug, PartialEq, Eq, Structural)]
pub enum Kind {
    Triangle,
    Sphere,
    Plane,
}

/// A primitive that a ray hits in front of its origin: its kind, its place
/// in the scene's list of that kind, and the distance along the ray.
#[derive(Clone, Copy, Debug, PartialEq, Eq, Structural)]
pub struct Hit {
    pub kind: Kind,
    pub index: usize,
    pub t: Scalar,
}

/// The place where a ray meets a primitive: the point, the normal on the
/// side that the ray comes from, and the material there.
#[derive(Clone, Copy, Debug, PartialEq, Eq, Structural)]
pub struct Surface {
    pub point: Vec3,
    pub normal: Vec3,
    pub material: Material,
}

/// A scene as lists of values: what a [`World`] holds.
pub ghost struct Scene {
    pub planes: Seq<Plane>,
    pub spheres: Seq<Sphere>,
    pub triangles: Seq<Triangle>,
    pub lights: Seq<Light>,
}

/// The planes, spheres, triangles and lights of a scene. Nothing in it
/// changes while rays are traced.
pub struct World {
    pub planes: Vec<Plane>,
    pub spheres: Vec<Sphere>,
    pub triangles: Vec<Triangle>,
    pub lights: Vec<Light>,
}

impl View for World {
    type V = Scene;

    open spec fn view(&self) -> Scene {
        Scene {
            planes: self.planes@,
            spheres: self.spheres@,
            triangles: self.triangles@,
            lights: self.lights@,
        }
    }
}

/// The light that a glowing sphere casts on the rest of the scene: at its
/// centre, in its colour, five times as intense as the sphere is emissive,
/// and softened by a radius 99 larger than the sphere's.
pub open spec fn spec_promoted(sphere: Sphere) -> Light {
    Light {
        position: sphere.center,
        color: sphere.material.color,
        intensity: sphere.material.emissivity.times(Scalar::spec_from_int(5)),
        radius: sphere.radius.plus(Scalar::spec_from_int(99)),
    }
}

/// The lights of the glowing spheres among `spheres`, in their order.
pub open spec fn glow_lights(spheres: Seq<Sphere>) -> Seq<Light>
    decreases spheres.len(),
{
    if spheres.len() == 0 {
        Seq::empty()
    } else if spheres.last().material.emissivity.raw > 0 {
        glow_lights(spheres.drop_last()).push(spec_promoted(spheres.last()))
    } else {
        glow_lights(spheres.drop_last())
    }
}

/// The colour of the sky in the direction of `ray`: a blend of a warm colour
/// below and a cool blue above, by the height `y` of the unit direction, with
/// a fourth component of zero.
#[verifier::opaque]
pub open spec fn sky_color(ray: Ray) -> Vec4 {
    let unit_dir = Vec3::spec_unit_vec(ray.B);
    let t = Scalar::spec_ratio(1, 2).times(unit_dir.y.plus(Scalar::spec_from_int(1)));
    let warm = Vec3 { x: Scalar::spec_from_int(1), y: Scalar::spec_ratio(7, 10), z: Scalar::spec_ratio(1, 2) };
    let cool = Vec3 { x: Scalar::spec_ratio(1, 2), y: Scalar::spec_ratio(7, 10), z: Scalar::spec_from_int(1) };
    warm.scaled(Scalar::spec_from_int(1).minus(t)).plus(cool.scaled(t)).spec_to_Vec4(Scalar { raw: 0 })
}

/// What is left of `intensity` behind `k` occluders: each lets a tenth through.
pub open spec fn attenuated(intensity: Scalar, k: nat) -> Scalar
    decreases k,
{
    if k == 0 {
        intensity
    } else {
        attenuated(intensity, (k - 1) as nat).times(Scalar::spec_ratio(1, 10))
    }
}

/// The unit direction toward `light` from the point that `ray` reaches at
/// the distance of `hit`.
pub open spec fn to_light(light: Light, ray: Ray, hit: Hit) -> Vec3 {
    Vec3::spec_unit_vec(light.position.minus(ray.spec_at(hit.t)))
}

/// The colour of a glowing sphere, seen directly: its colour times its
/// emissivity, with a fourth component of one.
pub open spec fn glow_color(sphere: Sphere) -> Vec4 {
    sphere.material.color.scaled(sphere.material.emissivity).spec_to_Vec4(Scalar::spec_from_int(1))
}

/// The ray that a mirror at `surface` sends on, for one that arrives along `ray`.
pub open spec fn bounce_ray(ray: Ray, surface: Surface) -> Ray {
    Ray::spec_reflect(surface.normal, ray.B, surface.point, Scalar::spec_ratio(-1, 1_000_000))
}

/// How much of a surface's colour is what it mirrors: the material's
/// reflectivity, brought into the range from 0 to 1.
pub open spec fn mirror_share(surface: Surface) -> Scalar {
    spec_clamp(surface.material.reflectivity, Scalar { raw: 0 }, Scalar::spec_from_int(1))
}

impl Scene {
    /// The number of primitives.
    pub open spec fn count(self) -> int {
        (self.triangles.len() + self.spheres.len() + self.planes.len()) as int
    }

    /// The `p`-th primitive in the order of trial (all triangles, then all
    /// spheres, then all planes), with the distance at which `ray` meets it.
    pub open spec fn trial(self, ray: Ray, p: int) -> Hit {
        let nt = self.triangles.len() as int;
        let ns = self.spheres.len() as int;
        if p < nt {
            Hit { kind: Kind::Triangle, index: p as usize, t: self.triangles[p].spec_t(ray) }
        } else if p < nt + ns {
            Hit { kind: Kind::Sphere, index: (p - nt) as usize, t: self.spheres[p - nt].spec_hit(ray) }
        } else {
            Hit { kind: Kind::Plane, index: (p - nt - ns) as usize, t: self.planes[p - nt - ns].spec_hit(ray) }
        }
    }

    /// Among the first `n` primitives in the order of trial, the `p`-th is
    /// hit at a positive distance, none is hit at a smaller one, and none
    /// before it at the same one.
    pub open spec fn is_first_nearest_below(self, ray: Ray, p: int, n: int) -> bool {
        &&& 0 <= p < n
        &&& self.trial(ray, p).t.raw > 0
        &&& forall|q: int|
            0 <= q < n && (#[trigger] self.trial(ray, q)).t.raw > 0 ==> self.trial(ray, p).t.raw
                < self.trial(ray, q).t.raw || (self.trial(ray, p).t.raw == self.trial(ray, q).t.raw && p <= q)
    }

    /// The `p`-th primitive is the nearest that `ray` hits, and the first of
    /// those that are as near.
    pub open spec fn is_first_nearest(self, ray: Ray, p: int) -> bool {
        self.is_first_nearest_below(ray, p, self.count())
    }

    /// The nearest primitive that `ray` hits in front of its origin, the
    /// first in the order of trial where several are as near; `None` where
    /// it hits nothing.
    #[verifier::opaque]
    pub open spec fn nearest(self, ray: Ray) -> Option<Hit> {
        if exists|p: int| self.is_first_nearest(ray, p) {
            Some(self.trial(ray, choose|p: int| self.is_first_nearest(ray, p)))
        } else {
            None
        }
    }

    /// The lights that shine in the scene: its own, then one for each
    /// glowing sphere.
    pub open spec fn lights_in_play(self) -> Seq<Light> {
        self.lights + glow_lights(self.spheres)
    }

    /// `hit` names a primitive of the scene.
    pub open spec fn holds(self, hit: Hit) -> bool {
        match hit.kind {
            Kind::Triangle => hit.index < self.triangles.len(),
            Kind::Sphere => hit.index < self.spheres.len(),
            Kind::Plane => hit.index < self.planes.len(),
        }
    }

    /// The surface that `ray` meets at `hit`. The normal of a triangle is
    /// its face normal turned round, that of a sphere points from the centre
    /// to the point, and that of a plane is the plane's normal turned round.
    /// A triangle whose detailed intersection reports a miss gives `None`.
    #[verifier::opaque]
    pub open spec fn surface_at(self, ray: Ray, hit: Hit) -> Option<Surface> {
        match hit.kind {
            Kind::Triangle => {
                let triangle = self.triangles[hit.index as int];
                let record = triangle.spec_hit(ray);
                if record[0].z.raw == UNIT {
                    Some(
                        Surface {
                            point: ray.spec_at(record[0].w),
                            normal: record[1].spec_to_Vec3().scaled(Scalar::spec_from_int(-1)),
                            material: triangle.material,
                        },
                    )
                } else {
                    None
                }
            },
            Kind::Sphere => {
                let sphere = self.spheres[hit.index as int];
                let point = ray.spec_at(sphere.spec_hit(ray));
                Some(
                    Surface {
                        point,
                        normal: Vec3::spec_unit_vec(point.minus(sphere.center)),
                        material: sphere.material,
                    },
                )
            },
            Kind::Plane => {
                let plane = self.planes[hit.index as int];
                Some(
                    Surface {
                        point: ray.spec_at(plane.spec_hit(ray)),
                        normal: Vec3::spec_unit_vec(plane.normal.scaled(Scalar::spec_from_int(-1))),
                        material: plane.material,
                    },
                )
            },
        }
    }

    /// The `i`-th sphere stands in the way of `shadow`: the ray hits it in
    /// front of its origin, and it is not the sphere that `hit` names.
    pub open spec fn sphere_blocks(self, shadow: Ray, hit: Hit, i: int) -> bool {
        !(hit.kind == Kind::Sphere && hit.index == i) && self.spheres[i].spec_hit(shadow).raw > 0
    }

    /// The `i`-th triangle stands in the way of `shadow`: the ray hits it in
    /// front of its origin, and it is not the triangle that `hit` names.
    pub open spec fn triangle_blocks(self, shadow: Ray, hit: Hit, i: int) -> bool {
        !(hit.kind == Kind::Triangle && hit.index == i) && self.triangles[i].spec_t(shadow).raw > 0
    }

    /// How many of the first `n` spheres stand in the way of `shadow`.
    pub open spec fn spheres_blocking(self, shadow: Ray, hit: Hit, n: int) -> nat
        decreases n,
    {
        if n <= 0 {
            0
        } else if self.sphere_blocks(shadow, hit, n - 1) {
            self.spheres_blocking(shadow, hit, n - 1) + 1
        } else {
            self.spheres_blocking(shadow, hit, n - 1)
        }
    }

    /// How many of the first `n` triangles stand in the way of `shadow`.
    pub open spec fn triangles_blocking(self, shadow: Ray, hit: Hit, n: int) -> nat
        decreases n,
    {
        if n <= 0 {
            0
        } else if self.triangle_blocks(shadow, hit, n - 1) {
            self.triangles_blocking(shadow, hit, n - 1) + 1
        } else {
            self.triangles_blocking(shadow, hit, n - 1)
        }
    }

    /// How many spheres and triangles stand in the way of `shadow`. Planes
    /// cast no shadows.
    pub open spec fn occluders(self, shadow: Ray, hit: Hit) -> nat {
        self.spheres_blocking(shadow, hit, self.spheres.len() as int) + self.triangles_blocking(
            shadow,
            hit,
            self.triangles.len() as int,
        )
    }

    /// What `light` adds to the colour of `surface`: the colour of the
    /// surface times that of the light, times the cosine between the normal
    /// and the way to the light (zero where the light is behind), times the
    /// light's intensity as far as it gets past the occluders of one shadow
    /// ray picked by `draw`. The fourth component is one.
    #[verifier::opaque]
    pub open spec fn contribution(self, ray: Ray, hit: Hit, surface: Surface, light: Light, draw: ConeDraw) -> Vec4 {
        let toward = to_light(light, ray, hit);
        let shadow = spec_shadow_ray(light, toward, surface.point, surface.normal, draw);
        let reaching = attenuated(light.intensity, self.occluders(shadow, hit));
        let power = Vec3::spec_dot(surface.normal, toward).spec_max(Scalar { raw: 0 }).times(reaching);
        surface.material.color.times(light.color).scaled(power).spec_to_Vec4(Scalar::spec_from_int(1))
    }

    /// The sum of what the first `n` of `lights` add, the `l`-th light with
    /// the `l`-th draw.
    pub open spec fn lit_sum(
        self,
        lights: Seq<Light>,
        ray: Ray,
        hit: Hit,
        surface: Surface,
        draws: Seq<ConeDraw>,
        n: int,
    ) -> Vec4
        decreases n,
    {
        if n <= 0 {
            Vec4 { x: Scalar { raw: 0 }, y: Scalar { raw: 0 }, z: Scalar { raw: 0 }, w: Scalar { raw: 0 } }
        } else {
            self.lit_sum(lights, ray, hit, surface, draws, n - 1).plus(
                self.contribution(ray, hit, surface, lights[n - 1], draw_at(draws, n - 1)),
            )
        }
    }

    /// The colour that `lights` give `surface` directly: the mean of what
    /// each adds, so that more lights do not make a scene brighter. With no
    /// light at all it is black.
    #[verifier::opaque]
    pub open spec fn direct_color(
        self,
        lights: Seq<Light>,
        ray: Ray,
        hit: Hit,
        surface: Surface,
        draws: Seq<ConeDraw>,
    ) -> Vec3 {
        self.lit_sum(lights, ray, hit, surface, draws, lights.len() as int).divided(
            Scalar::spec_from_int(lights.len() as int),
        ).spec_to_Vec3()
    }

    /// The colour that `ray` sees, followed through at most `depth` rays.
    ///
    /// A ray that hits nothing sees the sky, and so does one that is not
    /// followed (`depth` zero). A glowing sphere shows its glow. Any other
    /// surface shows the colour that the lights in play give it, each light
    /// with one draw of `draws` in the order of the lights; where the surface
    /// mirrors with a share `r > 0`, that colour is blended as
    /// `direct * (1 - r) + r * seen` with what the reflected ray sees, which
    /// is followed with one ray less and with the draws that are left. The
    /// fourth component is one for a surface and zero for the sky.
    pub open spec fn trace(self, ray: Ray, depth: nat, draws: Seq<ConeDraw>) -> Vec4
        decreases depth,
    {
        if depth == 0 {
            sky_color(ray)
        } else {
            match self.nearest(ray) {
                None => sky_color(ray),
                Some(hit) => {
                    if hit.kind == Kind::Sphere && self.spheres[hit.index as int].material.emissivity.raw > 0 {
                        glow_color(self.spheres[hit.index as int])
                    } else {
                        match self.surface_at(ray, hit) {
                            None => sky_color(ray),
                            Some(surface) => {
                                let lights = self.lights_in_play();
                                let direct = self.direct_color(lights, ray, hit, surface, draws);
                                let r = mirror_share(surface);
                                if r.raw > 0 {
                                    let seen = self.trace(
                                        bounce_ray(ray, surface),
                                        (depth - 1) as nat,
                                        draws_after(draws, lights.len() as int),
                                    ).spec_to_Vec3();
                                    direct.scaled(Scalar::spec_from_int(1).minus(r)).plus(
                                        seen.scaled(r),
                                    ).spec_to_Vec4(Scalar::spec_from_int(1))
                                } else {
                                    direct.spec_to_Vec4(Scalar::spec_from_int(1))
                                }
                            },
                        }
                    }
                },
            }
        }
    }
}

/// At most one primitive is the first nearest.
pub proof fn lemma_first_nearest_unique(scene: Scene, ray: Ray, p1: int, p2: int)
    requires
        scene.is_first_nearest(ray, p1),
        scene.is_first_nearest(ray, p2),
    ensures
        p1 == p2,
{
}

/// What `nearest` is, given the first nearest primitive or that there is none.
pub proof fn lemma_nearest_is(scene: Scene, ray: Ray, p: int)
    ensures
        scene.is_first_nearest(ray, p) ==> scene.nearest(ray) == Some(scene.trial(ray, p)),
        (forall|q: int| 0 <= q < scene.count() ==> (#[trigger] scene.trial(ray, q)).t.raw <= 0)
            ==> scene.nearest(ray).is_none(),
{
    reveal(Scene::nearest);
    if scene.is_first_nearest(ray, p) {
        let c = choose|c: int| scene.is_first_nearest(ray, c);
        lemma_first_nearest_unique(scene, ray, p, c);
    }
}

/// The light that a glowing sphere casts on the rest of the scene.
pub fn promoted(sphere: &Sphere) -> (light: Light)
    ensures
        light == spec_promoted(*sphere),
{
    Light::new(
        sphere.center,
        sphere.material.color,
        sphere.material.emissivity * Scalar::from_int(5),
        sphere.radius + Scalar::from_int(99),
    )
}

/// The colour of the sky in the direction of `ray`.
pub fn render_sky(ray: &Ray) -> (color: Vec4)
    ensures
        color == sky_color(*ray),
{
    proof {
        reveal(sky_color);
    }
    let unit_dir: Vec3 = Vec3::unit_vec(ray.direction());
    let t: Scalar = Scalar::ratio(1, 2) * (unit_dir.y + Scalar::from_int(1));
    let warm = Vec3::new(Scalar::from_int(1), Scalar::ratio(7, 10), Scalar::ratio(1, 2));
    let cool = Vec3::new(Scalar::ratio(1, 2), Scalar::ratio(7, 10), Scalar::from_int(1));
    let blend = warm * (Scalar::from_int(1) - t) + cool * t;
    Vec4::new(blend.x, blend.y, blend.z, Scalar::zero())
}

impl World {
    pub fn new(planes: Vec<Plane>, spheres: Vec<Sphere>, triangles: Vec<Triangle>, lights: Vec<Light>) -> (w:
        World)
        ensures
            w.planes == planes,
            w.spheres == spheres,
            w.triangles == triangles,
            w.lights == lights,
    {
        World { planes, spheres, triangles, lights }
    }

    /// The lights that shine in the scene: its own, then one for each
    /// glowing sphere, in the order of the spheres.
    pub fn lights_in_play(world: &World) -> (lights: Vec<Light>)
        ensures
            lights@ == world@.lights_in_play(),
    {
        let mut lights: Vec<Light> = Vec::new();
        let mut l: usize = 0;
        while l < world.lights.len()
            invariant
                l <= world.lights.len(),
                lights@ == world.lights@.take(l as int),
            decreases world.lights.len() - l,
        {
            lights.push(world.lights[l]);
            assert(world.lights@.take(l + 1) == world.lights@.take(l as int).push(world.lights@[l as int]));
            l += 1;
        }
        assert(world.lights@.take(l as int) == world.lights@);
        let mut i: usize = 0;
        assert(world.spheres@.take(0) == Seq::<Sphere>::empty());
        while i < world.spheres.len()
            invariant
                i <= world.spheres.len(),
                lights@ == world.lights@ + glow_lights(world.spheres@.take(i as int)),
            decreases world.spheres.len() - i,
        {
            proof {
                let next = world.spheres@.take(i + 1);
                assert(next.drop_last() == world.spheres@.take(i as int));
                assert(next.last() == world.spheres@[i as int]);
            }
            if world.spheres[i].material.emissivity.raw > 0 {
                lights.push(promoted(&world.spheres[i]));
            }
            i += 1;
        }
        assert(world.spheres@.take(i as int) == world.spheres@);
        lights
    }

    /// The nearest primitive that `ray` hits in front of its origin. Where
    /// several are as near, the first in the order of trial wins: triangles
    /// before spheres before planes, and within a kind the lower index.
    pub fn nearest(world: &World, ray: &Ray) -> (best: Option<Hit>)
        ensures
            best == world@.nearest(*ray),
            match best {
                Some(h) => world@.holds(h) && h.t.raw > 0 && exists|p: int|
                    world@.is_first_nearest(*ray, p) && h == world@.trial(*ray, p),
                None => forall|q: int| 0 <= q < world@.count() ==> (#[trigger] world@.trial(*ray, q)).t.raw <= 0,
            },
    {
        let ghost scene = world@;
        let ghost nt = world.triangles@.len() as int;
        let ghost ns = world.spheres@.len() as int;
        let mut best: Option<Hit> = None;
        let ghost mut at: int = 0;
        let mut i: usize = 0;
        while i < world.triangles.len()
            invariant
                i <= world.triangles.len(),
                scene == world@,
                match best {
                    Some(h) => scene.is_first_nearest_below(*ray, at, i as int) && h == scene.trial(*ray, at),
                    None => forall|q: int| 0 <= q < i ==> (#[trigger] scene.trial(*ray, q)).t.raw <= 0,
                },
            decreases world.triangles.len() - i,
        {
            let t = world.triangles[i].t(ray);
            let nearer = match best {
                Some(h) => t.raw < h.t.raw,
                None => true,
            };
            if t.raw > 0 && nearer {
                best = Some(Hit { kind: Kind::Triangle, index: i, t });
                proof {
                    at = i as int;
                }
            }
            i += 1;
        }
        let mut i: usize = 0;
        while i < world.spheres.len()
            invariant
                i <= world.spheres.len(),
                scene == world@,
                nt == world.triangles@.len(),
                match best {
                    Some(h) => scene.is_first_nearest_below(*ray, at, nt + i) && h == scene.trial(*ray, at),
                    None => forall|q: int| 0 <= q < nt + i ==> (#[trigger] scene.trial(*ray, q)).t.raw <= 0,
                },
            decreases world.spheres.len() - i,
        {
            let t = world.spheres[i].t(ray);
            let nearer = match best {
                Some(h) => t.raw < h.t.raw,
                None => true,
            };
            if t.raw > 0 && nearer {
                best = Some(Hit { kind: Kind::Sphere, index: i, t });
                proof {
                    at = nt + i;
                }
            }
            i += 1;
        }
        let mut i: usize = 0;
        while i < world.planes.len()
            invariant
                i <= world.planes.len(),
                scene == world@,
                nt == world.triangles@.len(),
                ns == world.spheres@.len(),
                match best {
                    Some(h) => scene.is_first_nearest_below(*ray, at, nt + ns + i) && h == scene.trial(*ray, at),
                    None => forall|q: int| 0 <= q < nt + ns + i ==> (#[trigger] scene.trial(*ray, q)).t.raw <= 0,
                },
            decreases world.planes.len() - i,
        {
            let t = world.planes[i].t(ray);
            let nearer = match best {
                Some(h) => t.raw < h.t.raw,
                None => true,
            };
            if t.raw > 0 && nearer {
                best = Some(Hit { kind: Kind::Plane, index: i, t });
                proof {
                    at = nt + ns + i;
                }
            }
            i += 1;
        }
        proof {
            lemma_nearest_is(scene, *ray, at);
        }
        best
    }

    /// The surface that `ray` meets at `hit`.
    pub fn surface_at(world: &World, ray: &Ray, hit: &Hit) -> (surface: Option<Surface>)
        requires
            world@.holds(*hit),
        ensures
            surface == world@.surface_at(*ray, *hit),
    {
        proof {
            reveal(Scene::surface_at);
        }
        match hit.kind {
            Kind::Triangle => {
                let triangle = &world.triangles[hit.index];
                let record = triangle.hit(ray);
                if record[0].z.raw == UNIT {
                    Some(
                        Surface {
                            point: ray.origin() + (ray.direction() * record[0].w),
                            normal: record[1].to_Vec3() * Scalar::from_int(-1),
                            material: triangle.material,
                        },
                    )
                } else {
                    None
                }
            },
            Kind::Sphere => {
                let sphere = &world.spheres[hit.index];
                let point = ray.at(sphere.hit(ray));
                Some(Surface { point, normal: Vec3::unit_vec(point - sphere.center), material: sphere.material })
            },
            Kind::Plane => {
                let plane = &world.planes[hit.index];
                Some(
                    Surface {
                        point: ray.origin() + (ray.direction() * plane.hit(ray)),
                        normal: Vec3::unit_vec(plane.normal * Scalar::from_int(-1)),
                        material: plane.material,
                    },
                )
            },
        }
    }

    /// What is left of `intensity` along `shadow`: a tenth for every sphere
    /// and every triangle that the ray hits in front of its origin, the
    /// primitive that `hit` names left out.
    pub fn light_reaching(world: &World, shadow: &Ray, hit: &Hit, intensity: Scalar) -> (reaching: Scalar)
        ensures
            reaching == attenuated(intensity, world@.occluders(*shadow, *hit)),
    {
        let tenth = Scalar::ratio(1, 10);
        let mut reaching = intensity;
        let ghost mut k: nat = 0;
        let mut i: usize = 0;
        while i < world.spheres.len()
            invariant
                i <= world.spheres.len(),
                tenth == Scalar::spec_ratio(1, 10),
                k == world@.spheres_blocking(*shadow, *hit, i as int),
                reaching == attenuated(intensity, k),
            decreases world.spheres.len() - i,
        {
            let own = match hit.kind {
                Kind::Sphere => hit.index == i,
                _ => false,
            };
            if !own {
                if world.spheres[i].hit(shadow).raw > 0 {
                    reaching = reaching * tenth;
                    proof {
                        k = k + 1;
                    }
                }
            }
            i += 1;
        }
        let ghost ks = k;
        let ghost mut k: nat = 0;
        let mut i: usize = 0;
        while i < world.triangles.len()
            invariant
                i <= world.triangles.len(),
                tenth == Scalar::spec_ratio(1, 10),
                k == world@.triangles_blocking(*shadow, *hit, i as int),
                reaching == attenuated(intensity, ks + k),
            decreases world.triangles.len() - i,
        {
            let own = match hit.kind {
                Kind::Triangle => hit.index == i,
                _ => false,
            };
            if !own {
                if world.triangles[i].t(shadow).raw > 0 {
                    reaching = reaching * tenth;
                    proof {
                        k = k + 1;
                    }
                }
            }
            i += 1;
        }
        reaching
    }

    /// What `light` adds to the colour of `surface`, with one shadow ray
    /// picked by `draw`.
    pub fn contribution(world: &World, ray: &Ray, hit: &Hit, surface: &Surface, light: &Light, draw: ConeDraw) -> (c:
        Vec4)
        ensures
            c == world@.contribution(*ray, *hit, *surface, *light, draw),
    {
        proof {
            reveal(Scene::contribution);
        }
        let toward = Vec3::unit_vec(light.position - (ray.origin() + (ray.direction() * hit.t)));
        let shadow = shadow_ray(light, toward, surface.point, surface.normal, draw);
        let reaching = World::light_reaching(world, &shadow, hit, light.intensity);
        let power = Vec3::dot(surface.normal, toward).max(Scalar::zero()) * reaching;
        let color = surface.material.color * light.color * power;
        Vec4::new(color.x, color.y, color.z, Scalar::from_int(1))
    }

    /// The colour that `lights` give `surface` directly: the mean of what
    /// each adds. The `l`-th light takes the draw at `start + l`, and the
    /// draw of two zeros where `draws` has none there.
    pub fn direct_color(
        world: &World,
        lights: &Vec<Light>,
        ray: &Ray,
        hit: &Hit,
        surface: &Surface,
        draws: &Vec<ConeDraw>,
        start: usize,
    ) -> (color: Vec3)
        ensures
            color == world@.direct_color(lights@, *ray, *hit, *surface, draws_after(draws@, start as int)),
    {
        proof {
            reveal(Scene::direct_color);
        }
        let ghost left = draws_after(draws@, start as int);
        let zero = Scalar::zero();
        let mut sum = Vec4::new(zero, zero, zero, zero);
        let given: usize = if start <= draws.len() {
            draws.len() - start
        } else {
            0
        };
        let mut l: usize = 0;
        while l < lights.len()
            invariant
                l <= lights.len(),
                given == left.len(),
                given > 0 ==> start + given == draws.len(),
                left == draws_after(draws@, start as int),
                sum == world@.lit_sum(lights@, *ray, *hit, *surface, left, l as int),
            decreases lights.len() - l,
        {
            let draw = if l < given {
                draws[start + l]
            } else {
                ConeDraw { height: Scalar::zero(), turn: Scalar::zero() }
            };
            assert(draw == draw_at(left, l as int));
            sum = sum + World::contribution(world, ray, hit, surface, &lights[l], draw);
            l += 1;
        }
        (sum / Scalar::from_count(lights.len())).to_Vec3()
    }

    /// The colour that `ray` sees, with the draws from `start` on.
    fn trace_from(world: &World, lights: &Vec<Light>, ray: &Ray, depth: usize, draws: &Vec<ConeDraw>, start: usize) -> (color:
        Vec4)
        requires
            lights@ == world@.lights_in_play(),
            start <= draws.len(),
        ensures
            color == world@.trace(*ray, depth as nat, draws_after(draws@, start as int)),
        decreases depth,
    {
        if depth == 0 {
            return render_sky(ray);
        }
        let hit = match World::nearest(world, ray) {
            None => {
                return render_sky(ray);
            },
            Some(hit) => hit,
        };
        let one = Scalar::from_int(1);
        match hit.kind {
            Kind::Sphere => {
                let sphere = &world.spheres[hit.index];
                if sphere.material.emissivity.raw > 0 {
                    return (sphere.material.color * sphere.material.emissivity).to_Vec4(one);
                }
            },
            _ => {},
        }
        let surface = match World::surface_at(world, ray, &hit) {
            None => {
                return render_sky(ray);
            },
            Some(surface) => surface,
        };
        let mut color = World::direct_color(world, lights, ray, &hit, &surface, draws, start);
        let reflectivity = clamp(surface.material.reflectivity, Scalar::zero(), one);
        if reflectivity.raw > 0 {
            let bounce = Ray::reflect(surface.normal, ray.direction(), surface.point, Scalar::ratio(-1, 1_000_000));
            let next: usize = if draws.len() - start >= lights.len() {
                start + lights.len()
            } else {
                draws.len()
            };
            assert(draws_after(draws@, next as int) == draws_after(
                draws_after(draws@, start as int),
                lights@.len() as int,
            ));
            color = color * (one - reflectivity);
            let seen = World::trace_from(world, lights, &bounce, depth - 1, draws, next);
            color = color + (seen.to_Vec3() * reflectivity);
        }
        Vec4::new(color.x, color.y, color.z, one)
    }

    /// The colour that `ray` sees, followed through at most `depth` rays,
    /// with the shadow rays that `draws` pick: on each surface one draw for
    /// each light in play, surface after surface.
    pub fn trace(world: &World, ray: &Ray, depth: usize, draws: &Vec<ConeDraw>) -> (color: Vec4)
        ensures
            color == world@.trace(*ray, depth as nat, draws@),
    {
        let lights = World::lights_in_play(world);
        assert(draws_after(draws@, 0) == draws@);
        World::trace_from(world, &lights, ray, depth, draws, 0)
    }

    /// The colour that `ray` sees, followed through at most `MAX_DEPTH`
    /// rays, with shadow rays drawn at random. A ray that hits nothing sees
    /// the sky whatever is drawn.
    pub fn hit(world: &World, ray: &Ray) -> (color: Vec4)
        ensures
            exists|draws: Seq<ConeDraw>|
                all_fair(draws) && color == #[trigger] world@.trace(*ray, MAX_DEPTH as nat, draws),
            world@.nearest(*ray).is_none() ==> color == sky_color(*ray),
    {
        let lights = World::lights_in_play(world);
        let draws = draw_cones(lights.len());
        assert(draws_after(draws@, 0) == draws@);
        World::trace_from(world, &lights, ray, MAX_DEPTH, &draws, 0)
    }

    /// The first three components of what `hit` returns.
    pub fn color(world: &World, ray: &Ray) -> (color: Vec3)
        ensures
            exists|draws: Seq<ConeDraw>|
                all_fair(draws) && color == (#[trigger] world@.trace(*ray, MAX_DEPTH as nat, draws)).spec_to_Vec3(),
            world@.nearest(*ray).is_none() ==> color == sky_color(*ray).spec_to_Vec3(),
    {
        let temp = World::hit(world, ray);
        Vec3::new(temp.x, temp.y, temp.z)
    }
}

/// `f` is a whole number of hundredths from 0 to 1: what the magnitude of a
/// component of `Vec3::random(0, 1)` can be.
pub open spec fn is_hundredth_fraction(f: Scalar) -> bool {
    exists|k: int| 0 <= k <= 100 && f == #[trigger] signed_hundredths(1, k)
}

/// Both numbers of `draw` are whole numbers of hundredths from 0 to 1.
pub open spec fn is_fair(draw: ConeDraw) -> bool {
    is_hundredth_fraction(draw.height) && is_hundredth_fraction(draw.turn)
}

/// Every one of `draws` is fair.
pub open spec fn all_fair(draws: Seq<ConeDraw>) -> bool {
    forall|i: int| 0 <= i < draws.len() ==> is_fair(#[trigger] draws[i])
}

/// A random number of hundredths between 0 and 1: the magnitude of the first
/// component of a random vector. Which of the 101 numbers it is is left to
/// chance.
fn fresh_fraction() -> (f: Scalar)
    ensures
        is_hundredth_fraction(f),
        0 <= f.raw <= UNIT,
{
    let v = Vec3::random(0, 1);
    let f = v.x.abs();
    proof {
        let (t, k) = choose|t: int, k: int| 0 <= t <= 1 && 0 <= k <= 100 && v.x == #[trigger] signed_hundredths(t, k);
        assert(f == signed_hundredths(1, k));
    }
    f
}

/// One random draw for a shadow ray: two random numbers of hundredths
/// between 0 and 1, drawn one after the other.
pub fn fresh_draw() -> (draw: ConeDraw)
    ensures
        is_fair(draw),
        0 <= draw.height.raw <= UNIT,
        0 <= draw.turn.raw <= UNIT,
{
    let height = fresh_fraction();
    let turn = fresh_fraction();
    ConeDraw { height, turn }
}

/// Random draws for the shadow rays of one traced ray: one for each of
/// `lights` lights on each of the `MAX_DEPTH` surfaces that it may meet.
pub fn draw_cones(lights: usize) -> (draws: Vec<ConeDraw>)
    ensures
        draws@.len() == MAX_DEPTH * lights,
        all_fair(draws@),
{
    let mut draws: Vec<ConeDraw> = Vec::new();
    let mut level: usize = 0;
    while level < MAX_DEPTH
        invariant
            level <= MAX_DEPTH,
            draws@.len() == level * lights,
            all_fair(draws@),
        decreases MAX_DEPTH - level,
    {
        let mut l: usize = 0;
        while l < lights
            invariant
                l <= lights,
                draws@.len() == level * lights + l,
                all_fair(draws@),
            decreases lights - l,
        {
            draws.push(fresh_draw());
            l += 1;
        }
        assert((level + 1) * lights == level * lights + lights) by (nonlinear_arith);
        level += 1;
    }
    draws
}

} // verus!
