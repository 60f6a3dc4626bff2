//! Materials: what a surface does with the light that reaches it.

use vstd::prelude::*;
use crate::float3::added;
use crate::float3::Color;
use crate::float3::dotted;
use crate::float3::Draw;
use crate::float3::Float3;
use crate::float3::normalized;
use crate::float3::Point3;
use crate::float3::reflected;
use crate::float3::sampled;
use crate::float3::stretched;
use crate::float3::subtracted;
use crate::float3::Vector3;
use crate::kernel::Kernel;
use crate::ray::Ray;
use crate::scalar::Scalar;
use crate::scalar::ZERO_BITS;
use crate::shape::HitInfo;

verus! {

/// A ray that leaves a surface, and the colour by which the light that
/// arrives along it is filtered.
#[derive(Clone, Copy, Debug)]
pub struct ScatterInfo {
    pub ray: Ray,
    pub albedo: Color,
}

impl ScatterInfo {
    fn new(ray: Ray, albedo: Color) -> (r: ScatterInfo)
        ensures
            r == (ScatterInfo { ray, albedo }),
    {
        ScatterInfo { ray, albedo }
    }
}

/// A diffuse surface.
#[derive(Clone, Copy, Debug)]
pub struct Lambertian {
    pub albedo: Color,
}

/// A mirror, blurred by `fuzz`.
#[derive(Clone, Copy, Debug)]
pub struct Metal {
    pub albedo: Color,
    pub fuzz: Scalar,
}

/// A surface that emits light and reflects none.
#[derive(Clone, Copy, Debug)]
pub struct DiffuseLight {
    pub emit: Color,
}

/// The material of a surface.
#[derive(Clone, Copy, Debug)]
pub enum Material {
    Lambertian(Lambertian),
    Metal(Metal),
    DiffuseLight(DiffuseLight),
}

/// The ray that leaves `hit` in the given direction, filtered by `albedo`.
pub open spec fn leaving(hit: HitInfo, direction: Vector3, albedo: Color) -> ScatterInfo {
    ScatterInfo { ray: Ray { origin: hit.p, direction }, albedo }
}

/// The steps to the direction in which a diffuse surface scatters: from
/// the hit point to the point `target` one normal and one `jitter` away
/// from it.
pub open spec fn diffuse_steps<K: Kernel>(
    kernel: K,
    hit: HitInfo,
    draws: Seq<Draw>,
    jitter: Vector3,
    out: Point3,
    target: Point3,
    direction: Vector3,
) -> bool {
    &&& added(kernel, hit.p, hit.n, out)
    &&& sampled(kernel, draws, jitter)
    &&& added(kernel, out, jitter, target)
    &&& subtracted(kernel, target, hit.p, direction)
}

/// `direction` is what `kernel` made of the direction in which a diffuse
/// surface scatters at `hit`: of `p + n + jitter - p`, with `jitter` a
/// random point inside the unit sphere.
pub open spec fn diffused<K: Kernel>(kernel: K, hit: HitInfo, direction: Vector3) -> bool {
    exists|draws: Seq<Draw>, jitter: Vector3, out: Point3, target: Point3| #[trigger]
        diffuse_steps(kernel, hit, draws, jitter, out, target, direction)
}

/// The steps to the direction in which a metal of the given fuzz reflects
/// `ray`: the direction of the ray, brought to unit length and mirrored at
/// the normal, and `jitter` times the fuzz added to it; `facing` is the dot
/// product of the result with the normal.
pub open spec fn mirror_steps<K: Kernel>(
    kernel: K,
    fuzz: Scalar,
    ray: Ray,
    hit: HitInfo,
    unit: Vector3,
    mirrored: Vector3,
    draws: Seq<Draw>,
    jitter: Vector3,
    blur: Vector3,
    direction: Vector3,
    facing: Scalar,
) -> bool {
    &&& normalized(kernel, ray.direction, unit)
    &&& reflected(kernel, unit, hit.n, mirrored)
    &&& sampled(kernel, draws, jitter)
    &&& stretched(kernel, jitter, fuzz, blur)
    &&& added(kernel, mirrored, blur, direction)
    &&& dotted(kernel, direction, hit.n, facing)
}

/// `direction` is what `kernel` made of the direction in which a metal of
/// the given fuzz reflects `ray` at `hit`, with `jitter` a random point
/// inside the unit sphere, and `facing` of its dot product with the normal.
pub open spec fn mirrored<K: Kernel>(
    kernel: K,
    fuzz: Scalar,
    ray: Ray,
    hit: HitInfo,
    direction: Vector3,
    facing: Scalar,
) -> bool {
    exists|unit: Vector3, mirrored: Vector3, draws: Seq<Draw>, jitter: Vector3, blur: Vector3|
        #[trigger] mirror_steps(
            kernel,
            fuzz,
            ray,
            hit,
            unit,
            mirrored,
            draws,
            jitter,
            blur,
            direction,
            facing,
        )
}

impl Lambertian {
    /// A diffuse surface always scatters.
    pub open spec fn scattered(self, direction: Vector3, hit: HitInfo) -> Option<ScatterInfo> {
        Some(leaving(hit, direction, self.albedo))
    }

    /// The diffuse surface of the given colour.
    pub fn new(albedo: Color) -> (r: Lambertian)
        ensures
            r.albedo == albedo,
    {
        Lambertian { albedo }
    }

    /// The scattered ray, given its direction: always one, from the hit
    /// point and filtered by the albedo.
    pub fn decide(&self, direction: Vector3, hit: &HitInfo) -> (r: Option<ScatterInfo>)
        ensures
            r == self.scattered(direction, *hit),
    {
        Some(ScatterInfo::new(Ray::new(hit.p, direction), self.albedo))
    }

    /// The ray scattered at `hit`: always one, from the hit point towards a
    /// random point of the unit sphere that touches the surface there, and
    /// filtered by the albedo.
    pub fn scatter<K: Kernel>(&self, ray: &Ray, hit: &HitInfo, kernel: &K) -> (r: Option<
        ScatterInfo,
    >)
        ensures
            exists|direction: Vector3| #[trigger]
                diffused(*kernel, *hit, direction) && r == self.scattered(direction, *hit),
            r matches Some(s) && s.ray.origin == hit.p && s.albedo == self.albedo,
    {
        let out = hit.p.add(hit.n, kernel);
        let jitter = Float3::random_in_unit_sphere(kernel);
        let target = out.add(jitter, kernel);
        let direction = target.sub(hit.p, kernel);
        proof {
            let draws = choose|draws: Seq<Draw>| #[trigger] sampled(*kernel, draws, jitter);
            assert(diffuse_steps(*kernel, *hit, draws, jitter, out, target, direction));
            assert(diffused(*kernel, *hit, direction));
        }
        self.decide(direction, hit)
    }

    /// A diffuse surface emits nothing.
    pub fn emitted(&self, _ray: &Ray, _hit: &HitInfo) -> (r: Color)
        ensures
            r == Float3::splat(Scalar(ZERO_BITS)),
    {
        Float3::zero()
    }
}

impl Metal {
    /// A metal scatters where the reflected direction points away from the
    /// surface: where its dot product with the normal is above zero.
    pub open spec fn scattered(self, direction: Vector3, facing: Scalar, hit: HitInfo) -> Option<
        ScatterInfo,
    > {
        if Scalar(ZERO_BITS).below(facing) {
            Some(leaving(hit, direction, self.albedo))
        } else {
            None
        }
    }

    /// The metal of the given colour and fuzz.
    pub fn new(albedo: Color, fuzz: Scalar) -> (r: Metal)
        ensures
            r.albedo == albedo,
            r.fuzz == fuzz,
    {
        Metal { albedo, fuzz }
    }

    /// The scattered ray, given the reflected direction and its dot product
    /// with the normal: from the hit point and filtered by the albedo, where
    /// the direction points away from the surface; none where it points into
    /// the surface or along it: the ray is absorbed.
    pub fn decide(&self, direction: Vector3, facing: Scalar, hit: &HitInfo) -> (r: Option<
        ScatterInfo,
    >)
        ensures
            r == self.scattered(direction, facing, *hit),
            r.is_some() <==> Scalar(ZERO_BITS).below(facing),
            facing.at_most(Scalar(ZERO_BITS)) ==> r.is_none(),
    {
        if facing > Scalar::zero() {
            Some(ScatterInfo::new(Ray::new(hit.p, direction), self.albedo))
        } else {
            None
        }
    }

    /// The ray scattered at `hit`: the mirrored ray, blurred by the fuzz,
    /// from the hit point and filtered by the albedo, where it points away
    /// from the surface; none where it does not: the ray is absorbed.
    pub fn scatter<K: Kernel>(&self, ray: &Ray, hit: &HitInfo, kernel: &K) -> (r: Option<
        ScatterInfo,
    >)
        ensures
            exists|direction: Vector3, facing: Scalar| #[trigger]
                mirrored(*kernel, self.fuzz, *ray, *hit, direction, facing) && r == self.scattered(
                    direction,
                    facing,
                    *hit,
                ),
            r matches Some(s) ==> s.ray.origin == hit.p && s.albedo == self.albedo,
    {
        let unit = ray.direction.normalize(kernel);
        let mirror = unit.reflect(hit.n, kernel);
        let jitter = Float3::random_in_unit_sphere(kernel);
        let blur = jitter.mul(self.fuzz, kernel);
        let direction = mirror.add(blur, kernel);
        let facing = direction.dot(hit.n, kernel);
        proof {
            let draws = choose|draws: Seq<Draw>| #[trigger] sampled(*kernel, draws, jitter);
            assert(mirror_steps(
                *kernel,
                self.fuzz,
                *ray,
                *hit,
                unit,
                mirror,
                draws,
                jitter,
                blur,
                direction,
                facing,
            ));
            assert(mirrored(*kernel, self.fuzz, *ray, *hit, direction, facing));
        }
        self.decide(direction, facing, hit)
    }

    /// A metal emits nothing.
    pub fn emitted(&self, _ray: &Ray, _hit: &HitInfo) -> (r: Color)
        ensures
            r == Float3::splat(Scalar(ZERO_BITS)),
    {
        Float3::zero()
    }
}

impl DiffuseLight {
    /// The light of the given emission.
    pub fn new(emit: Color) -> (r: DiffuseLight)
        ensures
            r.emit == emit,
    {
        DiffuseLight { emit }
    }

    /// A light never scatters, and nothing is asked of the kernel.
    pub fn scatter<K: Kernel>(&self, _ray: &Ray, _hit: &HitInfo, _kernel: &K) -> (r: Option<
        ScatterInfo,
    >)
        ensures
            r.is_none(),
    {
        None
    }

    /// The emission, whatever the ray and the hit.
    pub fn emitted(&self, _ray: &Ray, _hit: &HitInfo) -> (r: Color)
        ensures
            r == self.emit,
    {
        self.emit
    }
}

impl Material {
    /// The light the material emits: that of a light, and black otherwise.
    pub open spec fn emission(self) -> Color {
        match self {
            Material::DiffuseLight(m) => m.emit,
            _ => Float3::splat(Scalar(ZERO_BITS)),
        }
    }

    /// `scatter` is what the material makes of `ray` at `hit` with the help
    /// of `kernel`: a light scatters nothing; a diffuse surface and a metal
    /// scatter what they make of the direction that the kernel comes to.
    pub open spec fn scatters<K: Kernel>(
        self,
        kernel: K,
        ray: Ray,
        hit: HitInfo,
        scatter: Option<ScatterInfo>,
    ) -> bool {
        match self {
            Material::Lambertian(m) => exists|direction: Vector3| #[trigger]
                diffused(kernel, hit, direction) && scatter == m.scattered(direction, hit),
            Material::Metal(m) => exists|direction: Vector3, facing: Scalar| #[trigger]
                mirrored(kernel, m.fuzz, ray, hit, direction, facing) && scatter == m.scattered(
                    direction,
                    facing,
                    hit,
                ),
            Material::DiffuseLight(_) => scatter.is_none(),
        }
    }

    /// The ray scattered at `hit` and its attenuation, or none where the ray
    /// is absorbed.
    pub fn scatter<K: Kernel>(&self, ray: &Ray, hit: &HitInfo, kernel: &K) -> (r: Option<
        ScatterInfo,
    >)
        ensures
            self.scatters(*kernel, *ray, *hit, r),
            r matches Some(s) ==> s.ray.origin == hit.p,
    {
        match self {
            Material::Lambertian(m) => m.scatter(ray, hit, kernel),
            Material::Metal(m) => m.scatter(ray, hit, kernel),
            Material::DiffuseLight(m) => m.scatter(ray, hit, kernel),
        }
    }

    /// The light emitted towards the ray.
    pub fn emitted(&self, ray: &Ray, hit: &HitInfo) -> (r: Color)
        ensures
            r == self.emission(),
    {
        match self {
            Material::Lambertian(m) => m.emitted(ray, hit),
            Material::Metal(m) => m.emitted(ray, hit),
            Material::DiffuseLight(m) => m.emitted(ray, hit),
        }
    }
}

} // verus!
