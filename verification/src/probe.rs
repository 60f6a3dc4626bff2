//! Probes: what the kernel makes of a ray and a shape, before anything is
//! decided on it.

use vstd::prelude::*;
use core::ops::Neg;
use crate::float3::divided;
use crate::float3::Point3;
use crate::float3::subtracted;
use crate::float3::Vector3;
use crate::kernel::is_difference;
use crate::kernel::is_product;
use crate::kernel::is_quotient;
use crate::kernel::is_root;
use crate::kernel::is_sum;
use crate::kernel::Kernel;
use crate::ray::Quadratic;
use crate::ray::Ray;
use crate::ray::reached;
use crate::ray::solved;
use crate::scalar::Scalar;
use crate::scalar::TWO_BITS;
use crate::shape::Rect;
use crate::shape::Shape;
use crate::shape::ShapeList;
use crate::shape::Sphere;

verus! {

/// A place where a ray meets a surface: the ray parameter, the point and the
/// normal there.
#[derive(Clone, Copy, Debug)]
pub struct Crossing {
    pub t: Scalar,
    pub p: Point3,
    pub n: Vector3,
}

/// What the quadratic of a ray and a sphere gives: its discriminant, and the
/// crossings at its nearer and its farther root.
#[derive(Clone, Copy, Debug)]
pub struct SphereProbe {
    pub d: Scalar,
    pub near: Crossing,
    pub far: Crossing,
}

/// Where a ray meets the plane of a rectangle: the ray parameter and the
/// point.
#[derive(Clone, Copy, Debug)]
pub struct RectProbe {
    pub t: Scalar,
    pub p: Point3,
}

/// What one ray meets of one shape, laid out as the shape is.
#[derive(Debug)]
pub enum Probe {
    Sphere(SphereProbe),
    Rect(RectProbe),
    Group(Vec<Probe>),
}

/// The steps to a crossing of `ray` with the sphere round `center` at a
/// root of their quadratic `q`: the root is `(-b -+ root) / (2 a)`, with
/// `root` the square root of the discriminant; the point is that of the ray
/// there, and the normal is `(point - center) / radius`.
pub open spec fn crossing_steps<K: Kernel>(
    kernel: K,
    ray: Ray,
    center: Point3,
    radius: Scalar,
    q: Quadratic,
    root: Scalar,
    far: bool,
    above: Scalar,
    below: Scalar,
    out: Vector3,
    c: Crossing,
) -> bool {
    &&& if far {
        is_sum(kernel, q.b.negated(), root, above)
    } else {
        is_difference(kernel, q.b.negated(), root, above)
    }
    &&& is_product(kernel, Scalar(TWO_BITS), q.a, below)
    &&& is_quotient(kernel, above, below, c.t)
    &&& reached(kernel, ray, c.t, c.p)
    &&& subtracted(kernel, c.p, center, out)
    &&& divided(kernel, out, radius, c.n)
}

/// `c` is what `kernel` made of the crossing at the nearer or the farther
/// root.
pub open spec fn crossed_at<K: Kernel>(
    kernel: K,
    ray: Ray,
    center: Point3,
    radius: Scalar,
    q: Quadratic,
    root: Scalar,
    far: bool,
    c: Crossing,
) -> bool {
    exists|above: Scalar, below: Scalar, out: Vector3| #[trigger]
        crossing_steps(kernel, ray, center, radius, q, root, far, above, below, out, c)
}

/// `probe` is what `kernel` made of `ray` and the sphere round `center`:
/// the discriminant of their quadratic, and the crossings at its two roots.
pub open spec fn sphere_probed<K: Kernel>(
    kernel: K,
    center: Point3,
    radius: Scalar,
    ray: Ray,
    probe: SphereProbe,
) -> bool {
    exists|q: Quadratic, root: Scalar|
        #![trigger solved(kernel, ray, center, radius, q), is_root(kernel, q.d, root)]
        {
            &&& solved(kernel, ray, center, radius, q)
            &&& probe.d == q.d
            &&& is_root(kernel, q.d, root)
            &&& crossed_at(kernel, ray, center, radius, q, root, false, probe.near)
            &&& crossed_at(kernel, ray, center, radius, q, root, true, probe.far)
        }
}

/// `probe` is what `kernel` made of `ray` and the plane of `rect`: with the
/// origin and the direction of the ray read as the rectangle reads them,
/// the parameter is `(k - origin.z) / direction.z`, and the point is that
/// of the ray there.
pub open spec fn rect_probed<K: Kernel>(kernel: K, rect: Rect, ray: Ray, probe: RectProbe) -> bool {
    exists|above: Scalar| #[trigger]
        is_difference(kernel, rect.k, rect.localized(ray.origin).z, above) && is_quotient(
            kernel,
            above,
            rect.localized(ray.direction).z,
            probe.t,
        ) && reached(kernel, ray, probe.t, probe.p)
}

/// `probe` is what `kernel` made of `ray` and `shape`: it is laid out as the
/// shape is, and holds what the kernel made of each sphere and rectangle.
pub open spec fn probed<K: Kernel>(kernel: K, shape: Shape, ray: Ray, probe: Probe) -> bool
    decreases shape, 0nat,
{
    match (shape, probe) {
        (Shape::Sphere(s), Probe::Sphere(p)) => sphere_probed(kernel, s.center, s.radius, ray, p),
        (Shape::Rect(r), Probe::Rect(p)) => rect_probed(kernel, r, ray, p),
        (Shape::Box3D(b), Probe::Group(ps)) => all_probed(kernel, b.shapes.objects@, ray, ps@),
        (Shape::List(l), Probe::Group(ps)) => all_probed(kernel, l.objects@, ray, ps@),
        (Shape::FlipFace(inner), p) => probed(kernel, *inner, ray, p),
        _ => false,
    }
}

/// `probes` are what `kernel` made of `ray` and each of `objects`, in their
/// order.
pub open spec fn all_probed<K: Kernel>(
    kernel: K,
    objects: Seq<Shape>,
    ray: Ray,
    probes: Seq<Probe>,
) -> bool
    decreases objects, 1nat,
{
    &&& probes.len() == objects.len()
    &&& forall|i: int|
        0 <= i < objects.len() ==> probed(kernel, #[trigger] objects[i], ray, probes[i])
}

impl Sphere {
    /// The crossing of `ray` with the sphere at a root of their quadratic.
    fn meet<K: Kernel>(&self, ray: &Ray, q: &Quadratic, root: Scalar, far: bool, kernel: &K) -> (c:
        Crossing)
        ensures
            crossed_at(*kernel, *ray, self.center, self.radius, *q, root, far, c),
    {
        let above = if far {
            kernel.sum(q.b.neg(), root)
        } else {
            kernel.difference(q.b.neg(), root)
        };
        let below = kernel.product(Scalar::from_bits(TWO_BITS), q.a);
        let t = kernel.quotient(above, below);
        let p = ray.at(t, kernel);
        let out = p.sub(self.center, kernel);
        let c = Crossing { t, p, n: out.div(self.radius, kernel) };
        assert(crossing_steps(
            *kernel,
            *ray,
            self.center,
            self.radius,
            *q,
            root,
            far,
            above,
            below,
            out,
            c,
        ));
        c
    }

    /// What the quadratic of `ray` and the sphere gives: its discriminant,
    /// and the crossings at its nearer and its farther root.
    pub fn probe<K: Kernel>(&self, ray: &Ray, kernel: &K) -> (r: SphereProbe)
        ensures
            sphere_probed(*kernel, self.center, self.radius, *ray, r),
    {
        let q = ray.quadratic(self.center, self.radius, kernel);
        let root = kernel.root(q.d);
        let near = self.meet(ray, &q, root, false, kernel);
        let far = self.meet(ray, &q, root, true, kernel);
        assert(is_root(*kernel, q.d, root));
        SphereProbe { d: q.d, near, far }
    }
}

impl Rect {
    /// Where `ray` meets the plane of the rectangle: the parameter at which
    /// the ray's coordinate across the plane is `k`, and the point of the ray
    /// there.
    pub fn probe<K: Kernel>(&self, ray: &Ray, kernel: &K) -> (r: RectProbe)
        ensures
            rect_probed(*kernel, *self, *ray, r),
    {
        let origin = self.local(ray.origin);
        let direction = self.local(ray.direction);
        let above = kernel.difference(self.k, origin.z());
        let t = kernel.quotient(above, direction.z());
        assert(is_difference(*kernel, self.k, self.localized(ray.origin).z, above));
        RectProbe { t, p: ray.at(t, kernel) }
    }
}

impl ShapeList {
    /// What the kernel makes of `ray` and each member, in their order.
    pub fn probe<K: Kernel>(&self, ray: &Ray, kernel: &K) -> (r: Vec<Probe>)
        ensures
            all_probed(*kernel, self.objects@, *ray, r@),
        decreases *self, 1nat,
    {
        let mut probes: Vec<Probe> = Vec::new();
        let mut i: usize = 0;
        while i < self.objects.len()
            invariant
                i <= self.objects.len(),
                probes.len() == i,
                forall|j: int|
                    0 <= j < i ==> probed(*kernel, #[trigger] self.objects[j], *ray, probes[j]),
            decreases self.objects.len() - i,
        {
            let probe = self.objects[i].probe(ray, kernel);
            probes.push(probe);
            i += 1;
        }
        probes
    }
}

impl Shape {
    /// What the kernel makes of `ray` and the shape: a probe laid out as the
    /// shape is.
    pub fn probe<K: Kernel>(&self, ray: &Ray, kernel: &K) -> (r: Probe)
        ensures
            probed(*kernel, *self, *ray, r),
        decreases *self, 0nat,
    {
        match self {
            Shape::Sphere(s) => Probe::Sphere(s.probe(ray, kernel)),
            Shape::Rect(r) => Probe::Rect(r.probe(ray, kernel)),
            Shape::Box3D(b) => Probe::Group(b.shapes.probe(ray, kernel)),
            Shape::List(l) => Probe::Group(l.probe(ray, kernel)),
            Shape::FlipFace(inner) => inner.probe(ray, kernel),
        }
    }
}

} // verus!
