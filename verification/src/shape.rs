//! Shapes, and which of a ray's crossings with them counts as the hit.

use vstd::prelude::*;
use core::ops::Neg;
use crate::float3::Float3;
use crate::float3::Point3;
use crate::float3::Vector3;
use crate::kernel::Kernel;
use crate::nearest::first_of_nearest;
use crate::nearest::hit_lies_within;
use crate::nearest::list_hit_is_first_nearest;
use crate::nearest::list_hit_is_nearest;
use crate::nearest::scan_lies_within;
use crate::probe::all_probed;
use crate::probe::Crossing;
use crate::probe::Probe;
use crate::probe::probed;
use crate::probe::rect_probed;
use crate::probe::RectProbe;
use crate::probe::sphere_probed;
use crate::probe::SphereProbe;
use crate::ray::Ray;
use crate::render::Material;
use crate::scalar::MINUS_ONE_BITS;
use crate::scalar::ONE_BITS;
use crate::scalar::Scalar;
use crate::scalar::ZERO_BITS;

verus! {

/// A hit: the ray parameter, the point, the surface normal there (of unit
/// length, not always facing outwards) and the material.
#[derive(Clone, Copy, Debug)]
pub struct HitInfo {
    pub t: Scalar,
    pub p: Point3,
    pub n: Vector3,
    pub m: Material,
}

impl HitInfo {
    fn new(t: Scalar, p: Point3, n: Vector3, m: Material) -> (r: HitInfo)
        ensures
            r == (HitInfo { t, p, n, m }),
    {
        HitInfo { t, p, n, m }
    }
}

/// A sphere.
#[derive(Clone, Copy, Debug)]
pub struct Sphere {
    pub center: Point3,
    pub radius: Scalar,
    pub material: Material,
}

/// The plane an axis-aligned rectangle lies in.
#[derive(Clone, Copy, Debug)]
pub enum RectAxisType {
    XY,
    XZ,
    YZ,
}

/// An axis-aligned rectangle: its bounds within its plane, the plane's third
/// coordinate `k`, and the normal it gives a hit.
#[derive(Clone, Copy, Debug)]
pub struct Rect {
    pub x0: Scalar,
    pub x1: Scalar,
    pub y0: Scalar,
    pub y1: Scalar,
    pub k: Scalar,
    pub axis: RectAxisType,
    pub n: Vector3,
    pub material: Material,
}

/// Shapes in the order in which they are scanned.
#[derive(Debug)]
pub struct ShapeList {
    pub objects: Vec<Shape>,
}

/// An axis-aligned box: two opposite corners and its six faces.
#[derive(Debug)]
pub struct Box3D {
    pub p0: Point3,
    pub p1: Point3,
    pub shapes: ShapeList,
}

/// Anything a ray can hit.
#[derive(Debug)]
pub enum Shape {
    Sphere(Sphere),
    Rect(Rect),
    Box3D(Box3D),
    FlipFace(Box<Shape>),
    List(ShapeList),
}

/// `t` lies strictly between the two bounds.
pub open spec fn within(t: Scalar, t_min: Scalar, t_max: Scalar) -> bool {
    t_min.below(t) && t.below(t_max)
}

/// The hit at a crossing of a surface of material `m`.
pub open spec fn hit_at(c: Crossing, m: Material) -> HitInfo {
    HitInfo { t: c.t, p: c.p, n: c.n, m }
}

impl Sphere {
    /// The hit of a sphere: where the discriminant is zero or above, so that
    /// the quadratic has real roots, the smallest root that lies within the
    /// bounds, and of two such roots that are equal the nearer one. Where the
    /// discriminant is below zero or a NaN, none.
    pub open spec fn crossing(self, probe: SphereProbe, t_min: Scalar, t_max: Scalar) -> Option<
        HitInfo,
    > {
        let near = within(probe.near.t, t_min, t_max);
        let far = within(probe.far.t, t_min, t_max);
        if !Scalar(ZERO_BITS).at_most(probe.d) {
            None
        } else if near && !(far && probe.far.t.below(probe.near.t)) {
            Some(hit_at(probe.near, self.material))
        } else if far {
            Some(hit_at(probe.far, self.material))
        } else {
            None
        }
    }
}

impl Rect {
    /// The components of `v` in the order in which the rectangle reads them:
    /// the two that span its plane, then the one across it.
    pub open spec fn localized(self, v: Float3) -> Float3 {
        match self.axis {
            RectAxisType::XY => v,
            RectAxisType::XZ => Float3 { x: v.x, y: v.z, z: v.y },
            RectAxisType::YZ => Float3 { x: v.y, y: v.z, z: v.x },
        }
    }

    /// Neither of the coordinates that `p` has within the plane lies outside
    /// the bounds of the rectangle.
    pub open spec fn covers(self, p: Point3) -> bool {
        let q = self.localized(p);
        !(q.x.below(self.x0) || self.x1.below(q.x) || q.y.below(self.y0) || self.y1.below(q.y))
    }

    /// The hit of a rectangle: the crossing with its plane, where the
    /// parameter lies within the bounds and the point on the rectangle.
    pub open spec fn crossing(self, probe: RectProbe, t_min: Scalar, t_max: Scalar) -> Option<
        HitInfo,
    > {
        if within(probe.t, t_min, t_max) && self.covers(probe.p) {
            Some(HitInfo { t: probe.t, p: probe.p, n: self.n, m: self.material })
        } else {
            None
        }
    }
}

/// The hit with its normal turned round.
pub open spec fn flipped(hit: Option<HitInfo>) -> Option<HitInfo> {
    match hit {
        Some(h) => Some(HitInfo { t: h.t, p: h.p, n: h.n.negated(), m: h.m }),
        None => None,
    }
}

/// The upper bound that is left once `best` was found.
pub open spec fn limit(best: Option<HitInfo>, t_max: Scalar) -> Scalar {
    match best {
        Some(h) => h.t,
        None => t_max,
    }
}

/// The hit of a shape, given what the ray meets of it; a probe that is laid
/// out otherwise than the shape meets nothing.
pub open spec fn crossing(shape: Shape, probe: Probe, t_min: Scalar, t_max: Scalar) -> Option<
    HitInfo,
>
    decreases shape, 0nat,
{
    match (shape, probe) {
        (Shape::Sphere(s), Probe::Sphere(p)) => s.crossing(p, t_min, t_max),
        (Shape::Rect(r), Probe::Rect(p)) => r.crossing(p, t_min, t_max),
        (Shape::Box3D(b), Probe::Group(ps)) => nearest(b.shapes.objects@, ps@, t_min, t_max),
        (Shape::List(l), Probe::Group(ps)) => nearest(l.objects@, ps@, t_min, t_max),
        (Shape::FlipFace(inner), p) => flipped(crossing(*inner, p, t_min, t_max)),
        _ => None,
    }
}

/// The hit of a list of shapes.
pub open spec fn nearest(
    objects: Seq<Shape>,
    probes: Seq<Probe>,
    t_min: Scalar,
    t_max: Scalar,
) -> Option<HitInfo>
    decreases objects, objects.len() + 1,
{
    if objects.len() == probes.len() {
        scan(objects, probes, t_min, t_max, objects.len())
    } else {
        None
    }
}

/// The best hit among the first `n` shapes of a list: each shape is tried
/// within what the best hit before it has left of the bounds, and a hit it
/// then has replaces that one.
pub open spec fn scan(
    objects: Seq<Shape>,
    probes: Seq<Probe>,
    t_min: Scalar,
    t_max: Scalar,
    n: nat,
) -> Option<HitInfo>
    decreases objects, n,
{
    if n == 0 || n > objects.len() || n > probes.len() {
        None
    } else {
        let best = scan(objects, probes, t_min, t_max, (n - 1) as nat);
        match crossing(objects[n - 1], probes[n - 1], t_min, limit(best, t_max)) {
            Some(h) => Some(h),
            None => best,
        }
    }
}

/// No member has, when tried alone within the bounds, a hit that is nearer
/// than `hit`; and where a member has a hit, `hit` is one.
pub open spec fn no_member_nearer(
    objects: Seq<Shape>,
    probes: Seq<Probe>,
    t_min: Scalar,
    t_max: Scalar,
    hit: Option<HitInfo>,
) -> bool {
    forall|i: int|
        0 <= i < objects.len() ==> (#[trigger] crossing(
            objects[i],
            probes[i],
            t_min,
            t_max,
        ) matches Some(alone) ==> hit matches Some(h) && h.t.at_most(alone.t))
}

impl Sphere {
    /// The sphere round `center`.
    pub fn new(center: Point3, radius: Scalar, material: Material) -> (r: Sphere)
        ensures
            r == (Sphere { center, radius, material }),
    {
        Sphere { center, radius, material }
    }

    /// The nearest crossing within the bounds: the smallest root of the
    /// quadratic that lies within them, the nearer root before the farther
    /// where both are equal, and none where the discriminant is below zero
    /// or a NaN. A ray that touches the sphere has a discriminant of zero,
    /// and hits it.
    pub fn decide(&self, probe: &SphereProbe, t_min: Scalar, t_max: Scalar) -> (r: Option<HitInfo>)
        ensures
            r == self.crossing(*probe, t_min, t_max),
            r matches Some(h) ==> within(h.t, t_min, t_max),
            r.is_some() <==> Scalar(ZERO_BITS).at_most(probe.d) && (within(
                probe.near.t,
                t_min,
                t_max,
            ) || within(probe.far.t, t_min, t_max)),
            r matches Some(h) ==> (within(probe.near.t, t_min, t_max) ==> h.t.at_most(
                probe.near.t,
            )) && (within(probe.far.t, t_min, t_max) ==> h.t.at_most(probe.far.t)),
    {
        if probe.d >= Scalar::zero() {
            let near = probe.near.t;
            let far = probe.far.t;
            let near_within = t_min < near && near < t_max;
            let far_within = t_min < far && far < t_max;
            if near_within && !(far_within && far < near) {
                return Some(HitInfo::new(near, probe.near.p, probe.near.n, self.material));
            }
            if far_within {
                return Some(HitInfo::new(far, probe.far.p, probe.far.n, self.material));
            }
        }
        None
    }

    /// The nearest crossing of `ray` with the sphere within the bounds, or
    /// none: what `decide` makes of the probe that the kernel takes.
    pub fn hit<K: Kernel>(&self, ray: &Ray, t_min: Scalar, t_max: Scalar, kernel: &K) -> (r: Option<
        HitInfo,
    >)
        ensures
            exists|probe: SphereProbe| #[trigger]
                sphere_probed(*kernel, self.center, self.radius, *ray, probe) && r
                    == self.crossing(probe, t_min, t_max),
            r matches Some(h) ==> within(h.t, t_min, t_max) && h.m == self.material,
    {
        let probe = self.probe(ray, kernel);
        self.decide(&probe, t_min, t_max)
    }
}

impl Rect {
    /// The components of `v` in the order in which the rectangle reads them:
    /// the two that span its plane, then the one across it.
    pub fn local(&self, v: Float3) -> (r: Float3)
        ensures
            r == self.localized(v),
    {
        match self.axis {
            RectAxisType::XY => v,
            RectAxisType::XZ => Float3::new(v.x(), v.z(), v.y()),
            RectAxisType::YZ => Float3::new(v.y(), v.z(), v.x()),
        }
    }

    /// The crossing with the rectangle's plane, where its parameter lies
    /// within the bounds and its point on the rectangle; the normal given
    /// is the one the rectangle holds.
    pub fn decide(&self, probe: &RectProbe, t0: Scalar, t1: Scalar) -> (r: Option<HitInfo>)
        ensures
            r == self.crossing(*probe, t0, t1),
            r matches Some(h) ==> within(h.t, t0, t1),
    {
        let t = probe.t;
        if !(t0 < t && t < t1) {
            return None;
        }
        let q = self.local(probe.p);
        let x = q.x();
        let y = q.y();
        if x < self.x0 || x > self.x1 || y < self.y0 || y > self.y1 {
            return None;
        }
        Some(HitInfo::new(t, probe.p, self.n, self.material))
    }

    /// The crossing of `ray` with the rectangle within the bounds, or none:
    /// what `decide` makes of the probe that the kernel takes.
    pub fn hit<K: Kernel>(&self, ray: &Ray, t0: Scalar, t1: Scalar, kernel: &K) -> (r: Option<
        HitInfo,
    >)
        ensures
            exists|probe: RectProbe| #[trigger]
                rect_probed(*kernel, *self, *ray, probe) && r == self.crossing(probe, t0, t1),
            r matches Some(h) ==> within(h.t, t0, t1) && h.n == self.n && h.m == self.material,
    {
        let probe = self.probe(ray, kernel);
        self.decide(&probe, t0, t1)
    }
}

impl ShapeList {
    /// The empty list.
    pub fn new() -> (r: ShapeList)
        ensures
            r.objects@ == Seq::<Shape>::empty(),
    {
        ShapeList { objects: Vec::new() }
    }

    /// Appends `object`.
    pub fn push(&mut self, object: Shape)
        ensures
            final(self).objects@ == old(self).objects@.push(object),
    {
        self.objects.push(object);
    }

    /// The nearest hit of all members within the bounds. Every member is
    /// tried, each within what the best hit so far has left of the bounds, so
    /// of two hits at one parameter the earlier member's stays.
    pub fn decide(&self, probes: &Vec<Probe>, t0: Scalar, t1: Scalar) -> (r: Option<HitInfo>)
        ensures
            r == nearest(self.objects@, probes@, t0, t1),
            r matches Some(h) ==> within(h.t, t0, t1),
            self.objects.len() == probes.len() ==> no_member_nearer(
                self.objects@,
                probes@,
                t0,
                t1,
                r,
            ),
            self.objects.len() == probes.len() ==> first_of_nearest(
                self.objects@,
                probes@,
                t0,
                t1,
                r,
            ),
        decreases *self, 1nat,
    {
        if self.objects.len() != probes.len() {
            return None;
        }
        proof {
            scan_lies_within(self.objects@, probes@, t0, t1, self.objects@.len());
            list_hit_is_first_nearest(self.objects@, probes@, t0, t1);
            assert forall|i: int| 0 <= i < self.objects.len() implies (#[trigger] crossing(
                self.objects[i],
                probes[i],
                t0,
                t1,
            ) matches Some(alone) ==> nearest(self.objects@, probes@, t0, t1) matches Some(h)
                && h.t.at_most(alone.t)) by {
                list_hit_is_nearest(self.objects@, probes@, t0, t1, i);
            }
        }
        let mut hit_info: Option<HitInfo> = None;
        let mut closest_so_far = t1;
        let mut i: usize = 0;
        while i < self.objects.len()
            invariant
                i <= self.objects.len(),
                self.objects.len() == probes.len(),
                hit_info == scan(self.objects@, probes@, t0, t1, i as nat),
                closest_so_far == limit(hit_info, t1),
            decreases self.objects.len() - i,
        {
            if let Some(info) = self.objects[i].decide(&probes[i], t0, closest_so_far) {
                closest_so_far = info.t;
                hit_info = Some(info);
            }
            i += 1;
        }
        hit_info
    }

    /// The nearest hit of `ray` with all members within the bounds, or none:
    /// what `decide` makes of the probes that the kernel takes.
    pub fn hit<K: Kernel>(&self, ray: &Ray, t0: Scalar, t1: Scalar, kernel: &K) -> (r: Option<
        HitInfo,
    >)
        ensures
            exists|probes: Seq<Probe>|
                {
                    &&& #[trigger] all_probed(*kernel, self.objects@, *ray, probes)
                    &&& r == nearest(self.objects@, probes, t0, t1)
                    &&& no_member_nearer(self.objects@, probes, t0, t1, r)
                    &&& first_of_nearest(self.objects@, probes, t0, t1, r)
                },
            r matches Some(h) ==> within(h.t, t0, t1),
    {
        let probes = self.probe(ray, kernel);
        self.decide(&probes, t0, t1)
    }
}

impl Box3D {
    /// The nearest hit of the six faces.
    pub fn decide(&self, probes: &Vec<Probe>, t0: Scalar, t1: Scalar) -> (r: Option<HitInfo>)
        ensures
            r == nearest(self.shapes.objects@, probes@, t0, t1),
            r matches Some(h) ==> within(h.t, t0, t1),
            self.shapes.objects.len() == probes.len() ==> first_of_nearest(
                self.shapes.objects@,
                probes@,
                t0,
                t1,
                r,
            ),
        decreases *self, 2nat,
    {
        self.shapes.decide(probes, t0, t1)
    }

    /// The nearest hit of `ray` with the six faces within the bounds, or
    /// none.
    pub fn hit<K: Kernel>(&self, ray: &Ray, t0: Scalar, t1: Scalar, kernel: &K) -> (r: Option<
        HitInfo,
    >)
        ensures
            exists|probes: Seq<Probe>|
                {
                    &&& #[trigger] all_probed(*kernel, self.shapes.objects@, *ray, probes)
                    &&& r == nearest(self.shapes.objects@, probes, t0, t1)
                    &&& first_of_nearest(self.shapes.objects@, probes, t0, t1, r)
                },
            r matches Some(h) ==> within(h.t, t0, t1),
    {
        self.shapes.hit(ray, t0, t1, kernel)
    }
}

impl Shape {
    /// The nearest hit within the bounds, or none.
    pub fn decide(&self, probe: &Probe, t_min: Scalar, t_max: Scalar) -> (r: Option<HitInfo>)
        ensures
            r == crossing(*self, *probe, t_min, t_max),
            r matches Some(h) ==> within(h.t, t_min, t_max),
        decreases *self, 0nat,
    {
        proof {
            hit_lies_within(*self, *probe, t_min, t_max);
        }
        match self {
            Shape::Sphere(s) => match probe {
                Probe::Sphere(p) => s.decide(p, t_min, t_max),
                _ => None,
            },
            Shape::Rect(r) => match probe {
                Probe::Rect(p) => r.decide(p, t_min, t_max),
                _ => None,
            },
            Shape::Box3D(b) => match probe {
                Probe::Group(ps) => b.decide(ps, t_min, t_max),
                _ => None,
            },
            Shape::List(l) => match probe {
                Probe::Group(ps) => l.decide(ps, t_min, t_max),
                _ => None,
            },
            Shape::FlipFace(inner) => match inner.decide(probe, t_min, t_max) {
                Some(h) => Some(HitInfo::new(h.t, h.p, h.n.neg(), h.m)),
                None => None,
            },
        }
    }

    /// The nearest hit of `ray` with the shape within the bounds, or none:
    /// what `decide` makes of the probe that the kernel takes.
    pub fn hit<K: Kernel>(&self, ray: &Ray, t_min: Scalar, t_max: Scalar, kernel: &K) -> (r: Option<
        HitInfo,
    >)
        ensures
            exists|probe: Probe| #[trigger]
                probed(*kernel, *self, *ray, probe) && r == crossing(*self, probe, t_min, t_max),
            r matches Some(h) ==> within(h.t, t_min, t_max),
    {
        let probe = self.probe(ray, kernel);
        self.decide(&probe, t_min, t_max)
    }
}

/// The rectangle of the given bounds, as a shape.
pub open spec fn face(
    x0: Scalar,
    x1: Scalar,
    y0: Scalar,
    y1: Scalar,
    k: Scalar,
    axis: RectAxisType,
    n: Vector3,
    material: Material,
) -> Shape {
    Shape::Rect(Rect { x0, x1, y0, y1, k, axis, n, material })
}

/// The vector with the given bits.
pub open spec fn vector(x: u64, y: u64, z: u64) -> Float3 {
    Float3 { x: Scalar(x), y: Scalar(y), z: Scalar(z) }
}

/// The six faces of the box between the corners `p0` and `p1`: for each
/// plane the face at `p1`, then the one at `p0`. Each face carries the
/// normal that points out of the box: along the axis across its plane, in
/// the direction of that axis at `p1` and against it at `p0`.
pub open spec fn box_faces(p0: Point3, p1: Point3, material: Material) -> Seq<Shape> {
    seq![
        face(p0.x, p1.x, p0.y, p1.y, p1.z, RectAxisType::XY, vector(0, 0, ONE_BITS), material),
        face(
            p0.x,
            p1.x,
            p0.y,
            p1.y,
            p0.z,
            RectAxisType::XY,
            vector(0, 0, MINUS_ONE_BITS),
            material,
        ),
        face(p0.x, p1.x, p0.z, p1.z, p1.y, RectAxisType::XZ, vector(0, ONE_BITS, 0), material),
        face(
            p0.x,
            p1.x,
            p0.z,
            p1.z,
            p0.y,
            RectAxisType::XZ,
            vector(0, MINUS_ONE_BITS, 0),
            material,
        ),
        face(p0.y, p1.y, p0.z, p1.z, p1.x, RectAxisType::YZ, vector(ONE_BITS, 0, 0), material),
        face(
            p0.y,
            p1.y,
            p0.z,
            p1.z,
            p0.x,
            RectAxisType::YZ,
            vector(MINUS_ONE_BITS, 0, 0),
            material,
        ),
    ]
}

impl Box3D {
    /// The box between two opposite corners, all of one material.
    pub fn new(p0: Point3, p1: Point3, material: Material) -> (r: Box3D)
        ensures
            r.p0 == p0,
            r.p1 == p1,
            r.shapes.objects@ == box_faces(p0, p1, material),
    {
        let one = Scalar::one();
        let zero = Scalar::zero();
        let minus_one = Scalar::from_bits(MINUS_ONE_BITS);
        let mut shapes = ShapeList::new();
        shapes.push(
            Shape::Rect(
                Rect {
                    x0: p0.x(),
                    x1: p1.x(),
                    y0: p0.y(),
                    y1: p1.y(),
                    k: p1.z(),
                    axis: RectAxisType::XY,
                    n: Float3::new(zero, zero, one),
                    material,
                },
            ),
        );
        shapes.push(
            Shape::Rect(
                Rect {
                    x0: p0.x(),
                    x1: p1.x(),
                    y0: p0.y(),
                    y1: p1.y(),
                    k: p0.z(),
                    axis: RectAxisType::XY,
                    n: Float3::new(zero, zero, minus_one),
                    material,
                },
            ),
        );
        shapes.push(
            Shape::Rect(
                Rect {
                    x0: p0.x(),
                    x1: p1.x(),
                    y0: p0.z(),
                    y1: p1.z(),
                    k: p1.y(),
                    axis: RectAxisType::XZ,
                    n: Float3::new(zero, one, zero),
                    material,
                },
            ),
        );
        shapes.push(
            Shape::Rect(
                Rect {
                    x0: p0.x(),
                    x1: p1.x(),
                    y0: p0.z(),
                    y1: p1.z(),
                    k: p0.y(),
                    axis: RectAxisType::XZ,
                    n: Float3::new(zero, minus_one, zero),
                    material,
                },
            ),
        );
        shapes.push(
            Shape::Rect(
                Rect {
                    x0: p0.y(),
                    x1: p1.y(),
                    y0: p0.z(),
                    y1: p1.z(),
                    k: p1.x(),
                    axis: RectAxisType::YZ,
                    n: Float3::new(one, zero, zero),
                    material,
                },
            ),
        );
        shapes.push(
            Shape::Rect(
                Rect {
                    x0: p0.y(),
                    x1: p1.y(),
                    y0: p0.z(),
                    y1: p1.z(),
                    k: p0.x(),
                    axis: RectAxisType::YZ,
                    n: Float3::new(minus_one, zero, zero),
                    material,
                },
            ),
        );
        assert(shapes.objects@ =~= box_faces(p0, p1, material));
        Box3D { p0, p1, shapes }
    }
}

} // verus!
