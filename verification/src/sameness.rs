//! A kernel that answers every question in one way only makes every run of
//! the tracer the same: the same probes, the same hits, the same draws.

use vstd::prelude::*;
use crate::float3::added;
use crate::float3::divided;
use crate::float3::dot_steps;
use crate::float3::dotted;
use crate::float3::Draw;
use crate::float3::drawn;
use crate::float3::Float3;
use crate::float3::measured;
use crate::float3::normalized;
use crate::float3::randomized;
use crate::float3::reflect_steps;
use crate::float3::reflected;
use crate::float3::sampled;
use crate::float3::spread;
use crate::float3::stretched;
use crate::kernel::is_difference;
use crate::kernel::is_product;
use crate::kernel::is_quotient;
use crate::kernel::is_root;
use crate::kernel::is_sum;
use crate::kernel::is_uniform;
use crate::kernel::Kernel;
use crate::probe::all_probed;
use crate::probe::crossed_at;
use crate::probe::Crossing;
use crate::probe::crossing_steps;
use crate::probe::Probe;
use crate::probe::probed;
use crate::probe::rect_probed;
use crate::probe::RectProbe;
use crate::probe::sphere_probed;
use crate::probe::SphereProbe;
use crate::ray::Quadratic;
use crate::ray::quadratic_steps;
use crate::ray::Ray;
use crate::ray::reached;
use crate::ray::solved;
use crate::render::diffuse_steps;
use crate::render::diffused;
use crate::render::Material;
use crate::render::mirror_steps;
use crate::render::mirrored;
use crate::render::ScatterInfo;
use crate::scalar::MINUS_ONE_BITS;
use crate::scalar::ONE_BITS;
use crate::scalar::Scalar;
use crate::shape::crossing;
use crate::shape::HitInfo;
use crate::shape::limit;
use crate::shape::nearest;
use crate::shape::Rect;
use crate::shape::scan;
use crate::shape::Shape;

verus! {

/// The kernel answers every question in one way only: two sums of the same
/// terms are the same, and so on for differences, products, quotients and
/// roots; and every number it draws is the same.
pub open spec fn single_valued<K: Kernel>(kernel: K) -> bool {
    &&& forall|a: Scalar, b: Scalar, r: Scalar, s: Scalar|
        #![trigger is_sum(kernel, a, b, r), is_sum(kernel, a, b, s)]
        is_sum(kernel, a, b, r) && is_sum(kernel, a, b, s) ==> r == s
    &&& forall|a: Scalar, b: Scalar, r: Scalar, s: Scalar|
        #![trigger is_difference(kernel, a, b, r), is_difference(kernel, a, b, s)]
        is_difference(kernel, a, b, r) && is_difference(kernel, a, b, s) ==> r == s
    &&& forall|a: Scalar, b: Scalar, r: Scalar, s: Scalar|
        #![trigger is_product(kernel, a, b, r), is_product(kernel, a, b, s)]
        is_product(kernel, a, b, r) && is_product(kernel, a, b, s) ==> r == s
    &&& forall|a: Scalar, b: Scalar, r: Scalar, s: Scalar|
        #![trigger is_quotient(kernel, a, b, r), is_quotient(kernel, a, b, s)]
        is_quotient(kernel, a, b, r) && is_quotient(kernel, a, b, s) ==> r == s
    &&& forall|a: Scalar, r: Scalar, s: Scalar|
        #![trigger is_root(kernel, a, r), is_root(kernel, a, s)]
        is_root(kernel, a, r) && is_root(kernel, a, s) ==> r == s
    &&& forall|r: Scalar, s: Scalar|
        #![trigger is_uniform(kernel, r), is_uniform(kernel, s)]
        is_uniform(kernel, r) && is_uniform(kernel, s) ==> r == s
}

/// Two dot products of the same vectors are the same.
pub proof fn same_dot<K: Kernel>(kernel: K, a: Float3, b: Float3, r: Scalar, s: Scalar)
    requires
        single_valued(kernel),
        dotted(kernel, a, b, r),
        dotted(kernel, a, b, s),
    ensures
        r == s,
{
    let (p, u) = choose|p: Float3, u: (Scalar, Scalar)| #[trigger] dot_steps(kernel, a, b, p, u, r);
    let (q, v) = choose|q: Float3, v: (Scalar, Scalar)| #[trigger] dot_steps(kernel, a, b, q, v, s);
    assert(p == q);
    assert(u.0 == v.0);
    assert(u.1 == v.1);
}

/// Two points of one ray at the same parameter are the same.
pub proof fn same_point<K: Kernel>(kernel: K, ray: Ray, t: Scalar, p: Float3, q: Float3)
    requires
        single_valued(kernel),
        reached(kernel, ray, t, p),
        reached(kernel, ray, t, q),
    ensures
        p == q,
{
    let a = choose|step: Float3| #[trigger]
        stretched(kernel, ray.direction, t, step) && added(kernel, ray.origin, step, p);
    let b = choose|step: Float3| #[trigger]
        stretched(kernel, ray.direction, t, step) && added(kernel, ray.origin, step, q);
    assert(a == b);
}

/// Two unit vectors of one vector are the same.
pub proof fn same_unit<K: Kernel>(kernel: K, a: Float3, r: Float3, s: Float3)
    requires
        single_valued(kernel),
        normalized(kernel, a, r),
        normalized(kernel, a, s),
    ensures
        r == s,
{
    let m = choose|length: Scalar| #[trigger]
        measured(kernel, a, length) && divided(kernel, a, length, r);
    let n = choose|length: Scalar| #[trigger]
        measured(kernel, a, length) && divided(kernel, a, length, s);
    let x = choose|squared: Scalar| #[trigger]
        dotted(kernel, a, a, squared) && is_root(kernel, squared, m);
    let y = choose|squared: Scalar| #[trigger]
        dotted(kernel, a, a, squared) && is_root(kernel, squared, n);
    same_dot(kernel, a, a, x, y);
    assert(m == n);
}

/// Two mirrorings of one vector at one normal are the same.
pub proof fn same_mirror<K: Kernel>(kernel: K, a: Float3, n: Float3, r: Float3, s: Float3)
    requires
        single_valued(kernel),
        reflected(kernel, a, n, r),
        reflected(kernel, a, n, s),
    ensures
        r == s,
{
    let (t1, d1, b1) = choose|twice: Float3, along: Scalar, back: Float3| #[trigger]
        reflect_steps(kernel, a, n, twice, along, back, r);
    let (t2, d2, b2) = choose|twice: Float3, along: Scalar, back: Float3| #[trigger]
        reflect_steps(kernel, a, n, twice, along, back, s);
    same_dot(kernel, a, n, d1, d2);
    assert(t1 == t2);
    assert(b1 == b2);
}

/// Two quadratics of one ray and one sphere are the same.
pub proof fn same_quadratic<K: Kernel>(
    kernel: K,
    ray: Ray,
    center: Float3,
    radius: Scalar,
    q: Quadratic,
    r: Quadratic,
)
    requires
        single_valued(kernel),
        solved(kernel, ray, center, radius, q),
        solved(kernel, ray, center, radius, r),
    ensures
        q == r,
{
    let (oc1, d1, c1, p1) = choose|
        oc: Float3,
        dots: (Scalar, Scalar, Scalar),
        c: Scalar,
        parts: (Scalar, Scalar, Scalar),
    | #[trigger] quadratic_steps(kernel, ray, center, radius, oc, dots, c, parts, q);
    let (oc2, d2, c2, p2) = choose|
        oc: Float3,
        dots: (Scalar, Scalar, Scalar),
        c: Scalar,
        parts: (Scalar, Scalar, Scalar),
    | #[trigger] quadratic_steps(kernel, ray, center, radius, oc, dots, c, parts, r);
    assert(oc1 == oc2);
    same_dot(kernel, ray.direction, ray.direction, q.a, r.a);
    same_dot(kernel, ray.direction, oc1, d1.0, d2.0);
    same_dot(kernel, oc1, oc1, d1.1, d2.1);
    assert(q.b == r.b);
    assert(d1.2 == d2.2);
    assert(c1 == c2);
    assert(p1.0 == p2.0);
    assert(p1.1 == p2.1);
    assert(p1.2 == p2.2);
    assert(q.d == r.d);
}

/// Two crossings at one root are the same.
pub proof fn same_crossing_at<K: Kernel>(
    kernel: K,
    ray: Ray,
    center: Float3,
    radius: Scalar,
    q: Quadratic,
    root: Scalar,
    far: bool,
    c: Crossing,
    d: Crossing,
)
    requires
        single_valued(kernel),
        crossed_at(kernel, ray, center, radius, q, root, far, c),
        crossed_at(kernel, ray, center, radius, q, root, far, d),
    ensures
        c == d,
{
    let (a1, b1, o1) = choose|above: Scalar, below: Scalar, out: Float3| #[trigger]
        crossing_steps(kernel, ray, center, radius, q, root, far, above, below, out, c);
    let (a2, b2, o2) = choose|above: Scalar, below: Scalar, out: Float3| #[trigger]
        crossing_steps(kernel, ray, center, radius, q, root, far, above, below, out, d);
    assert(a1 == a2);
    assert(b1 == b2);
    assert(c.t == d.t);
    same_point(kernel, ray, c.t, c.p, d.p);
    assert(o1 == o2);
    assert(c.n == d.n);
}

/// Two probes of one ray and one sphere are the same.
pub proof fn same_sphere_probe<K: Kernel>(
    kernel: K,
    center: Float3,
    radius: Scalar,
    ray: Ray,
    p: SphereProbe,
    q: SphereProbe,
)
    requires
        single_valued(kernel),
        sphere_probed(kernel, center, radius, ray, p),
        sphere_probed(kernel, center, radius, ray, q),
    ensures
        p == q,
{
    let (q1, r1) = choose|q1: Quadratic, r1: Scalar|
        #![trigger solved(kernel, ray, center, radius, q1), is_root(kernel, q1.d, r1)]
        {
            &&& solved(kernel, ray, center, radius, q1)
            &&& p.d == q1.d
            &&& is_root(kernel, q1.d, r1)
            &&& crossed_at(kernel, ray, center, radius, q1, r1, false, p.near)
            &&& crossed_at(kernel, ray, center, radius, q1, r1, true, p.far)
        };
    let (q2, r2) = choose|q2: Quadratic, r2: Scalar|
        #![trigger solved(kernel, ray, center, radius, q2), is_root(kernel, q2.d, r2)]
        {
            &&& solved(kernel, ray, center, radius, q2)
            &&& q.d == q2.d
            &&& is_root(kernel, q2.d, r2)
            &&& crossed_at(kernel, ray, center, radius, q2, r2, false, q.near)
            &&& crossed_at(kernel, ray, center, radius, q2, r2, true, q.far)
        };
    same_quadratic(kernel, ray, center, radius, q1, q2);
    assert(r1 == r2);
    same_crossing_at(kernel, ray, center, radius, q1, r1, false, p.near, q.near);
    same_crossing_at(kernel, ray, center, radius, q1, r1, true, p.far, q.far);
}

/// Two probes of one ray and one rectangle are the same.
pub proof fn same_rect_probe<K: Kernel>(kernel: K, rect: Rect, ray: Ray, p: RectProbe, q: RectProbe)
    requires
        single_valued(kernel),
        rect_probed(kernel, rect, ray, p),
        rect_probed(kernel, rect, ray, q),
    ensures
        p == q,
{
    let a = choose|above: Scalar| #[trigger]
        is_difference(kernel, rect.k, rect.localized(ray.origin).z, above) && is_quotient(
            kernel,
            above,
            rect.localized(ray.direction).z,
            p.t,
        ) && reached(kernel, ray, p.t, p.p);
    let b = choose|above: Scalar| #[trigger]
        is_difference(kernel, rect.k, rect.localized(ray.origin).z, above) && is_quotient(
            kernel,
            above,
            rect.localized(ray.direction).z,
            q.t,
        ) && reached(kernel, ray, q.t, q.p);
    assert(a == b);
    assert(p.t == q.t);
    same_point(kernel, ray, p.t, p.p, q.p);
}

/// Two probes of one ray and one shape give the same hit.
pub proof fn same_hit<K: Kernel>(
    kernel: K,
    shape: Shape,
    ray: Ray,
    p: Probe,
    q: Probe,
    t_min: Scalar,
    t_max: Scalar,
)
    requires
        single_valued(kernel),
        probed(kernel, shape, ray, p),
        probed(kernel, shape, ray, q),
    ensures
        crossing(shape, p, t_min, t_max) == crossing(shape, q, t_min, t_max),
    decreases shape, 0nat,
{
    reveal_with_fuel(crossing, 2);
    reveal_with_fuel(probed, 2);
    match (shape, p, q) {
        (Shape::Sphere(s), Probe::Sphere(a), Probe::Sphere(b)) => {
            same_sphere_probe(kernel, s.center, s.radius, ray, a, b);
        },
        (Shape::Rect(r), Probe::Rect(a), Probe::Rect(b)) => {
            same_rect_probe(kernel, r, ray, a, b);
        },
        (Shape::Box3D(x), Probe::Group(a), Probe::Group(b)) => {
            same_scan(
                kernel,
                x.shapes.objects@,
                ray,
                a@,
                b@,
                t_min,
                t_max,
                x.shapes.objects@.len(),
            );
        },
        (Shape::List(l), Probe::Group(a), Probe::Group(b)) => {
            same_scan(kernel, l.objects@, ray, a@, b@, t_min, t_max, l.objects@.len());
        },
        (Shape::FlipFace(inner), a, b) => {
            same_hit(kernel, *inner, ray, a, b, t_min, t_max);
        },
        _ => {},
    }
}

/// Two rows of probes of one ray and one list give the same best hit among
/// the first `n` members.
pub proof fn same_scan<K: Kernel>(
    kernel: K,
    objects: Seq<Shape>,
    ray: Ray,
    p: Seq<Probe>,
    q: Seq<Probe>,
    t_min: Scalar,
    t_max: Scalar,
    n: nat,
)
    requires
        single_valued(kernel),
        all_probed(kernel, objects, ray, p),
        all_probed(kernel, objects, ray, q),
        n <= objects.len(),
    ensures
        scan(objects, p, t_min, t_max, n) == scan(objects, q, t_min, t_max, n),
    decreases objects, n,
{
    if n > 0 {
        let m = (n - 1) as nat;
        same_scan(kernel, objects, ray, p, q, t_min, t_max, m);
        let best = scan(objects, p, t_min, t_max, m);
        same_hit(kernel, objects[n - 1], ray, p[n - 1], q[n - 1], t_min, limit(best, t_max));
    }
}

/// Two rows of probes of one ray and one list give the same hit.
pub proof fn same_nearest<K: Kernel>(
    kernel: K,
    objects: Seq<Shape>,
    ray: Ray,
    p: Seq<Probe>,
    q: Seq<Probe>,
    t_min: Scalar,
    t_max: Scalar,
)
    requires
        single_valued(kernel),
        all_probed(kernel, objects, ray, p),
        all_probed(kernel, objects, ray, q),
    ensures
        nearest(objects, p, t_min, t_max) == nearest(objects, q, t_min, t_max),
{
    same_scan(kernel, objects, ray, p, q, t_min, t_max, objects.len());
}

/// Two draws from the cube are the same.
pub proof fn same_draw<K: Kernel>(kernel: K, a: Draw, b: Draw)
    requires
        single_valued(kernel),
        drawn(kernel, a),
        drawn(kernel, b),
    ensures
        a == b,
{
    let (min, max) = (Scalar(MINUS_ONE_BITS), Scalar(ONE_BITS));
    let u = choose|unit: Float3| #[trigger]
        randomized(kernel, unit) && spread(kernel, unit.x, min, max, a.point.x) && spread(
            kernel,
            unit.y,
            min,
            max,
            a.point.y,
        ) && spread(kernel, unit.z, min, max, a.point.z);
    let v = choose|unit: Float3| #[trigger]
        randomized(kernel, unit) && spread(kernel, unit.x, min, max, b.point.x) && spread(
            kernel,
            unit.y,
            min,
            max,
            b.point.y,
        ) && spread(kernel, unit.z, min, max, b.point.z);
    assert(u == v);
    same_spread(kernel, u.x, min, max, a.point.x, b.point.x);
    same_spread(kernel, u.y, min, max, a.point.y, b.point.y);
    same_spread(kernel, u.z, min, max, a.point.z, b.point.z);
    same_dot(kernel, a.point, a.point, a.length_squared, b.length_squared);
}

/// Two numbers drawn out to one range from one number are the same.
pub proof fn same_spread<K: Kernel>(
    kernel: K,
    x: Scalar,
    min: Scalar,
    max: Scalar,
    r: Scalar,
    s: Scalar,
)
    requires
        single_valued(kernel),
        spread(kernel, x, min, max, r),
        spread(kernel, x, min, max, s),
    ensures
        r == s,
{
    let (w1, p1) = choose|width: Scalar, part: Scalar|
        #![trigger is_difference(kernel, max, min, width), is_product(kernel, x, width, part)]
        is_difference(kernel, max, min, width) && is_product(kernel, x, width, part) && is_sum(
            kernel,
            min,
            part,
            r,
        );
    let (w2, p2) = choose|width: Scalar, part: Scalar|
        #![trigger is_difference(kernel, max, min, width), is_product(kernel, x, width, part)]
        is_difference(kernel, max, min, width) && is_product(kernel, x, width, part) && is_sum(
            kernel,
            min,
            part,
            s,
        );
    assert(w1 == w2);
    assert(p1 == p2);
}

/// Two points that rejection sampling gives are the same.
pub proof fn same_sample<K: Kernel>(
    kernel: K,
    a: Seq<Draw>,
    p: Float3,
    b: Seq<Draw>,
    q: Float3,
)
    requires
        single_valued(kernel),
        sampled(kernel, a, p),
        sampled(kernel, b, q),
    ensures
        p == q,
{
    assert(drawn(kernel, a[a.len() - 1]));
    assert(drawn(kernel, b[b.len() - 1]));
    same_draw(kernel, a.last(), b.last());
}

/// Two directions in which a diffuse surface scatters at one hit are the
/// same.
pub proof fn same_diffusion<K: Kernel>(kernel: K, hit: HitInfo, d: Float3, e: Float3)
    requires
        single_valued(kernel),
        diffused(kernel, hit, d),
        diffused(kernel, hit, e),
    ensures
        d == e,
{
    let (w1, j1, o1, t1) = choose|draws: Seq<Draw>, jitter: Float3, out: Float3, target: Float3|
        #[trigger] diffuse_steps(kernel, hit, draws, jitter, out, target, d);
    let (w2, j2, o2, t2) = choose|draws: Seq<Draw>, jitter: Float3, out: Float3, target: Float3|
        #[trigger] diffuse_steps(kernel, hit, draws, jitter, out, target, e);
    same_sample(kernel, w1, j1, w2, j2);
    assert(o1 == o2);
    assert(t1 == t2);
}

/// Two directions in which a metal reflects one ray at one hit are the
/// same, and so are their dot products with the normal.
pub proof fn same_reflection<K: Kernel>(
    kernel: K,
    fuzz: Scalar,
    ray: Ray,
    hit: HitInfo,
    d: Float3,
    f: Scalar,
    e: Float3,
    g: Scalar,
)
    requires
        single_valued(kernel),
        mirrored(kernel, fuzz, ray, hit, d, f),
        mirrored(kernel, fuzz, ray, hit, e, g),
    ensures
        d == e,
        f == g,
{
    let (u1, m1, w1, j1, b1) = choose|
        unit: Float3,
        mirrored: Float3,
        draws: Seq<Draw>,
        jitter: Float3,
        blur: Float3,
    | #[trigger] mirror_steps(kernel, fuzz, ray, hit, unit, mirrored, draws, jitter, blur, d, f);
    let (u2, m2, w2, j2, b2) = choose|
        unit: Float3,
        mirrored: Float3,
        draws: Seq<Draw>,
        jitter: Float3,
        blur: Float3,
    | #[trigger] mirror_steps(kernel, fuzz, ray, hit, unit, mirrored, draws, jitter, blur, e, g);
    same_unit(kernel, ray.direction, u1, u2);
    same_mirror(kernel, u1, hit.n, m1, m2);
    same_sample(kernel, w1, j1, w2, j2);
    assert(b1 == b2);
    assert(d == e);
    same_dot(kernel, d, hit.n, f, g);
}

/// Two scatterings of one ray at one hit are the same.
pub proof fn same_scatter<K: Kernel>(
    kernel: K,
    m: Material,
    ray: Ray,
    hit: HitInfo,
    a: Option<ScatterInfo>,
    b: Option<ScatterInfo>,
)
    requires
        single_valued(kernel),
        m.scatters(kernel, ray, hit, a),
        m.scatters(kernel, ray, hit, b),
    ensures
        a == b,
{
    match m {
        Material::Lambertian(l) => {
            let d = choose|direction: Float3| #[trigger]
                diffused(kernel, hit, direction) && a == l.scattered(direction, hit);
            let e = choose|direction: Float3| #[trigger]
                diffused(kernel, hit, direction) && b == l.scattered(direction, hit);
            same_diffusion(kernel, hit, d, e);
        },
        Material::Metal(l) => {
            let (d, f) = choose|direction: Float3, facing: Scalar| #[trigger]
                mirrored(kernel, l.fuzz, ray, hit, direction, facing) && a == l.scattered(
                    direction,
                    facing,
                    hit,
                );
            let (e, g) = choose|direction: Float3, facing: Scalar| #[trigger]
                mirrored(kernel, l.fuzz, ray, hit, direction, facing) && b == l.scattered(
                    direction,
                    facing,
                    hit,
                );
            same_reflection(kernel, l.fuzz, ray, hit, d, f, e, g);
        },
        Material::DiffuseLight(_) => {},
    }
}

} // verus!
