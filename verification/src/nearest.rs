//! What the scan of a list of shapes finds: a hit within the bounds, and the
//! nearest of all that its members have.

use vstd::prelude::*;
use crate::probe::Probe;
use crate::scalar::Scalar;
use crate::shape::crossing;
use crate::shape::HitInfo;
use crate::shape::limit;
use crate::shape::nearest;
use crate::shape::scan;
use crate::shape::Shape;
use crate::shape::within;

verus! {

/// A hit lies strictly within the bounds it was looked for in.
pub proof fn hit_lies_within(shape: Shape, probe: Probe, t_min: Scalar, t_max: Scalar)
    ensures
        crossing(shape, probe, t_min, t_max) matches Some(h) ==> within(h.t, t_min, t_max),
    decreases shape, 0nat,
{
    reveal_with_fuel(crossing, 2);
    match (shape, probe) {
        (Shape::Box3D(b), Probe::Group(ps)) => {
            scan_lies_within(b.shapes.objects@, ps@, t_min, t_max, b.shapes.objects@.len());
        },
        (Shape::List(l), Probe::Group(ps)) => {
            scan_lies_within(l.objects@, ps@, t_min, t_max, l.objects@.len());
        },
        (Shape::FlipFace(inner), p) => {
            hit_lies_within(*inner, p, t_min, t_max);
        },
        _ => {},
    }
}

/// The best hit among the first `n` members lies strictly within the bounds.
pub proof fn scan_lies_within(
    objects: Seq<Shape>,
    probes: Seq<Probe>,
    t_min: Scalar,
    t_max: Scalar,
    n: nat,
)
    ensures
        scan(objects, probes, t_min, t_max, n) matches Some(h) ==> within(h.t, t_min, t_max),
    decreases objects, n,
{
    if n == 0 || n > objects.len() || n > probes.len() {
    } else {
        let best = scan(objects, probes, t_min, t_max, (n - 1) as nat);
        scan_lies_within(objects, probes, t_min, t_max, (n - 1) as nat);
        hit_lies_within(objects[n - 1], probes[n - 1], t_min, limit(best, t_max));
    }
}

/// Lowering the upper bound loses no nearer hit: where a shape has a hit
/// below `high`, then below any `low <= high` it has a hit that is no
/// farther, or else `low` itself is no farther. And a hit below `low` means
/// a hit below `high`.
pub proof fn lower_bound_keeps_nearer(
    shape: Shape,
    probe: Probe,
    t_min: Scalar,
    low: Scalar,
    high: Scalar,
)
    requires
        low.at_most(high),
    ensures
        crossing(shape, probe, t_min, high) matches Some(h) ==> limit(
            crossing(shape, probe, t_min, low),
            low,
        ).at_most(h.t),
        crossing(shape, probe, t_min, low).is_some() ==> crossing(
            shape,
            probe,
            t_min,
            high,
        ).is_some(),
    decreases shape, 0nat,
{
    reveal_with_fuel(crossing, 2);
    match (shape, probe) {
        (Shape::Box3D(b), Probe::Group(ps)) => {
            if b.shapes.objects@.len() == ps@.len() {
                lower_bound_keeps_nearer_scan(
                    b.shapes.objects@,
                    ps@,
                    t_min,
                    low,
                    high,
                    b.shapes.objects@.len(),
                );
            }
        },
        (Shape::List(l), Probe::Group(ps)) => {
            if l.objects@.len() == ps@.len() {
                lower_bound_keeps_nearer_scan(l.objects@, ps@, t_min, low, high, l.objects@.len());
            }
        },
        (Shape::FlipFace(inner), p) => {
            lower_bound_keeps_nearer(*inner, p, t_min, low, high);
        },
        _ => {},
    }
}

/// The same of the best hit among the first `n` members of a list.
pub proof fn lower_bound_keeps_nearer_scan(
    objects: Seq<Shape>,
    probes: Seq<Probe>,
    t_min: Scalar,
    low: Scalar,
    high: Scalar,
    n: nat,
)
    requires
        low.at_most(high),
    ensures
        scan(objects, probes, t_min, high, n) matches Some(h) ==> limit(
            scan(objects, probes, t_min, low, n),
            low,
        ).at_most(h.t),
        scan(objects, probes, t_min, low, n).is_some() ==> scan(
            objects,
            probes,
            t_min,
            high,
            n,
        ).is_some(),
    decreases objects, n,
{
    if n == 0 || n > objects.len() || n > probes.len() {
    } else {
        let m = (n - 1) as nat;
        let best_low = scan(objects, probes, t_min, low, m);
        let best_high = scan(objects, probes, t_min, high, m);
        lower_bound_keeps_nearer_scan(objects, probes, t_min, low, high, m);
        scan_lies_within(objects, probes, t_min, low, m);
        scan_lies_within(objects, probes, t_min, high, m);
        let l = limit(best_low, low);
        let h = limit(best_high, high);
        assert(l.at_most(h));
        lower_bound_keeps_nearer(objects[n - 1], probes[n - 1], t_min, l, h);
        hit_lies_within(objects[n - 1], probes[n - 1], t_min, l);
        hit_lies_within(objects[n - 1], probes[n - 1], t_min, h);
    }
}

/// Scanning further never moves the best hit away: once the first `m`
/// members have a hit, the first `n >= m` have one that is no farther.
pub proof fn scan_only_nears(
    objects: Seq<Shape>,
    probes: Seq<Probe>,
    t_min: Scalar,
    t_max: Scalar,
    m: nat,
    n: nat,
)
    requires
        m <= n <= objects.len(),
        objects.len() == probes.len(),
    ensures
        scan(objects, probes, t_min, t_max, m) matches Some(before) ==> (scan(
            objects,
            probes,
            t_min,
            t_max,
            n,
        ) matches Some(after) && after.t.at_most(before.t)),
    decreases n,
{
    if m < n {
        let k = (n - 1) as nat;
        scan_only_nears(objects, probes, t_min, t_max, m, k);
        scan_lies_within(objects, probes, t_min, t_max, m);
        scan_lies_within(objects, probes, t_min, t_max, k);
        hit_lies_within(
            objects[n - 1],
            probes[n - 1],
            t_min,
            limit(scan(objects, probes, t_min, t_max, k), t_max),
        );
    } else {
        scan_lies_within(objects, probes, t_min, t_max, m);
    }
}

/// The hit of a list is the nearest its members have: it is no farther than
/// the hit that any one member has when tried alone within the same bounds.
pub proof fn list_hit_is_nearest(
    objects: Seq<Shape>,
    probes: Seq<Probe>,
    t_min: Scalar,
    t_max: Scalar,
    i: int,
)
    requires
        objects.len() == probes.len(),
        0 <= i < objects.len(),
    ensures
        crossing(objects[i], probes[i], t_min, t_max) matches Some(alone) ==> (nearest(
            objects,
            probes,
            t_min,
            t_max,
        ) matches Some(h) && h.t.at_most(alone.t)),
{
    if let Some(alone) = crossing(objects[i], probes[i], t_min, t_max) {
        let best = scan(objects, probes, t_min, t_max, i as nat);
        let bound = limit(best, t_max);
        hit_lies_within(objects[i], probes[i], t_min, t_max);
        scan_lies_within(objects, probes, t_min, t_max, i as nat);
        assert(bound.at_most(t_max));
        lower_bound_keeps_nearer(objects[i], probes[i], t_min, bound, t_max);
        hit_lies_within(objects[i], probes[i], t_min, bound);
        let next = scan(objects, probes, t_min, t_max, (i + 1) as nat);
        assert(next matches Some(h) && h.t.at_most(alone.t));
        scan_only_nears(objects, probes, t_min, t_max, (i + 1) as nat, objects.len());
    }
}

/// Where the first `n` members of a list have a hit, one of them has one when
/// tried alone within the same bounds.
proof fn scan_hit_is_a_members(
    objects: Seq<Shape>,
    probes: Seq<Probe>,
    t_min: Scalar,
    t_max: Scalar,
    n: nat,
)
    requires
        objects.len() == probes.len(),
        n <= objects.len(),
    ensures
        scan(objects, probes, t_min, t_max, n).is_some() ==> exists|i: int|
            0 <= i < n && (#[trigger] crossing(objects[i], probes[i], t_min, t_max)).is_some(),
    decreases n,
{
    if n > 0 {
        let m = (n - 1) as nat;
        let best = scan(objects, probes, t_min, t_max, m);
        let bound = limit(best, t_max);
        scan_hit_is_a_members(objects, probes, t_min, t_max, m);
        if crossing(objects[n - 1], probes[n - 1], t_min, bound).is_some() {
            hit_lies_within(objects[n - 1], probes[n - 1], t_min, bound);
            scan_lies_within(objects, probes, t_min, t_max, m);
            lower_bound_keeps_nearer(objects[n - 1], probes[n - 1], t_min, bound, t_max);
            assert(crossing(objects[n - 1], probes[n - 1], t_min, t_max).is_some());
        }
    }
}

/// A list has a hit exactly where one of its members has one when tried
/// alone within the same bounds.
pub proof fn list_hit_is_a_members(
    objects: Seq<Shape>,
    probes: Seq<Probe>,
    t_min: Scalar,
    t_max: Scalar,
)
    requires
        objects.len() == probes.len(),
    ensures
        nearest(objects, probes, t_min, t_max).is_some() <==> exists|i: int|
            0 <= i < objects.len() && (#[trigger] crossing(
                objects[i],
                probes[i],
                t_min,
                t_max,
            )).is_some(),
{
    scan_hit_is_a_members(objects, probes, t_min, t_max, objects.len());
    if exists|i: int|
        0 <= i < objects.len() && (#[trigger] crossing(
            objects[i],
            probes[i],
            t_min,
            t_max,
        )).is_some() {
        let i = choose|i: int|
            0 <= i < objects.len() && (#[trigger] crossing(
                objects[i],
                probes[i],
                t_min,
                t_max,
            )).is_some();
        list_hit_is_nearest(objects, probes, t_min, t_max, i);
    }
}

/// The hit, where it lies before `bound`.
pub open spec fn before(hit: Option<HitInfo>, bound: Scalar) -> Option<HitInfo> {
    match hit {
        Some(h) if h.t.below(bound) => Some(h),
        _ => None,
    }
}

/// Lowering the upper bound changes no hit: below `low <= high` a shape has
/// the hit that it has below `high`, where that lies before `low`, and none
/// where it does not.
pub proof fn lower_bound_cuts(shape: Shape, probe: Probe, t_min: Scalar, low: Scalar, high: Scalar)
    requires
        low.at_most(high),
    ensures
        crossing(shape, probe, t_min, low) == before(crossing(shape, probe, t_min, high), low),
    decreases shape, 0nat,
{
    reveal_with_fuel(crossing, 2);
    match (shape, probe) {
        (Shape::Box3D(b), Probe::Group(ps)) => {
            if b.shapes.objects@.len() == ps@.len() {
                lower_bound_cuts_scan(
                    b.shapes.objects@,
                    ps@,
                    t_min,
                    low,
                    high,
                    b.shapes.objects@.len(),
                );
            }
        },
        (Shape::List(l), Probe::Group(ps)) => {
            if l.objects@.len() == ps@.len() {
                lower_bound_cuts_scan(l.objects@, ps@, t_min, low, high, l.objects@.len());
            }
        },
        (Shape::FlipFace(inner), p) => {
            lower_bound_cuts(*inner, p, t_min, low, high);
        },
        _ => {},
    }
}

/// The same of the best hit among the first `n` members of a list.
pub proof fn lower_bound_cuts_scan(
    objects: Seq<Shape>,
    probes: Seq<Probe>,
    t_min: Scalar,
    low: Scalar,
    high: Scalar,
    n: nat,
)
    requires
        low.at_most(high),
    ensures
        scan(objects, probes, t_min, low, n) == before(
            scan(objects, probes, t_min, high, n),
            low,
        ),
    decreases objects, n,
{
    if n == 0 || n > objects.len() || n > probes.len() {
    } else {
        let m = (n - 1) as nat;
        let best_low = scan(objects, probes, t_min, low, m);
        let best_high = scan(objects, probes, t_min, high, m);
        lower_bound_cuts_scan(objects, probes, t_min, low, high, m);
        scan_lies_within(objects, probes, t_min, high, m);
        let l = limit(best_low, low);
        let h = limit(best_high, high);
        hit_lies_within(objects[n - 1], probes[n - 1], t_min, h);
        if l != h {
            lower_bound_cuts(objects[n - 1], probes[n - 1], t_min, l, h);
        }
    }
}

/// `hit` is the first of the nearest among the first `n` members: it is the
/// hit that the member at `i` has when tried alone within the bounds, no
/// member's hit is nearer, and every earlier member's hit is farther.
pub open spec fn first_nearest(
    objects: Seq<Shape>,
    probes: Seq<Probe>,
    t_min: Scalar,
    t_max: Scalar,
    n: nat,
    i: int,
    hit: HitInfo,
) -> bool {
    &&& 0 <= i < n
    &&& crossing(objects[i], probes[i], t_min, t_max) == Some(hit)
    &&& forall|j: int|
        0 <= j < n ==> (#[trigger] crossing(objects[j], probes[j], t_min, t_max) matches Some(
            other,
        ) ==> hit.t.at_most(other.t))
    &&& forall|j: int|
        0 <= j < i ==> (#[trigger] crossing(objects[j], probes[j], t_min, t_max) matches Some(
            other,
        ) ==> hit.t.below(other.t))
}

/// The best hit among the first `n` members is the first of the nearest
/// among them, and there is none only where none of them has a hit.
proof fn scan_hit_is_first_nearest(
    objects: Seq<Shape>,
    probes: Seq<Probe>,
    t_min: Scalar,
    t_max: Scalar,
    n: nat,
)
    requires
        objects.len() == probes.len(),
        n <= objects.len(),
    ensures
        match scan(objects, probes, t_min, t_max, n) {
            Some(h) => exists|i: int| #[trigger]
                first_nearest(objects, probes, t_min, t_max, n, i, h),
            None => forall|j: int|
                0 <= j < n ==> (#[trigger] crossing(objects[j], probes[j], t_min, t_max)).is_none(),
        },
    decreases n,
{
    if n > 0 {
        let m = (n - 1) as nat;
        let best = scan(objects, probes, t_min, t_max, m);
        let bound = limit(best, t_max);
        let alone = crossing(objects[n - 1], probes[n - 1], t_min, t_max);
        scan_hit_is_first_nearest(objects, probes, t_min, t_max, m);
        scan_lies_within(objects, probes, t_min, t_max, m);
        hit_lies_within(objects[n - 1], probes[n - 1], t_min, t_max);
        if bound != t_max {
            lower_bound_cuts(objects[n - 1], probes[n - 1], t_min, bound, t_max);
        }
        assert(crossing(objects[n - 1], probes[n - 1], t_min, bound) == before(alone, bound));
        match scan(objects, probes, t_min, t_max, n) {
            Some(h) => {
                if before(alone, bound).is_some() {
                    assert(first_nearest(objects, probes, t_min, t_max, n, n - 1, h));
                } else {
                    let i = choose|i: int| #[trigger]
                        first_nearest(objects, probes, t_min, t_max, m, i, h);
                    assert(first_nearest(objects, probes, t_min, t_max, n, i, h));
                }
            },
            None => {},
        }
    }
}

/// `hit` is what a list of shapes has to give: the first of the nearest hits
/// that its members have when tried alone within the bounds, and none only
/// where no member has a hit.
pub open spec fn first_of_nearest(
    objects: Seq<Shape>,
    probes: Seq<Probe>,
    t_min: Scalar,
    t_max: Scalar,
    hit: Option<HitInfo>,
) -> bool {
    match hit {
        Some(h) => exists|i: int| #[trigger]
            first_nearest(objects, probes, t_min, t_max, objects.len(), i, h),
        None => forall|j: int|
            0 <= j < objects.len() ==> (#[trigger] crossing(
                objects[j],
                probes[j],
                t_min,
                t_max,
            )).is_none(),
    }
}

/// The hit of a list is the first of the nearest: it is the hit that one
/// member has when tried alone within the same bounds, no member's hit is
/// nearer, and every earlier member's hit is farther. So the parameter of
/// the hit does not depend on the order of the members, and of two members
/// hit at one parameter the earlier one is hit. A list has no hit only
/// where no member has one.
pub proof fn list_hit_is_first_nearest(
    objects: Seq<Shape>,
    probes: Seq<Probe>,
    t_min: Scalar,
    t_max: Scalar,
)
    requires
        objects.len() == probes.len(),
    ensures
        first_of_nearest(objects, probes, t_min, t_max, nearest(objects, probes, t_min, t_max)),
{
    scan_hit_is_first_nearest(objects, probes, t_min, t_max, objects.len());
}

} // verus!
