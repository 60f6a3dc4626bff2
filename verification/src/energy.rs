//! Light is not lost to depth: what a path carries is never less than what
//! it would carry if it ended at its first hit.
//!
//! The hypotheses on the kernel hold of arithmetic in double precision as
//! IEEE-754 defines it: a product of two values that are not below zero is
//! not below zero, and neither is their sum, which is not below its second
//! term either.

use vstd::prelude::*;
use crate::float3::Color;
use crate::kernel::is_product;
use crate::kernel::is_sum;
use crate::kernel::Kernel;
use crate::probe::all_probed;
use crate::probe::Probe;
use crate::ray::Ray;
use crate::render::Material;
use crate::render::ScatterInfo;
use crate::sameness::same_nearest;
use crate::sameness::same_scatter;
use crate::sameness::single_valued;
use crate::scalar::MAX_BITS;
use crate::scalar::Scalar;
use crate::scalar::ZERO_BITS;
use crate::scene::lit;
use crate::scene::lit_at;
use crate::scene::lit_past;
use crate::scene::shade_steps;
use crate::scene::shaded;
use crate::scene::SHADOW_EPSILON_BITS;
use crate::scene::SimpleScene;
use crate::scene::unlit;

verus! {

/// No component of `color` is below that of `floor`.
pub open spec fn not_below(color: Color, floor: Color) -> bool {
    !color.x.below(floor.x) && !color.y.below(floor.y) && !color.z.below(floor.z)
}

/// No component of `color` is below zero.
pub open spec fn not_dark(color: Color) -> bool {
    not_below(color, Color::splat(Scalar(ZERO_BITS)))
}

/// The kernel loses no light: of two values that are not below zero neither
/// the product nor the sum is below zero, and the sum of a value that is not
/// below zero and a second one is not below the second.
pub open spec fn keeps_light<K: Kernel>(kernel: K) -> bool {
    &&& forall|a: Scalar, b: Scalar, r: Scalar|
        !a.below(Scalar(ZERO_BITS)) && !b.below(Scalar(ZERO_BITS)) && #[trigger] is_product(
            kernel,
            a,
            b,
            r,
        ) ==> !r.below(Scalar(ZERO_BITS))
    &&& forall|a: Scalar, b: Scalar, r: Scalar|
        !a.below(Scalar(ZERO_BITS)) && !b.below(Scalar(ZERO_BITS)) && #[trigger] is_sum(
            kernel,
            a,
            b,
            r,
        ) ==> !r.below(Scalar(ZERO_BITS))
    &&& forall|a: Scalar, b: Scalar, r: Scalar|
        !a.below(Scalar(ZERO_BITS)) && #[trigger] is_sum(kernel, a, b, r) ==> !r.below(b)
}

/// The material neither emits nor reflects less than nothing.
pub open spec fn gives_light(m: Material) -> bool {
    match m {
        Material::Lambertian(l) => not_dark(l.albedo),
        Material::Metal(l) => not_dark(l.albedo),
        Material::DiffuseLight(l) => not_dark(l.emit),
    }
}

/// Nothing in the scene gives less than no light: not the background, and
/// not the material of any hit.
pub open spec fn gives_no_darkness(scene: SimpleScene) -> bool {
    &&& not_dark(scene.background)
    &&& forall|probes: Seq<Probe>| #[trigger]
        scene.struck(probes) matches Some(h) ==> gives_light(h.m)
}

/// What arrives along a ray is not below zero.
pub proof fn light_is_not_dark<K: Kernel>(
    scene: SimpleScene,
    kernel: K,
    ray: Ray,
    depth: nat,
    color: Color,
)
    requires
        keeps_light(kernel),
        gives_no_darkness(scene),
        lit(scene, kernel, ray, depth, color),
    ensures
        not_dark(color),
    decreases depth,
{
    let probes = choose|probes: Seq<Probe>| #[trigger]
        all_probed(kernel, scene.world.objects@, ray, probes) && lit_at(
            scene,
            kernel,
            ray,
            depth,
            scene.struck(probes),
            color,
        );
    match scene.struck(probes) {
        Some(h) if depth > 0 => {
            let scatter = choose|scatter: Option<ScatterInfo>| #[trigger]
                h.m.scatters(kernel, ray, h, scatter) && lit_past(
                    scene,
                    kernel,
                    (depth - 1) as nat,
                    scatter,
                    h.m.emission(),
                    color,
                );
            if let Some(s) = scatter {
                let incoming = choose|incoming: Color|
                    lit(scene, kernel, s.ray, (depth - 1) as nat, incoming) && #[trigger] shaded(
                        kernel,
                        incoming,
                        s.albedo,
                        h.m.emission(),
                        color,
                    );
                light_is_not_dark(scene, kernel, s.ray, (depth - 1) as nat, incoming);
                let filtered = choose|filtered: Color| #[trigger]
                    shade_steps(kernel, incoming, s.albedo, h.m.emission(), filtered, color);
                assert(not_dark(s.albedo));
                assert(not_dark(filtered));
            }
        },
        _ => {},
    }
}

/// More depth loses no light: whatever the depth, what a path carries is
/// not below what it would carry if it ended where its ray first meets the
/// scene, which is what it carries with no depth at all.
pub proof fn depth_keeps_the_floor<K: Kernel>(
    scene: SimpleScene,
    kernel: K,
    ray: Ray,
    depth: nat,
    color: Color,
)
    requires
        keeps_light(kernel),
        gives_no_darkness(scene),
        lit(scene, kernel, ray, depth, color),
    ensures
        exists|probes: Seq<Probe>| #[trigger]
            all_probed(kernel, scene.world.objects@, ray, probes) && not_below(
                color,
                unlit(scene, scene.struck(probes)),
            ),
{
    let probes = choose|probes: Seq<Probe>| #[trigger]
        all_probed(kernel, scene.world.objects@, ray, probes) && lit_at(
            scene,
            kernel,
            ray,
            depth,
            scene.struck(probes),
            color,
        );
    match scene.struck(probes) {
        Some(h) if depth > 0 => {
            let scatter = choose|scatter: Option<ScatterInfo>| #[trigger]
                h.m.scatters(kernel, ray, h, scatter) && lit_past(
                    scene,
                    kernel,
                    (depth - 1) as nat,
                    scatter,
                    h.m.emission(),
                    color,
                );
            if let Some(s) = scatter {
                let incoming = choose|incoming: Color|
                    lit(scene, kernel, s.ray, (depth - 1) as nat, incoming) && #[trigger] shaded(
                        kernel,
                        incoming,
                        s.albedo,
                        h.m.emission(),
                        color,
                    );
                light_is_not_dark(scene, kernel, s.ray, (depth - 1) as nat, incoming);
                let filtered = choose|filtered: Color| #[trigger]
                    shade_steps(kernel, incoming, s.albedo, h.m.emission(), filtered, color);
                assert(not_dark(s.albedo));
                assert(not_dark(filtered));
            }
        },
        _ => {},
    }
    assert(not_below(color, unlit(scene, scene.struck(probes))));
}

/// The kernel keeps the order of light: a product with a factor that is not
/// below zero, and a sum with any second term, is not below another such
/// product or sum whose first operand is not above.
pub open spec fn keeps_order<K: Kernel>(kernel: K) -> bool {
    &&& forall|a: Scalar, b: Scalar, c: Scalar, r: Scalar, s: Scalar|
        #![trigger is_product(kernel, a, c, r), is_product(kernel, b, c, s)]
        !b.below(a) && !c.below(Scalar(ZERO_BITS)) && is_product(kernel, a, c, r) && is_product(
            kernel,
            b,
            c,
            s,
        ) ==> !s.below(r)
    &&& forall|a: Scalar, b: Scalar, c: Scalar, r: Scalar, s: Scalar|
        #![trigger is_sum(kernel, a, c, r), is_sum(kernel, b, c, s)]
        !b.below(a) && is_sum(kernel, a, c, r) && is_sum(kernel, b, c, s) ==> !s.below(r)
}

/// More depth never darkens: for a kernel that answers every question in
/// one way only, so that both paths see the same draws, and that loses no
/// light and keeps its order, what a path carries with one more scattering
/// left to it is not below what it carries without.
pub proof fn more_depth_never_darkens<K: Kernel>(
    scene: SimpleScene,
    kernel: K,
    ray: Ray,
    depth: nat,
    color: Color,
    deeper: Color,
)
    requires
        single_valued(kernel),
        keeps_light(kernel),
        keeps_order(kernel),
        gives_no_darkness(scene),
        lit(scene, kernel, ray, depth, color),
        lit(scene, kernel, ray, depth + 1, deeper),
    ensures
        not_below(deeper, color),
    decreases depth,
{
    let p = choose|probes: Seq<Probe>| #[trigger]
        all_probed(kernel, scene.world.objects@, ray, probes) && lit_at(
            scene,
            kernel,
            ray,
            depth,
            scene.struck(probes),
            color,
        );
    let q = choose|probes: Seq<Probe>| #[trigger]
        all_probed(kernel, scene.world.objects@, ray, probes) && lit_at(
            scene,
            kernel,
            ray,
            depth + 1,
            scene.struck(probes),
            deeper,
        );
    same_nearest(
        kernel,
        scene.world.objects@,
        ray,
        p,
        q,
        Scalar(SHADOW_EPSILON_BITS),
        Scalar(MAX_BITS),
    );
    assert(scene.struck(p) == scene.struck(q));
    if let Some(h) = scene.struck(p) {
        let e = h.m.emission();
        let t = choose|scatter: Option<ScatterInfo>| #[trigger]
            h.m.scatters(kernel, ray, h, scatter) && lit_past(
                scene,
                kernel,
                depth,
                scatter,
                e,
                deeper,
            );
        if let Some(s) = t {
            let far = choose|incoming: Color|
                lit(scene, kernel, s.ray, depth, incoming) && #[trigger] shaded(
                    kernel,
                    incoming,
                    s.albedo,
                    e,
                    deeper,
                );
            let far_filtered = choose|filtered: Color| #[trigger]
                shade_steps(kernel, far, s.albedo, e, filtered, deeper);
            light_is_not_dark(scene, kernel, s.ray, depth, far);
            assert(not_dark(s.albedo));
            assert(not_dark(far_filtered));
            if depth > 0 {
                let u = choose|scatter: Option<ScatterInfo>| #[trigger]
                    h.m.scatters(kernel, ray, h, scatter) && lit_past(
                        scene,
                        kernel,
                        (depth - 1) as nat,
                        scatter,
                        e,
                        color,
                    );
                same_scatter(kernel, h.m, ray, h, t, u);
                let near = choose|incoming: Color|
                    lit(scene, kernel, s.ray, (depth - 1) as nat, incoming) && #[trigger] shaded(
                        kernel,
                        incoming,
                        s.albedo,
                        e,
                        color,
                    );
                let near_filtered = choose|filtered: Color| #[trigger]
                    shade_steps(kernel, near, s.albedo, e, filtered, color);
                more_depth_never_darkens(scene, kernel, s.ray, (depth - 1) as nat, near, far);
                assert(not_below(far_filtered, near_filtered));
            }
        } else {
            if depth > 0 {
                let u = choose|scatter: Option<ScatterInfo>| #[trigger]
                    h.m.scatters(kernel, ray, h, scatter) && lit_past(
                        scene,
                        kernel,
                        (depth - 1) as nat,
                        scatter,
                        e,
                        color,
                    );
                same_scatter(kernel, h.m, ray, h, t, u);
            }
        }
    }
}

} // verus!
