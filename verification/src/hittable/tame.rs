//! Spheres and rectangles answer alike on an interval and on a part of it.
//!
//! Of the conditions under which the tree answers as the list does, all but
//! one hold of every sphere and every rectangle, for every ray. What is left
//! is that the hits lie inside the box of the object as the slab test sees
//! it, which rounding can break at the very surface of the box.

use vstd::prelude::*;
use crate::fixed::Fixed;
use crate::hittable::aabb::spares;
use crate::hittable::aabb::AABB;
use crate::hittable::bvh_node::build_spec;
use crate::hittable::hittable_list::HittableList;
use crate::hittable::lemma_hit_dispatch;
use crate::hittable::moving_sphere::MovingSphere;
use crate::hittable::nearest::found;
use crate::hittable::nearest::nearest_among;
use crate::hittable::nearest::all_consistent;
use crate::hittable::nearest::consistent;
use crate::hittable::nearest::hits_in_box;
use crate::hittable::nearest::hits_within;
use crate::hittable::nearest::keeps_hits;
use crate::hittable::nearest::nearest_first;
use crate::hittable::nearest::steady;
use crate::hittable::nearest::tame;
use crate::hittable::rect::Rect;
use crate::hittable::sound::list_finds_the_nearest;
use crate::hittable::sound::tree_finds_no_nearer;
use crate::hittable::sphere::lemma_roots_ordered;
use crate::hittable::sphere::sphere_record_spec;
use crate::hittable::sphere::sphere_root_spec;
use crate::hittable::sphere::Sphere;
use crate::hittable::HitRecord;
use crate::hittable::Hittables;
use crate::material::MaterialType;
use crate::ray::Ray;
use crate::sampler::Stream;
use crate::vec3::Vec3;

verus! {

/// A root found on an interval is found again on every part of the interval
/// that spares it.
proof fn lemma_root_kept(
    r: &Ray,
    center: Vec3,
    radius: Fixed,
    lo: Fixed,
    hi: Fixed,
    a: Fixed,
    b: Fixed,
)
    requires
        sphere_root_spec(r, center, radius, lo, hi) is Some,
        spares(lo, hi, a, b, sphere_root_spec(r, center, radius, lo, hi).unwrap()),
    ensures
        sphere_root_spec(r, center, radius, a, b) == sphere_root_spec(r, center, radius, lo, hi),
{
}

/// A root found on a part of an interval is no nearer than the root found on
/// the interval.
proof fn lemma_root_no_nearer(
    r: &Ray,
    center: Vec3,
    radius: Fixed,
    lo: Fixed,
    hi: Fixed,
    a: Fixed,
    b: Fixed,
)
    requires
        lo.raw <= a.raw,
        b.raw <= hi.raw,
        sphere_root_spec(r, center, radius, a, b) is Some,
    ensures
        sphere_root_spec(r, center, radius, lo, hi) is Some,
        sphere_root_spec(r, center, radius, lo, hi).unwrap().raw <= sphere_root_spec(
            r,
            center,
            radius,
            a,
            b,
        ).unwrap().raw,
{
    lemma_roots_ordered(r, center, radius);
}

/// What a sphere with the given centre answers, as a record of its root.
pub open spec fn ball_answer<'a>(
    r: &Ray,
    center: Vec3,
    radius: Fixed,
    mat: &'a MaterialType,
    lo: Fixed,
    hi: Fixed,
) -> Option<HitRecord<'a>> {
    match sphere_root_spec(r, center, radius, lo, hi) {
        Some(t) => Some(sphere_record_spec(r, center, radius, mat, t)),
        None => None,
    }
}

/// An object that answers as a sphere does, whatever the sampler, is
/// consistent.
proof fn lemma_ball_consistent(
    o: &Hittables,
    r: &Ray,
    center: Vec3,
    radius: Fixed,
    mat: &MaterialType,
)
    requires
        forall|lo: Fixed, hi: Fixed, s: Stream| #[trigger]
            o.hit_spec(r, lo, hi, s) == (ball_answer(r, center, radius, mat, lo, hi), s),
    ensures
        consistent(o, r),
        forall|lo: Fixed, hi: Fixed|
            (#[trigger] found(o, r, lo, hi)) is Some ==> lo.raw < found(
                o,
                r,
                lo,
                hi,
            ).unwrap().t.raw < hi.raw,
{
    assert forall|lo: Fixed, hi: Fixed| #[trigger]
        found(o, r, lo, hi) == ball_answer(r, center, radius, mat, lo, hi) by {
        let s: Stream = vstd::pervasive::arbitrary();
        assert(o.hit_spec(r, lo, hi, s) == (ball_answer(r, center, radius, mat, lo, hi), s));
    }
    assert(hits_within(o, r)) by {
        reveal(hits_within);
    }
    assert(steady(o, r)) by {
        reveal(steady);
    }
    assert(keeps_hits(o, r)) by {
        reveal(keeps_hits);
        assert forall|lo: Fixed, hi: Fixed, a: Fixed, b: Fixed|
            (#[trigger] found(o, r, lo, hi)) is Some && spares(
                lo,
                hi,
                a,
                b,
                found(o, r, lo, hi).unwrap().t,
            ) implies #[trigger] found(o, r, a, b) == found(o, r, lo, hi) by {
            lemma_root_kept(r, center, radius, lo, hi, a, b);
        }
    }
    assert(nearest_first(o, r)) by {
        reveal(nearest_first);
        assert forall|lo: Fixed, hi: Fixed, a: Fixed, b: Fixed|
            lo.raw <= a.raw && b.raw <= hi.raw && (#[trigger] found(
                o,
                r,
                a,
                b,
            )) is Some implies (#[trigger] found(o, r, lo, hi)) is Some && found(
            o,
            r,
            lo,
            hi,
        ).unwrap().t.raw <= found(o, r, a, b).unwrap().t.raw && (found(o, r, lo, hi).unwrap().t
            == found(o, r, a, b).unwrap().t ==> found(o, r, lo, hi) == found(o, r, a, b)) by {
            lemma_root_no_nearer(r, center, radius, lo, hi, a, b);
        }
    }
}

/// A sphere is consistent for every ray, and its hits lie strictly inside
/// the interval asked for.
pub proof fn sphere_is_consistent(sphere: Sphere, r: &Ray)
    ensures
        consistent(&Hittables::Sphere(sphere), r),
        forall|lo: Fixed, hi: Fixed|
            (#[trigger] found(&Hittables::Sphere(sphere), r, lo, hi)) is Some ==> lo.raw < found(
                &Hittables::Sphere(sphere),
                r,
                lo,
                hi,
            ).unwrap().t.raw < hi.raw,
{
    let o = Hittables::Sphere(sphere);
    assert forall|lo: Fixed, hi: Fixed, s: Stream| #[trigger]
        o.hit_spec(r, lo, hi, s) == (
            ball_answer(r, sphere.center, sphere.radius, &sphere.mat, lo, hi),
            s,
        ) by {
        lemma_hit_dispatch(&o, r, lo, hi, s);
    }
    lemma_ball_consistent(&o, r, sphere.center, sphere.radius, &sphere.mat);
}

/// A moving sphere is consistent for every ray, and its hits lie strictly
/// inside the interval asked for.
pub proof fn moving_sphere_is_consistent(sphere: MovingSphere, r: &Ray)
    ensures
        consistent(&Hittables::MovingSphere(sphere), r),
        forall|lo: Fixed, hi: Fixed|
            (#[trigger] found(&Hittables::MovingSphere(sphere), r, lo, hi)) is Some ==> lo.raw
                < found(&Hittables::MovingSphere(sphere), r, lo, hi).unwrap().t.raw < hi.raw,
{
    let o = Hittables::MovingSphere(sphere);
    assert forall|lo: Fixed, hi: Fixed, s: Stream| #[trigger]
        o.hit_spec(r, lo, hi, s) == (
            ball_answer(r, sphere.center(r.time), sphere.radius, &sphere.material, lo, hi),
            s,
        ) by {
        lemma_hit_dispatch(&o, r, lo, hi, s);
    }
    lemma_ball_consistent(&o, r, sphere.center(r.time), sphere.radius, &sphere.material);
}

/// A rectangle is consistent for every ray: it draws nothing, its hits lie
/// in the interval asked for, and it answers alike on an interval and on a
/// part of it.
pub proof fn rect_is_consistent(rect: Rect, r: &Ray)
    ensures
        consistent(&Hittables::Rect(rect), r),
{
    let o = Hittables::Rect(rect);
    assert forall|lo: Fixed, hi: Fixed, s: Stream| #[trigger]
        o.hit_spec(r, lo, hi, s) == (rect.hit_spec(r, lo, hi), s) by {
        lemma_hit_dispatch(&o, r, lo, hi, s);
    }
    assert forall|lo: Fixed, hi: Fixed| #[trigger]
        found(&o, r, lo, hi) == rect.hit_spec(r, lo, hi) by {
        let s: Stream = vstd::pervasive::arbitrary();
        assert(o.hit_spec(r, lo, hi, s) == (rect.hit_spec(r, lo, hi), s));
    }
    assert(steady(&o, r)) by {
        reveal(steady);
    }
    assert(hits_within(&o, r)) by {
        reveal(hits_within);
    }
    assert(keeps_hits(&o, r)) by {
        reveal(keeps_hits);
        assert forall|lo: Fixed, hi: Fixed, a: Fixed, b: Fixed|
            (#[trigger] found(&o, r, lo, hi)) is Some && spares(
                lo,
                hi,
                a,
                b,
                found(&o, r, lo, hi).unwrap().t,
            ) implies #[trigger] found(&o, r, a, b) == found(&o, r, lo, hi) by {
            assert(rect.hits(r, lo, hi));
            assert(rect.hits(r, a, b));
        }
    }
    assert(nearest_first(&o, r)) by {
        reveal(nearest_first);
        assert forall|lo: Fixed, hi: Fixed, a: Fixed, b: Fixed|
            lo.raw <= a.raw && b.raw <= hi.raw && (#[trigger] found(
                &o,
                r,
                a,
                b,
            )) is Some implies (#[trigger] found(&o, r, lo, hi)) is Some && found(
            &o,
            r,
            lo,
            hi,
        ).unwrap().t.raw <= found(&o, r, a, b).unwrap().t.raw && (found(&o, r, lo, hi).unwrap().t
            == found(&o, r, a, b).unwrap().t ==> found(&o, r, lo, hi) == found(&o, r, a, b)) by {
            assert(rect.hits(r, a, b));
            assert(rect.hits(r, lo, hi));
        }
    }
}

/// Every object of `objs` is a sphere, a moving sphere or a rectangle.
pub open spec fn all_plain(objs: Seq<Hittables>) -> bool {
    forall|i: int|
        0 <= i < objs.len() ==> (#[trigger] objs[i]) is Sphere || objs[i] is MovingSphere
            || objs[i] is Rect
}

/// Spheres, moving spheres and rectangles are consistent for every ray.
pub proof fn plain_objects_are_consistent(objs: Seq<Hittables>, r: &Ray)
    requires
        all_plain(objs),
    ensures
        all_consistent(objs, r),
{
    assert forall|i: int| 0 <= i < objs.len() implies consistent(&#[trigger] objs[i], r) by {
        match objs[i] {
            Hittables::Sphere(o) => {
                sphere_is_consistent(o, r);
            },
            Hittables::MovingSphere(o) => {
                moving_sphere_is_consistent(o, r);
            },
            Hittables::Rect(o) => {
                rect_is_consistent(o, r);
            },
            _ => {},
        }
    }
}

/// Over spheres, moving spheres and rectangles, whatever the ray and the
/// interval: where a descent of the tree returns a hit, a scan of the list
/// returns one that is at least as near, the scan returns a nearest hit among
/// the hits of the objects, and neither draws from the sampler.
pub proof fn plain_tree_finds_no_nearer(
    list: &HittableList,
    r: &Ray,
    t_min: Fixed,
    t_max: Fixed,
    sampler: Stream,
    time0: Fixed,
    time1: Fixed,
    depth: i32,
)
    requires
        list.list@.len() > 0,
        all_plain(list.list@),
    ensures
        ({
            let tree = build_spec(list.list@, time0, time1, depth);
            let descent = tree.hit_spec(r, t_min, t_max, sampler);
            let scan = list.hit_spec(r, t_min, t_max, sampler);
            &&& descent.1 == sampler
            &&& scan.1 == sampler
            &&& nearest_among(list.list@, list.list@.len() as int, r, t_min, t_max, scan.0)
            &&& descent.0 is Some ==> scan.0 is Some && scan.0.unwrap().t.raw
                <= descent.0.unwrap().t.raw
        }),
{
    plain_objects_are_consistent(list.list@, r);
    list_finds_the_nearest(list, r, t_min, t_max, sampler);
    tree_finds_no_nearer(list, r, t_min, t_max, sampler, time0, time1, depth);
}

/// A sphere is tame for a ray as soon as its hits lie inside its box.
pub proof fn sphere_is_tame(sphere: Sphere, r: &Ray, bx: AABB)
    requires
        hits_in_box(&Hittables::Sphere(sphere), r, bx),
    ensures
        tame(&Hittables::Sphere(sphere), r, bx),
{
    sphere_is_consistent(sphere, r);
}

/// A moving sphere is tame for a ray as soon as its hits lie inside its box.
pub proof fn moving_sphere_is_tame(sphere: MovingSphere, r: &Ray, bx: AABB)
    requires
        hits_in_box(&Hittables::MovingSphere(sphere), r, bx),
    ensures
        tame(&Hittables::MovingSphere(sphere), r, bx),
{
    moving_sphere_is_consistent(sphere, r);
}

/// A rectangle is tame for a ray as soon as its hits lie inside its box.
pub proof fn rect_is_tame(rect: Rect, r: &Ray, bx: AABB)
    requires
        hits_in_box(&Hittables::Rect(rect), r, bx),
    ensures
        tame(&Hittables::Rect(rect), r, bx),
{
    rect_is_consistent(rect, r);
}

} // verus!
