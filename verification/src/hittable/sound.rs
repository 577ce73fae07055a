//! What the tree finds, the list finds no farther.
//!
//! For objects that are consistent for a ray, whatever hit a descent of the
//! tree returns, a scan of the list over the same objects returns a hit that
//! is at least as near. This needs nothing of the boxes: a box that is too
//! small can make the tree miss an object, and cannot make it find one that
//! is not there.

use vstd::prelude::*;
use crate::fixed::Fixed;
use crate::hittable::bvh_node::build_spec;
use crate::hittable::bvh_node::lemma_sorted_keeps_objects;
use crate::hittable::bvh_node::nearer_spec;
use crate::hittable::bvh_node::next_depth;
use crate::hittable::bvh_node::node_spec;
use crate::hittable::bvh_node::sorted_spec;
use crate::hittable::bvh_node::split_axis;
use crate::hittable::hittable_list::HittableList;
use crate::hittable::nearest::all_consistent;
use crate::hittable::nearest::consistent;
use crate::hittable::nearest::found;
use crate::hittable::nearest::lemma_hit_no_nearer;
use crate::hittable::nearest::lemma_steady;
use crate::hittable::nearest::nearest_among;
use crate::hittable::HitRecord;
use crate::hittable::Hittables;
use crate::ray::Ray;
use crate::sampler::Stream;

verus! {

/// The hit `res`, if it is one, is no nearer than the hit of one of the
/// objects on the interval from `lo` to `hi`.
pub open spec fn heard_of(objs: Seq<Hittables>, r: &Ray, lo: Fixed, hi: Fixed, res: Option<HitRecord>) -> bool {
    res is Some ==> exists|i: int|
        0 <= i < objs.len() && (#[trigger] found(&objs[i], r, lo, hi)) is Some && found(
            &objs[i],
            r,
            lo,
            hi,
        ).unwrap().t.raw <= res.unwrap().t.raw
}

/// The tree draws nothing, and every hit that it returns is no nearer than
/// a hit of one of the objects on the same interval.
#[verifier::opaque]
pub open spec fn echoes(tree: &Hittables, objs: Seq<Hittables>, r: &Ray) -> bool {
    forall|lo: Fixed, hi: Fixed, s: Stream|
        (#[trigger] tree.hit_spec(r, lo, hi, s)).1 == s && heard_of(
            objs,
            r,
            lo,
            hi,
            tree.hit_spec(r, lo, hi, s).0,
        )
}

/// What a tree that echoes objects returns on an interval.
proof fn lemma_echo_on(
    tree: &Hittables,
    objs: Seq<Hittables>,
    r: &Ray,
    lo: Fixed,
    hi: Fixed,
    s: Stream,
)
    requires
        echoes(tree, objs, r),
    ensures
        tree.hit_spec(r, lo, hi, s).1 == s,
        heard_of(objs, r, lo, hi, tree.hit_spec(r, lo, hi, s).0),
{
    reveal(echoes);
}

/// A consistent object echoes itself.
proof fn lemma_object_echoes(o: &Hittables, objs: Seq<Hittables>, at: int, r: &Ray)
    requires
        0 <= at < objs.len(),
        objs[at] == *o,
        consistent(o, r),
    ensures
        echoes(o, objs, r),
{
    reveal(echoes);
    assert forall|lo: Fixed, hi: Fixed, s: Stream|
        (#[trigger] o.hit_spec(r, lo, hi, s)).1 == s && heard_of(
            objs,
            r,
            lo,
            hi,
            o.hit_spec(r, lo, hi, s).0,
        ) by {
        lemma_steady(o, r, lo, hi, s);
        if found(o, r, lo, hi) is Some {
            assert(found(&objs[at], r, lo, hi) == found(o, r, lo, hi));
        }
    }
}

/// A hit heard of on a part of an interval is heard of on the interval.
proof fn lemma_heard_on_the_whole(
    objs: Seq<Hittables>,
    r: &Ray,
    lo: Fixed,
    hi: Fixed,
    a: Fixed,
    b: Fixed,
    res: Option<HitRecord>,
)
    requires
        all_consistent(objs, r),
        lo.raw <= a.raw,
        b.raw <= hi.raw,
        heard_of(objs, r, a, b, res),
    ensures
        heard_of(objs, r, lo, hi, res),
{
    if res is Some {
        let i = choose|i: int|
            0 <= i < objs.len() && (#[trigger] found(&objs[i], r, a, b)) is Some && found(
                &objs[i],
                r,
                a,
                b,
            ).unwrap().t.raw <= res.unwrap().t.raw;
        assert(consistent(&objs[i], r));
        lemma_hit_no_nearer(&objs[i], r, lo, hi, a, b);
        assert(found(&objs[i], r, lo, hi) is Some);
    }
}

/// A node over two children that echo the objects echoes them too.
proof fn lemma_node_echoes(
    left: Hittables,
    right: Hittables,
    objs: Seq<Hittables>,
    r: &Ray,
    time0: Fixed,
    time1: Fixed,
)
    requires
        all_consistent(objs, r),
        echoes(&left, objs, r),
        echoes(&right, objs, r),
    ensures
        echoes(&node_spec(left, right, time0, time1), objs, r),
{
    let tree = node_spec(left, right, time0, time1);
    let node = tree->BvhNode_0;
    assert forall|lo: Fixed, hi: Fixed, s: Stream|
        (#[trigger] tree.hit_spec(r, lo, hi, s)).1 == s && heard_of(
            objs,
            r,
            lo,
            hi,
            tree.hit_spec(r, lo, hi, s).0,
        ) by {
        node.lemma_hit_unfold(r, lo, hi, s);
        node.bounding_box.lemma_hit_narrows(r, lo, hi);
        let cut = node.bounding_box.hit_spec(r, lo, hi);
        if cut is Some {
            let a = cut.unwrap().0;
            let b = cut.unwrap().1;
            lemma_echo_on(&left, objs, r, a, b, s);
            let l = left.hit_spec(r, a, b, s);
            lemma_echo_on(&right, objs, r, a, b, l.1);
            let rr = right.hit_spec(r, a, b, l.1);
            assert(tree.hit_spec(r, lo, hi, s) == (nearer_spec(l.0, rr.0), rr.1));
            lemma_heard_on_the_whole(objs, r, lo, hi, a, b, l.0);
            lemma_heard_on_the_whole(objs, r, lo, hi, a, b, rr.0);
        }
    }
    reveal(echoes);
}

/// A tree that echoes some of the objects echoes the objects.
proof fn lemma_echoes_more(tree: &Hittables, part: Seq<Hittables>, objs: Seq<Hittables>, r: &Ray)
    requires
        echoes(tree, part, r),
        forall|i: int| 0 <= i < part.len() ==> objs.contains(#[trigger] part[i]),
    ensures
        echoes(tree, objs, r),
{
    assert forall|lo: Fixed, hi: Fixed, s: Stream|
        (#[trigger] tree.hit_spec(r, lo, hi, s)).1 == s && heard_of(
            objs,
            r,
            lo,
            hi,
            tree.hit_spec(r, lo, hi, s).0,
        ) by {
        lemma_echo_on(tree, part, r, lo, hi, s);
        let res = tree.hit_spec(r, lo, hi, s).0;
        if res is Some {
            let i = choose|i: int|
                0 <= i < part.len() && (#[trigger] found(&part[i], r, lo, hi)) is Some && found(
                    &part[i],
                    r,
                    lo,
                    hi,
                ).unwrap().t.raw <= res.unwrap().t.raw;
            assert(objs.contains(part[i]));
            let j = choose|j: int| 0 <= j < objs.len() && objs[j] == part[i];
            assert(found(&objs[j], r, lo, hi) == found(&part[i], r, lo, hi));
        }
    }
    reveal(echoes);
}

/// The tree built over consistent objects echoes them.
proof fn lemma_tree_echoes(objs: Seq<Hittables>, r: &Ray, time0: Fixed, time1: Fixed, depth: i32)
    requires
        objs.len() > 0,
        all_consistent(objs, r),
    ensures
        echoes(&build_spec(objs, time0, time1, depth), objs, r),
    decreases objs.len(),
{
    let axis = split_axis(depth);
    let sorted = sorted_spec(objs, axis);
    lemma_sorted_keeps_objects(objs, axis, objs.len());
    assert forall|i: int| 0 <= i < sorted.len() implies objs.contains(#[trigger] sorted[i]) by {
        assert(sorted.contains(sorted[i]));
        vstd::seq_lib::to_multiset_contains(sorted, sorted[i]);
        vstd::seq_lib::to_multiset_contains(objs, sorted[i]);
    }
    assert(all_consistent(sorted, r)) by {
        assert forall|i: int| 0 <= i < sorted.len() implies consistent(&#[trigger] sorted[i], r) by {
            assert(objs.contains(sorted[i]));
            let at = choose|at: int| 0 <= at < objs.len() && objs[at] == sorted[i];
            assert(consistent(&objs[at], r));
        }
    }
    if objs.len() <= 2 {
        let first = sorted[0];
        let second = if objs.len() == 2 {
            sorted[1]
        } else {
            sorted[0]
        };
        assert(consistent(&sorted[0], r));
        lemma_object_echoes(&first, sorted, 0, r);
        if objs.len() == 2 {
            assert(consistent(&sorted[1], r));
            lemma_object_echoes(&second, sorted, 1, r);
        }
        lemma_node_echoes(first, second, sorted, r, time0, time1);
        lemma_echoes_more(&build_spec(objs, time0, time1, depth), sorted, objs, r);
    } else {
        let half = objs.len() as int / 2;
        let low = sorted.subrange(0, half);
        let high = sorted.subrange(half, objs.len() as int);
        assert(all_consistent(low, r)) by {
            assert forall|i: int| 0 <= i < low.len() implies consistent(&#[trigger] low[i], r) by {
                assert(low[i] == sorted[i]);
            }
        }
        assert(all_consistent(high, r)) by {
            assert forall|i: int| 0 <= i < high.len() implies consistent(&#[trigger] high[i], r) by {
                assert(high[i] == sorted[half + i]);
            }
        }
        let left = build_spec(low, time0, time1, next_depth(depth));
        let right = build_spec(high, time0, time1, next_depth(depth));
        lemma_tree_echoes(low, r, time0, time1, next_depth(depth));
        lemma_tree_echoes(high, r, time0, time1, next_depth(depth));
        assert forall|i: int| 0 <= i < low.len() implies sorted.contains(#[trigger] low[i]) by {
            assert(low[i] == sorted[i]);
        }
        assert forall|i: int| 0 <= i < high.len() implies sorted.contains(#[trigger] high[i]) by {
            assert(high[i] == sorted[half + i]);
        }
        lemma_echoes_more(&left, low, sorted, r);
        lemma_echoes_more(&right, high, sorted, r);
        lemma_node_echoes(left, right, sorted, r, time0, time1);
        lemma_echoes_more(&build_spec(objs, time0, time1, depth), sorted, objs, r);
    }
}

/// A scan of a list of consistent objects returns a nearest hit among the
/// hits of the objects, and draws nothing.
pub proof fn list_finds_the_nearest(
    list: &HittableList,
    r: &Ray,
    t_min: Fixed,
    t_max: Fixed,
    sampler: Stream,
)
    requires
        all_consistent(list.list@, r),
    ensures
        list.hit_spec(r, t_min, t_max, sampler).1 == sampler,
        nearest_among(
            list.list@,
            list.list@.len() as int,
            r,
            t_min,
            t_max,
            list.hit_spec(r, t_min, t_max, sampler).0,
        ),
{
    list.lemma_scan_is_nearest(r, t_min, t_max, sampler, list.list@.len());
}

/// What the tree finds, the list finds no farther. Where a descent of the
/// tree over consistent objects returns a hit, a scan of the list of the
/// same objects returns one too, at a parameter that is no greater; and the
/// descent draws nothing.
pub proof fn tree_finds_no_nearer(
    list: &HittableList,
    r: &Ray,
    t_min: Fixed,
    t_max: Fixed,
    sampler: Stream,
    time0: Fixed,
    time1: Fixed,
    depth: i32,
)
    requires
        list.list@.len() > 0,
        all_consistent(list.list@, r),
    ensures
        ({
            let tree = build_spec(list.list@, time0, time1, depth);
            let descent = tree.hit_spec(r, t_min, t_max, sampler);
            let scan = list.hit_spec(r, t_min, t_max, sampler);
            &&& descent.1 == sampler
            &&& descent.0 is Some ==> scan.0 is Some && scan.0.unwrap().t.raw
                <= descent.0.unwrap().t.raw
        }),
{
    let objs = list.list@;
    let tree = build_spec(objs, time0, time1, depth);
    lemma_tree_echoes(objs, r, time0, time1, depth);
    lemma_echo_on(&tree, objs, r, t_min, t_max, sampler);
    list_finds_the_nearest(list, r, t_min, t_max, sampler);
    let descent = tree.hit_spec(r, t_min, t_max, sampler);
    let scan = list.hit_spec(r, t_min, t_max, sampler);
    if descent.0 is Some {
        let i = choose|i: int|
            0 <= i < objs.len() && (#[trigger] found(&objs[i], r, t_min, t_max)) is Some && found(
                &objs[i],
                r,
                t_min,
                t_max,
            ).unwrap().t.raw <= descent.0.unwrap().t.raw;
        assert(found(&objs[i], r, t_min, t_max) is Some);
        assert(scan.0 is Some);
    }
}

} // verus!
