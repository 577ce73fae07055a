//! Why the tree answers as the plain list does.
//!
//! Both a scan of a list and a descent of the tree over the same objects
//! return a nearest hit among the hits of the objects. Of the list this is
//! proved for objects that are consistent for the ray in question: objects
//! that draw nothing from the sampler, whose hits lie in the interval asked
//! for, and that answer alike on an interval and on a part of it. Of the
//! tree it is proved for objects that are tame: consistent objects whose hits
//! lie inside their own boxes, as the slab test sees the boxes. Where a hit
//! lies on the very face of a box, or rounding puts it outside, the tree can
//! miss what the list finds.

use vstd::prelude::*;
use crate::fixed::Fixed;
use crate::hittable::aabb::inside_box;
use crate::hittable::aabb::lemma_box_widens;
use crate::hittable::aabb::spares;
use crate::hittable::aabb::AABB;
use crate::hittable::bvh_node::build_spec;
use crate::hittable::bvh_node::has_boxes;
use crate::hittable::bvh_node::lemma_sorted_keeps_objects;
use crate::hittable::bvh_node::nearer_spec;
use crate::hittable::bvh_node::next_depth;
use crate::hittable::bvh_node::node_spec;
use crate::hittable::bvh_node::sorted_spec;
use crate::hittable::bvh_node::split_axis;
use crate::hittable::hittable_list::HittableList;
use crate::hittable::lemma_box_dispatch;
use crate::hittable::HitRecord;
use crate::hittable::Hittables;
use crate::ray::Ray;
use crate::sampler::Stream;

verus! {

/// What the object answers on the interval from `lo` to `hi`, whatever the
/// sampler (for a steady object the sampler makes no difference).
pub open spec fn found<'a>(o: &'a Hittables, r: &Ray, lo: Fixed, hi: Fixed) -> Option<
    HitRecord<'a>,
> {
    o.hit_spec(r, lo, hi, vstd::pervasive::arbitrary()).0
}

/// The object draws nothing: its answer does not depend on the sampler, and
/// the sampler is left as it was.
#[verifier::opaque]
pub open spec fn steady(o: &Hittables, r: &Ray) -> bool {
    forall|lo: Fixed, hi: Fixed, s: Stream| #[trigger]
        o.hit_spec(r, lo, hi, s) == (found(o, r, lo, hi), s)
}

/// Every hit of the object lies in the interval asked for, its ends
/// included.
#[verifier::opaque]
pub open spec fn hits_within(o: &Hittables, r: &Ray) -> bool {
    forall|lo: Fixed, hi: Fixed|
        (#[trigger] found(o, r, lo, hi)) is Some ==> lo.raw <= found(o, r, lo, hi).unwrap().t.raw
            <= hi.raw
}

/// Every hit of the object lies at a parameter at which the ray is inside
/// the box `bx`, as the slab test sees it.
#[verifier::opaque]
pub open spec fn hits_in_box(o: &Hittables, r: &Ray, bx: AABB) -> bool {
    forall|lo: Fixed, hi: Fixed|
        (#[trigger] found(o, r, lo, hi)) is Some ==> inside_box(
            bx,
            r,
            found(o, r, lo, hi).unwrap().t,
        )
}

/// A hit is found again on every part of the interval that spares it.
#[verifier::opaque]
pub open spec fn keeps_hits(o: &Hittables, r: &Ray) -> bool {
    forall|lo: Fixed, hi: Fixed, a: Fixed, b: Fixed|
        (#[trigger] found(o, r, lo, hi)) is Some && spares(
            lo,
            hi,
            a,
            b,
            found(o, r, lo, hi).unwrap().t,
        ) ==> #[trigger] found(o, r, a, b) == found(o, r, lo, hi)
}

/// A hit on a part of an interval is no nearer than the hit on the whole of
/// it, and is that hit where the two are equally near.
#[verifier::opaque]
pub open spec fn nearest_first(o: &Hittables, r: &Ray) -> bool {
    forall|lo: Fixed, hi: Fixed, a: Fixed, b: Fixed|
        lo.raw <= a.raw && b.raw <= hi.raw && (#[trigger] found(o, r, a, b)) is Some ==> (
        #[trigger] found(o, r, lo, hi)) is Some && found(o, r, lo, hi).unwrap().t.raw <= found(
            o,
            r,
            a,
            b,
        ).unwrap().t.raw && (found(o, r, lo, hi).unwrap().t == found(o, r, a, b).unwrap().t
            ==> found(o, r, lo, hi) == found(o, r, a, b))
}

/// The object is consistent for the ray: it draws nothing, its hits lie in
/// the interval asked for, and it answers alike on an interval and on a part
/// of it.
pub open spec fn consistent(o: &Hittables, r: &Ray) -> bool {
    &&& steady(o, r)
    &&& hits_within(o, r)
    &&& keeps_hits(o, r)
    &&& nearest_first(o, r)
}

/// The object is tame for the ray, with `bx` as its box: it is consistent,
/// and its hits lie inside the box.
pub open spec fn tame(o: &Hittables, r: &Ray, bx: AABB) -> bool {
    &&& consistent(o, r)
    &&& hits_in_box(o, r, bx)
}

/// What a steady object answers.
pub proof fn lemma_steady(o: &Hittables, r: &Ray, lo: Fixed, hi: Fixed, s: Stream)
    requires
        steady(o, r),
    ensures
        o.hit_spec(r, lo, hi, s) == (found(o, r, lo, hi), s),
{
    reveal(steady);
}

/// A hit of an object with `hits_within` lies in the interval asked for.
pub proof fn lemma_hit_within(o: &Hittables, r: &Ray, lo: Fixed, hi: Fixed)
    requires
        hits_within(o, r),
        found(o, r, lo, hi) is Some,
    ensures
        lo.raw <= found(o, r, lo, hi).unwrap().t.raw <= hi.raw,
{
    reveal(hits_within);
}

/// A hit of an object with `hits_in_box` lies inside the box.
pub proof fn lemma_hit_in_box(o: &Hittables, r: &Ray, bx: AABB, lo: Fixed, hi: Fixed)
    requires
        hits_in_box(o, r, bx),
        found(o, r, lo, hi) is Some,
    ensures
        inside_box(bx, r, found(o, r, lo, hi).unwrap().t),
{
    reveal(hits_in_box);
}

/// An object with `keeps_hits` answers on a part of an interval that spares
/// its hit as on the interval.
pub proof fn lemma_hit_kept(o: &Hittables, r: &Ray, lo: Fixed, hi: Fixed, a: Fixed, b: Fixed)
    requires
        keeps_hits(o, r),
        found(o, r, lo, hi) is Some,
        spares(lo, hi, a, b, found(o, r, lo, hi).unwrap().t),
    ensures
        found(o, r, a, b) == found(o, r, lo, hi),
{
    reveal(keeps_hits);
}

/// An object with `nearest_first` that is hit on a part of an interval is
/// hit on the interval, no farther.
pub proof fn lemma_hit_no_nearer(o: &Hittables, r: &Ray, lo: Fixed, hi: Fixed, a: Fixed, b: Fixed)
    requires
        nearest_first(o, r),
        lo.raw <= a.raw,
        b.raw <= hi.raw,
        found(o, r, a, b) is Some,
    ensures
        found(o, r, lo, hi) is Some,
        found(o, r, lo, hi).unwrap().t.raw <= found(o, r, a, b).unwrap().t.raw,
        found(o, r, lo, hi).unwrap().t == found(o, r, a, b).unwrap().t ==> found(o, r, lo, hi)
            == found(o, r, a, b),
{
    reveal(nearest_first);
}

/// Every object of `objs` is consistent for the ray.
pub open spec fn all_consistent(objs: Seq<Hittables>, r: &Ray) -> bool {
    forall|i: int| 0 <= i < objs.len() ==> consistent(&#[trigger] objs[i], r)
}

/// Every object of `objs` is tame for the ray, with its box over the exposure.
pub open spec fn all_tame(objs: Seq<Hittables>, r: &Ray, time0: Fixed, time1: Fixed) -> bool {
    forall|i: int|
        0 <= i < objs.len() ==> has_boxes(&#[trigger] objs[i], time0, time1) && tame(
            &objs[i],
            r,
            objs[i].bounding_box_spec(time0, time1).unwrap(),
        )
}

/// `res` is a nearest hit among the hits of the first `n` objects of `objs`
/// on the interval from `lo` to `hi`: nothing where none of them is hit, and
/// else the hit of one of them, no farther than that of any other.
pub open spec fn nearest_among(
    objs: Seq<Hittables>,
    n: int,
    r: &Ray,
    lo: Fixed,
    hi: Fixed,
    res: Option<HitRecord>,
) -> bool {
    match res {
        None => forall|i: int| 0 <= i < n ==> (#[trigger] found(&objs[i], r, lo, hi)) is None,
        Some(h) => (exists|i: int| 0 <= i < n && #[trigger] found(&objs[i], r, lo, hi) == Some(h))
            && forall|i: int|
            0 <= i < n && (#[trigger] found(&objs[i], r, lo, hi)) is Some ==> h.t.raw <= found(
                &objs[i],
                r,
                lo,
                hi,
            ).unwrap().t.raw,
    }
}

/// Each object of `a` is one of `b`.
#[verifier::opaque]
pub open spec fn drawn_from(a: Seq<Hittables>, b: Seq<Hittables>) -> bool {
    forall|i: int| 0 <= i < a.len() ==> b.contains(#[trigger] a[i])
}

/// The place in `b` of the object at `i` of `a`.
pub proof fn lemma_place_of(a: Seq<Hittables>, b: Seq<Hittables>, i: int) -> (j: int)
    requires
        drawn_from(a, b),
        0 <= i < a.len(),
    ensures
        0 <= j < b.len(),
        b[j] == a[i],
{
    reveal(drawn_from);
    assert(b.contains(a[i]));
    choose|j: int| 0 <= j < b.len() && b[j] == a[i]
}

/// A nearest hit among the objects of one sequence is one among those of
/// another that holds the same objects.
pub proof fn lemma_nearest_among_same_objects(
    a: Seq<Hittables>,
    b: Seq<Hittables>,
    r: &Ray,
    lo: Fixed,
    hi: Fixed,
    res: Option<HitRecord>,
)
    requires
        drawn_from(a, b),
        drawn_from(b, a),
        nearest_among(a, a.len() as int, r, lo, hi, res),
    ensures
        nearest_among(b, b.len() as int, r, lo, hi, res),
{
    assert forall|j: int| 0 <= j < b.len() implies (res is None ==> (#[trigger] found(
        &b[j],
        r,
        lo,
        hi,
    )) is None) && (res is Some && found(&b[j], r, lo, hi) is Some ==> res.unwrap().t.raw
        <= found(&b[j], r, lo, hi).unwrap().t.raw) by {
        let i = lemma_place_of(b, a, j);
        assert(found(&a[i], r, lo, hi) == found(&b[j], r, lo, hi));
    }
    if res is Some {
        let i = choose|i: int| 0 <= i < a.len() && #[trigger] found(&a[i], r, lo, hi) == res;
        let j = lemma_place_of(a, b, i);
        assert(found(&b[j], r, lo, hi) == res);
    }
}

/// Tame objects are consistent.
pub proof fn lemma_tame_is_consistent(objs: Seq<Hittables>, r: &Ray, time0: Fixed, time1: Fixed)
    requires
        all_tame(objs, r, time0, time1),
    ensures
        all_consistent(objs, r),
{
    assert forall|i: int| 0 <= i < objs.len() implies consistent(&#[trigger] objs[i], r) by {
        assert(has_boxes(&objs[i], time0, time1));
    }
}

/// One step of a scan. Where `best` is a nearest hit among the first `n`
/// objects and `closest` the end of the interval that is left, trying the
/// next object on that interval gives a nearest hit among the first `n + 1`.
proof fn lemma_scan_step(
    objs: Seq<Hittables>,
    n: int,
    r: &Ray,
    t_min: Fixed,
    t_max: Fixed,
    best: Option<HitRecord>,
    closest: Fixed,
)
    requires
        0 <= n < objs.len(),
        all_consistent(objs, r),
        nearest_among(objs, n, r, t_min, t_max, best),
        closest == (match best {
            Some(h) => h.t,
            None => t_max,
        }),
        closest.raw <= t_max.raw,
    ensures
        ({
            let part = found(&objs[n], r, t_min, closest);
            let next = if part is Some {
                part
            } else {
                best
            };
            &&& nearest_among(objs, n + 1, r, t_min, t_max, next)
            &&& part is Some ==> part.unwrap().t.raw <= closest.raw
        }),
{
    let o = &objs[n];
    assert(consistent(o, r));
    let whole = found(o, r, t_min, t_max);
    let part = found(o, r, t_min, closest);
    if part is Some {
        lemma_hit_no_nearer(o, r, t_min, t_max, t_min, closest);
        lemma_hit_within(o, r, t_min, closest);
        lemma_hit_within(o, r, t_min, t_max);
        if whole.unwrap().t.raw < closest.raw {
            assert(spares(t_min, t_max, t_min, closest, whole.unwrap().t));
            lemma_hit_kept(o, r, t_min, t_max, t_min, closest);
        }
        assert(part == whole);
        assert forall|i: int|
            0 <= i < n + 1 && (#[trigger] found(&objs[i], r, t_min, t_max)) is Some implies part.unwrap().t.raw
            <= found(&objs[i], r, t_min, t_max).unwrap().t.raw by {
            if i < n {
                assert(best is Some);
            }
        }
        assert(found(&objs[n], r, t_min, t_max) == part);
    } else {
        if whole is Some {
            lemma_hit_within(o, r, t_min, t_max);
            if whole.unwrap().t.raw < closest.raw {
                assert(spares(t_min, t_max, t_min, closest, whole.unwrap().t));
                lemma_hit_kept(o, r, t_min, t_max, t_min, closest);
            }
            assert(best is Some);
        }
        if best is Some {
            let i = choose|i: int|
                0 <= i < n && #[trigger] found(&objs[i], r, t_min, t_max) == best;
            assert(found(&objs[i], r, t_min, t_max) == best);
        }
        assert forall|i: int|
            0 <= i < n + 1 && best is None implies (#[trigger] found(&objs[i], r, t_min, t_max))
            is None by {
        }
    }
}

impl HittableList {
    /// The scan of the first `n` objects of a list of consistent objects
    /// holds a nearest hit among theirs, and the end of the interval that is
    /// left is the parameter of that hit.
    pub proof fn lemma_scan_is_nearest(
        &self,
        r: &Ray,
        t_min: Fixed,
        t_max: Fixed,
        sampler: Stream,
        n: nat,
    )
        requires
            n <= self.list@.len(),
            all_consistent(self.list@, r),
        ensures
            self.scan_spec(r, t_min, t_max, sampler, n).2 == sampler,
            nearest_among(
                self.list@,
                n as int,
                r,
                t_min,
                t_max,
                self.scan_spec(r, t_min, t_max, sampler, n).0,
            ),
            self.scan_spec(r, t_min, t_max, sampler, n).1 == (match self.scan_spec(
                r,
                t_min,
                t_max,
                sampler,
                n,
            ).0 {
                Some(h) => h.t,
                None => t_max,
            }),
            self.scan_spec(r, t_min, t_max, sampler, n).1.raw <= t_max.raw,
        decreases n,
    {
        self.lemma_scan_unfold(r, t_min, t_max, sampler, n);
        if n > 0 {
            self.lemma_scan_is_nearest(r, t_min, t_max, sampler, (n - 1) as nat);
            let before = self.scan_spec(r, t_min, t_max, sampler, (n - 1) as nat);
            let o = &self.list@[n - 1];
            assert(consistent(o, r));
            lemma_steady(o, r, t_min, before.1, before.2);
            lemma_scan_step(self.list@, n - 1, r, t_min, t_max, before.0, before.1);
            let part = found(o, r, t_min, before.1);
            let tried = self.list@[n - 1].hit_spec(r, t_min, before.1, before.2);
            assert(tried == (part, sampler));
            let after = self.scan_spec(r, t_min, t_max, sampler, n);
            self.lemma_scan_unfold(r, t_min, t_max, sampler, n);
            assert(after == (match tried.0 {
                Some(h) => (Some(h), h.t, tried.1),
                None => (before.0, before.1, tried.1),
            }));
            if part is Some {
                assert(after.0 == part);
            } else {
                assert(after.0 == before.0);
            }
        }
    }
}

/// The tree `tree` answers for the objects `objs`: it has a box that
/// encloses the boxes of them all, it draws nothing, and on every interval
/// that is not empty it returns a nearest hit among theirs.
#[verifier::opaque]
pub open spec fn answers_for(
    tree: &Hittables,
    objs: Seq<Hittables>,
    r: &Ray,
    time0: Fixed,
    time1: Fixed,
) -> bool {
    &&& tree.bounding_box_spec(time0, time1) is Some
    &&& forall|i: int|
        0 <= i < objs.len() ==> tree.bounding_box_spec(time0, time1).unwrap().encloses(
            (#[trigger] objs[i]).bounding_box_spec(time0, time1).unwrap(),
        )
    &&& forall|lo: Fixed, hi: Fixed, s: Stream|
        lo.raw < hi.raw ==> (#[trigger] tree.hit_spec(r, lo, hi, s)).1 == s && nearest_among(
            objs,
            objs.len() as int,
            r,
            lo,
            hi,
            tree.hit_spec(r, lo, hi, s).0,
        )
}

/// What a tree that answers for objects returns on an interval.
pub proof fn lemma_answer_on(
    tree: &Hittables,
    objs: Seq<Hittables>,
    r: &Ray,
    time0: Fixed,
    time1: Fixed,
    lo: Fixed,
    hi: Fixed,
    s: Stream,
)
    requires
        answers_for(tree, objs, r, time0, time1),
        lo.raw < hi.raw,
    ensures
        tree.hit_spec(r, lo, hi, s).1 == s,
        nearest_among(objs, objs.len() as int, r, lo, hi, tree.hit_spec(r, lo, hi, s).0),
{
    reveal(answers_for);
}

/// The box of a tree that answers for objects encloses the box of each.
pub proof fn lemma_answer_box(
    tree: &Hittables,
    objs: Seq<Hittables>,
    r: &Ray,
    time0: Fixed,
    time1: Fixed,
    i: int,
)
    requires
        answers_for(tree, objs, r, time0, time1),
        0 <= i < objs.len(),
    ensures
        tree.bounding_box_spec(time0, time1) is Some,
        tree.bounding_box_spec(time0, time1).unwrap().encloses(
            objs[i].bounding_box_spec(time0, time1).unwrap(),
        ),
{
    reveal(answers_for);
}

/// A tame object answers for itself.
pub proof fn lemma_object_answers(o: &Hittables, r: &Ray, time0: Fixed, time1: Fixed)
    requires
        has_boxes(o, time0, time1),
        tame(o, r, o.bounding_box_spec(time0, time1).unwrap()),
    ensures
        answers_for(o, seq![*o], r, time0, time1),
{
    let objs = seq![*o];
    assert(objs[0] == *o);
    reveal(answers_for);
    assert forall|lo: Fixed, hi: Fixed, s: Stream| lo.raw < hi.raw implies (#[trigger] o.hit_spec(
        r,
        lo,
        hi,
        s,
    )).1 == s && nearest_among(objs, objs.len() as int, r, lo, hi, o.hit_spec(r, lo, hi, s).0) by {
        lemma_steady(o, r, lo, hi, s);
        if found(o, r, lo, hi) is Some {
            assert(found(&objs[0], r, lo, hi) == found(o, r, lo, hi));
        }
    }
}

/// Inside a box that encloses the box of a tame object, the object answers
/// on what the slab test leaves of an interval as it does on the interval;
/// and where the slab test leaves nothing, the object is not hit.
proof fn lemma_slab_keeps_answers(
    bx: AABB,
    o: &Hittables,
    r: &Ray,
    time0: Fixed,
    time1: Fixed,
    lo: Fixed,
    hi: Fixed,
)
    requires
        has_boxes(o, time0, time1),
        tame(o, r, o.bounding_box_spec(time0, time1).unwrap()),
        bx.encloses(o.bounding_box_spec(time0, time1).unwrap()),
        lo.raw < hi.raw,
    ensures
        bx.hit_spec(r, lo, hi) is None ==> found(o, r, lo, hi) is None,
        bx.hit_spec(r, lo, hi) is Some ==> found(
            o,
            r,
            bx.hit_spec(r, lo, hi).unwrap().0,
            bx.hit_spec(r, lo, hi).unwrap().1,
        ) == found(o, r, lo, hi),
{
    let own = o.bounding_box_spec(time0, time1).unwrap();
    bx.lemma_hit_narrows(r, lo, hi);
    let whole = found(o, r, lo, hi);
    if whole is Some {
        let t = whole.unwrap().t;
        lemma_hit_within(o, r, lo, hi);
        lemma_hit_in_box(o, r, own, lo, hi);
        lemma_box_widens(own, bx, r, t);
        bx.lemma_hit_spares(r, lo, hi, t);
        let cut = bx.hit_spec(r, lo, hi).unwrap();
        lemma_hit_kept(o, r, lo, hi, cut.0, cut.1);
    } else if bx.hit_spec(r, lo, hi) is Some {
        let cut = bx.hit_spec(r, lo, hi).unwrap();
        if found(o, r, cut.0, cut.1) is Some {
            lemma_hit_no_nearer(o, r, lo, hi, cut.0, cut.1);
        }
    }
}

/// The nearer of a nearest hit among one sequence of objects and a nearest
/// hit among another is a nearest hit among the two together.
proof fn lemma_nearer_of_both(
    left_objs: Seq<Hittables>,
    right_objs: Seq<Hittables>,
    r: &Ray,
    lo: Fixed,
    hi: Fixed,
    l: Option<HitRecord>,
    rr: Option<HitRecord>,
)
    requires
        nearest_among(left_objs, left_objs.len() as int, r, lo, hi, l),
        nearest_among(right_objs, right_objs.len() as int, r, lo, hi, rr),
    ensures
        nearest_among(
            left_objs + right_objs,
            (left_objs + right_objs).len() as int,
            r,
            lo,
            hi,
            nearer_spec(l, rr),
        ),
{
    let both = left_objs + right_objs;
    let res = nearer_spec(l, rr);
    assert forall|k: int| 0 <= k < both.len() implies (res is None ==> (#[trigger] found(
        &both[k],
        r,
        lo,
        hi,
    )) is None) && (res is Some && found(&both[k], r, lo, hi) is Some ==> res.unwrap().t.raw
        <= found(&both[k], r, lo, hi).unwrap().t.raw) by {
        if k < left_objs.len() {
            assert(both[k] == left_objs[k]);
            assert(found(&left_objs[k], r, lo, hi) == found(&both[k], r, lo, hi));
        } else {
            assert(both[k] == right_objs[k - left_objs.len()]);
            assert(found(&right_objs[k - left_objs.len()], r, lo, hi) == found(
                &both[k],
                r,
                lo,
                hi,
            ));
        }
    }
    if res is Some {
        if res == l {
            let k = choose|k: int|
                0 <= k < left_objs.len() && #[trigger] found(&left_objs[k], r, lo, hi) == l;
            assert(both[k] == left_objs[k]);
            assert(found(&both[k], r, lo, hi) == res);
        } else {
            let k = choose|k: int|
                0 <= k < right_objs.len() && #[trigger] found(&right_objs[k], r, lo, hi) == rr;
            assert(both[k + left_objs.len()] == right_objs[k]);
            assert(found(&both[k + left_objs.len()], r, lo, hi) == res);
        }
    }
}

/// A nearest hit on what the slab test leaves is one on the whole interval,
/// for tame objects inside the box.
proof fn lemma_nearest_through_slab(
    bx: AABB,
    objs: Seq<Hittables>,
    r: &Ray,
    time0: Fixed,
    time1: Fixed,
    lo: Fixed,
    hi: Fixed,
    res: Option<HitRecord>,
)
    requires
        all_tame(objs, r, time0, time1),
        forall|i: int|
            0 <= i < objs.len() ==> bx.encloses(
                (#[trigger] objs[i]).bounding_box_spec(time0, time1).unwrap(),
            ),
        lo.raw < hi.raw,
        bx.hit_spec(r, lo, hi) is None ==> res is None,
        bx.hit_spec(r, lo, hi) is Some ==> nearest_among(
            objs,
            objs.len() as int,
            r,
            bx.hit_spec(r, lo, hi).unwrap().0,
            bx.hit_spec(r, lo, hi).unwrap().1,
            res,
        ),
    ensures
        nearest_among(objs, objs.len() as int, r, lo, hi, res),
{
    assert forall|k: int| 0 <= k < objs.len() implies (res is None ==> (#[trigger] found(
        &objs[k],
        r,
        lo,
        hi,
    )) is None) && (res is Some && found(&objs[k], r, lo, hi) is Some ==> res.unwrap().t.raw
        <= found(&objs[k], r, lo, hi).unwrap().t.raw) by {
        assert(has_boxes(&objs[k], time0, time1));
        lemma_slab_keeps_answers(bx, &objs[k], r, time0, time1, lo, hi);
        if bx.hit_spec(r, lo, hi) is Some {
            let cut = bx.hit_spec(r, lo, hi).unwrap();
            assert(found(&objs[k], r, cut.0, cut.1) == found(&objs[k], r, lo, hi));
        }
    }
    if res is Some {
        let cut = bx.hit_spec(r, lo, hi).unwrap();
        let k = choose|k: int|
            0 <= k < objs.len() && #[trigger] found(&objs[k], r, cut.0, cut.1) == res;
        assert(has_boxes(&objs[k], time0, time1));
        lemma_slab_keeps_answers(bx, &objs[k], r, time0, time1, lo, hi);
        assert(found(&objs[k], r, lo, hi) == res);
    }
}

/// The box of a node encloses the boxes of the objects of both children.
proof fn lemma_node_box(
    left: Hittables,
    right: Hittables,
    left_objs: Seq<Hittables>,
    right_objs: Seq<Hittables>,
    r: &Ray,
    time0: Fixed,
    time1: Fixed,
    k: int,
)
    requires
        answers_for(&left, left_objs, r, time0, time1),
        answers_for(&right, right_objs, r, time0, time1),
        0 <= k < (left_objs + right_objs).len(),
    ensures
        (node_spec(left, right, time0, time1)->BvhNode_0).bounding_box.encloses(
            (left_objs + right_objs)[k].bounding_box_spec(time0, time1).unwrap(),
        ),
{
    let both = left_objs + right_objs;
    if k < left_objs.len() {
        assert(both[k] == left_objs[k]);
        lemma_answer_box(&left, left_objs, r, time0, time1, k);
    } else {
        assert(both[k] == right_objs[k - left_objs.len()]);
        lemma_answer_box(&right, right_objs, r, time0, time1, k - left_objs.len());
    }
}

/// What a node over two children that answer for their objects returns on
/// one interval.
proof fn lemma_node_hit(
    left: Hittables,
    right: Hittables,
    left_objs: Seq<Hittables>,
    right_objs: Seq<Hittables>,
    r: &Ray,
    time0: Fixed,
    time1: Fixed,
    lo: Fixed,
    hi: Fixed,
    s: Stream,
)
    requires
        all_tame(left_objs + right_objs, r, time0, time1),
        answers_for(&left, left_objs, r, time0, time1),
        answers_for(&right, right_objs, r, time0, time1),
        lo.raw < hi.raw,
    ensures
        node_spec(left, right, time0, time1).hit_spec(r, lo, hi, s).1 == s,
        nearest_among(
            left_objs + right_objs,
            (left_objs + right_objs).len() as int,
            r,
            lo,
            hi,
            node_spec(left, right, time0, time1).hit_spec(r, lo, hi, s).0,
        ),
{
    let tree = node_spec(left, right, time0, time1);
    let node = tree->BvhNode_0;
    let bx = node.bounding_box;
    let both = left_objs + right_objs;
    let answer = tree.hit_spec(r, lo, hi, s);
    node.lemma_hit_unfold(r, lo, hi, s);
    assert forall|k: int| 0 <= k < both.len() implies bx.encloses(
        (#[trigger] both[k]).bounding_box_spec(time0, time1).unwrap(),
    ) by {
        lemma_node_box(left, right, left_objs, right_objs, r, time0, time1, k);
    }
    bx.lemma_hit_narrows(r, lo, hi);
    let cut = bx.hit_spec(r, lo, hi);
    if cut is Some {
        let a = cut.unwrap().0;
        let b = cut.unwrap().1;
        lemma_answer_on(&left, left_objs, r, time0, time1, a, b, s);
        let l = left.hit_spec(r, a, b, s);
        lemma_answer_on(&right, right_objs, r, time0, time1, a, b, l.1);
        let rr = right.hit_spec(r, a, b, l.1);
        assert(answer == (nearer_spec(l.0, rr.0), rr.1));
        lemma_nearer_of_both(left_objs, right_objs, r, a, b, l.0, rr.0);
    } else {
        assert(answer.0 is None);
        assert(answer.1 == s);
    }
    lemma_nearest_through_slab(bx, both, r, time0, time1, lo, hi, answer.0);
}

/// A node answers for the objects of its two children.
pub proof fn lemma_node_answers(
    left: Hittables,
    right: Hittables,
    left_objs: Seq<Hittables>,
    right_objs: Seq<Hittables>,
    objs: Seq<Hittables>,
    r: &Ray,
    time0: Fixed,
    time1: Fixed,
)
    requires
        all_tame(objs, r, time0, time1),
        answers_for(&left, left_objs, r, time0, time1),
        answers_for(&right, right_objs, r, time0, time1),
        drawn_from(left_objs + right_objs, objs),
        drawn_from(objs, left_objs + right_objs),
    ensures
        answers_for(&node_spec(left, right, time0, time1), objs, r, time0, time1),
{
    let tree = node_spec(left, right, time0, time1);
    let node = tree->BvhNode_0;
    let bx = node.bounding_box;
    let both = left_objs + right_objs;
    assert(tree.bounding_box_spec(time0, time1) == Some(bx)) by {
        lemma_box_dispatch(&tree, time0, time1);
    }
    assert(all_tame(both, r, time0, time1)) by {
        assert forall|k: int| 0 <= k < both.len() implies has_boxes(
            &#[trigger] both[k],
            time0,
            time1,
        ) && tame(&both[k], r, both[k].bounding_box_spec(time0, time1).unwrap()) by {
            let at = lemma_place_of(both, objs, k);
            assert(has_boxes(&objs[at], time0, time1));
        }
    }
    assert forall|i: int| 0 <= i < objs.len() implies bx.encloses(
        (#[trigger] objs[i]).bounding_box_spec(time0, time1).unwrap(),
    ) by {
        let k = lemma_place_of(objs, both, i);
        lemma_node_box(left, right, left_objs, right_objs, r, time0, time1, k);
    }
    assert forall|lo: Fixed, hi: Fixed, s: Stream| lo.raw < hi.raw implies (#[trigger] tree.hit_spec(
        r,
        lo,
        hi,
        s,
    )).1 == s && nearest_among(
        objs,
        objs.len() as int,
        r,
        lo,
        hi,
        tree.hit_spec(r, lo, hi, s).0,
    ) by {
        lemma_node_hit(left, right, left_objs, right_objs, r, time0, time1, lo, hi, s);
        lemma_nearest_among_same_objects(both, objs, r, lo, hi, tree.hit_spec(r, lo, hi, s).0);
    }
    reveal(answers_for);
}

/// Two sequences with the same objects, each as often, hold each other's
/// objects.
pub proof fn lemma_same_objects(a: Seq<Hittables>, b: Seq<Hittables>)
    requires
        a.to_multiset() == b.to_multiset(),
    ensures
        drawn_from(a, b),
        drawn_from(b, a),
{
    reveal(drawn_from);
    assert forall|i: int| 0 <= i < a.len() implies b.contains(#[trigger] a[i]) by {
        assert(a.contains(a[i]));
        vstd::seq_lib::to_multiset_contains(a, a[i]);
        vstd::seq_lib::to_multiset_contains(b, a[i]);
    }
    assert forall|i: int| 0 <= i < b.len() implies a.contains(#[trigger] b[i]) by {
        assert(b.contains(b[i]));
        vstd::seq_lib::to_multiset_contains(a, b[i]);
        vstd::seq_lib::to_multiset_contains(b, b[i]);
    }
}

/// The objects of two sequences that are equal place by place are drawn from
/// each other.
proof fn lemma_equal_drawn(a: Seq<Hittables>, b: Seq<Hittables>)
    requires
        a =~= b,
    ensures
        drawn_from(a, b),
        drawn_from(b, a),
{
    reveal(drawn_from);
    assert forall|i: int| 0 <= i < a.len() implies b.contains(#[trigger] a[i]) by {
        assert(b[i] == a[i]);
    }
    assert forall|i: int| 0 <= i < b.len() implies a.contains(#[trigger] b[i]) by {
        assert(a[i] == b[i]);
    }
}

/// Being drawn from carries over.
proof fn lemma_drawn_chain(a: Seq<Hittables>, b: Seq<Hittables>, c: Seq<Hittables>)
    requires
        drawn_from(a, b),
        drawn_from(b, c),
    ensures
        drawn_from(a, c),
{
    assert forall|i: int| 0 <= i < a.len() implies c.contains(#[trigger] a[i]) by {
        let j = lemma_place_of(a, b, i);
        let k = lemma_place_of(b, c, j);
        assert(c[k] == a[i]);
    }
    reveal(drawn_from);
}

/// The tree built over tame objects answers for them.
pub proof fn lemma_tree_answers(
    objs: Seq<Hittables>,
    r: &Ray,
    time0: Fixed,
    time1: Fixed,
    depth: i32,
)
    requires
        objs.len() > 0,
        all_tame(objs, r, time0, time1),
    ensures
        answers_for(&build_spec(objs, time0, time1, depth), objs, r, time0, time1),
    decreases objs.len(),
{
    let axis = split_axis(depth);
    let sorted = sorted_spec(objs, axis);
    lemma_sorted_keeps_objects(objs, axis, objs.len());
    lemma_same_objects(sorted, objs);
    assert(all_tame(sorted, r, time0, time1)) by {
        assert forall|i: int| 0 <= i < sorted.len() implies has_boxes(
            &#[trigger] sorted[i],
            time0,
            time1,
        ) && tame(&sorted[i], r, sorted[i].bounding_box_spec(time0, time1).unwrap()) by {
            let at = lemma_place_of(sorted, objs, i);
            assert(has_boxes(&objs[at], time0, time1));
        }
    }
    if objs.len() <= 1 {
        let only = sorted[0];
        assert(has_boxes(&sorted[0], time0, time1));
        lemma_object_answers(&only, r, time0, time1);
        let one = seq![only];
        assert(drawn_from(one + one, sorted) && drawn_from(sorted, one + one)) by {
            reveal(drawn_from);
            assert forall|i: int| 0 <= i < (one + one).len() implies sorted.contains(
                #[trigger] (one + one)[i],
            ) by {
                assert((one + one)[i] == sorted[0]);
            }
            assert forall|i: int| 0 <= i < sorted.len() implies (one + one).contains(
                #[trigger] sorted[i],
            ) by {
                assert((one + one)[0] == sorted[i]);
            }
        }
        lemma_drawn_chain(one + one, sorted, objs);
        lemma_drawn_chain(objs, sorted, one + one);
        lemma_node_answers(only, only, one, one, objs, r, time0, time1);
    } else if objs.len() == 2 {
        let first = sorted[0];
        let second = sorted[1];
        assert(has_boxes(&sorted[0], time0, time1));
        assert(has_boxes(&sorted[1], time0, time1));
        lemma_object_answers(&first, r, time0, time1);
        lemma_object_answers(&second, r, time0, time1);
        let one = seq![first];
        let two = seq![second];
        assert(one + two =~= sorted);
        lemma_equal_drawn(one + two, sorted);
        lemma_drawn_chain(one + two, sorted, objs);
        lemma_drawn_chain(objs, sorted, one + two);
        lemma_node_answers(first, second, one, two, objs, r, time0, time1);
    } else {
        let half = objs.len() as int / 2;
        let low = sorted.subrange(0, half);
        let high = sorted.subrange(half, objs.len() as int);
        assert(all_tame(low, r, time0, time1)) by {
            assert forall|i: int| 0 <= i < low.len() implies has_boxes(
                &#[trigger] low[i],
                time0,
                time1,
            ) && tame(&low[i], r, low[i].bounding_box_spec(time0, time1).unwrap()) by {
                assert(low[i] == sorted[i]);
            }
        }
        assert(all_tame(high, r, time0, time1)) by {
            assert forall|i: int| 0 <= i < high.len() implies has_boxes(
                &#[trigger] high[i],
                time0,
                time1,
            ) && tame(&high[i], r, high[i].bounding_box_spec(time0, time1).unwrap()) by {
                assert(high[i] == sorted[half + i]);
            }
        }
        lemma_tree_answers(low, r, time0, time1, next_depth(depth));
        lemma_tree_answers(high, r, time0, time1, next_depth(depth));
        assert(low + high =~= sorted);
        lemma_equal_drawn(low + high, sorted);
        lemma_drawn_chain(low + high, sorted, objs);
        lemma_drawn_chain(objs, sorted, low + high);
        lemma_node_answers(
            build_spec(low, time0, time1, next_depth(depth)),
            build_spec(high, time0, time1, next_depth(depth)),
            low,
            high,
            objs,
            r,
            time0,
            time1,
        );
    }
}

/// The tree over a list of objects and a scan of the list agree. For objects
/// that are tame for the ray, and an interval that is not empty, both return
/// a nearest hit among the hits of the objects: either both miss, or both
/// hit at the same parameter; and neither draws from the sampler.
pub proof fn tree_agrees_with_list(
    list: &HittableList,
    r: &Ray,
    t_min: Fixed,
    t_max: Fixed,
    sampler: Stream,
    time0: Fixed,
    time1: Fixed,
    depth: i32,
)
    requires
        list.list@.len() > 0,
        all_tame(list.list@, r, time0, time1),
        t_min.raw < t_max.raw,
    ensures
        ({
            let tree = build_spec(list.list@, time0, time1, depth);
            let descent = tree.hit_spec(r, t_min, t_max, sampler);
            let scan = list.hit_spec(r, t_min, t_max, sampler);
            &&& descent.1 == sampler
            &&& scan.1 == sampler
            &&& nearest_among(list.list@, list.list@.len() as int, r, t_min, t_max, descent.0)
            &&& nearest_among(list.list@, list.list@.len() as int, r, t_min, t_max, scan.0)
            &&& descent.0 is Some <==> scan.0 is Some
            &&& descent.0 is Some ==> descent.0.unwrap().t == scan.0.unwrap().t
        }),
{
    let objs = list.list@;
    lemma_tree_answers(objs, r, time0, time1, depth);
    lemma_tame_is_consistent(objs, r, time0, time1);
    list.lemma_scan_is_nearest(r, t_min, t_max, sampler, objs.len());
    let tree = build_spec(objs, time0, time1, depth);
    lemma_answer_on(&tree, objs, r, time0, time1, t_min, t_max, sampler);
    let descent = tree.hit_spec(r, t_min, t_max, sampler);
    let scan = list.hit_spec(r, t_min, t_max, sampler);
    assert(nearest_among(objs, objs.len() as int, r, t_min, t_max, descent.0));
    assert(nearest_among(objs, objs.len() as int, r, t_min, t_max, scan.0));
    if descent.0 is Some {
        let i = choose|i: int|
            0 <= i < objs.len() && #[trigger] found(&objs[i], r, t_min, t_max) == descent.0;
        assert(found(&objs[i], r, t_min, t_max) is Some);
        assert(scan.0 is Some);
    }
    if scan.0 is Some {
        let j = choose|j: int|
            0 <= j < objs.len() && #[trigger] found(&objs[j], r, t_min, t_max) == scan.0;
        assert(found(&objs[j], r, t_min, t_max) is Some);
        assert(descent.0 is Some);
        let i = choose|i: int|
            0 <= i < objs.len() && #[trigger] found(&objs[i], r, t_min, t_max) == descent.0;
        assert(descent.0.unwrap().t.raw <= found(&objs[j], r, t_min, t_max).unwrap().t.raw);
        assert(scan.0.unwrap().t.raw <= found(&objs[i], r, t_min, t_max).unwrap().t.raw);
    }
}

} // verus!
