//! The bounding-volume tree: a binary tree of boxes over the objects of a
//! scene, so that a ray is tried only on the objects whose boxes it crosses.

use vstd::prelude::*;
use std::sync::Arc;
use crate::fixed::Fixed;
use crate::hittable::aabb::surrounding_box;
use crate::hittable::aabb::AABB;
use crate::hittable::lemma_box_dispatch;
use crate::hittable::lemma_hit_dispatch;
use crate::hittable::HitRecord;
use crate::hittable::Hittables;
use crate::ray::Ray;
use crate::sampler::Sampler;
use crate::sampler::Stream;
use crate::utils::share;

verus! {

/// A node of the tree: two children and the union of their boxes. A node over
/// a single object holds that object as both of its children.
#[derive(Debug)]
pub struct BvhNode {
    pub left: Arc<Hittables>,
    pub right: Arc<Hittables>,
    pub bounding_box: AABB,
}

/// The nearer of two hits: the left one where its parameter is the smaller,
/// else the right one; the one there is where the other side missed.
pub open spec fn nearer_spec<'a>(left: Option<HitRecord<'a>>, right: Option<HitRecord<'a>>) -> Option<
    HitRecord<'a>,
> {
    match (left, right) {
        (Some(l), Some(r)) => if l.t.lt(r.t) {
            Some(l)
        } else {
            Some(r)
        },
        (Some(l), None) => Some(l),
        (None, Some(r)) => Some(r),
        _ => None,
    }
}

pub fn nearer<'a>(left: Option<HitRecord<'a>>, right: Option<HitRecord<'a>>) -> (rec: Option<
    HitRecord<'a>,
>)
    ensures
        rec == nearer_spec(left, right),
{
    match (left, right) {
        (Some(l), Some(r)) => {
            if l.t.lt(r.t) {
                Some(l)
            } else {
                Some(r)
            }
        },
        (Some(l), None) => Some(l),
        (None, Some(r)) => Some(r),
        _ => None,
    }
}

/// The axis that the objects are ordered along at the given depth of the
/// tree: x, y and z in turn.
pub open spec fn split_axis_spec(depth: i32) -> usize {
    if depth % 3 == 0 {
        0
    } else if depth >= 0 && depth % 3 == 1 {
        1
    } else {
        2
    }
}

#[verifier::when_used_as_spec(split_axis_spec)]
pub fn split_axis(depth: i32) -> (axis: usize)
    ensures
        axis == split_axis_spec(depth),
        axis < 3,
{
    let rem: i32 = depth % 3;
    if rem == 0 {
        0
    } else if rem == 1 {
        1
    } else {
        2
    }
}

/// The depth of the children of a node at `depth`.
pub open spec fn next_depth_spec(depth: i32) -> i32 {
    if depth == i32::MAX {
        i32::MIN
    } else {
        (depth + 1) as i32
    }
}

#[verifier::when_used_as_spec(next_depth_spec)]
pub fn next_depth(depth: i32) -> (r: i32)
    ensures
        r == next_depth_spec(depth),
{
    if depth == i32::MAX {
        i32::MIN
    } else {
        depth + 1
    }
}

/// What the objects are ordered by: the least coordinate on `axis` of the box
/// of the object at time zero (zero for an object without a box).
pub open spec fn sort_key_spec(h: &Hittables, axis: usize) -> Fixed {
    match h.bounding_box_spec(Fixed::zero(), Fixed::zero()) {
        Some(b) => b.min.get(axis),
        None => Fixed::zero(),
    }
}

pub fn sort_key(h: &Hittables, axis: usize) -> (key: Fixed)
    requires
        axis < 3,
    ensures
        key == sort_key_spec(h, axis),
{
    match h.bounding_box(Fixed::zero(), Fixed::zero()) {
        Some(b) => b.min.get(axis),
        None => Fixed::zero(),
    }
}

/// The place among the first `upto` objects of `s` at which an object with
/// the given key goes: before the first object at or after `from` that has a
/// greater key, and at `upto` where there is none.
pub open spec fn insert_place(s: Seq<Hittables>, axis: usize, upto: int, key: Fixed, from: int) -> int
    decreases upto - from,
{
    if from >= upto {
        upto
    } else if sort_key_spec(&s[from], axis).gt(key) {
        from
    } else {
        insert_place(s, axis, upto, key, from + 1)
    }
}

/// `s` with the object at `at` moved to its place among the objects before
/// it.
pub open spec fn sort_step(s: Seq<Hittables>, axis: usize, at: int) -> Seq<Hittables> {
    s.remove(at).insert(insert_place(s, axis, at, sort_key_spec(&s[at], axis), 0), s[at])
}

/// `s` after each of its first `n` objects was moved to its place in turn.
pub open spec fn sorted_upto(s: Seq<Hittables>, axis: usize, n: nat) -> Seq<Hittables>
    decreases n,
{
    if n <= 1 {
        s
    } else {
        sort_step(sorted_upto(s, axis, (n - 1) as nat), axis, n - 1)
    }
}

/// The objects of `s` in the order of their keys on `axis`, with objects of
/// one key in the order in which `s` has them.
pub open spec fn sorted_spec(s: Seq<Hittables>, axis: usize) -> Seq<Hittables> {
    sorted_upto(s, axis, s.len())
}

/// The place that `insert_place` gives lies between `from` and `upto`.
pub proof fn lemma_insert_place_bounds(s: Seq<Hittables>, axis: usize, upto: int, key: Fixed, from: int)
    requires
        0 <= from <= upto,
    ensures
        from <= insert_place(s, axis, upto, key, from) <= upto,
    decreases upto - from,
{
    if from < upto && !sort_key_spec(&s[from], axis).gt(key) {
        lemma_insert_place_bounds(s, axis, upto, key, from + 1);
    }
}

/// Sorting keeps the objects: the same ones, each as often as before.
pub proof fn lemma_sorted_keeps_objects(s: Seq<Hittables>, axis: usize, n: nat)
    requires
        n <= s.len(),
    ensures
        sorted_upto(s, axis, n).len() == s.len(),
        sorted_upto(s, axis, n).to_multiset() == s.to_multiset(),
    decreases n,
{
    if n > 1 {
        let before = sorted_upto(s, axis, (n - 1) as nat);
        lemma_sorted_keeps_objects(s, axis, (n - 1) as nat);
        let at = n - 1;
        let key = sort_key_spec(&before[at], axis);
        lemma_insert_place_bounds(before, axis, at, key, 0);
        let place = insert_place(before, axis, at, key, 0);
        vstd::seq_lib::to_multiset_remove(before, at);
        vstd::seq_lib::to_multiset_insert(before.remove(at), place, before[at]);
        assert(before.to_multiset().remove(before[at]).insert(before[at]) =~= before.to_multiset())
            by {
            vstd::seq_lib::to_multiset_contains(before, before[at]);
            assert(before.contains(before[at]));
        }
    }
}

/// Orders the objects by their keys on `axis`, keeping the order of objects
/// with one key.
pub fn sort_by_axis(list: &mut Vec<Hittables>, axis: usize)
    requires
        axis < 3,
    ensures
        final(list)@ == sorted_spec(old(list)@, axis),
        final(list)@.len() == old(list)@.len(),
        final(list)@.to_multiset() == old(list)@.to_multiset(),
{
    let n = list.len();
    let mut i: usize = 1;
    while i < n
        invariant
            list@.len() == n,
            n == old(list)@.len(),
            1 <= i,
            i <= n || n == 0,
            axis < 3,
            list@ == sorted_upto(old(list)@, axis, i as nat),
        decreases n - i,
    {
        let key = sort_key(&list[i], axis);
        let mut j: usize = 0;
        while j < i && !sort_key(&list[j], axis).gt(key)
            invariant
                j <= i < list@.len(),
                axis < 3,
                insert_place(list@, axis, i as int, key, 0) == insert_place(
                    list@,
                    axis,
                    i as int,
                    key,
                    j as int,
                ),
            decreases i - j,
        {
            j += 1;
        }
        let moved = list.remove(i);
        list.insert(j, moved);
        i += 1;
    }
    proof {
        lemma_sorted_keeps_objects(old(list)@, axis, old(list)@.len());
    }
}

/// The object has a box at time zero, which it is ordered by, and one over the
/// exposure from `time0` to `time1`.
pub open spec fn has_boxes(h: &Hittables, time0: Fixed, time1: Fixed) -> bool {
    h.bounding_box_spec(Fixed::zero(), Fixed::zero()) is Some && h.bounding_box_spec(
        time0,
        time1,
    ) is Some
}

/// The node over the two children, with the union of their boxes over the
/// exposure.
pub open spec fn node_spec(left: Hittables, right: Hittables, time0: Fixed, time1: Fixed) -> Hittables {
    Hittables::BvhNode(
        BvhNode {
            left: Arc::new(left),
            right: Arc::new(right),
            bounding_box: surrounding_box(
                left.bounding_box_spec(time0, time1).unwrap(),
                right.bounding_box_spec(time0, time1).unwrap(),
            ),
        },
    )
}

/// The tree over the objects of `list`. The objects are ordered along the
/// axis of the depth. One object becomes both children of a node, two become
/// one child each, and more are split in the middle into two trees one level
/// down.
pub open spec fn build_spec(list: Seq<Hittables>, time0: Fixed, time1: Fixed, depth: i32) -> Hittables
    decreases list.len(),
{
    let sorted = sorted_spec(list, split_axis(depth));
    if list.len() <= 1 {
        node_spec(sorted[0], sorted[0], time0, time1)
    } else if list.len() == 2 {
        node_spec(sorted[0], sorted[1], time0, time1)
    } else {
        let half = list.len() as int / 2;
        proof {
            lemma_sorted_keeps_objects(list, split_axis(depth), list.len());
        }
        node_spec(
            build_spec(sorted.subrange(0, half), time0, time1, next_depth(depth)),
            build_spec(sorted.subrange(half, list.len() as int), time0, time1, next_depth(depth)),
            time0,
            time1,
        )
    }
}

impl BvhNode {
    /// The tree over the objects of `list`, for the exposure from `time0` to
    /// `time1`, with `depth` the depth of its root. The list holds an object,
    /// and every object has its boxes.
    #[allow(clippy::new_ret_no_self)]
    pub fn new(list: Vec<Hittables>, time0: Fixed, time1: Fixed, depth: i32) -> (h: Hittables)
        requires
            list@.len() > 0,
            forall|i: int| 0 <= i < list@.len() ==> has_boxes(&#[trigger] list@[i], time0, time1),
        ensures
            h == build_spec(list@, time0, time1, depth),
            h is BvhNode,
        decreases list@.len(),
    {
        let axis = split_axis(depth);
        let mut list = list;
        let ghost given = list@;
        let n = list.len();
        sort_by_axis(&mut list, axis);
        proof {
            assert forall|i: int| 0 <= i < list@.len() implies has_boxes(
                &#[trigger] list@[i],
                time0,
                time1,
            ) by {
                vstd::seq_lib::to_multiset_contains(list@, list@[i]);
                vstd::seq_lib::to_multiset_contains(given, list@[i]);
                assert(list@.contains(list@[i]));
                let at = choose|at: int| 0 <= at < given.len() && given[at] == list@[i];
                assert(has_boxes(&given[at], time0, time1));
            }
        }
        let ghost sorted = list@;
        let (left, right): (Arc<Hittables>, Arc<Hittables>) = if n == 1 {
            let only = list.pop().unwrap();
            let left = Arc::new(only);
            let right = share(&left);
            (left, right)
        } else if n == 2 {
            let second = list.pop().unwrap();
            let first = list.pop().unwrap();
            (Arc::new(first), Arc::new(second))
        } else {
            let half = n / 2;
            let right_list = list.split_off(half);
            proof {
                assert(list@ =~= sorted.subrange(0, half as int));
                assert(right_list@ =~= sorted.subrange(half as int, n as int));
                assert forall|i: int| 0 <= i < list@.len() implies has_boxes(
                    &#[trigger] list@[i],
                    time0,
                    time1,
                ) by {
                    assert(list@[i] == sorted[i]);
                }
                assert forall|i: int| 0 <= i < right_list@.len() implies has_boxes(
                    &#[trigger] right_list@[i],
                    time0,
                    time1,
                ) by {
                    assert(right_list@[i] == sorted[half + i]);
                }
            }
            (
                Arc::new(BvhNode::new(list, time0, time1, next_depth(depth))),
                Arc::new(BvhNode::new(right_list, time0, time1, next_depth(depth))),
            )
        };
        proof {
            lemma_box_dispatch(&*left, time0, time1);
            lemma_box_dispatch(&*right, time0, time1);
        }
        let box_left = left.bounding_box(time0, time1).unwrap();
        let box_right = right.bounding_box(time0, time1).unwrap();
        Hittables::BvhNode(
            BvhNode { left, right, bounding_box: surrounding_box(box_left, box_right) },
        )
    }

    #[verifier::opaque]
    pub open spec fn hit_spec(&self, r: &Ray, t_min: Fixed, t_max: Fixed, sampler: Stream) -> (
        Option<HitRecord<'_>>,
        Stream,
    )
        decreases self,
    {
        match self.bounding_box.hit(r, t_min, t_max) {
            Some((lo, hi)) => {
                let left = self.left.hit_spec(r, lo, hi, sampler);
                let right = self.right.hit_spec(r, lo, hi, left.1);
                (nearer_spec(left.0, right.0), right.1)
            },
            None => (None, sampler),
        }
    }

    /// Nothing where the ray misses the box of the node. Else both children
    /// are tried, on the interval that the slab test left, and the nearer of
    /// their hits is returned.
    pub fn hit(&self, r: &Ray, t_min: Fixed, t_max: Fixed, sampler: &mut Sampler) -> (rec: Option<
        HitRecord<'_>,
    >)
        ensures
            (rec, final(sampler)@) == self.hit_spec(r, t_min, t_max, old(sampler)@),
        decreases self,
    {
        proof {
            self.lemma_hit_unfold(r, t_min, t_max, sampler@);
        }
        match self.bounding_box.hit(r, t_min, t_max) {
            Some((lo, hi)) => {
                let left_rec = self.left.hit(r, lo, hi, sampler);
                let right_rec = self.right.hit(r, lo, hi, sampler);
                nearer(left_rec, right_rec)
            },
            None => None,
        }
    }

    /// What a node answers, alone and as a scene object, in terms of its
    /// children.
    pub proof fn lemma_hit_unfold(&self, r: &Ray, t_min: Fixed, t_max: Fixed, sampler: Stream)
        ensures
            Hittables::BvhNode(*self).hit_spec(r, t_min, t_max, sampler) == self.hit_spec(
                r,
                t_min,
                t_max,
                sampler,
            ),
            self.hit_spec(r, t_min, t_max, sampler) == (
            match self.bounding_box.hit(r, t_min, t_max) {
                Some((lo, hi)) => {
                    let left = self.left.hit_spec(r, lo, hi, sampler);
                    let right = self.right.hit_spec(r, lo, hi, left.1);
                    (nearer_spec(left.0, right.0), right.1)
                },
                None => (None::<HitRecord>, sampler),
            }),
    {
        lemma_hit_dispatch(&Hittables::BvhNode(*self), r, t_min, t_max, sampler);
        reveal(BvhNode::hit_spec);
    }

    pub open spec fn bounding_box_spec(&self, t0: Fixed, t1: Fixed) -> Option<AABB> {
        Some(self.bounding_box)
    }

    /// The box of the node.
    #[verifier::when_used_as_spec(bounding_box_spec)]
    pub fn bounding_box(&self, t0: Fixed, t1: Fixed) -> (b: Option<AABB>)
        ensures
            b == self.bounding_box_spec(t0, t1),
    {
        Some(self.bounding_box)
    }
}

} // verus!
