//! How deep the tree is: the number of levels grows with the logarithm of
//! the number of objects.

use vstd::prelude::*;
use vstd::arithmetic::power2::lemma2_to64;
use vstd::arithmetic::power2::lemma_pow2_unfold;
use vstd::arithmetic::power2::pow2;
use crate::fixed::Fixed;
use crate::hittable::bvh_node::build_spec;
use crate::hittable::bvh_node::lemma_sorted_keeps_objects;
use crate::hittable::bvh_node::next_depth;
use crate::hittable::bvh_node::node_spec;
use crate::hittable::bvh_node::sorted_spec;
use crate::hittable::bvh_node::split_axis;
use crate::hittable::Hittables;

verus! {

/// The number of nodes on the longest way from the root of a tree down to an
/// object that is not a node.
pub open spec fn height(h: &Hittables) -> nat
    decreases h,
{
    match h {
        Hittables::BvhNode(node) => {
            let left = height(&*node.left);
            let right = height(&*node.right);
            1 + if left > right {
                left
            } else {
                right
            }
        },
        _ => 0,
    }
}

/// The number of levels of the tree over `n` objects: one for up to two
/// objects, and one more than for the larger half beyond that.
pub open spec fn levels(n: nat) -> nat
    decreases n,
{
    if n <= 2 {
        1
    } else {
        1 + levels((n - n / 2) as nat)
    }
}

/// More objects never need fewer levels.
pub proof fn lemma_levels_grow(a: nat, b: nat)
    requires
        a <= b,
    ensures
        levels(a) <= levels(b),
    decreases b,
{
    if b > 2 {
        if a > 2 {
            lemma_levels_grow((a - a / 2) as nat, (b - b / 2) as nat);
        }
    }
}

/// Up to `2^k` objects need at most `k` levels.
pub proof fn lemma_levels_logarithmic(n: nat, k: nat)
    requires
        k >= 1,
        n <= pow2(k),
    ensures
        levels(n) <= k,
    decreases k,
{
    lemma2_to64();
    if n > 2 {
        if k == 1 {
            assert(false);
        } else {
            lemma_pow2_unfold(k);
            lemma_levels_logarithmic((n - n / 2) as nat, (k - 1) as nat);
        }
    }
}

/// A node is one level higher than the higher of its children.
proof fn lemma_node_height(left: Hittables, right: Hittables, time0: Fixed, time1: Fixed)
    ensures
        height(&node_spec(left, right, time0, time1)) == 1 + if height(&left) > height(&right) {
            height(&left)
        } else {
            height(&right)
        },
{
}

/// None of the objects is itself a node of a tree.
pub open spec fn no_nodes(objs: Seq<Hittables>) -> bool {
    forall|i: int| 0 <= i < objs.len() ==> !((#[trigger] objs[i]) is BvhNode)
}

/// The tree over `n` objects, none of them a tree itself, has at most
/// `levels(n)` levels.
pub proof fn tree_has_few_levels(objs: Seq<Hittables>, time0: Fixed, time1: Fixed, depth: i32)
    requires
        objs.len() > 0,
        no_nodes(objs),
    ensures
        height(&build_spec(objs, time0, time1, depth)) <= levels(objs.len()),
    decreases objs.len(),
{
    let axis = split_axis(depth);
    let sorted = sorted_spec(objs, axis);
    lemma_sorted_keeps_objects(objs, axis, objs.len());
    assert(no_nodes(sorted)) by {
        assert forall|i: int| 0 <= i < sorted.len() implies !((#[trigger] sorted[i]) is BvhNode) by {
            assert(sorted.contains(sorted[i]));
            vstd::seq_lib::to_multiset_contains(sorted, sorted[i]);
            vstd::seq_lib::to_multiset_contains(objs, sorted[i]);
            let at = choose|at: int| 0 <= at < objs.len() && objs[at] == sorted[i];
            assert(!(objs[at] is BvhNode));
        }
    }
    let tree = build_spec(objs, time0, time1, depth);
    if objs.len() <= 1 {
        assert(!(sorted[0] is BvhNode));
        assert(tree == node_spec(sorted[0], sorted[0], time0, time1));
        lemma_node_height(sorted[0], sorted[0], time0, time1);
        assert(height(&sorted[0]) == 0);
    } else if objs.len() == 2 {
        assert(!(sorted[0] is BvhNode));
        assert(!(sorted[1] is BvhNode));
        assert(tree == node_spec(sorted[0], sorted[1], time0, time1));
        lemma_node_height(sorted[0], sorted[1], time0, time1);
        assert(height(&sorted[0]) == 0);
        assert(height(&sorted[1]) == 0);
    } else {
        let half = objs.len() as int / 2;
        let low = sorted.subrange(0, half);
        let high = sorted.subrange(half, objs.len() as int);
        assert(no_nodes(low)) by {
            assert forall|i: int| 0 <= i < low.len() implies !((#[trigger] low[i]) is BvhNode) by {
                assert(low[i] == sorted[i]);
            }
        }
        assert(no_nodes(high)) by {
            assert forall|i: int| 0 <= i < high.len() implies !((#[trigger] high[i]) is BvhNode) by {
                assert(high[i] == sorted[half + i]);
            }
        }
        tree_has_few_levels(low, time0, time1, next_depth(depth));
        tree_has_few_levels(high, time0, time1, next_depth(depth));
        lemma_levels_grow(low.len(), high.len());
        let left = build_spec(low, time0, time1, next_depth(depth));
        let right = build_spec(high, time0, time1, next_depth(depth));
        assert(tree == node_spec(left, right, time0, time1));
        lemma_node_height(left, right, time0, time1);
        assert(high.len() == objs.len() - objs.len() / 2);
    }
}

/// The depth of the tree is logarithmic: over up to `2^k` objects, none of
/// them a tree itself, the tree has at most `k` levels.
pub proof fn tree_depth_is_logarithmic(
    objs: Seq<Hittables>,
    time0: Fixed,
    time1: Fixed,
    depth: i32,
    k: nat,
)
    requires
        objs.len() > 0,
        no_nodes(objs),
        k >= 1,
        objs.len() <= pow2(k),
    ensures
        height(&build_spec(objs, time0, time1, depth)) <= k,
{
    tree_has_few_levels(objs, time0, time1, depth);
    lemma_levels_logarithmic(objs.len(), k);
}

} // verus!
