//! Axis-aligned bounding boxes: the union of two boxes and the slab test that
//! clips a ray's parameter interval against a box.

use vstd::prelude::*;
use crate::fixed::Fixed;
use crate::ray::Ray;
use crate::vec3::Vec3;

verus! {

/// The box of the points `p` with `min <= p <= max` on every axis.
#[derive(Clone, Copy, PartialEq, Eq, Structural, Debug)]
pub struct AABB {
    pub min: Vec3,
    pub max: Vec3,
}

/// `a` is at most `b` on every axis.
pub open spec fn vec_le(a: Vec3, b: Vec3) -> bool {
    a.x.raw <= b.x.raw && a.y.raw <= b.y.raw && a.z.raw <= b.z.raw
}

pub open spec fn surrounding_box_spec(box0: AABB, box1: AABB) -> AABB {
    AABB { min: box0.min.min(box1.min), max: box0.max.max(box1.max) }
}

/// The least box that holds both `box0` and `box1`: the componentwise minimum
/// of the two lower corners and maximum of the two upper corners.
#[verifier::when_used_as_spec(surrounding_box_spec)]
pub fn surrounding_box(box0: AABB, box1: AABB) -> (r: AABB)
    ensures
        r == surrounding_box_spec(box0, box1),
        r.min == box0.min.min(box1.min),
        r.max == box0.max.max(box1.max),
{
    let min = box0.min.min(box1.min);
    let max = box0.max.max(box1.max);
    AABB { min, max }
}

/// One axis of the slab test. `lo` and `hi` bound the box on the axis, `origin`
/// and `dir` are the ray's components on it, and `t_min..t_max` is the interval
/// so far. The result is the interval clipped to the slab, or `None` once it
/// is empty.
///
/// The parameters at which the ray crosses the two planes are computed with
/// the reciprocal of `dir` and swapped where it is negative. A ray that runs
/// along the slab (`dir` is zero) is left unclipped where its origin lies
/// between the planes, and misses otherwise.
pub open spec fn clip_axis_spec(
    lo: Fixed,
    hi: Fixed,
    origin: Fixed,
    dir: Fixed,
    t_min: Fixed,
    t_max: Fixed,
) -> Option<(Fixed, Fixed)> {
    if dir.raw == 0 {
        if lo.raw <= origin.raw <= hi.raw && t_min.raw < t_max.raw {
            Some((t_min, t_max))
        } else {
            None
        }
    } else {
        let inv_d = Fixed::one().div(dir);
        let near = lo.sub(origin).mul(inv_d);
        let far = hi.sub(origin).mul(inv_d);
        let t0 = if inv_d.raw < 0 { far } else { near };
        let t1 = if inv_d.raw < 0 { near } else { far };
        let new_min = if t0.raw > t_min.raw { t0 } else { t_min };
        let new_max = if t1.raw < t_max.raw { t1 } else { t_max };
        if new_max.raw <= new_min.raw {
            None
        } else {
            Some((new_min, new_max))
        }
    }
}

#[verifier::when_used_as_spec(clip_axis_spec)]
pub fn clip_axis(
    lo: Fixed,
    hi: Fixed,
    origin: Fixed,
    dir: Fixed,
    t_min: Fixed,
    t_max: Fixed,
) -> (r: Option<(Fixed, Fixed)>)
    ensures
        r == clip_axis_spec(lo, hi, origin, dir, t_min, t_max),
        r matches Some((a, b)) ==> t_min.raw <= a.raw < b.raw <= t_max.raw,
{
    if dir.raw == 0 {
        if lo.raw <= origin.raw && origin.raw <= hi.raw && t_min.raw < t_max.raw {
            Some((t_min, t_max))
        } else {
            None
        }
    } else {
        let inv_d = Fixed::one().div(dir);
        let near = lo.sub(origin).mul(inv_d);
        let far = hi.sub(origin).mul(inv_d);
        let t0 = if inv_d.raw < 0 { far } else { near };
        let t1 = if inv_d.raw < 0 { near } else { far };
        let new_min = if t0.raw > t_min.raw { t0 } else { t_min };
        let new_max = if t1.raw < t_max.raw { t1 } else { t_max };
        if new_max.raw <= new_min.raw {
            None
        } else {
            Some((new_min, new_max))
        }
    }
}

impl AABB {
    /// The lower corner is at most the upper corner on every axis.
    pub open spec fn wf(&self) -> bool {
        vec_le(self.min, self.max)
    }

    /// Every point of `inner` is a point of `self`.
    pub open spec fn encloses(&self, inner: AABB) -> bool {
        vec_le(self.min, inner.min) && vec_le(inner.max, self.max)
    }

    #[verifier::opaque]
    pub open spec fn hit_spec(&self, ray: &Ray, t_min: Fixed, t_max: Fixed) -> Option<(Fixed, Fixed)> {
        match clip_axis(self.min.x, self.max.x, ray.origin.x, ray.direction.x, t_min, t_max) {
            None => None,
            Some((a, b)) => match clip_axis(
                self.min.y,
                self.max.y,
                ray.origin.y,
                ray.direction.y,
                a,
                b,
            ) {
                None => None,
                Some((c, d)) => clip_axis(
                    self.min.z,
                    self.max.z,
                    ray.origin.z,
                    ray.direction.z,
                    c,
                    d,
                ),
            },
        }
    }

    /// The slab test: clips `t_min..t_max` against the x, y and z slabs of the
    /// box in turn and stops at the first axis on which nothing is left.
    /// `Some` holds the part of the interval in which the ray is inside the
    /// box; it is never empty and never wider than the interval given.
    #[verifier::when_used_as_spec(hit_spec)]
    pub fn hit(&self, ray: &Ray, t_min: Fixed, t_max: Fixed) -> (r: Option<(Fixed, Fixed)>)
        ensures
            r == self.hit_spec(ray, t_min, t_max),
            r matches Some((a, b)) ==> t_min.raw <= a.raw < b.raw <= t_max.raw,
    {
        proof {
            reveal(AABB::hit_spec);
        }
        let (after_x_min, after_x_max) = match clip_axis(
            self.min.x,
            self.max.x,
            ray.origin.x,
            ray.direction.x,
            t_min,
            t_max,
        ) {
            Some(left) => left,
            None => {
                return None;
            },
        };
        let (after_y_min, after_y_max) = match clip_axis(
            self.min.y,
            self.max.y,
            ray.origin.y,
            ray.direction.y,
            after_x_min,
            after_x_max,
        ) {
            Some(left) => left,
            None => {
                return None;
            },
        };
        clip_axis(
            self.min.z,
            self.max.z,
            ray.origin.z,
            ray.direction.z,
            after_y_min,
            after_y_max,
        )
    }
}

/// On one axis, the ray is inside the slab at the parameter `t`, and not at
/// an end of its stay: `t` lies strictly between the two parameters at which
/// the ray crosses the planes, or the ray runs along the slab between them.
pub open spec fn inside_axis(lo: Fixed, hi: Fixed, origin: Fixed, dir: Fixed, t: Fixed) -> bool {
    if dir.raw == 0 {
        lo.raw <= origin.raw <= hi.raw
    } else {
        let inv_d = Fixed::one().div(dir);
        let near = lo.sub(origin).mul(inv_d);
        let far = hi.sub(origin).mul(inv_d);
        let t0 = if inv_d.raw < 0 { far } else { near };
        let t1 = if inv_d.raw < 0 { near } else { far };
        t0.raw < t.raw < t1.raw
    }
}

/// The ray is inside the box at the parameter `t`, as the slab test sees it.
#[verifier::opaque]
pub open spec fn inside_box(b: AABB, r: &Ray, t: Fixed) -> bool {
    &&& inside_axis(b.min.x, b.max.x, r.origin.x, r.direction.x, t)
    &&& inside_axis(b.min.y, b.max.y, r.origin.y, r.direction.y, t)
    &&& inside_axis(b.min.z, b.max.z, r.origin.z, r.direction.z, t)
}

/// The interval `a..b` is what is left of `lo..hi` after cuts that spare
/// `t`: it is not empty, it holds `t`, and each of its ends is the end given
/// or lies strictly beyond `t`.
pub open spec fn spares(lo: Fixed, hi: Fixed, a: Fixed, b: Fixed, t: Fixed) -> bool {
    &&& lo.raw <= a.raw <= t.raw
    &&& t.raw <= b.raw <= hi.raw
    &&& a.raw < b.raw
    &&& a == lo || a.raw < t.raw
    &&& b == hi || t.raw < b.raw
}

/// A wider slab holds what a narrower one holds.
pub proof fn lemma_axis_widens(
    lo: Fixed,
    hi: Fixed,
    wide_lo: Fixed,
    wide_hi: Fixed,
    origin: Fixed,
    dir: Fixed,
    t: Fixed,
)
    requires
        wide_lo.raw <= lo.raw,
        hi.raw <= wide_hi.raw,
        inside_axis(lo, hi, origin, dir, t),
    ensures
        inside_axis(wide_lo, wide_hi, origin, dir, t),
{
    if dir.raw != 0 {
        let inv_d = Fixed::one().div(dir);
        crate::fixed::lemma_mul_monotone(wide_lo.sub(origin), lo.sub(origin), inv_d);
        crate::fixed::lemma_mul_monotone(hi.sub(origin), wide_hi.sub(origin), inv_d);
    }
}

/// An enclosing box holds the ray wherever the box inside it does.
pub proof fn lemma_box_widens(inner: AABB, outer: AABB, r: &Ray, t: Fixed)
    requires
        outer.encloses(inner),
        inside_box(inner, r, t),
    ensures
        inside_box(outer, r, t),
{
    reveal(inside_box);
    lemma_axis_widens(
        inner.min.x,
        inner.max.x,
        outer.min.x,
        outer.max.x,
        r.origin.x,
        r.direction.x,
        t,
    );
    lemma_axis_widens(
        inner.min.y,
        inner.max.y,
        outer.min.y,
        outer.max.y,
        r.origin.y,
        r.direction.y,
        t,
    );
    lemma_axis_widens(
        inner.min.z,
        inner.max.z,
        outer.min.z,
        outer.max.z,
        r.origin.z,
        r.direction.z,
        t,
    );
}

/// Clipping against a slab that holds the ray at `t` spares `t`.
pub proof fn lemma_clip_spares(
    lo: Fixed,
    hi: Fixed,
    origin: Fixed,
    dir: Fixed,
    t_min: Fixed,
    t_max: Fixed,
    a: Fixed,
    b: Fixed,
    t: Fixed,
)
    requires
        inside_axis(lo, hi, origin, dir, t),
        spares(t_min, t_max, a, b, t),
    ensures
        clip_axis_spec(lo, hi, origin, dir, a, b) is Some,
        spares(
            t_min,
            t_max,
            clip_axis_spec(lo, hi, origin, dir, a, b).unwrap().0,
            clip_axis_spec(lo, hi, origin, dir, a, b).unwrap().1,
            t,
        ),
{
}

impl AABB {
    /// The slab test of a box that holds the ray at `t`, a parameter of the
    /// interval, leaves an interval that spares `t`.
    pub proof fn lemma_hit_spares(&self, r: &Ray, t_min: Fixed, t_max: Fixed, t: Fixed)
        requires
            inside_box(*self, r, t),
            t_min.raw <= t.raw <= t_max.raw,
            t_min.raw < t_max.raw,
        ensures
            self.hit_spec(r, t_min, t_max) is Some,
            spares(
                t_min,
                t_max,
                self.hit_spec(r, t_min, t_max).unwrap().0,
                self.hit_spec(r, t_min, t_max).unwrap().1,
                t,
            ),
    {
        reveal(inside_box);
        reveal(AABB::hit_spec);
        lemma_clip_spares(
            self.min.x,
            self.max.x,
            r.origin.x,
            r.direction.x,
            t_min,
            t_max,
            t_min,
            t_max,
            t,
        );
        let first = clip_axis_spec(
            self.min.x,
            self.max.x,
            r.origin.x,
            r.direction.x,
            t_min,
            t_max,
        ).unwrap();
        lemma_clip_spares(
            self.min.y,
            self.max.y,
            r.origin.y,
            r.direction.y,
            t_min,
            t_max,
            first.0,
            first.1,
            t,
        );
        let second = clip_axis_spec(
            self.min.y,
            self.max.y,
            r.origin.y,
            r.direction.y,
            first.0,
            first.1,
        ).unwrap();
        lemma_clip_spares(
            self.min.z,
            self.max.z,
            r.origin.z,
            r.direction.z,
            t_min,
            t_max,
            second.0,
            second.1,
            t,
        );
    }

    /// What the slab test leaves lies inside the interval given.
    pub proof fn lemma_hit_narrows(&self, r: &Ray, t_min: Fixed, t_max: Fixed)
        ensures
            self.hit_spec(r, t_min, t_max) matches Some((a, b)) ==> t_min.raw <= a.raw < b.raw
                <= t_max.raw,
    {
        reveal(AABB::hit_spec);
    }
}

/// The union of two boxes does not depend on their order.
pub proof fn surrounding_box_commutes(a: AABB, b: AABB)
    ensures
        surrounding_box(a, b) == surrounding_box(b, a),
{
}

/// Folding boxes upward gives the same box however the folds are grouped.
pub proof fn surrounding_box_associates(a: AABB, b: AABB, c: AABB)
    ensures
        surrounding_box(surrounding_box(a, b), c) == surrounding_box(a, surrounding_box(b, c)),
{
}

/// The union of two boxes is the least box that encloses both: it encloses
/// each of them, and every box that encloses both encloses it.
pub proof fn surrounding_box_is_least(a: AABB, b: AABB, other: AABB)
    ensures
        surrounding_box(a, b).encloses(a),
        surrounding_box(a, b).encloses(b),
        other.encloses(a) && other.encloses(b) ==> other.encloses(surrounding_box(a, b)),
        a.wf() && b.wf() ==> surrounding_box(a, b).wf(),
{
}

} // verus!
