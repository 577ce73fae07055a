//! Rectangles that lie in a plane at right angles to an axis.

use vstd::prelude::*;
use crate::fixed::Fixed;
use crate::hittable::aabb::AABB;
use crate::hittable::HitRecord;
use crate::hittable::Hittables;
use crate::material::MaterialType;
use crate::ray::Ray;
use crate::vec3::Vec3;

verus! {

/// The axis that a rectangle is at right angles to.
#[derive(Clone, Copy, PartialEq, Eq, Structural, Debug)]
pub enum StaticAxis {
    X,
    Y,
    Z,
}

/// The scalars from `start` up to, not including, `end`.
#[derive(Clone, Copy, PartialEq, Eq, Structural, Debug)]
pub struct Span {
    pub start: Fixed,
    pub end: Fixed,
}

impl Span {
    pub open spec fn new_spec(start: Fixed, end: Fixed) -> Span {
        Span { start, end }
    }

    /// The span from `start` to `end`.
    #[verifier::when_used_as_spec(new_spec)]
    pub fn new(start: Fixed, end: Fixed) -> (s: Span)
        ensures
            s == Span::new_spec(start, end),
    {
        Span { start, end }
    }

    pub open spec fn contains_spec(&self, x: Fixed) -> bool {
        self.start.raw <= x.raw < self.end.raw
    }

    /// Whether `start <= x < end`.
    #[verifier::when_used_as_spec(contains_spec)]
    pub fn contains(&self, x: Fixed) -> (b: bool)
        ensures
            b == self.contains_spec(x),
    {
        self.start.raw <= x.raw && x.raw < self.end.raw
    }

    pub open spec fn fraction_spec(&self, x: Fixed) -> Fixed {
        x.sub(self.start).div(self.end.sub(self.start))
    }

    /// How far `x` lies along the span: `(x - start) / (end - start)`.
    #[verifier::when_used_as_spec(fraction_spec)]
    pub fn fraction(&self, x: Fixed) -> (f: Fixed)
        ensures
            f == self.fraction_spec(x),
    {
        x.sub(self.start).div(self.end.sub(self.start))
    }
}

/// The thickness that a rectangle is given on each side of its plane when a
/// box is put around it.
pub open spec fn rect_margin_spec() -> Fixed {
    Fixed::ratio(1, 10000)
}

#[verifier::when_used_as_spec(rect_margin_spec)]
pub fn rect_margin() -> (m: Fixed)
    ensures
        m == rect_margin_spec(),
{
    Fixed::ratio(1, 10000)
}

/// The rectangle in the plane where the coordinate on `static_axis` is `k`,
/// over `range1` and `range2` on the two other axes, taken in the order x, y,
/// z.
#[derive(Debug)]
pub struct Rect {
    pub range1: Span,
    pub range2: Span,
    pub k: Fixed,
    pub static_axis: StaticAxis,
    pub material: MaterialType,
}

impl StaticAxis {
    /// The axis itself and the two others, as places in a vector.
    pub open spec fn indices_spec(self) -> (usize, usize, usize) {
        match self {
            StaticAxis::X => (0, 1, 2),
            StaticAxis::Y => (1, 0, 2),
            StaticAxis::Z => (2, 0, 1),
        }
    }

    #[verifier::when_used_as_spec(indices_spec)]
    pub fn indices(self) -> (r: (usize, usize, usize))
        ensures
            r == self.indices_spec(),
            r.0 < 3 && r.1 < 3 && r.2 < 3,
    {
        match self {
            StaticAxis::X => (0, 1, 2),
            StaticAxis::Y => (1, 0, 2),
            StaticAxis::Z => (2, 0, 1),
        }
    }
}

impl Rect {
    /// The rectangle as a scene object.
    #[allow(clippy::new_ret_no_self)]
    pub fn new(
        range1: Span,
        range2: Span,
        k: Fixed,
        static_axis: StaticAxis,
        material: MaterialType,
    ) -> (h: Hittables)
        ensures
            h == Hittables::Rect(Rect { range1, range2, k, static_axis, material }),
    {
        Hittables::Rect(Rect { range1, range2, k, static_axis, material })
    }

    /// The parameter at which the ray crosses the plane of the rectangle:
    /// `(k - origin) / direction` on the fixed axis.
    pub open spec fn plane_t(&self, r: &Ray) -> Fixed {
        let axes = self.static_axis.indices();
        self.k.sub(r.origin.get(axes.0)).div(r.direction.get(axes.0))
    }

    /// The ray is not parallel to the plane, crosses it inside the closed
    /// interval from `t0` to `t1`, and does so inside both ranges.
    pub open spec fn hits(&self, r: &Ray, t0: Fixed, t1: Fixed) -> bool {
        let axes = self.static_axis.indices();
        let t = self.plane_t(r);
        &&& r.direction.get(axes.0).raw != 0
        &&& t0.raw <= t.raw <= t1.raw
        &&& self.range1.contains(r.origin.get(axes.1).add(t.mul(r.direction.get(axes.1))))
        &&& self.range2.contains(r.origin.get(axes.2).add(t.mul(r.direction.get(axes.2))))
    }

    pub open spec fn hit_spec(&self, r: &Ray, t0: Fixed, t1: Fixed) -> Option<HitRecord<'_>> {
        if self.hits(r, t0, t1) {
            let axes = self.static_axis.indices();
            let t = self.plane_t(r);
            Some(
                HitRecord {
                    t,
                    u: self.range1.fraction(r.origin.get(axes.1).add(t.mul(r.direction.get(axes.1)))),
                    v: self.range2.fraction(r.origin.get(axes.2).add(t.mul(r.direction.get(axes.2)))),
                    point: r.point_at(t),
                    normal: Vec3::zero().with(axes.0, Fixed::one()),
                    mat: &self.material,
                },
            )
        } else {
            None
        }
    }

    /// The place at which the ray crosses the rectangle. The surface
    /// coordinates are the fractions along the two ranges, and the normal is
    /// the unit vector along the fixed axis, whichever side the ray comes
    /// from.
    #[verifier::when_used_as_spec(hit_spec)]
    pub fn hit(&self, r: &Ray, t0: Fixed, t1: Fixed) -> (rec: Option<HitRecord<'_>>)
        ensures
            rec == self.hit_spec(r, t0, t1),
            rec is Some <==> self.hits(r, t0, t1),
            rec matches Some(h) ==> t0.raw <= h.t.raw <= t1.raw && h.mat == &self.material,
    {
        let axis_index = self.static_axis.indices();
        if r.direction.get(axis_index.0).raw == 0 {
            return None;
        }
        let t = self.k.sub(r.origin.get(axis_index.0)).div(r.direction.get(axis_index.0));
        if t.lt(t0) || t.gt(t1) {
            return None;
        }
        let axis1 = r.origin.get(axis_index.1).add(t.mul(r.direction.get(axis_index.1)));
        let axis2 = r.origin.get(axis_index.2).add(t.mul(r.direction.get(axis_index.2)));
        if !self.range1.contains(axis1) || !self.range2.contains(axis2) {
            return None;
        }
        let u = self.range1.fraction(axis1);
        let v = self.range2.fraction(axis2);
        let point = r.point_at(t);
        let normal = Vec3::zero().with(axis_index.0, Fixed::one());
        Some(HitRecord::new(t, u, v, point, normal, &self.material))
    }

    pub open spec fn bounding_box_spec(&self, t0: Fixed, t1: Fixed) -> Option<AABB> {
        let below = self.k.sub(rect_margin());
        let above = self.k.add(rect_margin());
        Some(
            match self.static_axis {
                StaticAxis::X => AABB {
                    min: Vec3::new(below, self.range1.start, self.range2.start),
                    max: Vec3::new(above, self.range1.end, self.range2.end),
                },
                StaticAxis::Y => AABB {
                    min: Vec3::new(self.range1.start, below, self.range2.start),
                    max: Vec3::new(self.range1.end, above, self.range2.end),
                },
                StaticAxis::Z => AABB {
                    min: Vec3::new(self.range1.start, self.range2.start, below),
                    max: Vec3::new(self.range1.end, self.range2.end, above),
                },
            },
        )
    }

    /// The box around the rectangle: the two ranges, and a ten-thousandth on
    /// each side of the plane.
    #[verifier::when_used_as_spec(bounding_box_spec)]
    pub fn bounding_box(&self, t0: Fixed, t1: Fixed) -> (b: Option<AABB>)
        ensures
            b == self.bounding_box_spec(t0, t1),
    {
        let below = self.k.sub(rect_margin());
        let above = self.k.add(rect_margin());
        let aabb = match self.static_axis {
            StaticAxis::X => AABB {
                min: Vec3::new(below, self.range1.start, self.range2.start),
                max: Vec3::new(above, self.range1.end, self.range2.end),
            },
            StaticAxis::Y => AABB {
                min: Vec3::new(self.range1.start, below, self.range2.start),
                max: Vec3::new(self.range1.end, above, self.range2.end),
            },
            StaticAxis::Z => AABB {
                min: Vec3::new(self.range1.start, self.range2.start, below),
                max: Vec3::new(self.range1.end, self.range2.end, above),
            },
        };
        Some(aabb)
    }
}

} // verus!
