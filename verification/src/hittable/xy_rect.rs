//! Rectangles in a plane of constant z, with closed bounds.

use vstd::prelude::*;
use crate::fixed::Fixed;
use crate::hittable::aabb::AABB;
use crate::hittable::rect::rect_margin;
use crate::hittable::HitRecord;
use crate::material::MaterialType;
use crate::ray::Ray;
use crate::vec3::Vec3;

verus! {

/// The rectangle from `(x0, y0)` to `(x1, y1)` in the plane `z = k`, its
/// border included.
#[derive(Debug)]
pub struct XYRect {
    pub x0: Fixed,
    pub x1: Fixed,
    pub y0: Fixed,
    pub y1: Fixed,
    pub k: Fixed,
    pub material: MaterialType,
}

impl XYRect {
    /// The rectangle with the given bounds, plane and material.
    pub fn new(x0: Fixed, x1: Fixed, y0: Fixed, y1: Fixed, k: Fixed, material: MaterialType) -> (r:
        XYRect)
        ensures
            r == (XYRect { x0, x1, y0, y1, k, material }),
    {
        XYRect { x0, x1, y0, y1, k, material }
    }

    /// The parameter at which the ray crosses the plane `z = k`.
    pub open spec fn plane_t(&self, r: &Ray) -> Fixed {
        self.k.sub(r.origin.z).div(r.direction.z)
    }

    /// The ray is not parallel to the plane, crosses it inside the closed
    /// interval from `t0` to `t1`, and does so inside the rectangle.
    pub open spec fn hits(&self, r: &Ray, t0: Fixed, t1: Fixed) -> bool {
        let t = self.plane_t(r);
        let x = r.origin.x.add(t.mul(r.direction.x));
        let y = r.origin.y.add(t.mul(r.direction.y));
        &&& r.direction.z.raw != 0
        &&& t0.raw <= t.raw <= t1.raw
        &&& self.x0.raw <= x.raw <= self.x1.raw
        &&& self.y0.raw <= y.raw <= self.y1.raw
    }

    pub open spec fn hit_spec(&self, r: &Ray, t0: Fixed, t1: Fixed) -> Option<HitRecord<'_>> {
        if self.hits(r, t0, t1) {
            let t = self.plane_t(r);
            let x = r.origin.x.add(t.mul(r.direction.x));
            let y = r.origin.y.add(t.mul(r.direction.y));
            Some(
                HitRecord {
                    t,
                    u: x.sub(self.x0).div(self.x1.sub(self.x0)),
                    v: y.sub(self.y0).div(self.y1.sub(self.y0)),
                    point: r.point_at(t),
                    normal: Vec3::newi(0, 0, 1),
                    mat: &self.material,
                },
            )
        } else {
            None
        }
    }

    /// The place at which the ray crosses the rectangle, with the fractions
    /// along x and along y as surface coordinates and the normal along z.
    #[verifier::when_used_as_spec(hit_spec)]
    pub fn hit(&self, r: &Ray, t0: Fixed, t1: Fixed) -> (rec: Option<HitRecord<'_>>)
        ensures
            rec == self.hit_spec(r, t0, t1),
            rec is Some <==> self.hits(r, t0, t1),
    {
        if r.direction.z.raw == 0 {
            return None;
        }
        let t = self.k.sub(r.origin.z).div(r.direction.z);
        if t.lt(t0) || t.gt(t1) {
            return None;
        }
        let x = r.origin.x.add(t.mul(r.direction.x));
        let y = r.origin.y.add(t.mul(r.direction.y));
        if x.lt(self.x0) || x.gt(self.x1) || y.lt(self.y0) || y.gt(self.y1) {
            return None;
        }
        let u = x.sub(self.x0).div(self.x1.sub(self.x0));
        let v = y.sub(self.y0).div(self.y1.sub(self.y0));
        let point = r.point_at(t);
        let normal = Vec3::newi(0, 0, 1);
        Some(HitRecord::new(t, u, v, point, normal, &self.material))
    }

    pub open spec fn bounding_box_spec(&self, t0: Fixed, t1: Fixed) -> Option<AABB> {
        Some(
            AABB {
                min: Vec3::new(self.x0, self.y0, self.k.sub(rect_margin())),
                max: Vec3::new(self.x1, self.y1, self.k.add(rect_margin())),
            },
        )
    }

    /// The box around the rectangle, a ten-thousandth thick on each side.
    #[verifier::when_used_as_spec(bounding_box_spec)]
    pub fn bounding_box(&self, t0: Fixed, t1: Fixed) -> (b: Option<AABB>)
        ensures
            b == self.bounding_box_spec(t0, t1),
    {
        Some(
            AABB {
                min: Vec3::new(self.x0, self.y0, self.k.sub(rect_margin())),
                max: Vec3::new(self.x1, self.y1, self.k.add(rect_margin())),
            },
        )
    }
}

} // verus!
