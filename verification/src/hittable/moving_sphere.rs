//! Spheres that move during the exposure.

use vstd::prelude::*;
use crate::fixed::Fixed;
use crate::hittable::aabb::surrounding_box;
use crate::hittable::aabb::AABB;
use crate::hittable::sphere::sphere_box;
use crate::hittable::sphere::sphere_record;
use crate::hittable::sphere::sphere_record_spec;
use crate::hittable::sphere::sphere_root;
use crate::hittable::sphere::sphere_root_spec;
use crate::hittable::HitRecord;
use crate::material::MaterialType;
use crate::ray::Ray;
use crate::vec3::Vec3;

verus! {

/// A sphere whose centre moves in a straight line, from `center0` at
/// `time0` to `center1` at `time1`.
#[derive(Debug)]
pub struct MovingSphere {
    pub center0: Vec3,
    pub center1: Vec3,
    pub time0: Fixed,
    pub time1: Fixed,
    pub radius: Fixed,
    pub material: MaterialType,
}

impl MovingSphere {
    pub open spec fn center_spec(&self, time: Fixed) -> Vec3 {
        self.center0.add(
            self.center1.sub(self.center0).scale(
                time.sub(self.time0).div(self.time1.sub(self.time0)),
            ),
        )
    }

    /// The centre at `time`:
    /// `center0 + ((time - time0) / (time1 - time0)) * (center1 - center0)`.
    #[verifier::when_used_as_spec(center_spec)]
    pub fn center(&self, time: Fixed) -> (c: Vec3)
        ensures
            c == self.center_spec(time),
    {
        self.center0.add(
            self.center1.sub(self.center0).scale(
                time.sub(self.time0).div(self.time1.sub(self.time0)),
            ),
        )
    }

    pub open spec fn hit_spec(&self, r: &Ray, t_min: Fixed, t_max: Fixed) -> Option<HitRecord<'_>> {
        match sphere_root_spec(r, self.center(r.time), self.radius, t_min, t_max) {
            Some(t) => Some(
                sphere_record_spec(r, self.center(r.time), self.radius, &self.material, t),
            ),
            None => None,
        }
    }

    /// The hit on the sphere where it is at the time of the ray.
    #[verifier::when_used_as_spec(hit_spec)]
    pub fn hit(&self, r: &Ray, t_min: Fixed, t_max: Fixed) -> (rec: Option<HitRecord<'_>>)
        ensures
            rec == self.hit_spec(r, t_min, t_max),
            rec matches Some(h) ==> t_min.raw < h.t.raw < t_max.raw && h.mat == &self.material,
    {
        let center = self.center(r.time);
        match sphere_root(r, center, self.radius, t_min, t_max) {
            Some(t) => Some(sphere_record(r, center, self.radius, &self.material, t)),
            None => None,
        }
    }

    pub open spec fn bounding_box_spec(&self, t0: Fixed, t1: Fixed) -> Option<AABB> {
        Some(
            surrounding_box(
                sphere_box(self.center(t0), self.radius),
                sphere_box(self.center(t1), self.radius),
            ),
        )
    }

    /// The union of the boxes around the sphere at `t0` and at `t1`.
    #[verifier::when_used_as_spec(bounding_box_spec)]
    pub fn bounding_box(&self, t0: Fixed, t1: Fixed) -> (b: Option<AABB>)
        ensures
            b == self.bounding_box_spec(t0, t1),
    {
        let box0 = sphere_box(self.center(t0), self.radius);
        let box1 = sphere_box(self.center(t1), self.radius);
        Some(surrounding_box(box0, box1))
    }
}

} // verus!
