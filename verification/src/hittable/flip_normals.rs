//! The wrapper that turns the normals of an object around.

use vstd::prelude::*;
use crate::fixed::Fixed;
use crate::hittable::aabb::AABB;
use crate::hittable::HitRecord;
use crate::hittable::Hittables;
use crate::ray::Ray;
use crate::sampler::Sampler;
use crate::sampler::Stream;

verus! {

/// An object seen from the other side: the hits of `ptr` with the opposite
/// normals.
#[derive(Debug)]
pub struct FlipNormals {
    pub ptr: Box<Hittables>,
}

/// The hit with its normal negated.
pub open spec fn flipped<'a>(rec: Option<HitRecord<'a>>) -> Option<HitRecord<'a>> {
    match rec {
        Some(h) => Some(
            HitRecord { t: h.t, u: h.u, v: h.v, point: h.point, normal: h.normal.neg(), mat: h.mat },
        ),
        None => None,
    }
}

impl FlipNormals {
    /// `ptr` with its normals turned around, as a scene object.
    #[allow(clippy::new_ret_no_self)]
    pub fn new(ptr: Hittables) -> (h: Hittables)
        ensures
            h == Hittables::FlipNormals(FlipNormals { ptr: Box::new(ptr) }),
    {
        Hittables::FlipNormals(FlipNormals { ptr: Box::new(ptr) })
    }

    pub open spec fn hit_spec(&self, r: &Ray, t_min: Fixed, t_max: Fixed, sampler: Stream) -> (
        Option<HitRecord<'_>>,
        Stream,
    )
        decreases self,
    {
        let inner = self.ptr.hit_spec(r, t_min, t_max, sampler);
        (flipped(inner.0), inner.1)
    }

    /// The hit of the inner object, with the normal negated.
    pub fn hit(&self, r: &Ray, t_min: Fixed, t_max: Fixed, sampler: &mut Sampler) -> (rec: Option<
        HitRecord<'_>,
    >)
        ensures
            (rec, final(sampler)@) == self.hit_spec(r, t_min, t_max, old(sampler)@),
        decreases self,
    {
        match self.ptr.hit(r, t_min, t_max, sampler) {
            Some(h) => Some(HitRecord::new(h.t, h.u, h.v, h.point, h.normal.neg(), h.mat)),
            None => None,
        }
    }

    pub open spec fn bounding_box_spec(&self, t0: Fixed, t1: Fixed) -> Option<AABB>
        decreases self,
    {
        self.ptr.bounding_box_spec(t0, t1)
    }

    /// The box of the inner object.
    pub fn bounding_box(&self, t0: Fixed, t1: Fixed) -> (b: Option<AABB>)
        ensures
            b == self.bounding_box_spec(t0, t1),
        decreases self,
    {
        self.ptr.bounding_box(t0, t1)
    }
}

} // verus!
