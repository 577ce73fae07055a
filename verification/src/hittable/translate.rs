//! The wrapper that moves an object.

use vstd::prelude::*;
use crate::fixed::Fixed;
use crate::hittable::aabb::AABB;
use crate::hittable::lemma_box_dispatch;
use crate::hittable::lemma_hit_dispatch;
use crate::hittable::HitRecord;
use crate::hittable::Hittables;
use crate::ray::Ray;
use crate::sampler::Sampler;
use crate::sampler::Stream;
use crate::vec3::Vec3;

verus! {

/// The object `ptr` moved by `offset`.
#[derive(Debug)]
pub struct Translate {
    pub offset: Vec3,
    pub ptr: Box<Hittables>,
}

/// The ray as the unmoved object sees it: the origin moved back by `offset`.
pub open spec fn moved_ray_spec(r: &Ray, offset: Vec3) -> Ray {
    Ray::new(r.origin.sub(offset), r.direction, r.time)
}

/// The hit with its point moved by `offset`.
pub open spec fn moved_hit<'a>(rec: Option<HitRecord<'a>>, offset: Vec3) -> Option<HitRecord<'a>> {
    match rec {
        Some(h) => Some(
            HitRecord {
                t: h.t,
                u: h.u,
                v: h.v,
                point: h.point.add(offset),
                normal: h.normal,
                mat: h.mat,
            },
        ),
        None => None,
    }
}

/// The box with both corners moved by `offset`.
pub open spec fn moved_box(b: Option<AABB>, offset: Vec3) -> Option<AABB> {
    match b {
        Some(bbox) => Some(AABB { min: bbox.min.add(offset), max: bbox.max.add(offset) }),
        None => None,
    }
}

impl Translate {
    /// `ptr` moved by `offset`, as a scene object.
    #[allow(clippy::new_ret_no_self)]
    pub fn new(ptr: Hittables, offset: Vec3) -> (h: Hittables)
        ensures
            h == Hittables::Translate(Translate { offset, ptr: Box::new(ptr) }),
    {
        Hittables::Translate(Translate { ptr: Box::new(ptr), offset })
    }

    pub open spec fn hit_spec(&self, r: &Ray, t_min: Fixed, t_max: Fixed, sampler: Stream) -> (
        Option<HitRecord<'_>>,
        Stream,
    )
        decreases self,
    {
        let inner = self.ptr.hit_spec(&moved_ray_spec(r, self.offset), t_min, t_max, sampler);
        (moved_hit(inner.0, self.offset), inner.1)
    }

    /// The hit of the inner object by the ray moved back by the offset, with
    /// the point of the hit moved forward by it.
    pub fn hit(&self, r: &Ray, t_min: Fixed, t_max: Fixed, sampler: &mut Sampler) -> (rec: Option<
        HitRecord<'_>,
    >)
        ensures
            (rec, final(sampler)@) == self.hit_spec(r, t_min, t_max, old(sampler)@),
        decreases self,
    {
        let moved_ray = Ray::new(r.origin.sub(self.offset), r.direction, r.time);
        match self.ptr.hit(&moved_ray, t_min, t_max, sampler) {
            Some(h) => Some(
                HitRecord::new(h.t, h.u, h.v, h.point.add(self.offset), h.normal, h.mat),
            ),
            None => None,
        }
    }

    pub open spec fn bounding_box_spec(&self, t0: Fixed, t1: Fixed) -> Option<AABB>
        decreases self,
    {
        moved_box(self.ptr.bounding_box_spec(t0, t1), self.offset)
    }

    /// The box of the inner object, moved by the offset.
    pub fn bounding_box(&self, t0: Fixed, t1: Fixed) -> (b: Option<AABB>)
        ensures
            b == self.bounding_box_spec(t0, t1),
        decreases self,
    {
        match self.ptr.bounding_box(t0, t1) {
            Some(bbox) => Some(
                AABB { min: bbox.min.add(self.offset), max: bbox.max.add(self.offset) },
            ),
            None => None,
        }
    }
}

/// The sum of `p` and `offset` stays inside the range of the scalars on
/// every axis.
pub open spec fn sum_fits(p: Vec3, offset: Vec3) -> bool {
    &&& i64::MIN <= p.x.raw + offset.x.raw <= i64::MAX
    &&& i64::MIN <= p.y.raw + offset.y.raw <= i64::MAX
    &&& i64::MIN <= p.z.raw + offset.z.raw <= i64::MAX
}

/// The box of a moved object is the box of the object, moved: both corners
/// are shifted by the offset.
pub proof fn translate_moves_box(inner: Hittables, offset: Vec3, t0: Fixed, t1: Fixed)
    ensures
        Hittables::Translate(Translate { offset, ptr: Box::new(inner) }).bounding_box_spec(t0, t1)
            == moved_box(inner.bounding_box_spec(t0, t1), offset),
{
    lemma_box_dispatch(
        &Hittables::Translate(Translate { offset, ptr: Box::new(inner) }),
        t0,
        t1,
    );
}

/// Hitting a moved object is hitting the object with the ray moved back. The
/// moved object is hit where the object itself is hit by the ray whose origin
/// is moved back by the offset: at the same parameter, with the same surface
/// coordinates, normal and material, and at the point of that hit moved
/// forward by the offset. Moving that point back again gives the point of the
/// hit on the object itself, where the sum did not leave the range of the
/// scalars.
pub proof fn translate_round_trip(
    inner: Hittables,
    offset: Vec3,
    r: Ray,
    t_min: Fixed,
    t_max: Fixed,
    sampler: Stream,
)
    ensures
        ({
            let moved = Hittables::Translate(Translate { offset, ptr: Box::new(inner) }).hit_spec(
                &r,
                t_min,
                t_max,
                sampler,
            );
            let local = inner.hit_spec(&moved_ray_spec(&r, offset), t_min, t_max, sampler);
            &&& moved.1 == local.1
            &&& moved.0 is Some <==> local.0 is Some
            &&& moved.0 is Some ==> {
                let there = moved.0.unwrap();
                let here = local.0.unwrap();
                &&& there.t == here.t
                &&& there.u == here.u
                &&& there.v == here.v
                &&& there.normal == here.normal
                &&& there.mat == here.mat
                &&& there.point == here.point.add(offset)
                &&& sum_fits(here.point, offset) ==> there.point.sub(offset) == here.point
            }
        }),
{
    lemma_hit_dispatch(
        &Hittables::Translate(Translate { offset, ptr: Box::new(inner) }),
        &r,
        t_min,
        t_max,
        sampler,
    );
}

} // verus!
