//! The wrapper that turns an object about the y axis.

use vstd::prelude::*;
use crate::elementary::cos;
use crate::elementary::radians;
use crate::elementary::sin;
use crate::fixed::Fixed;
use crate::hittable::aabb::AABB;
use crate::hittable::HitRecord;
use crate::hittable::Hittables;
use crate::ray::Ray;
use crate::sampler::Sampler;
use crate::sampler::Stream;
use crate::vec3::Vec3;

verus! {

/// The object `ptr` turned about the y axis by the angle whose sine and
/// cosine are held, with the box around the turned object.
#[derive(Debug)]
pub struct RotateY {
    pub ptr: Box<Hittables>,
    pub sin_theta: Fixed,
    pub cos_theta: Fixed,
    pub bbox: Option<AABB>,
}

/// `v` turned from the frame of the object into that of the scene:
/// `x' = cos * x + sin * z` and `z' = -sin * x + cos * z`.
pub open spec fn turn_out_spec(v: Vec3, sin_theta: Fixed, cos_theta: Fixed) -> Vec3 {
    Vec3 {
        x: cos_theta.mul(v.x).add(sin_theta.mul(v.z)),
        y: v.y,
        z: sin_theta.neg().mul(v.x).add(cos_theta.mul(v.z)),
    }
}

#[verifier::when_used_as_spec(turn_out_spec)]
pub fn turn_out(v: Vec3, sin_theta: Fixed, cos_theta: Fixed) -> (r: Vec3)
    ensures
        r == turn_out_spec(v, sin_theta, cos_theta),
{
    Vec3 {
        x: cos_theta.mul(v.x).add(sin_theta.mul(v.z)),
        y: v.y,
        z: sin_theta.neg().mul(v.x).add(cos_theta.mul(v.z)),
    }
}

/// `v` turned from the frame of the scene into that of the object:
/// `x' = cos * x - sin * z` and `z' = sin * x + cos * z`.
pub open spec fn turn_in_spec(v: Vec3, sin_theta: Fixed, cos_theta: Fixed) -> Vec3 {
    Vec3 {
        x: cos_theta.mul(v.x).sub(sin_theta.mul(v.z)),
        y: v.y,
        z: sin_theta.mul(v.x).add(cos_theta.mul(v.z)),
    }
}

#[verifier::when_used_as_spec(turn_in_spec)]
pub fn turn_in(v: Vec3, sin_theta: Fixed, cos_theta: Fixed) -> (r: Vec3)
    ensures
        r == turn_in_spec(v, sin_theta, cos_theta),
{
    Vec3 {
        x: cos_theta.mul(v.x).sub(sin_theta.mul(v.z)),
        y: v.y,
        z: sin_theta.mul(v.x).add(cos_theta.mul(v.z)),
    }
}

/// The corner of the box chosen by `i`, `j` and `k`, each zero for the lower
/// and one for the upper side: `ijk * max + (1 - ijk) * min`.
pub open spec fn corner_spec(b: AABB, i: i32, j: i32, k: i32) -> Vec3 {
    let ijk = Vec3::newi(i, j, k);
    ijk.mul(b.max).add(Vec3::one().sub(ijk).mul(b.min))
}

#[verifier::when_used_as_spec(corner_spec)]
pub fn corner(b: AABB, i: i32, j: i32, k: i32) -> (r: Vec3)
    ensures
        r == corner_spec(b, i, j, k),
{
    let ijk = Vec3::newi(i, j, k);
    ijk.mul(b.max).add(Vec3::one().sub(ijk).mul(b.min))
}

/// The box `acc` grown to hold the point `p`.
pub open spec fn grown_spec(acc: AABB, p: Vec3) -> AABB {
    AABB { min: acc.min.min(p), max: acc.max.max(p) }
}

#[verifier::when_used_as_spec(grown_spec)]
pub fn grown(acc: AABB, p: Vec3) -> (r: AABB)
    ensures
        r == grown_spec(acc, p),
{
    AABB { min: acc.min.min(p), max: acc.max.max(p) }
}

/// The box that holds nothing yet: the greatest scalar as its lower corner and
/// the least as its upper one.
pub open spec fn empty_box_spec() -> AABB {
    AABB { min: Vec3::splat(Fixed::max_value()), max: Vec3::splat(Fixed::min_value()) }
}

#[verifier::when_used_as_spec(empty_box_spec)]
pub fn empty_box() -> (r: AABB)
    ensures
        r == empty_box_spec(),
{
    AABB { min: Vec3::splat(Fixed::max_value()), max: Vec3::splat(Fixed::min_value()) }
}

/// The least box around the eight corners of `b` after each is turned.
pub open spec fn turned_box_spec(b: AABB, sin_theta: Fixed, cos_theta: Fixed) -> AABB {
    let b0 = grown(empty_box(), turn_out(corner(b, 0, 0, 0), sin_theta, cos_theta));
    let b1 = grown(b0, turn_out(corner(b, 0, 0, 1), sin_theta, cos_theta));
    let b2 = grown(b1, turn_out(corner(b, 0, 1, 0), sin_theta, cos_theta));
    let b3 = grown(b2, turn_out(corner(b, 0, 1, 1), sin_theta, cos_theta));
    let b4 = grown(b3, turn_out(corner(b, 1, 0, 0), sin_theta, cos_theta));
    let b5 = grown(b4, turn_out(corner(b, 1, 0, 1), sin_theta, cos_theta));
    let b6 = grown(b5, turn_out(corner(b, 1, 1, 0), sin_theta, cos_theta));
    grown(b6, turn_out(corner(b, 1, 1, 1), sin_theta, cos_theta))
}

#[verifier::when_used_as_spec(turned_box_spec)]
pub fn turned_box(b: AABB, sin_theta: Fixed, cos_theta: Fixed) -> (r: AABB)
    ensures
        r == turned_box_spec(b, sin_theta, cos_theta),
{
    let mut acc = empty_box();
    acc = grown(acc, turn_out(corner(b, 0, 0, 0), sin_theta, cos_theta));
    acc = grown(acc, turn_out(corner(b, 0, 0, 1), sin_theta, cos_theta));
    acc = grown(acc, turn_out(corner(b, 0, 1, 0), sin_theta, cos_theta));
    acc = grown(acc, turn_out(corner(b, 0, 1, 1), sin_theta, cos_theta));
    acc = grown(acc, turn_out(corner(b, 1, 0, 0), sin_theta, cos_theta));
    acc = grown(acc, turn_out(corner(b, 1, 0, 1), sin_theta, cos_theta));
    acc = grown(acc, turn_out(corner(b, 1, 1, 0), sin_theta, cos_theta));
    acc = grown(acc, turn_out(corner(b, 1, 1, 1), sin_theta, cos_theta));
    acc
}

/// The hit with its point and normal turned into the frame of the scene.
pub open spec fn turned_hit<'a>(
    rec: Option<HitRecord<'a>>,
    sin_theta: Fixed,
    cos_theta: Fixed,
) -> Option<HitRecord<'a>> {
    match rec {
        Some(h) => Some(
            HitRecord {
                t: h.t,
                u: h.u,
                v: h.v,
                point: turn_out(h.point, sin_theta, cos_theta),
                normal: turn_out(h.normal, sin_theta, cos_theta),
                mat: h.mat,
            },
        ),
        None => None,
    }
}

impl RotateY {
    /// `p` turned about the y axis by `angle` degrees, as a scene object. The
    /// box held is that around the turned corners of the box of `p` for the
    /// times from zero to one, where `p` has a box.
    #[allow(clippy::new_ret_no_self)]
    pub fn new(p: Hittables, angle: Fixed) -> (h: Hittables)
        ensures
            h == Hittables::RotateY(
                RotateY {
                    ptr: Box::new(p),
                    sin_theta: sin(radians(angle)),
                    cos_theta: cos(radians(angle)),
                    bbox: match p.bounding_box_spec(Fixed::zero(), Fixed::one()) {
                        Some(b) => Some(turned_box(b, sin(radians(angle)), cos(radians(angle)))),
                        None => None,
                    },
                },
            ),
    {
        let turn = radians(angle);
        let sin_theta = sin(turn);
        let cos_theta = cos(turn);
        let bbox = match p.bounding_box(Fixed::zero(), Fixed::one()) {
            Some(b) => Some(turned_box(b, sin_theta, cos_theta)),
            None => None,
        };
        Hittables::RotateY(RotateY { ptr: Box::new(p), sin_theta, cos_theta, bbox })
    }

    /// The ray as the unturned object sees it.
    pub open spec fn turned_ray(&self, r: &Ray) -> Ray {
        Ray::new(
            turn_in(r.origin, self.sin_theta, self.cos_theta),
            turn_in(r.direction, self.sin_theta, self.cos_theta),
            r.time,
        )
    }

    pub open spec fn hit_spec(&self, r: &Ray, t_min: Fixed, t_max: Fixed, sampler: Stream) -> (
        Option<HitRecord<'_>>,
        Stream,
    )
        decreases self,
    {
        let inner = self.ptr.hit_spec(&self.turned_ray(r), t_min, t_max, sampler);
        (turned_hit(inner.0, self.sin_theta, self.cos_theta), inner.1)
    }

    /// The hit of the inner object by the ray turned into its frame, with the
    /// point and the normal of the hit turned back.
    pub fn hit(&self, r: &Ray, t_min: Fixed, t_max: Fixed, sampler: &mut Sampler) -> (rec: Option<
        HitRecord<'_>,
    >)
        ensures
            (rec, final(sampler)@) == self.hit_spec(r, t_min, t_max, old(sampler)@),
        decreases self,
    {
        let origin = turn_in(r.origin, self.sin_theta, self.cos_theta);
        let direction = turn_in(r.direction, self.sin_theta, self.cos_theta);
        let rotated_r = Ray::new(origin, direction, r.time);
        match self.ptr.hit(&rotated_r, t_min, t_max, sampler) {
            Some(h) => {
                let p = turn_out(h.point, self.sin_theta, self.cos_theta);
                let normal = turn_out(h.normal, self.sin_theta, self.cos_theta);
                Some(HitRecord::new(h.t, h.u, h.v, p, normal, h.mat))
            },
            None => None,
        }
    }

    pub open spec fn bounding_box_spec(&self, t0: Fixed, t1: Fixed) -> Option<AABB> {
        self.bbox
    }

    /// The box held.
    #[verifier::when_used_as_spec(bounding_box_spec)]
    pub fn bounding_box(&self, t0: Fixed, t1: Fixed) -> (b: Option<AABB>)
        ensures
            b == self.bounding_box_spec(t0, t1),
    {
        self.bbox
    }
}

} // verus!
