//! Spheres.

use vstd::prelude::*;
use crate::fixed::Fixed;
use crate::hittable::aabb::AABB;
use crate::hittable::get_sphere_uv;
use crate::hittable::HitRecord;
use crate::material::MaterialType;
use crate::ray::Ray;
use crate::vec3::Vec3;

verus! {

/// A sphere that stays in place.
#[derive(Debug)]
pub struct Sphere {
    pub center: Vec3,
    pub radius: Fixed,
    pub mat: MaterialType,
}

/// The coefficients `(a, b, c)` of the equation `a t^2 + 2 b t + c = 0` for
/// the parameters at which the ray meets the sphere with the given centre and
/// radius: `a = d . d`, `b = oc . d` and `c = oc . oc - r^2`, with `d` the
/// direction of the ray and `oc` the vector from the centre to its origin.
pub open spec fn quadratic_spec(r: &Ray, center: Vec3, radius: Fixed) -> (Fixed, Fixed, Fixed) {
    let oc = r.origin.sub(center);
    (
        r.direction.dot(r.direction),
        oc.dot(r.direction),
        oc.dot(oc).sub(radius.mul(radius)),
    )
}

/// The discriminant `b^2 - a c` of that equation (a quarter of the usual one,
/// since `b` is half the linear coefficient).
#[verifier::opaque]
pub open spec fn discriminant_spec(r: &Ray, center: Vec3, radius: Fixed) -> Fixed {
    let q = quadratic_spec(r, center, radius);
    q.1.mul(q.1).sub(q.0.mul(q.2))
}

/// The smaller root `(-b - sqrt(disc)) / a`.
#[verifier::opaque]
pub open spec fn near_root_spec(r: &Ray, center: Vec3, radius: Fixed) -> Fixed {
    let q = quadratic_spec(r, center, radius);
    q.1.neg().sub(discriminant_spec(r, center, radius).sqrt()).div(q.0)
}

/// The larger root `(-b + sqrt(disc)) / a`.
#[verifier::opaque]
pub open spec fn far_root_spec(r: &Ray, center: Vec3, radius: Fixed) -> Fixed {
    let q = quadratic_spec(r, center, radius);
    q.1.neg().add(discriminant_spec(r, center, radius).sqrt()).div(q.0)
}

/// The smaller root is at most the larger one.
pub proof fn lemma_roots_ordered(r: &Ray, center: Vec3, radius: Fixed)
    ensures
        near_root_spec(r, center, radius).raw <= far_root_spec(r, center, radius).raw,
{
    reveal(near_root_spec);
    reveal(far_root_spec);
    let q = quadratic_spec(r, center, radius);
    let root = discriminant_spec(r, center, radius).sqrt();
    crate::fixed::lemma_sqrt_nonneg(discriminant_spec(r, center, radius));
    crate::vec3::lemma_dot_self_nonneg(r.direction);
    crate::fixed::lemma_div_monotone(q.1.neg().sub(root), q.1.neg().add(root), q.0);
}

/// The parameter at which the ray meets the sphere inside the open interval
/// from `t_min` to `t_max`: the smaller root where it lies inside, else the
/// larger root where that one does. Nothing where the discriminant is not
/// positive, which leaves out a ray that only touches the sphere.
pub open spec fn sphere_root_spec(
    r: &Ray,
    center: Vec3,
    radius: Fixed,
    t_min: Fixed,
    t_max: Fixed,
) -> Option<Fixed> {
    if discriminant_spec(r, center, radius).raw > 0 {
        let near = near_root_spec(r, center, radius);
        let far = far_root_spec(r, center, radius);
        if near.lt(t_max) && near.gt(t_min) {
            Some(near)
        } else if far.lt(t_max) && far.gt(t_min) {
            Some(far)
        } else {
            None
        }
    } else {
        None
    }
}

pub fn sphere_root(r: &Ray, center: Vec3, radius: Fixed, t_min: Fixed, t_max: Fixed) -> (t: Option<
    Fixed,
>)
    ensures
        t == sphere_root_spec(r, center, radius, t_min, t_max),
        t matches Some(at) ==> t_min.raw < at.raw < t_max.raw,
{
    reveal(discriminant_spec);
    reveal(near_root_spec);
    reveal(far_root_spec);
    let oc = r.origin.sub(center);
    let a = r.direction.dot(r.direction);
    let b = oc.dot(r.direction);
    let c = oc.dot(oc).sub(radius.mul(radius));
    let discriminant = b.mul(b).sub(a.mul(c));
    if discriminant.raw > 0 {
        let near = b.neg().sub(discriminant.sqrt()).div(a);
        if near.lt(t_max) && near.gt(t_min) {
            return Some(near);
        }
        let far = b.neg().add(discriminant.sqrt()).div(a);
        if far.lt(t_max) && far.gt(t_min) {
            return Some(far);
        }
    }
    None
}

/// The record of the hit at the parameter `t` on the sphere with the given
/// centre and radius: the point on the ray, the normal from the centre
/// through the point, and the surface coordinates of that normal.
pub open spec fn sphere_record_spec<'a>(
    r: &Ray,
    center: Vec3,
    radius: Fixed,
    mat: &'a MaterialType,
    t: Fixed,
) -> HitRecord<'a> {
    let point = r.point_at(t);
    let normal = point.sub(center).shrink(radius);
    let uv = get_sphere_uv(normal);
    HitRecord { t, u: uv.0, v: uv.1, point, normal, mat }
}

pub fn sphere_record<'a>(
    r: &Ray,
    center: Vec3,
    radius: Fixed,
    mat: &'a MaterialType,
    t: Fixed,
) -> (rec: HitRecord<'a>)
    ensures
        rec == sphere_record_spec(r, center, radius, mat, t),
{
    let point = r.point_at(t);
    let normal = point.sub(center).shrink(radius);
    let (u, v) = get_sphere_uv(normal);
    HitRecord::new(t, u, v, point, normal, mat)
}

/// The box from `center - radius` to `center + radius` on every axis.
pub open spec fn sphere_box_spec(center: Vec3, radius: Fixed) -> AABB {
    AABB { min: center.sub(Vec3::splat(radius)), max: center.add(Vec3::splat(radius)) }
}

#[verifier::when_used_as_spec(sphere_box_spec)]
pub fn sphere_box(center: Vec3, radius: Fixed) -> (b: AABB)
    ensures
        b == sphere_box_spec(center, radius),
{
    let radius = Vec3::new(radius, radius, radius);
    AABB { min: center.sub(radius), max: center.add(radius) }
}

impl Sphere {
    pub open spec fn hit_spec(&self, r: &Ray, t_min: Fixed, t_max: Fixed) -> Option<HitRecord<'_>> {
        match sphere_root_spec(r, self.center, self.radius, t_min, t_max) {
            Some(t) => Some(sphere_record_spec(r, self.center, self.radius, &self.mat, t)),
            None => None,
        }
    }

    /// The nearest place inside the open interval from `t_min` to `t_max` at
    /// which the ray meets the sphere.
    #[verifier::when_used_as_spec(hit_spec)]
    pub fn hit(&self, r: &Ray, t_min: Fixed, t_max: Fixed) -> (rec: Option<HitRecord<'_>>)
        ensures
            rec == self.hit_spec(r, t_min, t_max),
            rec matches Some(h) ==> t_min.raw < h.t.raw < t_max.raw && h.mat == &self.mat,
    {
        match sphere_root(r, self.center, self.radius, t_min, t_max) {
            Some(t) => Some(sphere_record(r, self.center, self.radius, &self.mat, t)),
            None => None,
        }
    }

    pub open spec fn bounding_box_spec(&self, t0: Fixed, t1: Fixed) -> Option<AABB> {
        Some(sphere_box(self.center, self.radius))
    }

    /// The box around the sphere.
    #[verifier::when_used_as_spec(bounding_box_spec)]
    pub fn bounding_box(&self, t0: Fixed, t1: Fixed) -> (b: Option<AABB>)
        ensures
            b == self.bounding_box_spec(t0, t1),
    {
        Some(sphere_box(self.center, self.radius))
    }
}

} // verus!
