//! Scene objects: what a ray can hit.

use vstd::prelude::*;
use crate::elementary::asin;
use crate::elementary::atan2;
use crate::elementary::HALF_PI_RAW;
use crate::elementary::TWO_PI_RAW;
use crate::fixed::Fixed;
use crate::fixed::PI_RAW;
use crate::hittable::aabb::AABB;
use crate::hittable::box_rect::BoxRect;
use crate::hittable::bvh_node::BvhNode;
use crate::hittable::constant_medium::ConstantMedium;
use crate::hittable::flip_normals::FlipNormals;
use crate::hittable::hittable_list::HittableList;
use crate::hittable::moving_sphere::MovingSphere;
use crate::hittable::rect::Rect;
use crate::hittable::rotate::RotateY;
use crate::hittable::sphere::Sphere;
use crate::hittable::translate::Translate;
use crate::hittable::xy_rect::XYRect;
use crate::material::MaterialType;
use crate::ray::Ray;
use crate::sampler::Sampler;
use crate::sampler::Stream;
use crate::vec3::Vec3;

pub mod aabb;
pub mod box_rect;
pub mod bvh_node;
pub mod constant_medium;
pub mod depth;
pub mod flip_normals;
pub mod hittable_list;
pub mod moving_sphere;
pub mod nearest;
pub mod rect;
pub mod rotate;
pub mod sound;
pub mod sphere;
pub mod tame;
pub mod translate;
pub mod xy_rect;

verus! {

/// Where a ray met a surface: the parameter `t` along the ray, the surface
/// coordinates `(u, v)`, the point, the unit normal on the outer side, and the
/// material of the surface, which belongs to the scene.
#[derive(Debug)]
pub struct HitRecord<'a> {
    pub t: Fixed,
    pub u: Fixed,
    pub v: Fixed,
    pub point: Vec3,
    pub normal: Vec3,
    pub mat: &'a MaterialType,
}

impl<'a> HitRecord<'a> {
    /// The record with the given parts.
    pub fn new(
        t: Fixed,
        u: Fixed,
        v: Fixed,
        point: Vec3,
        normal: Vec3,
        mat: &'a MaterialType,
    ) -> (r: HitRecord<'a>)
        ensures
            r == (HitRecord { t, u, v, point, normal, mat }),
    {
        HitRecord { t, u, v, point, normal, mat }
    }
}

/// The closed set of scene objects.
#[derive(Debug)]
pub enum Hittables {
    Sphere(Sphere),
    MovingSphere(MovingSphere),
    HittableList(HittableList),
    BvhNode(BvhNode),
    Rect(Rect),
    FlipNormals(FlipNormals),
    BoxRect(BoxRect),
    Translate(Translate),
    RotateY(RotateY),
    ConstantMedium(ConstantMedium),
}

impl Hittables {
    #[verifier::opaque]
    pub open spec fn hit_spec(&self, r: &Ray, t_min: Fixed, t_max: Fixed, sampler: Stream) -> (
        Option<HitRecord<'_>>,
        Stream,
    )
        decreases self, 0nat,
    {
        match self {
            Hittables::Sphere(o) => (o.hit_spec(r, t_min, t_max), sampler),
            Hittables::MovingSphere(o) => (o.hit_spec(r, t_min, t_max), sampler),
            Hittables::HittableList(o) => o.hit_spec(r, t_min, t_max, sampler),
            Hittables::BvhNode(o) => o.hit_spec(r, t_min, t_max, sampler),
            Hittables::Rect(o) => (o.hit_spec(r, t_min, t_max), sampler),
            Hittables::FlipNormals(o) => o.hit_spec(r, t_min, t_max, sampler),
            Hittables::BoxRect(o) => o.hit_spec(r, t_min, t_max, sampler),
            Hittables::Translate(o) => o.hit_spec(r, t_min, t_max, sampler),
            Hittables::RotateY(o) => o.hit_spec(r, t_min, t_max, sampler),
            Hittables::ConstantMedium(o) => o.hit_spec(r, t_min, t_max, sampler),
        }
    }

    /// Where the ray `r` meets the object between the parameters `t_min` and
    /// `t_max`, if it does: the hit of the object held. Only a medium draws
    /// from the sampler.
    pub fn hit(&self, r: &Ray, t_min: Fixed, t_max: Fixed, sampler: &mut Sampler) -> (rec: Option<
        HitRecord<'_>,
    >)
        ensures
            (rec, final(sampler)@) == self.hit_spec(r, t_min, t_max, old(sampler)@),
        decreases self,
    {
        proof {
            lemma_hit_dispatch(self, r, t_min, t_max, sampler@);
        }
        match self {
            Hittables::Sphere(o) => o.hit(r, t_min, t_max),
            Hittables::MovingSphere(o) => o.hit(r, t_min, t_max),
            Hittables::HittableList(o) => o.hit(r, t_min, t_max, sampler),
            Hittables::BvhNode(o) => o.hit(r, t_min, t_max, sampler),
            Hittables::Rect(o) => o.hit(r, t_min, t_max),
            Hittables::FlipNormals(o) => o.hit(r, t_min, t_max, sampler),
            Hittables::BoxRect(o) => o.hit(r, t_min, t_max, sampler),
            Hittables::Translate(o) => o.hit(r, t_min, t_max, sampler),
            Hittables::RotateY(o) => o.hit(r, t_min, t_max, sampler),
            Hittables::ConstantMedium(o) => o.hit(r, t_min, t_max, sampler),
        }
    }

    #[verifier::opaque]
    pub open spec fn bounding_box_spec(&self, t0: Fixed, t1: Fixed) -> Option<AABB>
        decreases self, 0nat,
    {
        match self {
            Hittables::Sphere(o) => o.bounding_box_spec(t0, t1),
            Hittables::MovingSphere(o) => o.bounding_box_spec(t0, t1),
            Hittables::HittableList(o) => o.bounding_box_spec(t0, t1),
            Hittables::BvhNode(o) => o.bounding_box_spec(t0, t1),
            Hittables::Rect(o) => o.bounding_box_spec(t0, t1),
            Hittables::FlipNormals(o) => o.bounding_box_spec(t0, t1),
            Hittables::BoxRect(o) => o.bounding_box_spec(t0, t1),
            Hittables::Translate(o) => o.bounding_box_spec(t0, t1),
            Hittables::RotateY(o) => o.bounding_box_spec(t0, t1),
            Hittables::ConstantMedium(o) => o.bounding_box_spec(t0, t1),
        }
    }

    /// A box that holds the object throughout the exposure from `t0` to `t1`:
    /// that of the object held. Only a list without objects (or one that
    /// holds such a list) has none.
    pub fn bounding_box(&self, t0: Fixed, t1: Fixed) -> (b: Option<AABB>)
        ensures
            b == self.bounding_box_spec(t0, t1),
        decreases self,
    {
        proof {
            lemma_box_dispatch(self, t0, t1);
        }
        match self {
            Hittables::Sphere(o) => o.bounding_box(t0, t1),
            Hittables::MovingSphere(o) => o.bounding_box(t0, t1),
            Hittables::HittableList(o) => o.bounding_box(t0, t1),
            Hittables::BvhNode(o) => o.bounding_box(t0, t1),
            Hittables::Rect(o) => o.bounding_box(t0, t1),
            Hittables::FlipNormals(o) => o.bounding_box(t0, t1),
            Hittables::BoxRect(o) => o.bounding_box(t0, t1),
            Hittables::Translate(o) => o.bounding_box(t0, t1),
            Hittables::RotateY(o) => o.bounding_box(t0, t1),
            Hittables::ConstantMedium(o) => o.bounding_box(t0, t1),
        }
    }
}

/// What every scene object offers: where a ray hits it, and a box around it.
pub trait Hittable {
    /// What `hit` returns, and the sampler that it leaves.
    spec fn hit_of(&self, r: &Ray, t_min: Fixed, t_max: Fixed, sampler: Stream) -> (
        Option<HitRecord<'_>>,
        Stream,
    );

    /// The box that `bounding_box` returns.
    spec fn box_of(&self, t0: Fixed, t1: Fixed) -> Option<AABB>;

    /// Where the ray meets the object between `t_min` and `t_max`, if it does.
    fn hit(&self, r: &Ray, t_min: Fixed, t_max: Fixed, sampler: &mut Sampler) -> (rec: Option<
        HitRecord<'_>,
    >)
        ensures
            (rec, final(sampler)@) == self.hit_of(r, t_min, t_max, old(sampler)@),
    ;

    /// A box that holds the object throughout the exposure from `t0` to `t1`.
    fn bounding_box(&self, t0: Fixed, t1: Fixed) -> (b: Option<AABB>)
        ensures
            b == self.box_of(t0, t1),
    ;
}

impl Hittable for Sphere {
    open spec fn hit_of(&self, r: &Ray, t_min: Fixed, t_max: Fixed, sampler: Stream) -> (
        Option<HitRecord<'_>>,
        Stream,
    ) {
        (self.hit_spec(r, t_min, t_max), sampler)
    }

    open spec fn box_of(&self, t0: Fixed, t1: Fixed) -> Option<AABB> {
        self.bounding_box_spec(t0, t1)
    }

    fn hit(&self, r: &Ray, t_min: Fixed, t_max: Fixed, sampler: &mut Sampler) -> (rec: Option<
        HitRecord<'_>,
    >) {
        Sphere::hit(self, r, t_min, t_max)
    }

    fn bounding_box(&self, t0: Fixed, t1: Fixed) -> (b: Option<AABB>) {
        Sphere::bounding_box(self, t0, t1)
    }
}

impl Hittable for MovingSphere {
    open spec fn hit_of(&self, r: &Ray, t_min: Fixed, t_max: Fixed, sampler: Stream) -> (
        Option<HitRecord<'_>>,
        Stream,
    ) {
        (self.hit_spec(r, t_min, t_max), sampler)
    }

    open spec fn box_of(&self, t0: Fixed, t1: Fixed) -> Option<AABB> {
        self.bounding_box_spec(t0, t1)
    }

    fn hit(&self, r: &Ray, t_min: Fixed, t_max: Fixed, sampler: &mut Sampler) -> (rec: Option<
        HitRecord<'_>,
    >) {
        MovingSphere::hit(self, r, t_min, t_max)
    }

    fn bounding_box(&self, t0: Fixed, t1: Fixed) -> (b: Option<AABB>) {
        MovingSphere::bounding_box(self, t0, t1)
    }
}

impl Hittable for Rect {
    open spec fn hit_of(&self, r: &Ray, t_min: Fixed, t_max: Fixed, sampler: Stream) -> (
        Option<HitRecord<'_>>,
        Stream,
    ) {
        (self.hit_spec(r, t_min, t_max), sampler)
    }

    open spec fn box_of(&self, t0: Fixed, t1: Fixed) -> Option<AABB> {
        self.bounding_box_spec(t0, t1)
    }

    fn hit(&self, r: &Ray, t_min: Fixed, t_max: Fixed, sampler: &mut Sampler) -> (rec: Option<
        HitRecord<'_>,
    >) {
        Rect::hit(self, r, t_min, t_max)
    }

    fn bounding_box(&self, t0: Fixed, t1: Fixed) -> (b: Option<AABB>) {
        Rect::bounding_box(self, t0, t1)
    }
}

impl Hittable for XYRect {
    open spec fn hit_of(&self, r: &Ray, t_min: Fixed, t_max: Fixed, sampler: Stream) -> (
        Option<HitRecord<'_>>,
        Stream,
    ) {
        (self.hit_spec(r, t_min, t_max), sampler)
    }

    open spec fn box_of(&self, t0: Fixed, t1: Fixed) -> Option<AABB> {
        self.bounding_box_spec(t0, t1)
    }

    fn hit(&self, r: &Ray, t_min: Fixed, t_max: Fixed, sampler: &mut Sampler) -> (rec: Option<
        HitRecord<'_>,
    >) {
        XYRect::hit(self, r, t_min, t_max)
    }

    fn bounding_box(&self, t0: Fixed, t1: Fixed) -> (b: Option<AABB>) {
        XYRect::bounding_box(self, t0, t1)
    }
}

impl Hittable for HittableList {
    open spec fn hit_of(&self, r: &Ray, t_min: Fixed, t_max: Fixed, sampler: Stream) -> (
        Option<HitRecord<'_>>,
        Stream,
    ) {
        self.hit_spec(r, t_min, t_max, sampler)
    }

    open spec fn box_of(&self, t0: Fixed, t1: Fixed) -> Option<AABB> {
        self.bounding_box_spec(t0, t1)
    }

    fn hit(&self, r: &Ray, t_min: Fixed, t_max: Fixed, sampler: &mut Sampler) -> (rec: Option<
        HitRecord<'_>,
    >) {
        HittableList::hit(self, r, t_min, t_max, sampler)
    }

    fn bounding_box(&self, t0: Fixed, t1: Fixed) -> (b: Option<AABB>) {
        HittableList::bounding_box(self, t0, t1)
    }
}

impl Hittable for BvhNode {
    open spec fn hit_of(&self, r: &Ray, t_min: Fixed, t_max: Fixed, sampler: Stream) -> (
        Option<HitRecord<'_>>,
        Stream,
    ) {
        self.hit_spec(r, t_min, t_max, sampler)
    }

    open spec fn box_of(&self, t0: Fixed, t1: Fixed) -> Option<AABB> {
        self.bounding_box_spec(t0, t1)
    }

    fn hit(&self, r: &Ray, t_min: Fixed, t_max: Fixed, sampler: &mut Sampler) -> (rec: Option<
        HitRecord<'_>,
    >) {
        BvhNode::hit(self, r, t_min, t_max, sampler)
    }

    fn bounding_box(&self, t0: Fixed, t1: Fixed) -> (b: Option<AABB>) {
        BvhNode::bounding_box(self, t0, t1)
    }
}

impl Hittable for FlipNormals {
    open spec fn hit_of(&self, r: &Ray, t_min: Fixed, t_max: Fixed, sampler: Stream) -> (
        Option<HitRecord<'_>>,
        Stream,
    ) {
        self.hit_spec(r, t_min, t_max, sampler)
    }

    open spec fn box_of(&self, t0: Fixed, t1: Fixed) -> Option<AABB> {
        self.bounding_box_spec(t0, t1)
    }

    fn hit(&self, r: &Ray, t_min: Fixed, t_max: Fixed, sampler: &mut Sampler) -> (rec: Option<
        HitRecord<'_>,
    >) {
        FlipNormals::hit(self, r, t_min, t_max, sampler)
    }

    fn bounding_box(&self, t0: Fixed, t1: Fixed) -> (b: Option<AABB>) {
        FlipNormals::bounding_box(self, t0, t1)
    }
}

impl Hittable for BoxRect {
    open spec fn hit_of(&self, r: &Ray, t_min: Fixed, t_max: Fixed, sampler: Stream) -> (
        Option<HitRecord<'_>>,
        Stream,
    ) {
        self.hit_spec(r, t_min, t_max, sampler)
    }

    open spec fn box_of(&self, t0: Fixed, t1: Fixed) -> Option<AABB> {
        self.bounding_box_spec(t0, t1)
    }

    fn hit(&self, r: &Ray, t_min: Fixed, t_max: Fixed, sampler: &mut Sampler) -> (rec: Option<
        HitRecord<'_>,
    >) {
        BoxRect::hit(self, r, t_min, t_max, sampler)
    }

    fn bounding_box(&self, t0: Fixed, t1: Fixed) -> (b: Option<AABB>) {
        BoxRect::bounding_box(self, t0, t1)
    }
}

impl Hittable for Translate {
    open spec fn hit_of(&self, r: &Ray, t_min: Fixed, t_max: Fixed, sampler: Stream) -> (
        Option<HitRecord<'_>>,
        Stream,
    ) {
        self.hit_spec(r, t_min, t_max, sampler)
    }

    open spec fn box_of(&self, t0: Fixed, t1: Fixed) -> Option<AABB> {
        self.bounding_box_spec(t0, t1)
    }

    fn hit(&self, r: &Ray, t_min: Fixed, t_max: Fixed, sampler: &mut Sampler) -> (rec: Option<
        HitRecord<'_>,
    >) {
        Translate::hit(self, r, t_min, t_max, sampler)
    }

    fn bounding_box(&self, t0: Fixed, t1: Fixed) -> (b: Option<AABB>) {
        Translate::bounding_box(self, t0, t1)
    }
}

impl Hittable for RotateY {
    open spec fn hit_of(&self, r: &Ray, t_min: Fixed, t_max: Fixed, sampler: Stream) -> (
        Option<HitRecord<'_>>,
        Stream,
    ) {
        self.hit_spec(r, t_min, t_max, sampler)
    }

    open spec fn box_of(&self, t0: Fixed, t1: Fixed) -> Option<AABB> {
        self.bounding_box_spec(t0, t1)
    }

    fn hit(&self, r: &Ray, t_min: Fixed, t_max: Fixed, sampler: &mut Sampler) -> (rec: Option<
        HitRecord<'_>,
    >) {
        RotateY::hit(self, r, t_min, t_max, sampler)
    }

    fn bounding_box(&self, t0: Fixed, t1: Fixed) -> (b: Option<AABB>) {
        RotateY::bounding_box(self, t0, t1)
    }
}

impl Hittable for ConstantMedium {
    open spec fn hit_of(&self, r: &Ray, t_min: Fixed, t_max: Fixed, sampler: Stream) -> (
        Option<HitRecord<'_>>,
        Stream,
    ) {
        self.hit_spec(r, t_min, t_max, sampler)
    }

    open spec fn box_of(&self, t0: Fixed, t1: Fixed) -> Option<AABB> {
        self.bounding_box_spec(t0, t1)
    }

    fn hit(&self, r: &Ray, t_min: Fixed, t_max: Fixed, sampler: &mut Sampler) -> (rec: Option<
        HitRecord<'_>,
    >) {
        ConstantMedium::hit(self, r, t_min, t_max, sampler)
    }

    fn bounding_box(&self, t0: Fixed, t1: Fixed) -> (b: Option<AABB>) {
        ConstantMedium::bounding_box(self, t0, t1)
    }
}

impl Hittable for Hittables {
    open spec fn hit_of(&self, r: &Ray, t_min: Fixed, t_max: Fixed, sampler: Stream) -> (
        Option<HitRecord<'_>>,
        Stream,
    ) {
        self.hit_spec(r, t_min, t_max, sampler)
    }

    open spec fn box_of(&self, t0: Fixed, t1: Fixed) -> Option<AABB> {
        self.bounding_box_spec(t0, t1)
    }

    fn hit(&self, r: &Ray, t_min: Fixed, t_max: Fixed, sampler: &mut Sampler) -> (rec: Option<
        HitRecord<'_>,
    >) {
        Hittables::hit(self, r, t_min, t_max, sampler)
    }

    fn bounding_box(&self, t0: Fixed, t1: Fixed) -> (b: Option<AABB>) {
        Hittables::bounding_box(self, t0, t1)
    }
}

/// What a scene object answers is what the object that it holds answers.
pub proof fn lemma_hit_dispatch(h: &Hittables, r: &Ray, t_min: Fixed, t_max: Fixed, sampler: Stream)
    ensures
        h.hit_spec(r, t_min, t_max, sampler) == (match h {
            Hittables::Sphere(o) => (o.hit_spec(r, t_min, t_max), sampler),
            Hittables::MovingSphere(o) => (o.hit_spec(r, t_min, t_max), sampler),
            Hittables::HittableList(o) => o.hit_spec(r, t_min, t_max, sampler),
            Hittables::BvhNode(o) => o.hit_spec(r, t_min, t_max, sampler),
            Hittables::Rect(o) => (o.hit_spec(r, t_min, t_max), sampler),
            Hittables::FlipNormals(o) => o.hit_spec(r, t_min, t_max, sampler),
            Hittables::BoxRect(o) => o.hit_spec(r, t_min, t_max, sampler),
            Hittables::Translate(o) => o.hit_spec(r, t_min, t_max, sampler),
            Hittables::RotateY(o) => o.hit_spec(r, t_min, t_max, sampler),
            Hittables::ConstantMedium(o) => o.hit_spec(r, t_min, t_max, sampler),
        }),
{
    reveal(Hittables::hit_spec);
}

/// The box of a scene object is the box of the object that it holds.
pub proof fn lemma_box_dispatch(h: &Hittables, t0: Fixed, t1: Fixed)
    ensures
        h.bounding_box_spec(t0, t1) == (match h {
            Hittables::Sphere(o) => o.bounding_box_spec(t0, t1),
            Hittables::MovingSphere(o) => o.bounding_box_spec(t0, t1),
            Hittables::HittableList(o) => o.bounding_box_spec(t0, t1),
            Hittables::BvhNode(o) => o.bounding_box_spec(t0, t1),
            Hittables::Rect(o) => o.bounding_box_spec(t0, t1),
            Hittables::FlipNormals(o) => o.bounding_box_spec(t0, t1),
            Hittables::BoxRect(o) => o.bounding_box_spec(t0, t1),
            Hittables::Translate(o) => o.bounding_box_spec(t0, t1),
            Hittables::RotateY(o) => o.bounding_box_spec(t0, t1),
            Hittables::ConstantMedium(o) => o.bounding_box_spec(t0, t1),
        }),
{
    reveal(Hittables::bounding_box_spec);
}

pub open spec fn get_sphere_uv_spec(p: Vec3) -> (Fixed, Fixed) {
    let phi = atan2(p.z, p.x);
    let theta = asin(p.y);
    (
        Fixed::one().sub(phi.add(Fixed { raw: PI_RAW }).div(Fixed { raw: TWO_PI_RAW })),
        theta.add(Fixed { raw: HALF_PI_RAW }).div(Fixed { raw: PI_RAW }),
    )
}

/// The surface coordinates of the point `p` of the unit sphere: with the
/// longitude `phi = atan2(z, x)` and the latitude `theta = asin(y)`,
/// `u = 1 - (phi + pi) / (2 pi)` and `v = (theta + pi / 2) / pi`.
#[verifier::when_used_as_spec(get_sphere_uv_spec)]
pub fn get_sphere_uv(p: Vec3) -> (uv: (Fixed, Fixed))
    ensures
        uv == get_sphere_uv_spec(p),
{
    let phi = atan2(p.z, p.x);
    let theta = asin(p.y);
    let u = Fixed::one().sub(phi.add(Fixed { raw: PI_RAW }).div(Fixed { raw: TWO_PI_RAW }));
    let v = theta.add(Fixed { raw: HALF_PI_RAW }).div(Fixed { raw: PI_RAW });
    (u, v)
}

} // verus!
