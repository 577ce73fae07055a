//! Boxes made of six rectangles.

use vstd::prelude::*;
use crate::fixed::Fixed;
use crate::hittable::aabb::AABB;
use crate::hittable::flip_normals::FlipNormals;
use crate::hittable::hittable_list::HittableList;
use crate::hittable::rect::Rect;
use crate::hittable::rect::Span;
use crate::hittable::rect::StaticAxis;
use crate::hittable::HitRecord;
use crate::hittable::Hittables;
use crate::material::MaterialType;
use crate::ray::Ray;
use crate::sampler::Sampler;
use crate::sampler::Stream;
use crate::vec3::Vec3;

verus! {

/// The box from `pmin` to `pmax`, as the list of its six faces.
#[derive(Debug)]
pub struct BoxRect {
    pub pmin: Vec3,
    pub pmax: Vec3,
    pub list_ptr: Box<Hittables>,
}

/// The face of the box from `p0` to `p1` on the upper side of `axis`.
pub open spec fn upper_face(p0: Vec3, p1: Vec3, axis: StaticAxis, material: MaterialType) -> Hittables {
    let axes = axis.indices();
    Hittables::Rect(
        Rect {
            range1: Span::new(p0.get(axes.1), p1.get(axes.1)),
            range2: Span::new(p0.get(axes.2), p1.get(axes.2)),
            k: p1.get(axes.0),
            static_axis: axis,
            material,
        },
    )
}

/// The face of the box from `p0` to `p1` on the lower side of `axis`, with
/// its normal pointing out of the box.
pub open spec fn lower_face(p0: Vec3, p1: Vec3, axis: StaticAxis, material: MaterialType) -> Hittables {
    let axes = axis.indices();
    Hittables::FlipNormals(
        FlipNormals {
            ptr: Box::new(
                Hittables::Rect(
                    Rect {
                        range1: Span::new(p0.get(axes.1), p1.get(axes.1)),
                        range2: Span::new(p0.get(axes.2), p1.get(axes.2)),
                        k: p0.get(axes.0),
                        static_axis: axis,
                        material,
                    },
                ),
            ),
        },
    )
}

/// The six faces of the box from `p0` to `p1`: the upper and the lower face
/// on z, then on y, then on x, each of the given material.
pub open spec fn box_faces(p0: Vec3, p1: Vec3, material: MaterialType) -> Seq<Hittables> {
    seq![
        upper_face(p0, p1, StaticAxis::Z, material),
        lower_face(p0, p1, StaticAxis::Z, material),
        upper_face(p0, p1, StaticAxis::Y, material),
        lower_face(p0, p1, StaticAxis::Y, material),
        upper_face(p0, p1, StaticAxis::X, material),
        lower_face(p0, p1, StaticAxis::X, material),
    ]
}

impl BoxRect {
    /// The box from `p0` to `p1` of the given material, as a scene object.
    #[allow(clippy::new_ret_no_self)]
    pub fn new(p0: Vec3, p1: Vec3, material: MaterialType) -> (h: Hittables)
        ensures
            h matches Hittables::BoxRect(b) && b.pmin == p0 && b.pmax == p1 && (
            *b.list_ptr matches Hittables::HittableList(faces) && faces.list@ == box_faces(
                p0,
                p1,
                material,
            )),
    {
        let mut faces: Vec<Hittables> = Vec::new();
        faces.push(
            Rect::new(
                Span::new(p0.x, p1.x),
                Span::new(p0.y, p1.y),
                p1.z,
                StaticAxis::Z,
                material.clone(),
            ),
        );
        faces.push(
            FlipNormals::new(
                Rect::new(
                    Span::new(p0.x, p1.x),
                    Span::new(p0.y, p1.y),
                    p0.z,
                    StaticAxis::Z,
                    material.clone(),
                ),
            ),
        );
        faces.push(
            Rect::new(
                Span::new(p0.x, p1.x),
                Span::new(p0.z, p1.z),
                p1.y,
                StaticAxis::Y,
                material.clone(),
            ),
        );
        faces.push(
            FlipNormals::new(
                Rect::new(
                    Span::new(p0.x, p1.x),
                    Span::new(p0.z, p1.z),
                    p0.y,
                    StaticAxis::Y,
                    material.clone(),
                ),
            ),
        );
        faces.push(
            Rect::new(
                Span::new(p0.y, p1.y),
                Span::new(p0.z, p1.z),
                p1.x,
                StaticAxis::X,
                material.clone(),
            ),
        );
        faces.push(
            FlipNormals::new(
                Rect::new(
                    Span::new(p0.y, p1.y),
                    Span::new(p0.z, p1.z),
                    p0.x,
                    StaticAxis::X,
                    material.clone(),
                ),
            ),
        );
        proof {
            assert(faces@ =~= box_faces(p0, p1, material));
        }
        let list = HittableList::new(faces);
        Hittables::BoxRect(BoxRect { pmin: p0, pmax: p1, list_ptr: Box::new(list) })
    }

    pub open spec fn hit_spec(&self, r: &Ray, t_min: Fixed, t_max: Fixed, sampler: Stream) -> (
        Option<HitRecord<'_>>,
        Stream,
    )
        decreases self,
    {
        self.list_ptr.hit_spec(r, t_min, t_max, sampler)
    }

    /// The hit of the list of faces.
    pub fn hit(&self, r: &Ray, t_min: Fixed, t_max: Fixed, sampler: &mut Sampler) -> (rec: Option<
        HitRecord<'_>,
    >)
        ensures
            (rec, final(sampler)@) == self.hit_spec(r, t_min, t_max, old(sampler)@),
        decreases self,
    {
        self.list_ptr.hit(r, t_min, t_max, sampler)
    }

    pub open spec fn bounding_box_spec(&self, t0: Fixed, t1: Fixed) -> Option<AABB> {
        Some(AABB { min: self.pmin, max: self.pmax })
    }

    /// The box itself, from `pmin` to `pmax`.
    #[verifier::when_used_as_spec(bounding_box_spec)]
    pub fn bounding_box(&self, t0: Fixed, t1: Fixed) -> (b: Option<AABB>)
        ensures
            b == self.bounding_box_spec(t0, t1),
    {
        Some(AABB { min: self.pmin, max: self.pmax })
    }
}

} // verus!
