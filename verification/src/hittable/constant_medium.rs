//! Fog and smoke: a medium of constant density inside a boundary.

use vstd::prelude::*;
use crate::elementary::ln;
use crate::fixed::Fixed;
use crate::hittable::aabb::AABB;
use crate::hittable::HitRecord;
use crate::hittable::Hittables;
use crate::material::Isotropic;
use crate::material::MaterialType;
use crate::ray::Ray;
use crate::sampler::Sampler;
use crate::sampler::Stream;
use crate::texture::TextureType;
use crate::vec3::Vec3;

verus! {

/// A medium of the given density that fills `boundary` and scatters by
/// `phase_function`.
#[derive(Debug)]
pub struct ConstantMedium {
    pub boundary: Box<Hittables>,
    pub density: Fixed,
    pub phase_function: MaterialType,
}

/// How far past the place where the ray enters the boundary the search for
/// the place where it leaves begins.
pub open spec fn exit_margin_spec() -> Fixed {
    Fixed::ratio(1, 10000)
}

#[verifier::when_used_as_spec(exit_margin_spec)]
pub fn exit_margin() -> (m: Fixed)
    ensures
        m == exit_margin_spec(),
{
    Fixed::ratio(1, 10000)
}

/// The stretch of the ray inside the medium: the parameters `enter` and
/// `leave` at which it crosses the boundary, kept within `t_min` and `t_max`;
/// nothing where that leaves no stretch. The start is not taken before the
/// origin of the ray.
pub open spec fn stretch_spec(enter: Fixed, leave: Fixed, t_min: Fixed, t_max: Fixed) -> Option<
    (Fixed, Fixed),
> {
    let from = if enter.lt(t_min) {
        t_min
    } else {
        enter
    };
    let to = if leave.gt(t_max) {
        t_max
    } else {
        leave
    };
    if from.ge(to) {
        None
    } else if from.raw < 0 {
        Some((Fixed::zero(), to))
    } else {
        Some((from, to))
    }
}

#[verifier::when_used_as_spec(stretch_spec)]
pub fn stretch(enter: Fixed, leave: Fixed, t_min: Fixed, t_max: Fixed) -> (r: Option<(Fixed, Fixed)>)
    ensures
        r == stretch_spec(enter, leave, t_min, t_max),
{
    let from = if enter.lt(t_min) {
        t_min
    } else {
        enter
    };
    let to = if leave.gt(t_max) {
        t_max
    } else {
        leave
    };
    if from.ge(to) {
        None
    } else if from.raw < 0 {
        Some((Fixed::zero(), to))
    } else {
        Some((from, to))
    }
}

/// The distance that a ray travels through a medium of the given density
/// before it scatters, for the uniform draw `chance`: `-(1 / density) *
/// ln(chance)`, a sample of the exponential distribution.
pub open spec fn free_flight_spec(density: Fixed, chance: Fixed) -> Fixed {
    Fixed::one().div(density).neg().mul(ln(chance))
}

#[verifier::when_used_as_spec(free_flight_spec)]
pub fn free_flight(density: Fixed, chance: Fixed) -> (r: Fixed)
    ensures
        r == free_flight_spec(density, chance),
{
    Fixed::one().div(density).neg().mul(ln(chance))
}

impl ConstantMedium {
    /// The medium of the given density and colour inside `boundary`, as a
    /// scene object.
    #[allow(clippy::new_ret_no_self)]
    pub fn new(boundary: Hittables, density: Fixed, albedo: TextureType) -> (h: Hittables)
        ensures
            h == Hittables::ConstantMedium(
                ConstantMedium {
                    boundary: Box::new(boundary),
                    density,
                    phase_function: MaterialType::Isotropic(Isotropic { albedo }),
                },
            ),
    {
        let phase_function = Isotropic::new(albedo);
        Hittables::ConstantMedium(
            ConstantMedium { boundary: Box::new(boundary), density, phase_function },
        )
    }

    /// Where the ray scatters inside the stretch from `from` to `to`, for the
    /// uniform draw `chance`: at the free flight distance past `from`, where
    /// that is less than the length of the stretch, and nowhere otherwise. The
    /// record holds the point, an arbitrary normal and the phase function.
    pub open spec fn scatter_in(&self, r: &Ray, from: Fixed, to: Fixed, chance: Fixed) -> Option<
        HitRecord<'_>,
    > {
        let distance_inside_boundary = to.sub(from).mul(r.direction.norm());
        let hit_distance = free_flight(self.density, chance);
        if hit_distance.lt(distance_inside_boundary) {
            let t = from.add(hit_distance.div(r.direction.norm()));
            Some(
                HitRecord {
                    t,
                    u: Fixed::zero(),
                    v: Fixed::zero(),
                    point: r.point_at(t),
                    normal: Vec3::newi(1, 0, 0),
                    mat: &self.phase_function,
                },
            )
        } else {
            None
        }
    }

    /// The boundary is hit twice: anywhere along the ray for the place where
    /// the ray enters, and past that place for the one where it leaves. Where
    /// both are found and leave a stretch inside `t_min..t_max`, one scalar
    /// is drawn and decides whether and where the ray scatters in it.
    pub open spec fn hit_spec(&self, r: &Ray, t_min: Fixed, t_max: Fixed, sampler: Stream) -> (
        Option<HitRecord<'_>>,
        Stream,
    )
        decreases self,
    {
        let first = self.boundary.hit_spec(r, Fixed::min_value(), Fixed::max_value(), sampler);
        match first.0 {
            Some(rec1) => {
                let second = self.boundary.hit_spec(
                    r,
                    rec1.t.add(exit_margin()),
                    Fixed::max_value(),
                    first.1,
                );
                match second.0 {
                    Some(rec2) => match stretch(rec1.t, rec2.t, t_min, t_max) {
                        Some((from, to)) => (
                            self.scatter_in(r, from, to, second.1.unit()),
                            second.1.advance(),
                        ),
                        None => (None, second.1),
                    },
                    None => (None, second.1),
                }
            },
            None => (None, first.1),
        }
    }

    /// The place, if any, at which the ray scatters in the medium.
    pub fn hit(&self, r: &Ray, t_min: Fixed, t_max: Fixed, sampler: &mut Sampler) -> (rec: Option<
        HitRecord<'_>,
    >)
        ensures
            (rec, final(sampler)@) == self.hit_spec(r, t_min, t_max, old(sampler)@),
        decreases self,
    {
        let enter = match self.boundary.hit(r, Fixed::min_value(), Fixed::max_value(), sampler) {
            Some(rec1) => rec1.t,
            None => {
                return None;
            },
        };
        let leave = match self.boundary.hit(
            r,
            enter.add(exit_margin()),
            Fixed::max_value(),
            sampler,
        ) {
            Some(rec2) => rec2.t,
            None => {
                return None;
            },
        };
        match stretch(enter, leave, t_min, t_max) {
            Some((from, to)) => {
                let distance_inside_boundary = to.sub(from).mul(r.direction.norm());
                let hit_distance = free_flight(self.density, sampler.next_unit());
                if hit_distance.lt(distance_inside_boundary) {
                    let t = from.add(hit_distance.div(r.direction.norm()));
                    let point = r.point_at(t);
                    Some(
                        HitRecord::new(
                            t,
                            Fixed::zero(),
                            Fixed::zero(),
                            point,
                            Vec3::newi(1, 0, 0),
                            &self.phase_function,
                        ),
                    )
                } else {
                    None
                }
            },
            None => None,
        }
    }

    pub open spec fn bounding_box_spec(&self, t0: Fixed, t1: Fixed) -> Option<AABB>
        decreases self,
    {
        self.boundary.bounding_box_spec(t0, t1)
    }

    /// The box of the boundary.
    pub fn bounding_box(&self, t0: Fixed, t1: Fixed) -> (b: Option<AABB>)
        ensures
            b == self.bounding_box_spec(t0, t1),
        decreases self,
    {
        self.boundary.bounding_box(t0, t1)
    }
}

} // verus!
