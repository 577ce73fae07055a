//! The geometry of scattering: mirror reflection, refraction, the Schlick
//! reflectance, and a random point inside the unit sphere.

use vstd::prelude::*;
use crate::fixed::Fixed;
use crate::fixed::SCALE;
use crate::sampler::Sampler;
use crate::sampler::Stream;
use crate::vec3::Vec3;

verus! {

/// How often a random point is drawn before the search for one inside the
/// unit sphere gives up.
pub const MAX_TRIES: u32 = 64;

/// The fifth power of `x`.
pub open spec fn pow5_spec(x: Fixed) -> Fixed {
    x.mul(x).mul(x.mul(x)).mul(x)
}

#[verifier::when_used_as_spec(pow5_spec)]
pub fn pow5(x: Fixed) -> (r: Fixed)
    ensures
        r == pow5_spec(x),
{
    let x2 = x.mul(x);
    x2.mul(x2).mul(x)
}

pub open spec fn schlick_spec(cosine: Fixed, ref_idx: Fixed) -> Fixed {
    let root = Fixed::one().sub(ref_idx).div(Fixed::one().add(ref_idx));
    let r0 = root.mul(root);
    r0.add(Fixed::one().sub(r0).mul(pow5(Fixed::one().sub(cosine))))
}

/// Schlick's approximation of the reflectance at the given cosine:
/// `r0 + (1 - r0) * (1 - cosine)^5` with `r0 = ((1 - n) / (1 + n))^2`.
#[verifier::when_used_as_spec(schlick_spec)]
pub fn schlick(cosine: Fixed, ref_idx: Fixed) -> (r: Fixed)
    ensures
        r == schlick_spec(cosine, ref_idx),
{
    let root = Fixed::one().sub(ref_idx).div(Fixed::one().add(ref_idx));
    let r0 = root.mul(root);
    r0.add(Fixed::one().sub(r0).mul(pow5(Fixed::one().sub(cosine))))
}

/// The discriminant of Snell's law for the unit direction `uv`:
/// `1 - ratio^2 * (1 - (uv . n)^2)`.
pub open spec fn refract_discriminant(uv: Vec3, n: Vec3, ni_over_nt: Fixed) -> Fixed {
    let dt = uv.dot(n);
    Fixed::one().sub(ni_over_nt.mul(ni_over_nt).mul(Fixed::one().sub(dt.mul(dt))))
}

pub open spec fn refract_spec(v: Vec3, n: Vec3, ni_over_nt: Fixed) -> Option<Vec3> {
    let uv = v.unit();
    let dt = uv.dot(n);
    let discriminant = refract_discriminant(uv, n, ni_over_nt);
    if discriminant.raw > 0 {
        Some(uv.sub(n.scale(dt)).scale(ni_over_nt).sub(n.scale(discriminant.sqrt())))
    } else {
        None
    }
}

/// The direction of `v` refracted at a surface with normal `n`, by Snell's
/// law with the ratio `ni_over_nt` of the refractive indices. `None` where the
/// discriminant is not positive: total internal reflection.
#[verifier::when_used_as_spec(refract_spec)]
pub fn refract(v: Vec3, n: Vec3, ni_over_nt: Fixed) -> (r: Option<Vec3>)
    ensures
        r == refract_spec(v, n, ni_over_nt),
        r is Some <==> refract_discriminant(v.unit(), n, ni_over_nt).raw > 0,
{
    let uv = v.unit();
    let dt = uv.dot(n);
    let discriminant = Fixed::one().sub(
        ni_over_nt.mul(ni_over_nt).mul(Fixed::one().sub(dt.mul(dt))),
    );
    if discriminant.raw > 0 {
        Some(uv.sub(n.scale(dt)).scale(ni_over_nt).sub(n.scale(discriminant.sqrt())))
    } else {
        None
    }
}

pub open spec fn reflect_spec(v: Vec3, n: Vec3) -> Vec3 {
    v.sub(n.scale(Fixed::from_int(2).mul(v.dot(n))))
}

/// `v` mirrored at a surface with normal `n`: `v - 2 (v . n) n`.
#[verifier::when_used_as_spec(reflect_spec)]
pub fn reflect(v: Vec3, n: Vec3) -> (r: Vec3)
    ensures
        r == reflect_spec(v, n),
{
    v.sub(n.scale(Fixed::from_int(2).mul(v.dot(n))))
}

/// The first of the next `tries` points of the cube from -1 to 1 that lies
/// inside the unit sphere, with the sampler after it; the zero vector where
/// none of them does.
pub open spec fn sphere_point_spec(sampler: Stream, tries: nat) -> (Vec3, Stream)
    decreases tries,
{
    if tries == 0 {
        (Vec3::zero(), sampler)
    } else {
        let p = sampler.cube_point();
        if p.squared_norm().raw < SCALE {
            (p, sampler.skip(3))
        } else {
            sphere_point_spec(sampler.skip(3), (tries - 1) as nat)
        }
    }
}

/// A random point inside the unit sphere, by rejection: points of the cube
/// from -1 to 1 are drawn until one has a squared length below one. After
/// `MAX_TRIES` rejections the zero vector is returned.
pub fn random_in_unit_sphere(sampler: &mut Sampler) -> (p: Vec3)
    ensures
        (p, final(sampler)@) == sphere_point_spec(old(sampler)@, MAX_TRIES as nat),
        p.squared_norm().raw < SCALE,
{
    let mut tries: u32 = MAX_TRIES;
    while tries > 0
        invariant
            tries <= MAX_TRIES,
            sphere_point_spec(old(sampler)@, MAX_TRIES as nat) == sphere_point_spec(
                sampler@,
                tries as nat,
            ),
        decreases tries,
    {
        let p = sampler.next_cube_point();
        if p.squared_norm().raw < SCALE {
            return p;
        }
        tries -= 1;
    }
    assert(Vec3::zero().squared_norm().raw == 0) by {
        assert(0int * 0int / (SCALE as int) == 0) by (nonlinear_arith);
    }
    Vec3::zero()
}

} // verus!
