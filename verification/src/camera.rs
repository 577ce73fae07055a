//! The camera: from a place on the image plane to a ray into the scene.

use vstd::prelude::*;
use crate::elementary::radians;
use crate::elementary::tan;
use crate::fixed::Fixed;
use crate::fixed::SCALE;
use crate::material::utils::MAX_TRIES;
use crate::ray::Ray;
use crate::sampler::Sampler;
use crate::sampler::Stream;
use crate::vec3::Vec3;

verus! {

/// The time during which the shutter is open.
#[derive(Clone, Copy, PartialEq, Eq, Structural, Debug)]
pub struct Exposure {
    pub start: Fixed,
    pub end: Fixed,
}

impl Default for Exposure {
    /// The exposure from zero to one.
    fn default() -> (e: Exposure)
        ensures
            e == (Exposure { start: Fixed::zero(), end: Fixed::one() }),
    {
        Exposure { start: Fixed::zero(), end: Fixed::one() }
    }
}

/// What a camera is made from.
#[derive(Clone, Copy, PartialEq, Eq, Structural, Debug)]
pub struct CameraConfig {
    pub lookfrom: Vec3,
    pub lookat: Vec3,
    /// The vertical field of view, in degrees.
    pub vfov: Fixed,
    pub focus_dist: Fixed,
    pub height: u32,
    pub width: u32,
    pub vup: Vec3,
    pub aspect: Fixed,
    pub aperture: Fixed,
    pub exposure: Exposure,
}

impl CameraConfig {
    /// The ratio of width to height.
    pub open spec fn default_aspect_spec(width: u32, height: u32) -> Fixed {
        Fixed::whole(width as i64).div(Fixed::whole(height as i64))
    }

    #[verifier::when_used_as_spec(default_aspect_spec)]
    pub fn default_aspect(width: u32, height: u32) -> (a: Fixed)
        ensures
            a == CameraConfig::default_aspect_spec(width, height),
    {
        Fixed::whole(width as i64).div(Fixed::whole(height as i64))
    }

    /// The configuration with the given view and image size and with the
    /// usual rest: y is up, the aspect is that of the image, the aperture is
    /// closed to a point, and the shutter is open from time zero to one.
    pub fn new(
        lookfrom: Vec3,
        lookat: Vec3,
        vfov: Fixed,
        focus_dist: Fixed,
        width: u32,
        height: u32,
    ) -> (c: CameraConfig)
        ensures
            c == (CameraConfig {
                lookfrom,
                lookat,
                vfov,
                focus_dist,
                height,
                width,
                vup: Vec3::newi(0, 1, 0),
                aspect: CameraConfig::default_aspect(width, height),
                aperture: Fixed::zero(),
                exposure: Exposure { start: Fixed::zero(), end: Fixed::one() },
            }),
    {
        CameraConfig {
            lookfrom,
            lookat,
            vfov,
            focus_dist,
            height,
            width,
            vup: Vec3::newi(0, 1, 0),
            aspect: CameraConfig::default_aspect(width, height),
            aperture: Fixed::zero(),
            exposure: Exposure::default(),
        }
    }
}

/// A camera as the renderer uses it: the eye, the lower left corner and the
/// two spans of the image plane, the frame `(u, v, w)` of the camera, the
/// radius of the lens, the exposure, and the size of the image in pixels.
#[derive(Clone, Copy, PartialEq, Eq, Structural, Debug)]
pub struct Camera {
    pub origin: Vec3,
    pub lower_left_corner: Vec3,
    pub horizontal: Vec3,
    pub vertical: Vec3,
    pub u: Vec3,
    pub v: Vec3,
    pub w: Vec3,
    pub lens_radius: Fixed,
    pub exposure: Exposure,
    pub height: u32,
    pub width: u32,
}

/// The point of the square from -1 to 1 in the plane `z = 0` that the next
/// two draws give.
pub open spec fn square_point(sampler: Stream) -> Vec3 {
    Vec3 {
        x: Fixed::from_int(2).mul(sampler.unit()).sub(Fixed::one()),
        y: Fixed::from_int(2).mul(sampler.advance().unit()).sub(Fixed::one()),
        z: Fixed::zero(),
    }
}

/// The first of the next `tries` points of that square that lies inside the
/// unit disk, with the sampler after it; the zero vector where none does.
pub open spec fn disk_point_spec(sampler: Stream, tries: nat) -> (Vec3, Stream)
    decreases tries,
{
    if tries == 0 {
        (Vec3::zero(), sampler)
    } else {
        let p = square_point(sampler);
        if p.dot(p).raw < SCALE {
            (p, sampler.skip(2))
        } else {
            disk_point_spec(sampler.skip(2), (tries - 1) as nat)
        }
    }
}

/// A random point inside the unit disk in the plane `z = 0`, by rejection,
/// with the zero vector after `MAX_TRIES` rejections.
pub fn random_in_unit_disk(sampler: &mut Sampler) -> (p: Vec3)
    ensures
        (p, final(sampler)@) == disk_point_spec(old(sampler)@, MAX_TRIES as nat),
        p.dot(p).raw < SCALE,
        p.z.raw == 0,
{
    let mut tries: u32 = MAX_TRIES;
    while tries > 0
        invariant
            tries <= MAX_TRIES,
            disk_point_spec(old(sampler)@, MAX_TRIES as nat) == disk_point_spec(
                sampler@,
                tries as nat,
            ),
        decreases tries,
    {
        let ghost before = sampler@;
        let two = Fixed::from_int(2);
        let x = two.mul(sampler.next_unit()).sub(Fixed::one());
        let y = two.mul(sampler.next_unit()).sub(Fixed::one());
        let p = Vec3::new(x, y, Fixed::zero());
        proof {
            reveal_with_fuel(Stream::skip, 3);
            assert(sampler@ == before.skip(2));
        }
        if p.dot(p).raw < SCALE {
            return p;
        }
        tries -= 1;
    }
    assert(Vec3::zero().dot(Vec3::zero()).raw == 0) by {
        assert(0int * 0int / (SCALE as int) == 0) by (nonlinear_arith);
    }
    Vec3::zero()
}

impl Camera {
    pub open spec fn new_spec(config: CameraConfig) -> Camera {
        let theta = radians(config.vfov);
        let half_height = tan(theta.div(Fixed::from_int(2)));
        let half_width = config.aspect.mul(half_height);
        let w = config.lookfrom.sub(config.lookat).unit();
        let u = config.vup.cross(w).unit();
        let v = w.cross(u);
        Camera {
            lower_left_corner: config.lookfrom.sub(u.scale(half_width.mul(config.focus_dist))).sub(
                v.scale(half_height.mul(config.focus_dist)),
            ).sub(w.scale(config.focus_dist)),
            horizontal: u.scale(Fixed::from_int(2).mul(half_width).mul(config.focus_dist)),
            vertical: v.scale(Fixed::from_int(2).mul(half_height).mul(config.focus_dist)),
            origin: config.lookfrom,
            u,
            v,
            w,
            lens_radius: config.aperture.div(Fixed::from_int(2)),
            exposure: config.exposure,
            width: config.width,
            height: config.height,
        }
    }

    /// The camera of the configuration. With `h = tan(vfov / 2)` the half
    /// height and `a * h` the half width of the image plane at distance one,
    /// `w` points from the target to the eye, `u = vup x w` to the right and
    /// `v = w x u` up; the image plane lies at the focus distance, and the
    /// lens has half the aperture as its radius.
    #[verifier::when_used_as_spec(new_spec)]
    pub fn new(config: CameraConfig) -> (c: Camera)
        ensures
            c == Camera::new_spec(config),
            c.origin == config.lookfrom,
            c.width == config.width,
            c.height == config.height,
    {
        let theta = radians(config.vfov);
        let half_height = tan(theta.div(Fixed::from_int(2)));
        let half_width = config.aspect.mul(half_height);
        let w = config.lookfrom.sub(config.lookat).unit();
        let u = config.vup.cross(w).unit();
        let v = w.cross(u);
        Camera {
            lower_left_corner: config.lookfrom.sub(u.scale(half_width.mul(config.focus_dist))).sub(
                v.scale(half_height.mul(config.focus_dist)),
            ).sub(w.scale(config.focus_dist)),
            horizontal: u.scale(Fixed::from_int(2).mul(half_width).mul(config.focus_dist)),
            vertical: v.scale(Fixed::from_int(2).mul(half_height).mul(config.focus_dist)),
            origin: config.lookfrom,
            u,
            v,
            w,
            lens_radius: config.aperture.div(Fixed::from_int(2)),
            exposure: config.exposure,
            width: config.width,
            height: config.height,
        }
    }

    /// The ray through the place `(u, v)` of the image plane, for the point
    /// `lens` of the unit disk and the uniform draw `chance`: the eye is moved
    /// on every axis by `u * x + v * y` of the lens point scaled to the lens,
    /// the ray aims at the place on the image plane, and it is cast at the
    /// moment of the exposure that `chance` picks.
    pub open spec fn ray_through(&self, u: Fixed, v: Fixed, lens: Vec3, chance: Fixed) -> Ray {
        let rd = lens.scale(self.lens_radius);
        let offset = Vec3::splat(u.mul(rd.x).add(v.mul(rd.y)));
        Ray::new(
            self.origin.add(offset),
            self.lower_left_corner.add(self.horizontal.scale(u)).add(self.vertical.scale(v)).sub(
                self.origin,
            ).sub(offset),
            self.exposure.start.add(chance.mul(self.exposure.end.sub(self.exposure.start))),
        )
    }

    #[verifier::opaque]
    pub open spec fn get_ray_spec(&self, u: Fixed, v: Fixed, sampler: Stream) -> (Ray, Stream) {
        let lens = disk_point_spec(sampler, MAX_TRIES as nat);
        (self.ray_through(u, v, lens.0, lens.1.unit()), lens.1.advance())
    }

    /// A ray through the place `(u, v)` of the image plane, from a random
    /// point of the lens and at a random moment of the exposure.
    pub fn get_ray(&self, u: Fixed, v: Fixed, sampler: &mut Sampler) -> (r: Ray)
        ensures
            (r, final(sampler)@) == self.get_ray_spec(u, v, old(sampler)@),
    {
        reveal(Camera::get_ray_spec);
        let rd = random_in_unit_disk(sampler).scale(self.lens_radius);
        let offset = Vec3::splat(u.mul(rd.x).add(v.mul(rd.y)));
        let origin = self.origin.add(offset);
        let direction = self.lower_left_corner.add(self.horizontal.scale(u)).add(
            self.vertical.scale(v),
        ).sub(self.origin).sub(offset);
        let time = self.exposure.start.add(
            sampler.next_unit().mul(self.exposure.end.sub(self.exposure.start)),
        );
        Ray::new(origin, direction, time)
    }
}

} // verus!
