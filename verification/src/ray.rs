//! Rays: an origin, a direction and the moment of the shutter interval at
//! which the ray was cast.

use vstd::prelude::*;
use crate::fixed::Fixed;
use crate::vec3::Vec3;

verus! {

/// A half-line `origin + t * direction`, cast at `time`.
#[derive(Clone, Copy, PartialEq, Eq, Structural, Debug)]
pub struct Ray {
    pub origin: Vec3,
    pub direction: Vec3,
    pub time: Fixed,
}

impl Ray {
    pub open spec fn new_spec(origin: Vec3, direction: Vec3, time: Fixed) -> Ray {
        Ray { origin, direction, time }
    }

    /// The ray from `origin` along `direction`, cast at `time`.
    #[verifier::when_used_as_spec(new_spec)]
    pub fn new(origin: Vec3, direction: Vec3, time: Fixed) -> (r: Ray)
        ensures
            r == Ray::new_spec(origin, direction, time),
    {
        Ray { origin, direction, time }
    }

    pub open spec fn point_at_spec(&self, t: Fixed) -> Vec3 {
        self.origin.add(self.direction.scale(t))
    }

    /// The point at parameter `t`: `origin + t * direction`.
    #[verifier::when_used_as_spec(point_at_spec)]
    pub fn point_at(&self, t: Fixed) -> (p: Vec3)
        ensures
            p == self.point_at_spec(t),
    {
        self.origin.add(self.direction.scale(t))
    }
}

} // verus!
