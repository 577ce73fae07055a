//! The marbled texture made from turbulence.

use vstd::prelude::*;
use crate::elementary::sin;
use crate::fixed::Fixed;
use crate::texture::perlin::Perlin;
use crate::vec3::Vec3;

verus! {

/// A grey marble pattern: a sine wave along z whose phase the turbulence
/// disturbs.
#[derive(Debug)]
pub struct NoiseTexture {
    pub perlin: Perlin,
    pub scale: Fixed,
}

impl Clone for NoiseTexture {
    fn clone(&self) -> (r: Self)
        ensures
            r == *self,
    {
        NoiseTexture { perlin: self.perlin.clone(), scale: self.scale }
    }
}

impl NoiseTexture {
    pub open spec fn value_spec(&self, u: Fixed, v: Fixed, p: Vec3) -> Vec3 {
        Vec3::one().scale(Fixed::ratio(1, 2)).scale(
            Fixed::one().add(
                sin(self.scale.mul(p.z).add(Fixed::from_int(10).mul(self.perlin.turbulence(p, 7)))),
            ),
        )
    }

    /// The grey `0.5 * (1 + sin(scale * z + 10 * turbulence(p, 7)))`.
    #[verifier::when_used_as_spec(value_spec)]
    pub fn value(&self, u: Fixed, v: Fixed, p: Vec3) -> (c: Vec3)
        ensures
            c == self.value_spec(u, v, p),
    {
        let phase = self.scale.mul(p.z).add(Fixed::from_int(10).mul(self.perlin.turbulence(p, 7)));
        Vec3::one().scale(Fixed::ratio(1, 2)).scale(Fixed::one().add(sin(phase)))
    }
}

} // verus!
