//! The texture of one colour.

use vstd::prelude::*;
use crate::fixed::Fixed;
use crate::texture::TextureType;
use crate::vec3::Vec3;

verus! {

/// A texture that has the same colour everywhere.
#[derive(Clone, Copy, PartialEq, Eq, Structural, Debug)]
pub struct ConstantTexture {
    pub color: Vec3,
}

impl ConstantTexture {
    /// The texture of the colour with the given red, green and blue parts.
    #[allow(clippy::new_ret_no_self)]
    pub fn new(r: Fixed, g: Fixed, b: Fixed) -> (t: TextureType)
        ensures
            t == TextureType::ConstantTexture(ConstantTexture { color: Vec3::new(r, g, b) }),
    {
        TextureType::ConstantTexture(ConstantTexture { color: Vec3::new(r, g, b) })
    }

    pub open spec fn value_spec(&self, u: Fixed, v: Fixed, p: Vec3) -> Vec3 {
        self.color
    }

    /// The colour, whatever the place.
    #[verifier::when_used_as_spec(value_spec)]
    pub fn value(&self, u: Fixed, v: Fixed, p: Vec3) -> (c: Vec3)
        ensures
            c == self.value_spec(u, v, p),
    {
        self.color
    }
}

} // verus!
