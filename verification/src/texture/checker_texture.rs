//! The checkerboard of two textures.

use vstd::prelude::*;
use crate::elementary::sin;
use crate::fixed::Fixed;
use crate::texture::TextureType;
use crate::vec3::Vec3;

verus! {

/// A texture that alternates between two others in a three-dimensional
/// checker pattern.
#[derive(Debug)]
pub struct CheckerTexture {
    pub odd: Box<TextureType>,
    pub even: Box<TextureType>,
}

/// Whether `p` lies in an odd cell of the pattern: the product of the sines
/// of ten times each coordinate is negative there.
pub open spec fn in_odd_cell_spec(p: Vec3) -> bool {
    sin(Fixed::from_int(10).mul(p.x)).mul(sin(Fixed::from_int(10).mul(p.y))).mul(
        sin(Fixed::from_int(10).mul(p.z)),
    ).raw < 0
}

#[verifier::when_used_as_spec(in_odd_cell_spec)]
pub fn in_odd_cell(p: Vec3) -> (b: bool)
    ensures
        b == in_odd_cell_spec(p),
{
    let ten = Fixed::from_int(10);
    let sines = sin(ten.mul(p.x)).mul(sin(ten.mul(p.y))).mul(sin(ten.mul(p.z)));
    sines.raw < 0
}

impl Clone for CheckerTexture {
    fn clone(&self) -> (r: Self)
        ensures
            r == *self,
        decreases self,
    {
        let odd = (&*self.odd).clone();
        let even = (&*self.even).clone();
        CheckerTexture { odd: Box::new(odd), even: Box::new(even) }
    }
}

impl CheckerTexture {
    pub open spec fn value_spec(&self, u: Fixed, v: Fixed, p: Vec3) -> Vec3
        decreases self,
    {
        if in_odd_cell(p) {
            self.odd.value_spec(u, v, p)
        } else {
            self.even.value_spec(u, v, p)
        }
    }

    /// The value of the odd texture in the odd cells and of the even texture
    /// in the others.
    #[verifier::when_used_as_spec(value_spec)]
    pub fn value(&self, u: Fixed, v: Fixed, p: Vec3) -> (c: Vec3)
        ensures
            c == self.value_spec(u, v, p),
        decreases self,
    {
        if in_odd_cell(p) {
            self.odd.value(u, v, p)
        } else {
            self.even.value(u, v, p)
        }
    }
}

} // verus!
