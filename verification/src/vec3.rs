//! Three-component vectors of fixed-point scalars.

use vstd::prelude::*;
use crate::fixed::Fixed;

verus! {

/// A point, a direction or a colour. A value type: copied freely.
#[derive(Clone, Copy, PartialEq, Eq, Structural, Debug)]
pub struct Vec3 {
    pub x: Fixed,
    pub y: Fixed,
    pub z: Fixed,
}

impl Vec3 {
    pub open spec fn new_spec(x: Fixed, y: Fixed, z: Fixed) -> Vec3 {
        Vec3 { x, y, z }
    }

    /// The vector with the given components.
    #[verifier::when_used_as_spec(new_spec)]
    pub fn new(x: Fixed, y: Fixed, z: Fixed) -> (r: Vec3)
        ensures
            r == Vec3::new_spec(x, y, z),
    {
        Vec3 { x, y, z }
    }

    pub open spec fn newi_spec(x: i32, y: i32, z: i32) -> Vec3 {
        Vec3 { x: Fixed::from_int(x), y: Fixed::from_int(y), z: Fixed::from_int(z) }
    }

    /// The vector with the given whole-number components.
    #[verifier::when_used_as_spec(newi_spec)]
    pub fn newi(x: i32, y: i32, z: i32) -> (r: Vec3)
        ensures
            r == Vec3::newi_spec(x, y, z),
    {
        Vec3 { x: Fixed::from_int(x), y: Fixed::from_int(y), z: Fixed::from_int(z) }
    }

    pub open spec fn splat_spec(v: Fixed) -> Vec3 {
        Vec3 { x: v, y: v, z: v }
    }

    /// The vector whose three components are `v`.
    #[verifier::when_used_as_spec(splat_spec)]
    pub fn splat(v: Fixed) -> (r: Vec3)
        ensures
            r == Vec3::splat_spec(v),
    {
        Vec3 { x: v, y: v, z: v }
    }

    pub open spec fn zero_spec() -> Vec3 {
        Vec3::splat(Fixed::zero())
    }

    /// The zero vector.
    #[verifier::when_used_as_spec(zero_spec)]
    pub fn zero() -> (r: Vec3)
        ensures
            r == Vec3::zero_spec(),
    {
        Vec3::splat(Fixed::zero())
    }

    pub open spec fn one_spec() -> Vec3 {
        Vec3::splat(Fixed::one())
    }

    /// The vector of ones.
    #[verifier::when_used_as_spec(one_spec)]
    pub fn one() -> (r: Vec3)
        ensures
            r == Vec3::one_spec(),
    {
        Vec3::splat(Fixed::one())
    }

    pub open spec fn get_spec(self, axis: usize) -> Fixed {
        if axis == 0 {
            self.x
        } else if axis == 1 {
            self.y
        } else {
            self.z
        }
    }

    /// The component on `axis`: 0 for x, 1 for y, 2 for z.
    #[verifier::when_used_as_spec(get_spec)]
    pub fn get(self, axis: usize) -> (r: Fixed)
        requires
            axis < 3,
        ensures
            r == self.get_spec(axis),
    {
        if axis == 0 {
            self.x
        } else if axis == 1 {
            self.y
        } else {
            self.z
        }
    }

    pub open spec fn with_spec(self, axis: usize, v: Fixed) -> Vec3 {
        if axis == 0 {
            Vec3 { x: v, ..self }
        } else if axis == 1 {
            Vec3 { y: v, ..self }
        } else {
            Vec3 { z: v, ..self }
        }
    }

    /// `self` with the component on `axis` replaced by `v`.
    #[verifier::when_used_as_spec(with_spec)]
    pub fn with(self, axis: usize, v: Fixed) -> (r: Vec3)
        requires
            axis < 3,
        ensures
            r == self.with_spec(axis, v),
    {
        if axis == 0 {
            Vec3 { x: v, y: self.y, z: self.z }
        } else if axis == 1 {
            Vec3 { x: self.x, y: v, z: self.z }
        } else {
            Vec3 { x: self.x, y: self.y, z: v }
        }
    }

    pub open spec fn add_spec(self, v: Vec3) -> Vec3 {
        Vec3 { x: self.x.add(v.x), y: self.y.add(v.y), z: self.z.add(v.z) }
    }

    /// The componentwise sum.
    #[verifier::when_used_as_spec(add_spec)]
    pub fn add(self, v: Vec3) -> (r: Vec3)
        ensures
            r == self.add_spec(v),
    {
        Vec3 { x: self.x.add(v.x), y: self.y.add(v.y), z: self.z.add(v.z) }
    }

    pub open spec fn sub_spec(self, v: Vec3) -> Vec3 {
        Vec3 { x: self.x.sub(v.x), y: self.y.sub(v.y), z: self.z.sub(v.z) }
    }

    /// The componentwise difference.
    #[verifier::when_used_as_spec(sub_spec)]
    pub fn sub(self, v: Vec3) -> (r: Vec3)
        ensures
            r == self.sub_spec(v),
    {
        Vec3 { x: self.x.sub(v.x), y: self.y.sub(v.y), z: self.z.sub(v.z) }
    }

    pub open spec fn mul_spec(self, v: Vec3) -> Vec3 {
        Vec3 { x: self.x.mul(v.x), y: self.y.mul(v.y), z: self.z.mul(v.z) }
    }

    /// The componentwise product.
    #[verifier::when_used_as_spec(mul_spec)]
    pub fn mul(self, v: Vec3) -> (r: Vec3)
        ensures
            r == self.mul_spec(v),
    {
        Vec3 { x: self.x.mul(v.x), y: self.y.mul(v.y), z: self.z.mul(v.z) }
    }

    pub open spec fn div_spec(self, v: Vec3) -> Vec3 {
        Vec3 { x: self.x.div(v.x), y: self.y.div(v.y), z: self.z.div(v.z) }
    }

    /// The componentwise quotient.
    #[verifier::when_used_as_spec(div_spec)]
    pub fn div(self, v: Vec3) -> (r: Vec3)
        ensures
            r == self.div_spec(v),
    {
        Vec3 { x: self.x.div(v.x), y: self.y.div(v.y), z: self.z.div(v.z) }
    }

    pub open spec fn scale_spec(self, k: Fixed) -> Vec3 {
        Vec3 { x: self.x.mul(k), y: self.y.mul(k), z: self.z.mul(k) }
    }

    /// Each component times `k`.
    #[verifier::when_used_as_spec(scale_spec)]
    pub fn scale(self, k: Fixed) -> (r: Vec3)
        ensures
            r == self.scale_spec(k),
    {
        Vec3 { x: self.x.mul(k), y: self.y.mul(k), z: self.z.mul(k) }
    }

    pub open spec fn shrink_spec(self, k: Fixed) -> Vec3 {
        Vec3 { x: self.x.div(k), y: self.y.div(k), z: self.z.div(k) }
    }

    /// Each component divided by `k`.
    #[verifier::when_used_as_spec(shrink_spec)]
    pub fn shrink(self, k: Fixed) -> (r: Vec3)
        ensures
            r == self.shrink_spec(k),
    {
        Vec3 { x: self.x.div(k), y: self.y.div(k), z: self.z.div(k) }
    }

    pub open spec fn neg_spec(self) -> Vec3 {
        Vec3 { x: self.x.neg(), y: self.y.neg(), z: self.z.neg() }
    }

    /// The opposite vector.
    #[verifier::when_used_as_spec(neg_spec)]
    pub fn neg(self) -> (r: Vec3)
        ensures
            r == self.neg_spec(),
    {
        Vec3 { x: self.x.neg(), y: self.y.neg(), z: self.z.neg() }
    }

    pub open spec fn recip_spec(self) -> Vec3 {
        Vec3 {
            x: Fixed::one().div(self.x),
            y: Fixed::one().div(self.y),
            z: Fixed::one().div(self.z),
        }
    }

    /// The componentwise reciprocal.
    #[verifier::when_used_as_spec(recip_spec)]
    pub fn recip(self) -> (r: Vec3)
        ensures
            r == self.recip_spec(),
    {
        Vec3 {
            x: Fixed::one().div(self.x),
            y: Fixed::one().div(self.y),
            z: Fixed::one().div(self.z),
        }
    }

    pub open spec fn min_spec(self, v: Vec3) -> Vec3 {
        Vec3 { x: self.x.min(v.x), y: self.y.min(v.y), z: self.z.min(v.z) }
    }

    /// The componentwise minimum.
    #[verifier::when_used_as_spec(min_spec)]
    pub fn min(self, v: Vec3) -> (r: Vec3)
        ensures
            r == self.min_spec(v),
    {
        Vec3 { x: self.x.min(v.x), y: self.y.min(v.y), z: self.z.min(v.z) }
    }

    pub open spec fn max_spec(self, v: Vec3) -> Vec3 {
        Vec3 { x: self.x.max(v.x), y: self.y.max(v.y), z: self.z.max(v.z) }
    }

    /// The componentwise maximum.
    #[verifier::when_used_as_spec(max_spec)]
    pub fn max(self, v: Vec3) -> (r: Vec3)
        ensures
            r == self.max_spec(v),
    {
        Vec3 { x: self.x.max(v.x), y: self.y.max(v.y), z: self.z.max(v.z) }
    }

    pub open spec fn dot_spec(self, v: Vec3) -> Fixed {
        self.x.mul(v.x).add(self.y.mul(v.y)).add(self.z.mul(v.z))
    }

    /// The dot product `x*x' + y*y' + z*z'`, summed from the left.
    #[verifier::when_used_as_spec(dot_spec)]
    pub fn dot(self, v: Vec3) -> (r: Fixed)
        ensures
            r == self.dot_spec(v),
    {
        self.x.mul(v.x).add(self.y.mul(v.y)).add(self.z.mul(v.z))
    }

    pub open spec fn cross_spec(self, v: Vec3) -> Vec3 {
        Vec3 {
            x: self.y.mul(v.z).sub(self.z.mul(v.y)),
            y: self.z.mul(v.x).sub(self.x.mul(v.z)),
            z: self.x.mul(v.y).sub(self.y.mul(v.x)),
        }
    }

    /// The cross product.
    #[verifier::when_used_as_spec(cross_spec)]
    pub fn cross(self, v: Vec3) -> (r: Vec3)
        ensures
            r == self.cross_spec(v),
    {
        Vec3 {
            x: self.y.mul(v.z).sub(self.z.mul(v.y)),
            y: self.z.mul(v.x).sub(self.x.mul(v.z)),
            z: self.x.mul(v.y).sub(self.y.mul(v.x)),
        }
    }

    pub open spec fn squared_norm_spec(self) -> Fixed {
        self.dot(self)
    }

    /// The squared length.
    #[verifier::when_used_as_spec(squared_norm_spec)]
    pub fn squared_norm(self) -> (r: Fixed)
        ensures
            r == self.squared_norm_spec(),
    {
        self.dot(self)
    }

    pub open spec fn norm_spec(self) -> Fixed {
        self.squared_norm().sqrt()
    }

    /// The length.
    #[verifier::when_used_as_spec(norm_spec)]
    pub fn norm(self) -> (r: Fixed)
        ensures
            r == self.norm_spec(),
            r.raw >= 0,
    {
        self.squared_norm().sqrt()
    }

    pub open spec fn unit_spec(self) -> Vec3 {
        self.shrink(self.norm())
    }

    /// `self` divided by its length. The zero vector stays zero.
    #[verifier::when_used_as_spec(unit_spec)]
    pub fn unit(self) -> (r: Vec3)
        ensures
            r == self.unit_spec(),
    {
        self.shrink(self.norm())
    }

    /// Scales `self` by the reciprocal of its length.
    pub fn make_unit(&mut self)
        ensures
            *final(self) == old(self).scale(Fixed::one().div(old(self).norm())),
    {
        let k = Fixed::one().div(self.norm());
        self.x = self.x.mul(k);
        self.y = self.y.mul(k);
        self.z = self.z.mul(k);
    }

    /// Applies `f` to each component in turn, giving a new vector.
    pub fn map<F: Fn(Fixed) -> Fixed>(self, f: F) -> (r: Vec3)
        requires
            forall|v: Fixed| call_requires(f, (v,)),
        ensures
            call_ensures(f, (self.x,), r.x),
            call_ensures(f, (self.y,), r.y),
            call_ensures(f, (self.z,), r.z),
    {
        let x = f(self.x);
        let y = f(self.y);
        let z = f(self.z);
        Vec3 { x, y, z }
    }
}

/// The dot product of a vector with itself is never negative.
pub proof fn lemma_dot_self_nonneg(v: Vec3)
    ensures
        v.dot(v).raw >= 0,
{
    crate::fixed::lemma_square_nonneg(v.x);
    crate::fixed::lemma_square_nonneg(v.y);
    crate::fixed::lemma_square_nonneg(v.z);
}

/// Vectors that can be made from whole numbers and mapped component by
/// component.
pub trait Vec3Wrapper: Sized {
    /// The vector that `newi` returns.
    spec fn newi_of(x: i32, y: i32, z: i32) -> Self;

    /// The three components, in order.
    spec fn parts(&self) -> (Fixed, Fixed, Fixed);

    /// The vector with the given whole-number components.
    fn newi(x: i32, y: i32, z: i32) -> (r: Self)
        ensures
            r == Self::newi_of(x, y, z),
    ;

    /// Applies `f` to each component in turn, giving a new vector.
    fn map<F: Fn(Fixed) -> Fixed>(&self, f: F) -> (r: Self)
        requires
            forall|v: Fixed| call_requires(f, (v,)),
        ensures
            call_ensures(f, (self.parts().0,), r.parts().0),
            call_ensures(f, (self.parts().1,), r.parts().1),
            call_ensures(f, (self.parts().2,), r.parts().2),
    ;

    /// Applies `f` to each component in turn, in place.
    fn map_mut<F: Fn(Fixed) -> Fixed>(&mut self, f: F)
        requires
            forall|v: Fixed| call_requires(f, (v,)),
        ensures
            call_ensures(f, (old(self).parts().0,), final(self).parts().0),
            call_ensures(f, (old(self).parts().1,), final(self).parts().1),
            call_ensures(f, (old(self).parts().2,), final(self).parts().2),
    ;
}

impl Vec3Wrapper for Vec3 {
    open spec fn newi_of(x: i32, y: i32, z: i32) -> Vec3 {
        Vec3::newi_spec(x, y, z)
    }

    open spec fn parts(&self) -> (Fixed, Fixed, Fixed) {
        (self.x, self.y, self.z)
    }

    fn newi(x: i32, y: i32, z: i32) -> (r: Vec3) {
        Vec3::new(Fixed::from_int(x), Fixed::from_int(y), Fixed::from_int(z))
    }

    fn map<F: Fn(Fixed) -> Fixed>(&self, f: F) -> (r: Vec3) {
        let x = f(self.x);
        let y = f(self.y);
        let z = f(self.z);
        Vec3 { x, y, z }
    }

    fn map_mut<F: Fn(Fixed) -> Fixed>(&mut self, f: F) {
        let x = f(self.x);
        let y = f(self.y);
        let z = f(self.z);
        self.x = x;
        self.y = y;
        self.z = z;
    }
}

} // verus!
