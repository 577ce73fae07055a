//! The texture read from the pixels of an image.

use vstd::prelude::*;
use std::sync::Arc;
use crate::fixed::Fixed;
use crate::fixed::SCALE;
use crate::utils::clamp;
use crate::utils::share;
use crate::vec3::Vec3;

verus! {

/// An image of `nx` by `ny` pixels, three bytes (red, green, blue) a pixel,
/// row by row from the top. The bytes are shared by every copy.
#[derive(Debug)]
pub struct ImageTexture {
    pub data: Arc<Vec<u8>>,
    pub nx: u32,
    pub ny: u32,
}

impl Clone for ImageTexture {
    fn clone(&self) -> (r: Self)
        ensures
            r == *self,
    {
        ImageTexture { data: share(&self.data), nx: self.nx, ny: self.ny }
    }
}

/// The pixel column or row that the scalar `at` falls in, out of `count`:
/// the whole part of `at`, kept within `0` and `count - 1`.
pub open spec fn pixel_index_spec(at: Fixed, count: u32) -> int {
    let whole = if at.raw <= 0 {
        0
    } else {
        at.raw as int / SCALE as int
    };
    if whole > count - 1 {
        count - 1
    } else {
        whole
    }
}

fn pixel_index(at: Fixed, count: u32) -> (r: u32)
    requires
        count > 0,
    ensures
        r == pixel_index_spec(at, count),
        r < count,
{
    let whole: i64 = if at.raw <= 0 {
        0
    } else {
        at.raw / SCALE
    };
    let last: i64 = (count - 1) as i64;
    let kept: i64 = clamp(whole, 0, last);
    kept as u32
}

/// The byte `b` as a colour part: `b / 255`.
pub open spec fn channel_spec(b: u8) -> Fixed {
    Fixed::from_int(b as i32).div(Fixed::from_int(255))
}

fn channel(b: u8) -> (r: Fixed)
    ensures
        r == channel_spec(b),
{
    Fixed::from_int(b as i32).div(Fixed::from_int(255))
}

impl ImageTexture {
    /// The image has pixels, and three bytes for each.
    pub open spec fn wf(&self) -> bool {
        self.nx > 0 && self.ny > 0 && self.data@.len() == 3 * self.nx * self.ny
    }

    /// The place in `data` of the red byte of the pixel that `(u, v)` falls
    /// in: column `u * nx`, row `(1 - v) * ny - 0.001`, both kept inside the
    /// image.
    pub open spec fn offset_spec(&self, u: Fixed, v: Fixed) -> int {
        let i = pixel_index_spec(u.mul(Fixed::whole(self.nx as i64)), self.nx);
        let j = pixel_index_spec(
            Fixed::one().sub(v).mul(Fixed::whole(self.ny as i64)).sub(Fixed::ratio(1, 1000)),
            self.ny,
        );
        3 * i + 3 * (self.nx * j)
    }

    pub open spec fn value_spec(&self, u: Fixed, v: Fixed, p: Vec3) -> Vec3 {
        let at = self.offset_spec(u, v);
        if self.nx > 0 && self.ny > 0 && at + 2 < self.data@.len() {
            Vec3 {
                x: channel_spec(self.data@[at]),
                y: channel_spec(self.data@[at + 1]),
                z: channel_spec(self.data@[at + 2]),
            }
        } else {
            Vec3::zero()
        }
    }

    /// The colour of the pixel that `(u, v)` falls in, with `u` running from
    /// the left and `v` from the bottom of the image. An image without pixels,
    /// or with too few bytes for the pixel, is black.
    #[verifier::when_used_as_spec(value_spec)]
    pub fn value(&self, u: Fixed, v: Fixed, p: Vec3) -> (c: Vec3)
        ensures
            c == self.value_spec(u, v, p),
    {
        if self.nx == 0 || self.ny == 0 {
            return Vec3::zero();
        }
        let i = pixel_index(u.mul(Fixed::whole(self.nx as i64)), self.nx);
        let j = pixel_index(
            Fixed::one().sub(v).mul(Fixed::whole(self.ny as i64)).sub(Fixed::ratio(1, 1000)),
            self.ny,
        );
        let width: u128 = self.nx as u128;
        let row: u128 = j as u128;
        assert(width * row <= 0xffff_ffff * 0xffff_ffff) by (nonlinear_arith)
            requires
                width <= 0xffff_ffff,
                row <= 0xffff_ffff,
        ;
        let at: u128 = 3 * (i as u128) + 3 * (width * row);
        let len = self.data.len();
        if at + 2 < len as u128 {
            let first: usize = at as usize;
            Vec3 {
                x: channel(self.data[first]),
                y: channel(self.data[first + 1]),
                z: channel(self.data[first + 2]),
            }
        } else {
            Vec3::zero()
        }
    }
}

} // verus!
