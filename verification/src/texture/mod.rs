//! Textures: the colour of a surface as a function of the surface
//! coordinates and the point.

use vstd::prelude::*;
use crate::fixed::Fixed;
use crate::texture::checker_texture::CheckerTexture;
use crate::texture::constant_texture::ConstantTexture;
use crate::texture::image_texture::ImageTexture;
use crate::texture::noise_texture::NoiseTexture;
use crate::vec3::Vec3;

pub mod checker_texture;
pub mod constant_texture;
pub mod image_texture;
pub mod noise_texture;
pub mod perlin;

verus! {

/// The closed set of textures.
#[derive(Debug)]
pub enum TextureType {
    ConstantTexture(ConstantTexture),
    CheckerTexture(CheckerTexture),
    NoiseTexture(NoiseTexture),
    ImageTexture(ImageTexture),
}

impl Clone for TextureType {
    /// A copy that shares its image bytes and noise tables with `self`.
    fn clone(&self) -> (r: Self)
        ensures
            r == *self,
        decreases self,
    {
        match self {
            TextureType::ConstantTexture(t) => TextureType::ConstantTexture(*t),
            TextureType::CheckerTexture(t) => TextureType::CheckerTexture(t.clone()),
            TextureType::NoiseTexture(t) => TextureType::NoiseTexture(t.clone()),
            TextureType::ImageTexture(t) => TextureType::ImageTexture(t.clone()),
        }
    }
}

impl TextureType {
    pub open spec fn value_spec(&self, u: Fixed, v: Fixed, p: Vec3) -> Vec3
        decreases self,
    {
        match self {
            TextureType::ConstantTexture(t) => t.value_spec(u, v, p),
            TextureType::CheckerTexture(t) => t.value_spec(u, v, p),
            TextureType::NoiseTexture(t) => t.value_spec(u, v, p),
            TextureType::ImageTexture(t) => t.value_spec(u, v, p),
        }
    }

    /// The colour at the surface coordinates `(u, v)` and the point `p`: that
    /// of the texture held.
    #[verifier::when_used_as_spec(value_spec)]
    pub fn value(&self, u: Fixed, v: Fixed, p: Vec3) -> (c: Vec3)
        ensures
            c == self.value_spec(u, v, p),
        decreases self,
    {
        match self {
            TextureType::ConstantTexture(t) => t.value(u, v, p),
            TextureType::CheckerTexture(t) => t.value(u, v, p),
            TextureType::NoiseTexture(t) => t.value(u, v, p),
            TextureType::ImageTexture(t) => t.value(u, v, p),
        }
    }
}

/// What every texture offers: a colour for surface coordinates and a point.
pub trait Texture: Clone {
    /// The colour that `value` returns.
    spec fn value_of(&self, u: Fixed, v: Fixed, p: Vec3) -> Vec3;

    /// The colour at the surface coordinates `(u, v)` and the point `p`.
    fn value(&self, u: Fixed, v: Fixed, p: Vec3) -> (c: Vec3)
        ensures
            c == self.value_of(u, v, p),
    ;
}

impl Texture for ConstantTexture {
    open spec fn value_of(&self, u: Fixed, v: Fixed, p: Vec3) -> Vec3 {
        self.value_spec(u, v, p)
    }

    fn value(&self, u: Fixed, v: Fixed, p: Vec3) -> (c: Vec3) {
        ConstantTexture::value(self, u, v, p)
    }
}

impl Texture for CheckerTexture {
    open spec fn value_of(&self, u: Fixed, v: Fixed, p: Vec3) -> Vec3 {
        self.value_spec(u, v, p)
    }

    fn value(&self, u: Fixed, v: Fixed, p: Vec3) -> (c: Vec3) {
        CheckerTexture::value(self, u, v, p)
    }
}

impl Texture for NoiseTexture {
    open spec fn value_of(&self, u: Fixed, v: Fixed, p: Vec3) -> Vec3 {
        self.value_spec(u, v, p)
    }

    fn value(&self, u: Fixed, v: Fixed, p: Vec3) -> (c: Vec3) {
        NoiseTexture::value(self, u, v, p)
    }
}

impl Texture for ImageTexture {
    open spec fn value_of(&self, u: Fixed, v: Fixed, p: Vec3) -> Vec3 {
        self.value_spec(u, v, p)
    }

    fn value(&self, u: Fixed, v: Fixed, p: Vec3) -> (c: Vec3) {
        ImageTexture::value(self, u, v, p)
    }
}

impl Texture for TextureType {
    open spec fn value_of(&self, u: Fixed, v: Fixed, p: Vec3) -> Vec3 {
        self.value_spec(u, v, p)
    }

    fn value(&self, u: Fixed, v: Fixed, p: Vec3) -> (c: Vec3) {
        TextureType::value(self, u, v, p)
    }
}

} // verus!
