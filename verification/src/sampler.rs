//! The stream of random words that the renderer samples from.
//!
//! A `Sampler` replays a block of words drawn in advance, so that whatever is
//! computed from it is a function of those words alone. The words come from a
//! generator of the `rand` crate, or from the caller where a run has to be
//! repeatable.

use vstd::prelude::*;
use rand::rngs::SmallRng;
use rand::RngCore;
use crate::fixed::Fixed;
use crate::fixed::SCALE;
use crate::vec3::Vec3;

verus! {

#[verifier::external_type_specification]
#[verifier::external_body]
pub struct ExSmallRng(SmallRng);

/// Calls `RngCore::next_u32` on the generator: the next 32 bits of its
/// stream. Nothing is claimed of the word that comes back.
#[verifier::external_body]
fn next_generator_word(rng: &mut SmallRng) -> (word: u32) {
    rng.next_u32()
}

/// A block of random words and the place of the next one to hand out. After
/// the last word the block starts over.
#[derive(Clone, Debug)]
pub struct Sampler {
    pub words: Vec<u32>,
    pub cursor: usize,
}

/// What a sampler is to the functions that draw from it: the words of its
/// block and the place of the next one.
#[verifier::ext_equal]
pub struct Stream {
    pub words: Seq<u32>,
    pub cursor: nat,
}

impl View for Sampler {
    type V = Stream;

    open spec fn view(&self) -> Stream {
        Stream { words: self.words@, cursor: self.cursor as nat }
    }
}

impl Stream {
    /// The word that the next draw hands out: zero where the block is empty.
    pub open spec fn word(self) -> u32 {
        if self.words.len() == 0 {
            0
        } else {
            self.words[self.cursor as int % self.words.len() as int]
        }
    }

    /// The stream after one draw.
    pub open spec fn advance(self) -> Stream {
        if self.words.len() == 0 {
            self
        } else {
            Stream {
                words: self.words,
                cursor: ((self.cursor as int % self.words.len() as int + 1) % self.words.len() as int) as nat,
            }
        }
    }

    /// The stream after `n` draws.
    pub open spec fn skip(self, n: nat) -> Stream
        decreases n,
    {
        if n == 0 {
            self
        } else {
            self.advance().skip((n - 1) as nat)
        }
    }

    /// The scalar in `[0, 1)` that the next draw hands out: the upper 24 bits
    /// of the next word as the fractional bits.
    pub open spec fn unit(self) -> Fixed {
        Fixed { raw: (self.word() / 256) as i64 }
    }

    /// The point that the next three draws give in the cube from -1 to 1.
    pub open spec fn cube_point(self) -> Vec3 {
        Vec3 {
            x: Fixed::from_int(2).mul(self.unit()).sub(Fixed::one()),
            y: Fixed::from_int(2).mul(self.advance().unit()).sub(Fixed::one()),
            z: Fixed::from_int(2).mul(self.advance().advance().unit()).sub(Fixed::one()),
        }
    }
}

impl Sampler {
    /// A sampler that replays `words` from the first one.
    pub fn new(words: Vec<u32>) -> (s: Sampler)
        ensures
            s.words == words,
            s.cursor == 0,
            s@ == (Stream { words: words@, cursor: 0 }),
    {
        Sampler { words, cursor: 0 }
    }

    /// A sampler over `count` words drawn from `rng`.
    pub fn from_rng(rng: &mut SmallRng, count: usize) -> (s: Sampler)
        ensures
            s@.words.len() == count,
            s@.cursor == 0,
    {
        let mut words: Vec<u32> = Vec::new();
        let mut i: usize = 0;
        while i < count
            invariant
                i <= count,
                words@.len() == i,
            decreases count - i,
        {
            let word = next_generator_word(rng);
            words.push(word);
            i += 1;
        }
        Sampler { words, cursor: 0 }
    }

    /// Hands out the next word.
    pub fn next_word(&mut self) -> (w: u32)
        ensures
            w == old(self)@.word(),
            final(self)@ == old(self)@.advance(),
            final(self).words == old(self).words,
    {
        let len = self.words.len();
        if len == 0 {
            0
        } else {
            let at = self.cursor % len;
            let w = self.words[at];
            self.cursor = (at + 1) % len;
            w
        }
    }

    /// Hands out the next scalar, uniform in `[0, 1)`.
    pub fn next_unit(&mut self) -> (u: Fixed)
        ensures
            u == old(self)@.unit(),
            0 <= u.raw < SCALE,
            final(self)@ == old(self)@.advance(),
    {
        let w = self.next_word();
        Fixed { raw: (w / 256) as i64 }
    }

    /// Hands out a point of the cube from -1 to 1, from three draws.
    pub fn next_cube_point(&mut self) -> (p: Vec3)
        ensures
            p == old(self)@.cube_point(),
            final(self)@ == old(self)@.skip(3),
    {
        let two = Fixed::from_int(2);
        let x = two.mul(self.next_unit()).sub(Fixed::one());
        let y = two.mul(self.next_unit()).sub(Fixed::one());
        let z = two.mul(self.next_unit()).sub(Fixed::one());
        proof {
            reveal_with_fuel(Stream::skip, 4);
        }
        Vec3 { x, y, z }
    }
}

} // verus!
