//! Gradient noise: a table of unit vectors, reached through three
//! permutations of the numbers 0 to 255.

use vstd::prelude::*;
use std::sync::Arc;
use rand::rngs::SmallRng;
use rand::seq::SliceRandom;
use crate::fixed::Fixed;
use crate::sampler::Sampler;
use crate::sampler::Stream;
use crate::utils::share;
use crate::vec3::Vec3;

verus! {

/// The noise tables. They are built once and shared by every texture that
/// holds a copy of the value.
#[derive(Debug)]
pub struct Perlin {
    pub vecs: Arc<Vec<Vec3>>,
    pub perm_x: Arc<Vec<u8>>,
    pub perm_y: Arc<Vec<u8>>,
    pub perm_z: Arc<Vec<u8>>,
}

impl Clone for Perlin {
    /// Another handle on the same tables.
    fn clone(&self) -> (r: Self)
        ensures
            r == *self,
    {
        Perlin {
            vecs: share(&self.vecs),
            perm_x: share(&self.perm_x),
            perm_y: share(&self.perm_y),
            perm_z: share(&self.perm_z),
        }
    }
}

/// `s` holds each of the numbers 0 to 255 at one of its 256 places.
pub open spec fn is_permutation(s: Seq<u8>) -> bool {
    s.len() == 256 && forall|v: u8| #[trigger] s.contains(v)
}

/// The numbers 0 to 255 in order.
pub open spec fn identity_table() -> Seq<u8> {
    Seq::new(256, |i: int| i as u8)
}

/// `s` with the entries at `i` and `j` exchanged.
pub open spec fn swapped(s: Seq<u8>, i: int, j: int) -> Seq<u8> {
    s.update(i, s[j]).update(j, s[i])
}

/// The table after the exchanges for the places `i` down to 1: the entry at
/// each place is exchanged with one at a lower place, chosen by the next word.
pub open spec fn permute_spec(s: Seq<u8>, sampler: Stream, i: nat) -> Seq<u8>
    decreases i,
{
    if i == 0 {
        s
    } else {
        permute_spec(
            swapped(s, i as int, (sampler.word() as int) % (i as int)),
            sampler.advance(),
            (i - 1) as nat,
        )
    }
}

proof fn lemma_swap_keeps_permutation(s: Seq<u8>, i: int, j: int)
    requires
        is_permutation(s),
        0 <= i < 256,
        0 <= j < 256,
    ensures
        is_permutation(swapped(s, i, j)),
{
    let t = swapped(s, i, j);
    assert forall|v: u8| #[trigger] t.contains(v) by {
        assert(s.contains(v));
        let k0 = choose|k: int| 0 <= k < s.len() && s[k] == v;
        if k0 == i {
            assert(t[j] == v);
        } else if k0 == j {
            assert(t[i] == v);
        } else {
            assert(t[k0] == v);
        }
    }
}

proof fn lemma_identity_is_permutation()
    ensures
        is_permutation(identity_table()),
{
    assert forall|v: u8| #[trigger] identity_table().contains(v) by {
        assert(identity_table()[v as int] == v);
    }
}

/// Exchanges the entries of `p` in place, from the last place down, each with
/// one at a lower place that the sampler chooses.
pub fn permute(p: &mut Vec<u8>, sampler: &mut Sampler)
    requires
        old(p)@.len() == 256,
    ensures
        final(p)@ == permute_spec(old(p)@, old(sampler)@, 255),
        final(sampler)@ == old(sampler)@.skip(255),
        is_permutation(old(p)@) ==> is_permutation(final(p)@),
{
    let mut i: usize = 255;
    while i > 0
        invariant
            i <= 255,
            p@.len() == 256,
            permute_spec(old(p)@, old(sampler)@, 255) == permute_spec(p@, sampler@, i as nat),
            old(sampler)@.skip(255) == sampler@.skip(i as nat),
            is_permutation(old(p)@) ==> is_permutation(p@),
        decreases i,
    {
        let word = sampler.next_word();
        let target: usize = (word as usize) % i;
        proof {
            if is_permutation(p@) {
                lemma_swap_keeps_permutation(p@, i as int, target as int);
            }
        }
        let a = p[i];
        let b = p[target];
        p.set(i, b);
        p.set(target, a);
        i -= 1;
    }
}

/// The table of the numbers 0 to 255, shuffled by the sampler.
pub fn perlin_generate_perm(sampler: &mut Sampler) -> (p: Vec<u8>)
    ensures
        p@ == permute_spec(identity_table(), old(sampler)@, 255),
        is_permutation(p@),
        final(sampler)@ == old(sampler)@.skip(255),
{
    let mut p: Vec<u8> = Vec::with_capacity(256);
    let mut i: usize = 0;
    while i < 256
        invariant
            i <= 256,
            p@.len() == i,
            forall|k: int| 0 <= k < i ==> p@[k] == k as u8,
        decreases 256 - i,
    {
        p.push(i as u8);
        i += 1;
    }
    proof {
        assert(p@ =~= identity_table());
        lemma_identity_is_permutation();
    }
    permute(&mut p, sampler);
    p
}

/// The `n`-th gradient that the sampler gives: the point of the cube from -1
/// to 1 drawn after `3 * n` words, divided by its length.
pub open spec fn gradient_spec(sampler: Stream, n: nat) -> Vec3 {
    sampler.skip(3 * n).cube_point().unit()
}

proof fn lemma_skip_add(sampler: Stream, a: nat, b: nat)
    ensures
        sampler.skip(a).skip(b) == sampler.skip(a + b),
    decreases a,
{
    if a > 0 {
        lemma_skip_add(sampler.advance(), (a - 1) as nat, b);
    }
}

/// The table of 256 gradients, from `3 * 256` draws.
pub fn perlin_generate(sampler: &mut Sampler) -> (vecs: Vec<Vec3>)
    ensures
        vecs@.len() == 256,
        forall|n: int| 0 <= n < 256 ==> vecs@[n] == gradient_spec(old(sampler)@, n as nat),
        final(sampler)@ == old(sampler)@.skip(768),
{
    let mut result: Vec<Vec3> = Vec::with_capacity(256);
    let mut i: usize = 0;
    while i < 256
        invariant
            i <= 256,
            result@.len() == i,
            sampler@ == old(sampler)@.skip(3 * i as nat),
            forall|n: int| 0 <= n < i ==> result@[n] == gradient_spec(old(sampler)@, n as nat),
        decreases 256 - i,
    {
        proof {
            lemma_skip_add(old(sampler)@, 3 * i as nat, 3);
        }
        let p = sampler.next_cube_point();
        result.push(p.unit());
        i += 1;
    }
    result
}

/// Calls `SliceRandom::shuffle` of the `rand` crate on the bytes, which
/// exchanges entries in place: the bytes after the call are those before it,
/// in some order.
#[verifier::external_body]
fn shuffle_bytes(bytes: &mut Vec<u8>, rng: &mut SmallRng)
    ensures
        final(bytes)@.to_multiset() == old(bytes)@.to_multiset(),
{
    bytes.shuffle(rng);
}

/// The table of the numbers 0 to 255 in the order that `rng` shuffles them
/// into.
fn shuffled_table(rng: &mut SmallRng) -> (p: Vec<u8>)
    ensures
        is_permutation(p@),
{
    let mut p: Vec<u8> = Vec::with_capacity(256);
    let mut i: usize = 0;
    while i < 256
        invariant
            i <= 256,
            p@.len() == i,
            forall|k: int| 0 <= k < i ==> p@[k] == k as u8,
        decreases 256 - i,
    {
        p.push(i as u8);
        i += 1;
    }
    let ghost before = p@;
    shuffle_bytes(&mut p, rng);
    proof {
        assert(before =~= identity_table());
        lemma_identity_is_permutation();
        vstd::seq_lib::to_multiset_len(before);
        vstd::seq_lib::to_multiset_len(p@);
        assert forall|v: u8| #[trigger] p@.contains(v) by {
            assert(before.contains(v));
            vstd::seq_lib::to_multiset_contains(before, v);
            vstd::seq_lib::to_multiset_contains(p@, v);
        }
    }
    p
}

/// `a mod 256`, as a place in a table.
pub open spec fn wrap_index(a: i64) -> int {
    (a as int) % 256
}

fn wrap(a: i64) -> (r: usize)
    ensures
        r == wrap_index(a),
        r < 256,
{
    let rem: i64 = a % 256;
    if rem < 0 {
        (rem + 256) as usize
    } else {
        rem as usize
    }
}

/// The Hermite weight `x * x * (3 - 2x)` of each component.
pub open spec fn hermite_spec(v: Vec3) -> Vec3 {
    Vec3 {
        x: v.x.mul(v.x).mul(Fixed::from_int(3).sub(Fixed::from_int(2).mul(v.x))),
        y: v.y.mul(v.y).mul(Fixed::from_int(3).sub(Fixed::from_int(2).mul(v.y))),
        z: v.z.mul(v.z).mul(Fixed::from_int(3).sub(Fixed::from_int(2).mul(v.z))),
    }
}

#[verifier::when_used_as_spec(hermite_spec)]
pub fn hermite(v: Vec3) -> (r: Vec3)
    ensures
        r == hermite_spec(v),
{
    Vec3 {
        x: v.x.mul(v.x).mul(Fixed::from_int(3).sub(Fixed::from_int(2).mul(v.x))),
        y: v.y.mul(v.y).mul(Fixed::from_int(3).sub(Fixed::from_int(2).mul(v.y))),
        z: v.z.mul(v.z).mul(Fixed::from_int(3).sub(Fixed::from_int(2).mul(v.z))),
    }
}

/// What the corner `(i, j, k)` of the unit cube adds to the noise at the
/// place `uvw` inside the cube: the product of the three blending weights,
/// times the dot product of the corner's gradient with the offset from the
/// corner.
pub open spec fn corner_term_spec(gradient: Vec3, uvw: Vec3, i: i32, j: i32, k: i32) -> Fixed {
    let uvw2 = hermite(uvw);
    let ijk = Vec3::newi(i, j, k);
    let weight = uvw.sub(ijk);
    let blend = ijk.mul(uvw2).add(Vec3::one().sub(ijk).mul(Vec3::one().sub(uvw)));
    blend.x.mul(blend.y).mul(blend.z).mul(gradient.dot(weight))
}

#[verifier::when_used_as_spec(corner_term_spec)]
pub fn corner_term(gradient: Vec3, uvw: Vec3, i: i32, j: i32, k: i32) -> (r: Fixed)
    ensures
        r == corner_term_spec(gradient, uvw, i, j, k),
{
    let uvw2 = hermite(uvw);
    let ijk = Vec3::newi(i, j, k);
    let weight = uvw.sub(ijk);
    let blend = ijk.mul(uvw2).add(Vec3::one().sub(ijk).mul(Vec3::one().sub(uvw)));
    blend.x.mul(blend.y).mul(blend.z).mul(gradient.dot(weight))
}

/// The sum of the terms of the eight corners, the corner `(0, 0, 0)` first
/// and `(1, 1, 1)` last.
pub open spec fn trilinear_interpolate_spec(corners: &[Vec3; 8], uvw: Vec3) -> Fixed {
    Fixed::zero().add(corner_term(corners[0], uvw, 0, 0, 0)).add(
        corner_term(corners[1], uvw, 0, 0, 1),
    ).add(corner_term(corners[2], uvw, 0, 1, 0)).add(corner_term(corners[3], uvw, 0, 1, 1)).add(
        corner_term(corners[4], uvw, 1, 0, 0),
    ).add(corner_term(corners[5], uvw, 1, 0, 1)).add(corner_term(corners[6], uvw, 1, 1, 0)).add(
        corner_term(corners[7], uvw, 1, 1, 1),
    )
}

/// The gradients of the eight corners of a cell, blended at the place `uvw`
/// inside the cell.
#[verifier::when_used_as_spec(trilinear_interpolate_spec)]
pub fn trilinear_interpolate(corners: &[Vec3; 8], uvw: Vec3) -> (r: Fixed)
    ensures
        r == trilinear_interpolate_spec(corners, uvw),
{
    let mut accum = Fixed::zero();
    accum = accum.add(corner_term(corners[0], uvw, 0, 0, 0));
    accum = accum.add(corner_term(corners[1], uvw, 0, 0, 1));
    accum = accum.add(corner_term(corners[2], uvw, 0, 1, 0));
    accum = accum.add(corner_term(corners[3], uvw, 0, 1, 1));
    accum = accum.add(corner_term(corners[4], uvw, 1, 0, 0));
    accum = accum.add(corner_term(corners[5], uvw, 1, 0, 1));
    accum = accum.add(corner_term(corners[6], uvw, 1, 1, 0));
    accum = accum.add(corner_term(corners[7], uvw, 1, 1, 1));
    accum
}

impl Perlin {
    /// The tables have 256 entries each and the three index tables are
    /// permutations.
    pub open spec fn wf(&self) -> bool {
        &&& self.vecs@.len() == 256
        &&& is_permutation(self.perm_x@)
        &&& is_permutation(self.perm_y@)
        &&& is_permutation(self.perm_z@)
    }

    /// Noise tables from the sampler: the gradients from the first 768 draws,
    /// then the three permutations from 255 draws each.
    pub fn new(sampler: &mut Sampler) -> (r: Perlin)
        ensures
            r.wf(),
            forall|n: int| 0 <= n < 256 ==> r.vecs@[n] == gradient_spec(old(sampler)@, n as nat),
            r.perm_x@ == permute_spec(identity_table(), old(sampler)@.skip(768), 255),
            r.perm_y@ == permute_spec(identity_table(), old(sampler)@.skip(768 + 255), 255),
            r.perm_z@ == permute_spec(identity_table(), old(sampler)@.skip(768 + 510), 255),
            final(sampler)@ == old(sampler)@.skip(768 + 765),
    {
        let vecs = perlin_generate(sampler);
        let perm_x = perlin_generate_perm(sampler);
        let perm_y = perlin_generate_perm(sampler);
        let perm_z = perlin_generate_perm(sampler);
        proof {
            lemma_skip_add(old(sampler)@, 768, 255);
            lemma_skip_add(old(sampler)@, 768 + 255, 255);
            lemma_skip_add(old(sampler)@, 768 + 510, 255);
        }
        Perlin {
            vecs: Arc::new(vecs),
            perm_x: Arc::new(perm_x),
            perm_y: Arc::new(perm_y),
            perm_z: Arc::new(perm_z),
        }
    }

    /// Noise tables from a generator: the gradients from 768 words of `rng`,
    /// and the three permutations from its shuffles.
    pub fn from_rng(rng: &mut SmallRng) -> (r: Perlin)
        ensures
            r.wf(),
    {
        let mut sampler = Sampler::from_rng(rng, 768);
        let vecs = perlin_generate(&mut sampler);
        let perm_x = shuffled_table(rng);
        let perm_y = shuffled_table(rng);
        let perm_z = shuffled_table(rng);
        Perlin {
            vecs: Arc::new(vecs),
            perm_x: Arc::new(perm_x),
            perm_y: Arc::new(perm_y),
            perm_z: Arc::new(perm_z),
        }
    }

    /// The entry of an index table at `a mod 256`; zero where the table is
    /// too short.
    pub open spec fn perm_at(table: Seq<u8>, a: i64) -> u8 {
        if wrap_index(a) < table.len() {
            table[wrap_index(a)]
        } else {
            0
        }
    }

    /// The gradient of the lattice point `(x, y, z)`: the entry of the
    /// gradient table at the exclusive-or of the three index table entries.
    pub open spec fn gradient_at(&self, x: i64, y: i64, z: i64) -> Vec3 {
        let at = (Perlin::perm_at(self.perm_x@, x) ^ Perlin::perm_at(self.perm_y@, y)
            ^ Perlin::perm_at(self.perm_z@, z)) as int;
        if at < self.vecs@.len() {
            self.vecs@[at]
        } else {
            Vec3::zero()
        }
    }

    fn lookup(table: &Vec<u8>, a: i64) -> (r: u8)
        ensures
            r == Perlin::perm_at(table@, a),
    {
        let at = wrap(a);
        if at < table.len() {
            table[at]
        } else {
            0
        }
    }

    fn gradient(&self, x: i64, y: i64, z: i64) -> (g: Vec3)
        ensures
            g == self.gradient_at(x, y, z),
    {
        let ix = Perlin::lookup(&self.perm_x, x);
        let iy = Perlin::lookup(&self.perm_y, y);
        let iz = Perlin::lookup(&self.perm_z, z);
        let at = (ix ^ iy ^ iz) as usize;
        if at < self.vecs.len() {
            self.vecs[at]
        } else {
            Vec3::zero()
        }
    }

    /// The gradients of the eight corners of the lattice cell at `(x, y, z)`,
    /// the corner `(0, 0, 0)` first and `(1, 1, 1)` last, with the last
    /// coordinate changing fastest.
    pub open spec fn corners_spec(&self, x: i64, y: i64, z: i64) -> [Vec3; 8] {
        [
            self.gradient_at(x, y, z),
            self.gradient_at(x, y, (z + 1) as i64),
            self.gradient_at(x, (y + 1) as i64, z),
            self.gradient_at(x, (y + 1) as i64, (z + 1) as i64),
            self.gradient_at((x + 1) as i64, y, z),
            self.gradient_at((x + 1) as i64, y, (z + 1) as i64),
            self.gradient_at((x + 1) as i64, (y + 1) as i64, z),
            self.gradient_at((x + 1) as i64, (y + 1) as i64, (z + 1) as i64),
        ]
    }

    /// The noise at `p`: with `(x, y, z)` the lattice cell of `p` and `uvw`
    /// the place of `p` inside it, the gradients of the eight corners of the
    /// cell, blended at `uvw`.
    pub open spec fn noise_spec(&self, p: Vec3) -> Fixed {
        let x = p.x.floor();
        let y = p.y.floor();
        let z = p.z.floor();
        let uvw = p.sub(Vec3 { x: Fixed::whole(x), y: Fixed::whole(y), z: Fixed::whole(z) });
        trilinear_interpolate(&self.corners_spec(x, y, z), uvw)
    }

    /// Gradient noise at `p`.
    #[verifier::when_used_as_spec(noise_spec)]
    pub fn noise(&self, p: Vec3) -> (r: Fixed)
        ensures
            r == self.noise_spec(p),
    {
        let x = p.x.floor();
        let y = p.y.floor();
        let z = p.z.floor();
        let uvw = p.sub(Vec3 { x: Fixed::whole(x), y: Fixed::whole(y), z: Fixed::whole(z) });
        let corners = [
            self.gradient(x, y, z),
            self.gradient(x, y, z + 1),
            self.gradient(x, y + 1, z),
            self.gradient(x, y + 1, z + 1),
            self.gradient(x + 1, y, z),
            self.gradient(x + 1, y, z + 1),
            self.gradient(x + 1, y + 1, z),
            self.gradient(x + 1, y + 1, z + 1),
        ];
        trilinear_interpolate(&corners, uvw)
    }

    /// The sum of the first `depth` octaves of the noise at `p`, before the
    /// absolute value is taken: octave `n` is the noise at `2^n * p` with the
    /// weight `2^-n`, and `accum`, `p` and `weight` are those of the octave
    /// to add next.
    pub open spec fn octaves_spec(&self, accum: Fixed, p: Vec3, weight: Fixed, depth: nat) -> Fixed
        decreases depth,
    {
        if depth == 0 {
            accum
        } else {
            self.octaves_spec(
                accum.add(weight.mul(self.noise(p))),
                p.scale(Fixed::from_int(2)),
                weight.mul(Fixed::ratio(1, 2)),
                (depth - 1) as nat,
            )
        }
    }

    pub open spec fn turbulence_spec(&self, p: Vec3, depth: i32) -> Fixed {
        self.octaves_spec(
            Fixed::zero(),
            p,
            Fixed::one(),
            if depth > 0 {
                depth as nat
            } else {
                0
            },
        ).abs()
    }

    /// Turbulence at `p`: the absolute value of the sum of `depth` octaves of
    /// noise.
    #[verifier::when_used_as_spec(turbulence_spec)]
    pub fn turbulence(&self, p: Vec3, depth: i32) -> (r: Fixed)
        ensures
            r == self.turbulence_spec(p, depth),
            r.raw >= 0,
    {
        let mut accum = Fixed::zero();
        let mut temp_p = p;
        let mut weight = Fixed::one();
        let mut left: i32 = if depth > 0 {
            depth
        } else {
            0
        };
        while left > 0
            invariant
                left >= 0,
                self.octaves_spec(
                    Fixed::zero(),
                    p,
                    Fixed::one(),
                    if depth > 0 {
                        depth as nat
                    } else {
                        0
                    },
                ) == self.octaves_spec(accum, temp_p, weight, left as nat),
            decreases left,
        {
            accum = accum.add(weight.mul(self.noise(temp_p)));
            weight = weight.mul(Fixed::ratio(1, 2));
            temp_p = temp_p.scale(Fixed::from_int(2));
            left -= 1;
        }
        accum.abs()
    }
}

} // verus!
