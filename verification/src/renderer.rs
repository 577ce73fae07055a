//! The integrator: from a camera and a scene to the bytes of an image.
//!
//! A path is followed from the eye, bounce by bounce. At each surface the
//! light that the material gives off is added, weighted by the product of the
//! attenuations so far, and the material scatters the ray or ends the path.
//! The colour of a pixel is the mean over its samples, gamma-corrected and
//! quantised. A ray that leaves the scene meets a black background.

use vstd::prelude::*;
use rand::rngs::SmallRng;
use crate::camera::Camera;
use crate::fixed::Fixed;
use crate::fixed::SCALE;
use crate::hittable::Hittables;
use crate::ray::Ray;
use crate::sampler::Sampler;
use crate::sampler::Stream;
use crate::vec3::Vec3;

verus! {

/// The least parameter at which a path may meet a surface, so that a
/// scattered ray does not meet the surface it leaves.
pub open spec fn min_distance_spec() -> Fixed {
    Fixed::ratio(1, 1000)
}

#[verifier::when_used_as_spec(min_distance_spec)]
pub fn min_distance() -> (d: Fixed)
    ensures
        d == min_distance_spec(),
{
    Fixed::ratio(1, 1000)
}

/// The number of surfaces that a path may meet: the depth, and one where the
/// depth is zero.
pub open spec fn bounce_limit_spec(max_depth: u32) -> u32 {
    if max_depth == 0 {
        1
    } else {
        max_depth
    }
}

#[verifier::when_used_as_spec(bounce_limit_spec)]
pub fn bounce_limit(max_depth: u32) -> (n: u32)
    ensures
        n == bounce_limit_spec(max_depth),
        n >= 1,
{
    if max_depth == 0 {
        1
    } else {
        max_depth
    }
}

/// One surface of a path: what the ray `ray` adds to the light `acc`
/// gathered so far, and how the path goes on. Where the ray meets the scene,
/// the light that the material gives off there is added, weighted by
/// `strength`, and the material scatters the ray, which gives the next ray
/// and the strength weighted by the attenuation, or ends the path. Where the
/// ray misses, nothing is added and the path ends.
#[verifier::opaque]
pub open spec fn bounce_spec(
    world: &Hittables,
    ray: Ray,
    acc: Vec3,
    strength: Vec3,
    sampler: Stream,
) -> (Vec3, Option<(Ray, Vec3)>, Stream) {
    let tried = world.hit_spec(&ray, min_distance(), Fixed::max_value(), sampler);
    match tried.0 {
        None => (acc, None, tried.1),
        Some(hit) => {
            let lit = acc.add(strength.mul(hit.mat.emitted(hit.u, hit.v, hit.point)));
            let scattered = hit.mat.scatter_spec(&ray, &hit, tried.1);
            match scattered.0 {
                None => (lit, None, scattered.1),
                Some((next, attenuation)) => (
                    lit,
                    Some((next, strength.mul(attenuation))),
                    scattered.1,
                ),
            }
        },
    }
}

/// Follows the path over one surface.
pub fn bounce(world: &Hittables, ray: &Ray, acc: Vec3, strength: Vec3, sampler: &mut Sampler) -> (r: (
    Vec3,
    Option<(Ray, Vec3)>,
))
    ensures
        (r.0, r.1, final(sampler)@) == bounce_spec(world, *ray, acc, strength, old(sampler)@),
        world.hit_spec(ray, min_distance(), Fixed::max_value(), old(sampler)@).0 is None ==> r.0
            == acc && r.1 is None,
{
    reveal(bounce_spec);
    match world.hit(ray, min_distance(), Fixed::max_value(), sampler) {
        None => (acc, None),
        Some(hit) => {
            let emitted = hit.mat.emitted(hit.u, hit.v, hit.point);
            let lit = acc.add(strength.mul(emitted));
            match hit.mat.scatter(ray, &hit, sampler) {
                Some((scattered, attenuation)) => (lit, Some((scattered, strength.mul(attenuation)))),
                None => (lit, None),
            }
        },
    }
}

/// The light that travels back along a path that starts with `ray` and may
/// meet `left` more surfaces, where `acc` has been gathered so far and
/// `strength` is the product of the attenuations so far. A path ends where
/// the ray misses the scene, where a material scatters nothing, and after
/// the last surface allowed.
pub open spec fn path_spec(
    world: &Hittables,
    ray: Ray,
    acc: Vec3,
    strength: Vec3,
    sampler: Stream,
    left: nat,
) -> (Vec3, Stream)
    decreases left,
{
    if left == 0 {
        (acc, sampler)
    } else {
        let step = bounce_spec(world, ray, acc, strength, sampler);
        match step.1 {
            None => (step.0, step.2),
            Some((next, weaker)) => path_spec(
                world,
                next,
                step.0,
                weaker,
                step.2,
                (left - 1) as nat,
            ),
        }
    }
}

#[verifier::opaque]
pub open spec fn color_spec(ray: Ray, world: &Hittables, max_depth: u32, sampler: Stream) -> (
    Vec3,
    Stream,
) {
    path_spec(world, ray, Vec3::zero(), Vec3::one(), sampler, bounce_limit(max_depth) as nat)
}

/// The light that reaches the eye along the path that starts with `ray`, of
/// at most `max_depth` bounces. Black where the first ray misses the scene.
pub fn color(ray: Ray, world: &Hittables, max_depth: u32, sampler: &mut Sampler) -> (c: Vec3)
    ensures
        (c, final(sampler)@) == color_spec(ray, world, max_depth, old(sampler)@),
        world.hit_spec(&ray, min_distance(), Fixed::max_value(), old(sampler)@).0 is None ==> c
            == Vec3::zero(),
{
    let ghost missed = world.hit_spec(
        &ray,
        min_distance(),
        Fixed::max_value(),
        old(sampler)@,
    ).0 is None;
    let mut current = ray;
    let mut color_accumulator = Vec3::zero();
    let mut strength = Vec3::one();
    let mut left: u32 = bounce_limit(max_depth);
    proof {
        reveal(color_spec);
    }
    while left > 0
        invariant
            color_spec(ray, world, max_depth, old(sampler)@) == path_spec(
                world,
                current,
                color_accumulator,
                strength,
                sampler@,
                left as nat,
            ),
            missed ==> left == bounce_limit(max_depth) && color_accumulator == Vec3::zero() && current
                == ray && sampler@ == old(sampler)@,
            missed == (world.hit_spec(
                &ray,
                min_distance(),
                Fixed::max_value(),
                old(sampler)@,
            ).0 is None),
            left <= bounce_limit(max_depth),
        decreases left,
    {
        let step = bounce(world, &current, color_accumulator, strength, sampler);
        color_accumulator = step.0;
        match step.1 {
            Some((scattered, weaker)) => {
                current = scattered;
                strength = weaker;
            },
            None => {
                return color_accumulator;
            },
        }
        left -= 1;
    }
    color_accumulator
}

pub open spec fn de_nan_spec(v: Fixed) -> Fixed {
    v
}

/// `v` itself. Every scalar is a number: where an operation has no result
/// (zero over zero, the root of a negative number) it has given zero already.
#[verifier::when_used_as_spec(de_nan_spec)]
pub fn de_nan(v: Fixed) -> (r: Fixed)
    ensures
        r == de_nan_spec(v),
{
    v
}

/// The byte of a colour part: `255.99 * c` without its fraction, kept within
/// 0 and 255.
pub open spec fn quantize_spec(c: Fixed) -> u8 {
    let scaled = Fixed::ratio(25599, 100).mul(c);
    if scaled.raw <= 0 {
        0
    } else if scaled.raw as int / SCALE as int > 255 {
        255
    } else {
        (scaled.raw as int / SCALE as int) as u8
    }
}

#[verifier::when_used_as_spec(quantize_spec)]
pub fn quantize(c: Fixed) -> (b: u8)
    ensures
        b == quantize_spec(c),
{
    let scaled = Fixed::ratio(25599, 100).mul(c);
    if scaled.raw <= 0 {
        0
    } else {
        let whole: i64 = scaled.raw / SCALE;
        if whole > 255 {
            255
        } else {
            whole as u8
        }
    }
}

/// The four bytes of a pixel whose samples sum to `sum`: the mean over
/// `num_samples`, the square root of each part (gamma two), each part
/// quantised, and an alpha of 255.
pub open spec fn tone_map_spec(sum: Vec3, num_samples: u32) -> [u8; 4] {
    let mean = sum.shrink(Fixed::whole(num_samples as i64));
    [quantize(mean.x.sqrt()), quantize(mean.y.sqrt()), quantize(mean.z.sqrt()), 255u8]
}

#[verifier::when_used_as_spec(tone_map_spec)]
pub fn tone_map(sum: Vec3, num_samples: u32) -> (px: [u8; 4])
    ensures
        px == tone_map_spec(sum, num_samples),
        px[3] == 255,
{
    let mean = sum.shrink(Fixed::whole(num_samples as i64));
    [quantize(mean.x.sqrt()), quantize(mean.y.sqrt()), quantize(mean.z.sqrt()), 255u8]
}

/// The column of the pixel at `screen_pos`, counted from the left.
pub open spec fn column_of(cam: &Camera, screen_pos: u64) -> int {
    screen_pos as int % cam.width as int
}

/// The row of the pixel at `screen_pos`, counted from the bottom: the buffer
/// holds the top row first.
pub open spec fn row_of(cam: &Camera, screen_pos: u64) -> int {
    cam.height - 1 - screen_pos as int / cam.width as int
}

/// The pixel at `screen_pos` lies inside the image of the camera.
pub open spec fn on_screen(cam: &Camera, screen_pos: u64) -> bool {
    cam.width > 0 && cam.height > 0 && screen_pos < cam.width * cam.height
}

/// The sum of `left` more samples of the pixel in column `i` and row `j`,
/// added to `col`. A sample jitters the place inside the pixel by two draws,
/// casts a ray there, and follows its path.
pub open spec fn samples_spec(
    cam: &Camera,
    world: &Hittables,
    i: int,
    j: int,
    max_depth: u32,
    col: Vec3,
    sampler: Stream,
    left: nat,
) -> (Vec3, Stream)
    decreases left,
{
    if left == 0 {
        (col, sampler)
    } else {
        let u = Fixed::whole(i as i64).add(sampler.unit()).div(Fixed::whole(cam.width as i64));
        let v = Fixed::whole(j as i64).add(sampler.advance().unit()).div(
            Fixed::whole(cam.height as i64),
        );
        let cast = cam.get_ray_spec(u, v, sampler.advance().advance());
        let traced = color_spec(cast.0, world, max_depth, cast.1);
        samples_spec(
            cam,
            world,
            i,
            j,
            max_depth,
            col.add(traced.0),
            traced.1,
            (left - 1) as nat,
        )
    }
}

#[verifier::opaque]
pub open spec fn render_pixel_spec(
    cam: &Camera,
    world: &Hittables,
    screen_pos: u64,
    num_samples: u32,
    max_depth: u32,
    sampler: Stream,
) -> ([u8; 4], Stream) {
    let summed = samples_spec(
        cam,
        world,
        column_of(cam, screen_pos),
        row_of(cam, screen_pos),
        max_depth,
        Vec3::zero(),
        sampler,
        num_samples as nat,
    );
    (tone_map(summed.0, num_samples), summed.1)
}

/// The pixel at `screen_pos`, counted row by row from the top left: red,
/// green, blue and alpha.
pub fn render_pixel(
    cam: &Camera,
    world: &Hittables,
    screen_pos: u64,
    num_samples: u32,
    max_depth: u32,
    sampler: &mut Sampler,
) -> (px: [u8; 4])
    requires
        on_screen(cam, screen_pos),
    ensures
        (px, final(sampler)@) == render_pixel_spec(
            cam,
            world,
            screen_pos,
            num_samples,
            max_depth,
            old(sampler)@,
        ),
        px[3] == 255,
{
    reveal(render_pixel_spec);
    let width: u64 = cam.width as u64;
    let i: u64 = screen_pos % width;
    assert(screen_pos as int / width as int <= cam.height - 1) by (nonlinear_arith)
        requires
            screen_pos < cam.width * cam.height,
            width == cam.width,
            width > 0,
    ;
    let j: u64 = cam.height as u64 - 1 - screen_pos / width;
    let mut col = Vec3::zero();
    let mut left: u32 = num_samples;
    while left > 0
        invariant
            i == column_of(cam, screen_pos),
            j == row_of(cam, screen_pos),
            samples_spec(
                cam,
                world,
                i as int,
                j as int,
                max_depth,
                Vec3::zero(),
                old(sampler)@,
                num_samples as nat,
            ) == samples_spec(cam, world, i as int, j as int, max_depth, col, sampler@, left as nat),
        decreases left,
    {
        let u = Fixed::whole(i as i64).add(sampler.next_unit()).div(Fixed::whole(cam.width as i64));
        let v = Fixed::whole(j as i64).add(sampler.next_unit()).div(
            Fixed::whole(cam.height as i64),
        );
        let ray = cam.get_ray(u, v, sampler);
        col = col.add(color(ray, world, max_depth, sampler).map(de_nan));
        left -= 1;
    }
    tone_map(col, num_samples)
}

/// The bytes of the first `count` pixels, rendered in turn from one sampler.
pub open spec fn frame_spec(
    cam: &Camera,
    world: &Hittables,
    num_samples: u32,
    max_depth: u32,
    sampler: Stream,
    count: nat,
) -> (Seq<u8>, Stream)
    decreases count,
{
    if count == 0 {
        (Seq::empty(), sampler)
    } else {
        let before = frame_spec(cam, world, num_samples, max_depth, sampler, (count - 1) as nat);
        let px = render_pixel_spec(
            cam,
            world,
            (count - 1) as u64,
            num_samples,
            max_depth,
            before.1,
        );
        (before.0 + px.0@, px.1)
    }
}

/// The image of the scene as the camera sees it, from the draws of one
/// sampler: four bytes a pixel, row by row from the top. The bytes are a
/// function of the camera, the scene, the two counts and the sampler, so two
/// runs from equal samplers give the same bytes.
pub fn render_with(
    cam: &Camera,
    world: &Hittables,
    num_samples: u32,
    max_depth: u32,
    sampler: &mut Sampler,
) -> (buffer: Vec<u8>)
    ensures
        (buffer@, final(sampler)@) == frame_spec(
            cam,
            world,
            num_samples,
            max_depth,
            old(sampler)@,
            (cam.width * cam.height) as nat,
        ),
        buffer@.len() == cam.width * cam.height * 4,
{
    let total: u64 = pixel_count(cam);
    let mut buffer: Vec<u8> = Vec::new();
    let mut pos: u64 = 0;
    while pos < total
        invariant
            pos <= total,
            total == cam.width * cam.height,
            buffer@.len() == pos * 4,
            (buffer@, sampler@) == frame_spec(
                cam,
                world,
                num_samples,
                max_depth,
                old(sampler)@,
                pos as nat,
            ),
        decreases total - pos,
    {
        assert(cam.width > 0 && cam.height > 0) by (nonlinear_arith)
            requires
                pos < cam.width * cam.height,
        ;
        let ghost before = buffer@;
        let px = render_pixel(cam, world, pos, num_samples, max_depth, sampler);
        buffer.push(px[0]);
        buffer.push(px[1]);
        buffer.push(px[2]);
        buffer.push(px[3]);
        proof {
            assert(buffer@ =~= before + px@);
        }
        pos += 1;
    }
    buffer
}

/// A render is repeatable. Two samplers that hold the same words and stand
/// at the same place give the same image of a scene, byte for byte, and are
/// left alike.
pub proof fn same_draws_same_image(
    cam: &Camera,
    world: &Hittables,
    num_samples: u32,
    max_depth: u32,
    first: Sampler,
    second: Sampler,
)
    requires
        first.words@ =~= second.words@,
        first.cursor == second.cursor,
    ensures
        frame_spec(cam, world, num_samples, max_depth, first@, (cam.width * cam.height) as nat)
            == frame_spec(
            cam,
            world,
            num_samples,
            max_depth,
            second@,
            (cam.width * cam.height) as nat,
        ),
{
    assert(first@ =~= second@);
}

/// The number of pixels of the image.
pub fn pixel_count(cam: &Camera) -> (n: u64)
    ensures
        n == cam.width * cam.height,
{
    assert(cam.width * cam.height <= 0xffff_ffff * 0xffff_ffff) by (nonlinear_arith)
        requires
            cam.width <= 0xffff_ffff,
            cam.height <= 0xffff_ffff,
    ;
    (cam.width as u64) * (cam.height as u64)
}

/// The number of words that are drawn for a pixel in advance: eight for each
/// sample and for each bounce of its path, at least 64 and at most `2^20`.
pub open spec fn sample_budget_spec(num_samples: u32, max_depth: u32) -> usize {
    let wanted = num_samples as int * (8 + 8 * max_depth as int);
    if wanted < 64 {
        64
    } else if wanted > 0x10_0000 {
        0x10_0000
    } else {
        wanted as usize
    }
}

#[verifier::when_used_as_spec(sample_budget_spec)]
pub fn sample_budget(num_samples: u32, max_depth: u32) -> (n: usize)
    ensures
        n == sample_budget_spec(num_samples, max_depth),
        64 <= n <= 0x10_0000,
{
    let per_sample: u128 = 8 + 8 * (max_depth as u128);
    assert(num_samples as int * per_sample as int <= 0xffff_ffff * 0x8_0000_0000) by (nonlinear_arith)
        requires
            num_samples <= 0xffff_ffff,
            0 <= per_sample <= 0x8_0000_0000,
    ;
    let wanted: u128 = (num_samples as u128) * per_sample;
    if wanted < 64 {
        64
    } else if wanted > 0x10_0000 {
        0x10_0000
    } else {
        wanted as usize
    }
}

/// The pixel at `pos` of `buffer` is what `sampler` gives for it.
pub open spec fn pixel_from(
    buffer: Seq<u8>,
    cam: &Camera,
    world: &Hittables,
    pos: int,
    num_samples: u32,
    max_depth: u32,
    sampler: Stream,
) -> bool {
    &&& sampler.words.len() == sample_budget(num_samples, max_depth)
    &&& sampler.cursor == 0
    &&& buffer.subrange(4 * pos, 4 * pos + 4) == render_pixel_spec(
        cam,
        world,
        pos as u64,
        num_samples,
        max_depth,
        sampler,
    ).0@
}

/// The pixel at `pos` of `buffer` is what some sampler over a fresh block of
/// words gives for it.
pub open spec fn pixel_drawn(
    buffer: Seq<u8>,
    cam: &Camera,
    world: &Hittables,
    pos: int,
    num_samples: u32,
    max_depth: u32,
) -> bool {
    exists|sampler: Stream| #[trigger]
        pixel_from(buffer, cam, world, pos, num_samples, max_depth, sampler)
}

/// Bytes appended to a buffer leave the pixels before them as they were.
proof fn lemma_pixel_kept(
    before: Seq<u8>,
    added: Seq<u8>,
    cam: &Camera,
    world: &Hittables,
    at: int,
    num_samples: u32,
    max_depth: u32,
)
    requires
        0 <= at,
        4 * at + 4 <= before.len(),
        pixel_drawn(before, cam, world, at, num_samples, max_depth),
    ensures
        pixel_drawn(before + added, cam, world, at, num_samples, max_depth),
        (before + added)[4 * at + 3] == before[4 * at + 3],
{
    let sampler = choose|sampler: Stream| #[trigger]
        pixel_from(before, cam, world, at, num_samples, max_depth, sampler);
    assert((before + added).subrange(4 * at, 4 * at + 4) =~= before.subrange(4 * at, 4 * at + 4));
    assert(pixel_from(before + added, cam, world, at, num_samples, max_depth, sampler));
}

/// The image of the scene as the camera sees it: four bytes a pixel, row by
/// row from the top, with an alpha of 255. Each pixel is rendered from a
/// sampler of its own, over words drawn from `rng` for it.
pub fn render(
    cam: &Camera,
    world: &Hittables,
    num_samples: u32,
    max_depth: u32,
    rng: &mut SmallRng,
) -> (buffer: Vec<u8>)
    ensures
        buffer@.len() == cam.width * cam.height * 4,
        forall|pos: int|
            0 <= pos < cam.width * cam.height ==> #[trigger] pixel_drawn(
                buffer@,
                cam,
                world,
                pos,
                num_samples,
                max_depth,
            ),
        forall|pos: int| 0 <= pos < cam.width * cam.height ==> #[trigger] buffer@[4 * pos + 3] == 255,
{
    let total: u64 = pixel_count(cam);
    let budget = sample_budget(num_samples, max_depth);
    let mut buffer: Vec<u8> = Vec::new();
    let mut pos: u64 = 0;
    while pos < total
        invariant
            pos <= total,
            total == cam.width * cam.height,
            budget == sample_budget(num_samples, max_depth),
            buffer@.len() == pos * 4,
            forall|at: int|
                0 <= at < pos ==> #[trigger] pixel_drawn(
                    buffer@,
                    cam,
                    world,
                    at,
                    num_samples,
                    max_depth,
                ),
            forall|at: int| 0 <= at < pos ==> #[trigger] buffer@[4 * at + 3] == 255,
        decreases total - pos,
    {
        assert(cam.width > 0 && cam.height > 0) by (nonlinear_arith)
            requires
                pos < cam.width * cam.height,
        ;
        let mut sampler = Sampler::from_rng(rng, budget);
        let ghost drawn = sampler@;
        let ghost before = buffer@;
        let px = render_pixel(cam, world, pos, num_samples, max_depth, &mut sampler);
        buffer.push(px[0]);
        buffer.push(px[1]);
        buffer.push(px[2]);
        buffer.push(px[3]);
        proof {
            assert(buffer@ =~= before + px@);
            assert(buffer@.subrange(4 * pos, 4 * pos + 4) =~= px@);
            assert(pixel_from(buffer@, cam, world, pos as int, num_samples, max_depth, drawn));
            assert forall|at: int| 0 <= at < pos implies #[trigger] pixel_drawn(
                buffer@,
                cam,
                world,
                at,
                num_samples,
                max_depth,
            ) && buffer@[4 * at + 3] == 255 by {
                lemma_pixel_kept(before, px@, cam, world, at, num_samples, max_depth);
            }
        }
        pos += 1;
    }
    buffer
}

} // verus!
