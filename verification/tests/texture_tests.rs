use rand::rngs::SmallRng;
use rand::SeedableRng;
use rtwrs_core::fixed::Fixed;
use rtwrs_core::fixed::SCALE;
use rtwrs_core::sampler::Sampler;
use rtwrs_core::texture::checker_texture::in_odd_cell;
use rtwrs_core::texture::checker_texture::CheckerTexture;
use rtwrs_core::texture::constant_texture::ConstantTexture;
use rtwrs_core::texture::image_texture::ImageTexture;
use rtwrs_core::texture::noise_texture::NoiseTexture;
use rtwrs_core::texture::perlin::corner_term;
use rtwrs_core::texture::perlin::hermite;
use rtwrs_core::texture::perlin::perlin_generate;
use rtwrs_core::texture::perlin::perlin_generate_perm;
use rtwrs_core::texture::perlin::permute;
use rtwrs_core::texture::perlin::trilinear_interpolate;
use rtwrs_core::texture::perlin::Perlin;
use rtwrs_core::texture::Texture;
use rtwrs_core::texture::TextureType;
use rtwrs_core::vec3::Vec3;
use std::sync::Arc;

fn fx_x(v: f64) -> Fixed {
    Fixed::from_raw((v * SCALE as f64).round() as i64)
}

fn val_x(f: Fixed) -> f64 {
    f.raw as f64 / SCALE as f64
}

fn stream(count: u32) -> Sampler {
    Sampler::new((0..count).map(|i| (i + 1).wrapping_mul(2654435761)).collect())
}

#[test]
fn a_constant_texture_is_the_same_everywhere() {
    let t = ConstantTexture::new(fx_x(0.2), fx_x(0.3), fx_x(0.1));
    let want = Vec3::new(fx_x(0.2), fx_x(0.3), fx_x(0.1));
    assert_eq!(t.value(Fixed::zero(), Fixed::zero(), Vec3::zero()), want);
    assert_eq!(t.value(fx_x(0.7), fx_x(0.1), Vec3::newi(5, -3, 9)), want);
    assert!(matches!(t, TextureType::ConstantTexture(c) if c.color == want));
}

#[test]
fn a_checker_alternates_between_its_two_textures() {
    let checker = TextureType::CheckerTexture(CheckerTexture {
        odd: Box::new(ConstantTexture::new(Fixed::one(), Fixed::zero(), Fixed::zero())),
        even: Box::new(ConstantTexture::new(Fixed::zero(), Fixed::one(), Fixed::zero())),
    });
    let red = Vec3::newi(1, 0, 0);
    let green = Vec3::newi(0, 1, 0);
    let u = Fixed::zero();
    let inside_first_cell = Vec3::new(fx_x(0.1), fx_x(0.1), fx_x(0.1));
    assert_eq!(checker.value(u, u, inside_first_cell), green);
    let next_along_x = Vec3::new(fx_x(0.4), fx_x(0.1), fx_x(0.1));
    assert_eq!(checker.value(u, u, next_along_x), red);
    let next_along_x_and_y = Vec3::new(fx_x(0.4), fx_x(0.4), fx_x(0.1));
    assert_eq!(checker.value(u, u, next_along_x_and_y), green);
    let all_three = Vec3::new(fx_x(0.4), fx_x(0.4), fx_x(0.4));
    assert_eq!(checker.value(u, u, all_three), red);
    assert!(in_odd_cell(next_along_x));
    assert!(!in_odd_cell(inside_first_cell));
    assert!(!in_odd_cell(Vec3::zero()));
}

#[test]
fn a_checker_of_checkers() {
    let inner = TextureType::CheckerTexture(CheckerTexture {
        odd: Box::new(ConstantTexture::new(Fixed::one(), Fixed::zero(), Fixed::zero())),
        even: Box::new(ConstantTexture::new(Fixed::zero(), Fixed::one(), Fixed::zero())),
    });
    let outer = TextureType::CheckerTexture(CheckerTexture {
        odd: Box::new(inner),
        even: Box::new(ConstantTexture::new(Fixed::zero(), Fixed::zero(), Fixed::one())),
    });
    let u = Fixed::zero();
    assert_eq!(outer.value(u, u, Vec3::new(fx_x(0.1), fx_x(0.1), fx_x(0.1))), Vec3::newi(0, 0, 1));
    assert_eq!(outer.value(u, u, Vec3::new(fx_x(0.4), fx_x(0.1), fx_x(0.1))), Vec3::newi(1, 0, 0));
    let copy = outer.clone();
    assert_eq!(copy.value(u, u, Vec3::new(fx_x(0.4), fx_x(0.1), fx_x(0.1))), Vec3::newi(1, 0, 0));
}

fn two_by_two() -> ImageTexture {
    ImageTexture {
        data: Arc::new(vec![255, 0, 0, 0, 255, 0, 0, 0, 255, 51, 102, 153]),
        nx: 2,
        ny: 2,
    }
}

#[test]
fn an_image_is_read_from_the_top_row_down() {
    let image = two_by_two();
    let p = Vec3::zero();
    assert_eq!(image.value(fx_x(0.25), fx_x(0.75), p), Vec3::newi(1, 0, 0));
    assert_eq!(image.value(fx_x(0.75), fx_x(0.75), p), Vec3::newi(0, 1, 0));
    assert_eq!(image.value(fx_x(0.25), fx_x(0.25), p), Vec3::newi(0, 0, 1));
    assert_eq!(
        image.value(fx_x(0.75), fx_x(0.25), p),
        Vec3::new(Fixed::ratio(51, 255), Fixed::ratio(102, 255), Fixed::ratio(153, 255))
    );
}

#[test]
fn coordinates_outside_the_image_are_kept_inside() {
    let image = two_by_two();
    let p = Vec3::zero();
    assert_eq!(image.value(fx_x(-3.0), fx_x(9.0), p), Vec3::newi(1, 0, 0));
    assert_eq!(image.value(fx_x(7.0), fx_x(9.0), p), Vec3::newi(0, 1, 0));
    assert_eq!(image.value(fx_x(-1.0), fx_x(-5.0), p), Vec3::newi(0, 0, 1));
    assert_eq!(image.value(Fixed::one(), Fixed::one(), p), Vec3::newi(0, 1, 0));
    assert_eq!(image.value(Fixed::zero(), Fixed::zero(), p), Vec3::newi(0, 0, 1));
}

#[test]
fn an_image_without_pixels_or_bytes_is_black() {
    let p = Vec3::zero();
    let u = fx_x(0.5);
    let none = ImageTexture { data: Arc::new(Vec::new()), nx: 0, ny: 0 };
    assert_eq!(none.value(u, u, p), Vec3::zero());
    let no_rows = ImageTexture { data: Arc::new(vec![1, 2, 3]), nx: 1, ny: 0 };
    assert_eq!(no_rows.value(u, u, p), Vec3::zero());
    let short = ImageTexture { data: Arc::new(vec![255, 255]), nx: 1, ny: 1 };
    assert_eq!(short.value(u, u, p), Vec3::zero());
    let cut = ImageTexture { data: Arc::new(vec![255, 0, 0, 0, 255, 0]), nx: 2, ny: 2 };
    assert_eq!(cut.value(fx_x(0.25), fx_x(0.75), p), Vec3::newi(1, 0, 0));
    assert_eq!(cut.value(fx_x(0.25), fx_x(0.25), p), Vec3::zero());
}

#[test]
fn copies_of_an_image_share_its_bytes() {
    let image = two_by_two();
    let copy = image.clone();
    assert!(Arc::ptr_eq(&image.data, &copy.data));
    assert_eq!(copy.nx, 2);
    assert_eq!(copy.ny, 2);
}

fn is_a_permutation(table: &[u8]) -> bool {
    let mut seen = [false; 256];
    for v in table {
        seen[*v as usize] = true;
    }
    table.len() == 256 && seen.iter().all(|s| *s)
}

#[test]
fn a_shuffled_table_is_a_permutation() {
    let mut s = stream(1000);
    let table = perlin_generate_perm(&mut s);
    assert!(is_a_permutation(&table));
    assert_eq!(s.cursor, 255);
    let identity: Vec<u8> = (0..=255).collect();
    assert_ne!(table, identity);
}

#[test]
fn permuting_exchanges_from_the_last_place_down() {
    let mut table: Vec<u8> = (0..=255).collect();
    let mut s = Sampler::new(vec![0]);
    permute(&mut table, &mut s);
    let mut want: Vec<u8> = (1..=255).collect();
    want.push(0);
    assert_eq!(table, want);
    let mut table: Vec<u8> = (0..=255).collect();
    let mut s = Sampler::new(vec![7]);
    permute(&mut table, &mut s);
    assert_eq!(table[255], 7);
    assert!(is_a_permutation(&table));
}

#[test]
fn the_gradients_have_unit_length() {
    let mut s = stream(1000);
    let vecs = perlin_generate(&mut s);
    assert_eq!(vecs.len(), 256);
    for v in &vecs {
        assert!((val_x(v.norm()) - 1.0).abs() < 1e-5);
    }
    let mut again = stream(1000);
    assert_eq!(vecs[0], again.next_cube_point().unit());
    assert_eq!(vecs[1], again.next_cube_point().unit());
}

#[test]
fn noise_tables_from_a_sampler_are_well_formed_and_repeatable() {
    let a = Perlin::new(&mut stream(5000));
    let b = Perlin::new(&mut stream(5000));
    assert_eq!(a.vecs.len(), 256);
    assert!(is_a_permutation(&a.perm_x));
    assert!(is_a_permutation(&a.perm_y));
    assert!(is_a_permutation(&a.perm_z));
    assert_eq!(*a.vecs, *b.vecs);
    assert_eq!(*a.perm_x, *b.perm_x);
    assert_eq!(*a.perm_y, *b.perm_y);
    assert_eq!(*a.perm_z, *b.perm_z);
    assert_ne!(*a.perm_x, *a.perm_y);
}

#[test]
fn noise_tables_from_a_generator_are_shuffled_permutations() {
    let mut rng = SmallRng::seed_from_u64(7);
    let p = Perlin::from_rng(&mut rng);
    assert_eq!(p.vecs.len(), 256);
    assert!(is_a_permutation(&p.perm_x));
    assert!(is_a_permutation(&p.perm_y));
    assert!(is_a_permutation(&p.perm_z));
    let identity: Vec<u8> = (0..=255).collect();
    assert_ne!(*p.perm_x, identity);
    assert_ne!(*p.perm_y, identity);
    assert_ne!(*p.perm_x, *p.perm_y);
    for v in p.vecs.iter() {
        assert!((val_x(v.norm()) - 1.0).abs() < 1e-5);
    }
}

#[test]
fn copies_of_noise_tables_share_them() {
    let p = Perlin::new(&mut stream(5000));
    let q = p.clone();
    assert!(Arc::ptr_eq(&p.vecs, &q.vecs));
    assert!(Arc::ptr_eq(&p.perm_x, &q.perm_x));
    assert!(Arc::ptr_eq(&p.perm_y, &q.perm_y));
    assert!(Arc::ptr_eq(&p.perm_z, &q.perm_z));
}

#[test]
fn noise_vanishes_on_the_lattice_and_stays_small_elsewhere() {
    let p = Perlin::new(&mut stream(5000));
    assert_eq!(p.noise(Vec3::newi(0, 0, 0)), Fixed::zero());
    assert_eq!(p.noise(Vec3::newi(3, -7, 12)), Fixed::zero());
    let mut any = false;
    for i in 0..50 {
        let at = Vec3::new(fx_x(0.37 * i as f64), fx_x(1.1 + 0.21 * i as f64), fx_x(-0.4 * i as f64));
        let n = val_x(p.noise(at));
        assert!(n.abs() < 2.0);
        any = any || n != 0.0;
        assert_eq!(p.noise(at), p.noise(at));
    }
    assert!(any);
}

#[test]
fn noise_with_short_tables_does_not_fail() {
    let p = Perlin {
        vecs: Arc::new(vec![Vec3::newi(1, 0, 0)]),
        perm_x: Arc::new(vec![0]),
        perm_y: Arc::new(Vec::new()),
        perm_z: Arc::new(vec![0, 0]),
    };
    let _ = p.noise(Vec3::new(fx_x(0.5), fx_x(300.5), fx_x(-0.5)));
    assert_eq!(p.turbulence(Vec3::newi(1, 1, 1), 0), Fixed::zero());
    assert_eq!(p.turbulence(Vec3::newi(1, 1, 1), -4), Fixed::zero());
}

#[test]
fn turbulence_sums_octaves_and_is_never_negative() {
    let p = Perlin::new(&mut stream(5000));
    let at = Vec3::new(fx_x(0.3), fx_x(1.7), fx_x(-2.2));
    assert_eq!(p.turbulence(at, 1), p.noise(at).abs());
    let two = p.noise(at).add(Fixed::ratio(1, 2).mul(p.noise(at.scale(Fixed::from_int(2))))).abs();
    assert_eq!(p.turbulence(at, 2), two);
    for depth in 0..8 {
        assert!(p.turbulence(at, depth).raw >= 0);
    }
}

#[test]
fn the_blending_weights() {
    assert_eq!(hermite(Vec3::zero()), Vec3::zero());
    assert_eq!(hermite(Vec3::one()), Vec3::one());
    assert_eq!(
        hermite(Vec3::splat(Fixed::ratio(1, 2))),
        Vec3::splat(Fixed::ratio(1, 2))
    );
    let g = Vec3::newi(1, 0, 0);
    assert_eq!(corner_term(g, Vec3::zero(), 0, 0, 0), Fixed::zero());
    let mid = Vec3::splat(Fixed::ratio(1, 2));
    assert_eq!(corner_term(g, mid, 0, 0, 0), Fixed::ratio(1, 16));
    assert_eq!(corner_term(g, mid, 1, 1, 1), Fixed::ratio(-1, 16));
}

#[test]
fn marble_is_grey_between_black_and_white() {
    let marble = NoiseTexture { perlin: Perlin::new(&mut stream(5000)), scale: Fixed::from_int(7) };
    for i in 0..30 {
        let at = Vec3::new(fx_x(0.3 * i as f64), fx_x(0.1), fx_x(0.17 * i as f64));
        let c = marble.value(Fixed::zero(), Fixed::zero(), at);
        assert_eq!(c.x, c.y);
        assert_eq!(c.y, c.z);
        assert!(c.x.raw >= 0 && c.x.raw <= SCALE);
    }
    let flat = NoiseTexture { perlin: Perlin::new(&mut stream(5000)), scale: Fixed::zero() };
    assert_eq!(
        flat.value(Fixed::zero(), Fixed::zero(), Vec3::newi(2, 5, 9)),
        Vec3::splat(Fixed::ratio(1, 2))
    );
}

#[test]
fn textures_behave_alike_through_the_trait() {
    let t = ConstantTexture { color: Vec3::newi(1, 2, 3) };
    assert_eq!(
        <ConstantTexture as Texture>::value(&t, Fixed::zero(), Fixed::zero(), Vec3::zero()),
        Vec3::newi(1, 2, 3)
    );
    let wrapped = TextureType::ImageTexture(two_by_two());
    assert_eq!(
        <TextureType as Texture>::value(&wrapped, fx_x(0.25), fx_x(0.75), Vec3::zero()),
        Vec3::newi(1, 0, 0)
    );
}

#[test]
fn blending_the_corners_of_a_cell() {
    let g = Vec3::newi(1, 0, 0);
    let all = [g; 8];
    let mid = Vec3::splat(Fixed::ratio(1, 2));
    assert_eq!(trilinear_interpolate(&all, mid), Fixed::zero());
    let mut one = [Vec3::zero(); 8];
    one[0] = g;
    assert_eq!(trilinear_interpolate(&one, mid), Fixed::ratio(1, 16));
    one[0] = Vec3::zero();
    one[7] = g;
    assert_eq!(trilinear_interpolate(&one, mid), Fixed::ratio(-1, 16));
    assert_eq!(trilinear_interpolate(&all, Vec3::zero()), Fixed::zero());
    let p = Perlin::new(&mut stream(5000));
    let at = Vec3::new(fx_x(2.25), fx_x(-0.5), fx_x(7.75));
    let inside = Vec3::new(fx_x(0.25), fx_x(0.5), fx_x(0.75));
    let flat = Perlin {
        vecs: Arc::new(vec![g; 256]),
        perm_x: p.perm_x.clone(),
        perm_y: p.perm_y.clone(),
        perm_z: p.perm_z.clone(),
    };
    assert_eq!(flat.noise(at), trilinear_interpolate(&all, inside));
}
