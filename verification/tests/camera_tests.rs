use rtwrs_core::camera::random_in_unit_disk;
use rtwrs_core::camera::Camera;
use rtwrs_core::camera::CameraConfig;
use rtwrs_core::camera::Exposure;
use rtwrs_core::fixed::Fixed;
use rtwrs_core::fixed::SCALE;
use rtwrs_core::sampler::Sampler;
use rtwrs_core::vec3::Vec3;

fn fx_c(v: f64) -> Fixed {
    Fixed::from_raw((v * SCALE as f64).round() as i64)
}

fn val_c(f: Fixed) -> f64 {
    f.raw as f64 / SCALE as f64
}

fn close_c(a: Vec3, x: f64, y: f64, z: f64) -> bool {
    (val_c(a.x) - x).abs() < 1e-4 && (val_c(a.y) - y).abs() < 1e-4 && (val_c(a.z) - z).abs() < 1e-4
}

fn straight() -> CameraConfig {
    CameraConfig::new(Vec3::newi(0, 0, 5), Vec3::newi(0, 0, 0), Fixed::from_int(90), Fixed::from_int(5), 200, 100)
}

#[test]
fn a_configuration_has_the_usual_rest() {
    let c = straight();
    assert_eq!(c.vup, Vec3::newi(0, 1, 0));
    assert_eq!(c.aspect, Fixed::from_int(2));
    assert_eq!(c.aperture, Fixed::zero());
    assert_eq!(c.exposure, Exposure { start: Fixed::zero(), end: Fixed::one() });
    assert_eq!(c.exposure, Exposure::default());
    assert_eq!(c.width, 200);
    assert_eq!(c.height, 100);
    assert_eq!(CameraConfig::default_aspect(800, 800), Fixed::one());
    assert_eq!(CameraConfig::default_aspect(3, 0), Fixed::max_value());
}

#[test]
fn a_camera_spans_its_image_plane() {
    let cam = Camera::new(straight());
    assert_eq!(cam.origin, Vec3::newi(0, 0, 5));
    assert_eq!(cam.w, Vec3::newi(0, 0, 1));
    assert_eq!(cam.u, Vec3::newi(1, 0, 0));
    assert_eq!(cam.v, Vec3::newi(0, 1, 0));
    assert_eq!(cam.lens_radius, Fixed::zero());
    assert_eq!(cam.width, 200);
    assert_eq!(cam.height, 100);
    assert!(close_c(cam.horizontal, 20.0, 0.0, 0.0));
    assert!(close_c(cam.vertical, 0.0, 10.0, 0.0));
    assert!(close_c(cam.lower_left_corner, -10.0, -5.0, 0.0));
}

#[test]
fn a_ray_through_the_middle_aims_at_the_target() {
    let cam = Camera::new(straight());
    let mut s = Sampler::new(vec![0x8000_0000, 0x8000_0000, 0x4000_0000]);
    let r = cam.get_ray(Fixed::ratio(1, 2), Fixed::ratio(1, 2), &mut s);
    assert_eq!(r.origin, Vec3::newi(0, 0, 5));
    assert!(close_c(r.direction, 0.0, 0.0, -5.0));
    assert_eq!(r.time, Fixed::ratio(1, 4));
    assert_eq!(s.cursor, 0);
}

#[test]
fn rays_through_the_corners() {
    let cam = Camera::new(straight());
    let mut s = Sampler::new(vec![0x8000_0000, 0x8000_0000, 0]);
    let r = cam.get_ray(Fixed::zero(), Fixed::zero(), &mut s);
    assert!(close_c(r.direction, -10.0, -5.0, -5.0));
    let r = cam.get_ray(Fixed::one(), Fixed::one(), &mut s);
    assert!(close_c(r.direction, 10.0, 5.0, -5.0));
}

#[test]
fn the_moment_of_a_ray_lies_in_the_exposure() {
    let mut config = straight();
    config.exposure = Exposure { start: Fixed::from_int(2), end: Fixed::from_int(6) };
    let cam = Camera::new(config);
    for word in [0u32, 0x4000_0000, 0x8000_0000, 0xFFFF_FFFF] {
        let mut s = Sampler::new(vec![0x8000_0000, 0x8000_0000, word]);
        let r = cam.get_ray(Fixed::ratio(1, 2), Fixed::ratio(1, 2), &mut s);
        assert!(r.time.ge(Fixed::from_int(2)) && r.time.lt(Fixed::from_int(6)));
    }
    let mut s = Sampler::new(vec![0x8000_0000, 0x8000_0000, 0x4000_0000]);
    assert_eq!(cam.get_ray(Fixed::zero(), Fixed::zero(), &mut s).time, Fixed::from_int(3));
}

#[test]
fn an_open_lens_moves_the_eye() {
    let mut config = straight();
    config.aperture = Fixed::from_int(2);
    let cam = Camera::new(config);
    assert_eq!(cam.lens_radius, Fixed::one());
    let mut s = Sampler::new(vec![0xC000_0000, 0x8000_0000, 0]);
    let half = Fixed::ratio(1, 2);
    let r = cam.get_ray(half, half, &mut s);
    let shift = Fixed::ratio(1, 4);
    assert_eq!(r.origin, Vec3::newi(0, 0, 5).add(Vec3::splat(shift)));
    assert!(close_c(r.direction.add(Vec3::splat(shift)), 0.0, 0.0, -5.0));
}

#[test]
fn a_point_of_the_lens_lies_in_the_unit_disk() {
    let words: Vec<u32> = (0..500u32).map(|i| (i + 3).wrapping_mul(2654435761)).collect();
    let mut s = Sampler::new(words);
    for _ in 0..100 {
        let p = random_in_unit_disk(&mut s);
        assert!(p.dot(p).lt(Fixed::one()));
        assert_eq!(p.z, Fixed::zero());
    }
    let mut corner = Sampler::new(vec![0, 0]);
    assert_eq!(random_in_unit_disk(&mut corner), Vec3::zero());
    let mut first = Sampler::new(vec![0, 0, 0x8000_0000, 0xC000_0000, 1]);
    assert_eq!(
        random_in_unit_disk(&mut first),
        Vec3::new(Fixed::zero(), Fixed::ratio(1, 2), Fixed::zero())
    );
    assert_eq!(first.cursor, 4);
}

#[test]
fn a_camera_off_the_axes_has_a_frame_at_right_angles() {
    let cam = Camera::new(CameraConfig::new(
        Vec3::newi(13, 2, 3),
        Vec3::newi(0, 0, 0),
        Fixed::from_int(20),
        Fixed::from_int(10),
        800,
        800,
    ));
    assert!(val_c(cam.u.dot(cam.v)).abs() < 1e-5);
    assert!(val_c(cam.u.dot(cam.w)).abs() < 1e-5);
    assert!(val_c(cam.v.dot(cam.w)).abs() < 1e-5);
    assert!((val_c(cam.u.norm()) - 1.0).abs() < 1e-5);
    assert!((val_c(cam.v.norm()) - 1.0).abs() < 1e-5);
    assert!((val_c(cam.w.norm()) - 1.0).abs() < 1e-5);
    let half_height = (10.0f64).to_radians().tan();
    assert!((val_c(cam.vertical.norm()) - 2.0 * half_height * 10.0).abs() < 1e-3);
}
