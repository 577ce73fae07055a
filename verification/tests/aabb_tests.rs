use rtwrs_core::fixed::Fixed;
use rtwrs_core::fixed::SCALE;
use rtwrs_core::hittable::aabb::clip_axis;
use rtwrs_core::hittable::aabb::surrounding_box;
use rtwrs_core::hittable::aabb::AABB;
use rtwrs_core::ray::Ray;
use rtwrs_core::vec3::Vec3;

fn fx_b(v: f64) -> Fixed {
    Fixed::from_raw((v * SCALE as f64).round() as i64)
}

fn unit_box() -> AABB {
    AABB { min: Vec3::newi(-1, -1, -1), max: Vec3::newi(1, 1, 1) }
}

fn ray_b(origin: Vec3, direction: Vec3) -> Ray {
    Ray::new(origin, direction, Fixed::zero())
}

#[test]
fn slab_test_finds_the_interval_inside_the_box() {
    let r = ray_b(Vec3::newi(0, 0, -5), Vec3::newi(0, 0, 1));
    let hit = unit_box().hit(&r, Fixed::zero(), Fixed::max_value());
    assert_eq!(hit, Some((Fixed::from_int(4), Fixed::from_int(6))));
}

#[test]
fn slab_test_misses_a_box_behind_the_ray() {
    let r = ray_b(Vec3::newi(0, 0, -5), Vec3::newi(0, 0, -1));
    assert_eq!(unit_box().hit(&r, Fixed::zero(), Fixed::max_value()), None);
}

#[test]
fn slab_test_misses_a_box_beside_the_ray() {
    let r = ray_b(Vec3::newi(3, 0, -5), Vec3::newi(0, 0, 1));
    assert_eq!(unit_box().hit(&r, Fixed::zero(), Fixed::max_value()), None);
}

#[test]
fn slab_test_keeps_within_the_interval_given() {
    let r = ray_b(Vec3::newi(0, 0, -5), Vec3::newi(0, 0, 1));
    let b = unit_box();
    assert_eq!(
        b.hit(&r, Fixed::from_int(5), Fixed::max_value()),
        Some((Fixed::from_int(5), Fixed::from_int(6)))
    );
    assert_eq!(
        b.hit(&r, Fixed::zero(), fx_b(4.5)),
        Some((Fixed::from_int(4), fx_b(4.5)))
    );
    assert_eq!(b.hit(&r, Fixed::zero(), Fixed::from_int(4)), None);
    assert_eq!(b.hit(&r, Fixed::from_int(6), Fixed::max_value()), None);
}

#[test]
fn slab_test_with_a_slanted_ray() {
    let r = ray_b(Vec3::newi(-4, -4, -4), Vec3::newi(2, 2, 2));
    let hit = unit_box().hit(&r, Fixed::zero(), Fixed::max_value());
    assert_eq!(hit, Some((fx_b(1.5), fx_b(2.5))));
}

#[test]
fn slab_test_with_a_negative_direction() {
    let r = ray_b(Vec3::newi(0, 5, 0), Vec3::newi(0, -2, 0));
    let hit = unit_box().hit(&r, Fixed::zero(), Fixed::max_value());
    assert_eq!(hit, Some((fx_b(2.0), fx_b(3.0))));
}

#[test]
fn a_ray_along_a_slab_is_unclipped_inside_and_misses_outside() {
    let t0 = Fixed::zero();
    let t1 = Fixed::from_int(9);
    let lo = Fixed::from_int(-1);
    let hi = Fixed::from_int(1);
    let still = Fixed::zero();
    assert_eq!(clip_axis(lo, hi, Fixed::zero(), still, t0, t1), Some((t0, t1)));
    assert_eq!(clip_axis(lo, hi, Fixed::from_int(1), still, t0, t1), Some((t0, t1)));
    assert_eq!(clip_axis(lo, hi, Fixed::from_int(-1), still, t0, t1), Some((t0, t1)));
    assert_eq!(clip_axis(lo, hi, Fixed::from_int(2), still, t0, t1), None);
    assert_eq!(clip_axis(lo, hi, Fixed::from_int(-2), still, t0, t1), None);
    assert_eq!(clip_axis(lo, hi, Fixed::zero(), still, t1, t1), None);
}

#[test]
fn one_axis_clips_and_swaps() {
    let lo = Fixed::from_int(2);
    let hi = Fixed::from_int(4);
    let t0 = Fixed::zero();
    let t1 = Fixed::from_int(100);
    assert_eq!(
        clip_axis(lo, hi, Fixed::zero(), Fixed::one(), t0, t1),
        Some((Fixed::from_int(2), Fixed::from_int(4)))
    );
    assert_eq!(
        clip_axis(lo, hi, Fixed::from_int(10), Fixed::from_int(-2), t0, t1),
        Some((Fixed::from_int(3), Fixed::from_int(4)))
    );
    assert_eq!(clip_axis(lo, hi, Fixed::from_int(10), Fixed::one(), t0, t1), None);
}

#[test]
fn surrounding_box_takes_the_least_and_the_greatest_corner() {
    let a = AABB { min: Vec3::newi(0, -2, 5), max: Vec3::newi(1, 3, 6) };
    let b = AABB { min: Vec3::newi(-1, 0, 5), max: Vec3::newi(4, 1, 9) };
    let u = surrounding_box(a, b);
    assert_eq!(u.min, Vec3::newi(-1, -2, 5));
    assert_eq!(u.max, Vec3::newi(4, 3, 9));
    assert_eq!(u.min, a.min.min(b.min));
    assert_eq!(u.max, a.max.max(b.max));
}

#[test]
fn surrounding_box_commutes_and_associates() {
    let a = AABB { min: Vec3::newi(0, -2, 5), max: Vec3::newi(1, 3, 6) };
    let b = AABB { min: Vec3::newi(-1, 0, 5), max: Vec3::newi(4, 1, 9) };
    let c = AABB { min: Vec3::newi(7, 7, 7), max: Vec3::newi(8, 8, 8) };
    assert_eq!(surrounding_box(a, b), surrounding_box(b, a));
    assert_eq!(
        surrounding_box(surrounding_box(a, b), c),
        surrounding_box(a, surrounding_box(b, c))
    );
    assert_eq!(surrounding_box(a, a), a);
}
