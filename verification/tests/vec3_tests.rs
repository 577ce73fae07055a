use rtwrs_core::fixed::Fixed;
use rtwrs_core::fixed::SCALE;
use rtwrs_core::ray::Ray;
use rtwrs_core::vec3::Vec3;
use rtwrs_core::vec3::Vec3Wrapper;

fn fx_v(v: f64) -> Fixed {
    Fixed::from_raw((v * SCALE as f64).round() as i64)
}

fn vec_v(x: f64, y: f64, z: f64) -> Vec3 {
    Vec3::new(fx_v(x), fx_v(y), fx_v(z))
}

#[test]
fn vectors_add_subtract_and_scale() {
    let a = Vec3::newi(1, 2, 3);
    let b = Vec3::newi(4, 5, 6);
    assert_eq!(a.add(b), Vec3::newi(5, 7, 9));
    assert_eq!(b.sub(a), Vec3::newi(3, 3, 3));
    assert_eq!(a.mul(b), Vec3::newi(4, 10, 18));
    assert_eq!(b.div(Vec3::newi(2, 5, 3)), Vec3::newi(2, 1, 2));
    assert_eq!(a.scale(Fixed::from_int(2)), Vec3::newi(2, 4, 6));
    assert_eq!(a.shrink(fx_v(0.5)), Vec3::newi(2, 4, 6));
    assert_eq!(a.neg(), Vec3::newi(-1, -2, -3));
}

#[test]
fn dot_and_cross_products() {
    let a = Vec3::newi(1, 2, 3);
    let b = Vec3::newi(4, 5, 6);
    assert_eq!(a.dot(b), Fixed::from_int(32));
    assert_eq!(a.cross(b), Vec3::newi(-3, 6, -3));
    assert_eq!(Vec3::newi(1, 0, 0).cross(Vec3::newi(0, 1, 0)), Vec3::newi(0, 0, 1));
    assert_eq!(a.squared_norm(), Fixed::from_int(14));
}

#[test]
fn length_and_unit_vector() {
    let v = Vec3::newi(3, 4, 0);
    assert_eq!(v.norm(), Fixed::from_int(5));
    assert_eq!(v.unit(), Vec3::new(Fixed::ratio(3, 5), Fixed::ratio(4, 5), Fixed::zero()));
    assert_eq!(Vec3::zero().unit(), Vec3::zero());
    let mut w = Vec3::newi(0, 0, 2);
    w.make_unit();
    assert_eq!(w, Vec3::newi(0, 0, 1));
}

#[test]
fn componentwise_minimum_maximum_and_reciprocal() {
    let a = vec_v(1.0, -2.0, 3.0);
    let b = vec_v(0.5, 4.0, 3.0);
    assert_eq!(a.min(b), vec_v(0.5, -2.0, 3.0));
    assert_eq!(a.max(b), vec_v(1.0, 4.0, 3.0));
    assert_eq!(Vec3::newi(2, 4, -8).recip(), vec_v(0.5, 0.25, -0.125));
    assert_eq!(Vec3::newi(0, 1, 1).recip().x, Fixed::max_value());
}

#[test]
fn components_by_axis() {
    let a = Vec3::newi(7, 8, 9);
    assert_eq!(a.get(0), Fixed::from_int(7));
    assert_eq!(a.get(1), Fixed::from_int(8));
    assert_eq!(a.get(2), Fixed::from_int(9));
    assert_eq!(a.with(1, Fixed::zero()), Vec3::newi(7, 0, 9));
    assert_eq!(Vec3::splat(Fixed::one()), Vec3::one());
    assert_eq!(Vec3::zero(), Vec3::newi(0, 0, 0));
}

#[test]
fn map_applies_the_function_to_each_component() {
    let a = Vec3::newi(1, 2, 3);
    let doubled = a.map(|c: Fixed| c.add(c));
    assert_eq!(doubled, Vec3::newi(2, 4, 6));
    let through_trait = <Vec3 as Vec3Wrapper>::map(&a, |c: Fixed| c.neg());
    assert_eq!(through_trait, Vec3::newi(-1, -2, -3));
    let mut b = Vec3::newi(1, 2, 3);
    b.map_mut(|c: Fixed| c.mul(c));
    assert_eq!(b, Vec3::newi(1, 4, 9));
    assert_eq!(<Vec3 as Vec3Wrapper>::newi(1, 2, 3), a);
}

#[test]
fn point_on_a_ray() {
    let r = Ray::new(Vec3::newi(1, 2, 3), Vec3::newi(0, 0, -2), fx_v(0.25));
    assert_eq!(r.point_at(Fixed::from_int(2)), Vec3::newi(1, 2, -1));
    assert_eq!(r.point_at(Fixed::zero()), r.origin);
    assert_eq!(r.time, fx_v(0.25));
}
