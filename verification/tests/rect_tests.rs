use rtwrs_core::fixed::Fixed;
use rtwrs_core::fixed::SCALE;
use rtwrs_core::hittable::aabb::AABB;
use rtwrs_core::hittable::rect::rect_margin;
use rtwrs_core::hittable::rect::Rect;
use rtwrs_core::hittable::rect::Span;
use rtwrs_core::hittable::rect::StaticAxis;
use rtwrs_core::hittable::xy_rect::XYRect;
use rtwrs_core::hittable::Hittables;
use rtwrs_core::material::Dielectric;
use rtwrs_core::material::MaterialType;
use rtwrs_core::ray::Ray;
use rtwrs_core::vec3::Vec3;

fn fx_r(v: f64) -> Fixed {
    Fixed::from_raw((v * SCALE as f64).round() as i64)
}

fn glass_r() -> MaterialType {
    MaterialType::Dielectric(Dielectric { ref_idx: fx_r(1.5) })
}

fn light_rect() -> Rect {
    Rect {
        range1: Span::new(Fixed::from_int(3), Fixed::from_int(5)),
        range2: Span::new(Fixed::from_int(1), Fixed::from_int(3)),
        k: Fixed::from_int(-2),
        static_axis: StaticAxis::Z,
        material: glass_r(),
    }
}

fn down_z(x: f64, y: f64) -> Ray {
    Ray::new(Vec3::new(fx_r(x), fx_r(y), Fixed::zero()), Vec3::newi(0, 0, -1), Fixed::zero())
}

#[test]
fn a_rectangle_is_hit_in_its_middle() {
    let rect = light_rect();
    let hit = rect.hit(&down_z(4.0, 2.0), Fixed::zero(), Fixed::max_value()).unwrap();
    assert_eq!(hit.t, Fixed::from_int(2));
    assert_eq!(hit.u, fx_r(0.5));
    assert_eq!(hit.v, fx_r(0.5));
    assert_eq!(hit.point, Vec3::newi(4, 2, -2));
    assert_eq!(hit.normal, Vec3::newi(0, 0, 1));
}

#[test]
fn surface_coordinates_run_along_both_ranges() {
    let rect = light_rect();
    let hit = rect.hit(&down_z(3.5, 2.5), Fixed::zero(), Fixed::max_value()).unwrap();
    assert_eq!(hit.u, fx_r(0.25));
    assert_eq!(hit.v, fx_r(0.75));
}

#[test]
fn the_ranges_hold_their_start_and_not_their_end() {
    let rect = light_rect();
    let all = Fixed::max_value();
    assert!(rect.hit(&down_z(3.0, 1.0), Fixed::zero(), all).is_some());
    assert!(rect.hit(&down_z(5.0, 2.0), Fixed::zero(), all).is_none());
    assert!(rect.hit(&down_z(4.0, 3.0), Fixed::zero(), all).is_none());
    assert!(rect.hit(&down_z(2.9, 2.0), Fixed::zero(), all).is_none());
}

#[test]
fn the_interval_of_a_rectangle_is_closed() {
    let rect = light_rect();
    let r = down_z(4.0, 2.0);
    assert!(rect.hit(&r, Fixed::from_int(2), Fixed::from_int(2)).is_some());
    assert!(rect.hit(&r, Fixed::zero(), fx_r(1.99)).is_none());
    assert!(rect.hit(&r, fx_r(2.01), Fixed::max_value()).is_none());
}

#[test]
fn a_ray_along_the_plane_misses() {
    let rect = light_rect();
    let r = Ray::new(Vec3::newi(0, 2, -2), Vec3::newi(1, 0, 0), Fixed::zero());
    assert!(rect.hit(&r, Fixed::min_value(), Fixed::max_value()).is_none());
}

#[test]
fn the_normal_does_not_turn_with_the_ray() {
    let rect = light_rect();
    let from_behind =
        Ray::new(Vec3::newi(4, 2, -5), Vec3::newi(0, 0, 1), Fixed::zero());
    let hit = rect.hit(&from_behind, Fixed::zero(), Fixed::max_value()).unwrap();
    assert_eq!(hit.t, Fixed::from_int(3));
    assert_eq!(hit.normal, Vec3::newi(0, 0, 1));
}

#[test]
fn rectangles_on_the_other_axes() {
    let floor = Rect {
        range1: Span::new(Fixed::zero(), Fixed::from_int(10)),
        range2: Span::new(Fixed::zero(), Fixed::from_int(20)),
        k: Fixed::zero(),
        static_axis: StaticAxis::Y,
        material: glass_r(),
    };
    let r = Ray::new(Vec3::newi(5, 4, 5), Vec3::newi(0, -1, 0), Fixed::zero());
    let hit = floor.hit(&r, Fixed::zero(), Fixed::max_value()).unwrap();
    assert_eq!(hit.t, Fixed::from_int(4));
    assert_eq!(hit.u, fx_r(0.5));
    assert_eq!(hit.v, fx_r(0.25));
    assert_eq!(hit.normal, Vec3::newi(0, 1, 0));
    let side = Rect {
        range1: Span::new(Fixed::zero(), Fixed::from_int(10)),
        range2: Span::new(Fixed::zero(), Fixed::from_int(20)),
        k: Fixed::from_int(7),
        static_axis: StaticAxis::X,
        material: glass_r(),
    };
    let r = Ray::new(Vec3::newi(0, 1, 15), Vec3::newi(1, 0, 0), Fixed::zero());
    let hit = side.hit(&r, Fixed::zero(), Fixed::max_value()).unwrap();
    assert_eq!(hit.t, Fixed::from_int(7));
    assert_eq!(hit.u, Fixed::ratio(1, 10));
    assert_eq!(hit.v, fx_r(0.75));
    assert_eq!(hit.normal, Vec3::newi(1, 0, 0));
}

#[test]
fn the_box_of_a_rectangle_is_thin() {
    let rect = light_rect();
    let margin = rect_margin();
    assert_eq!(margin, Fixed::from_raw(1677));
    assert_eq!(
        rect.bounding_box(Fixed::zero(), Fixed::one()),
        Some(AABB {
            min: Vec3::new(Fixed::from_int(3), Fixed::from_int(1), Fixed::from_int(-2).sub(margin)),
            max: Vec3::new(Fixed::from_int(5), Fixed::from_int(3), Fixed::from_int(-2).add(margin)),
        })
    );
}

#[test]
fn the_axes_of_a_rectangle() {
    assert_eq!(StaticAxis::X.indices(), (0, 1, 2));
    assert_eq!(StaticAxis::Y.indices(), (1, 0, 2));
    assert_eq!(StaticAxis::Z.indices(), (2, 0, 1));
}

#[test]
fn spans_hold_and_measure() {
    let s = Span::new(Fixed::from_int(2), Fixed::from_int(6));
    assert!(s.contains(Fixed::from_int(2)));
    assert!(s.contains(fx_r(5.999)));
    assert!(!s.contains(Fixed::from_int(6)));
    assert!(!s.contains(fx_r(1.999)));
    assert_eq!(s.fraction(Fixed::from_int(3)), fx_r(0.25));
}

#[test]
fn rect_new_makes_a_scene_object() {
    let h = Rect::new(
        Span::new(Fixed::from_int(3), Fixed::from_int(5)),
        Span::new(Fixed::from_int(1), Fixed::from_int(3)),
        Fixed::from_int(-2),
        StaticAxis::Z,
        glass_r(),
    );
    match h {
        Hittables::Rect(r) => {
            assert_eq!(r.k, Fixed::from_int(-2));
            assert_eq!(r.static_axis, StaticAxis::Z);
            assert_eq!(r.range1, Span::new(Fixed::from_int(3), Fixed::from_int(5)));
        }
        _ => panic!("not a rectangle"),
    }
}

#[test]
fn an_xy_rectangle_holds_its_border() {
    let rect = XYRect::new(
        Fixed::from_int(3),
        Fixed::from_int(5),
        Fixed::from_int(1),
        Fixed::from_int(3),
        Fixed::from_int(-2),
        glass_r(),
    );
    let all = Fixed::max_value();
    assert!(rect.hit(&down_z(5.0, 3.0), Fixed::zero(), all).is_some());
    assert!(rect.hit(&down_z(3.0, 1.0), Fixed::zero(), all).is_some());
    assert!(rect.hit(&down_z(5.01, 2.0), Fixed::zero(), all).is_none());
    let hit = rect.hit(&down_z(3.5, 2.5), Fixed::zero(), all).unwrap();
    assert_eq!(hit.t, Fixed::from_int(2));
    assert_eq!(hit.u, fx_r(0.25));
    assert_eq!(hit.v, fx_r(0.75));
    assert_eq!(hit.normal, Vec3::newi(0, 0, 1));
    let margin = rect_margin();
    assert_eq!(
        rect.bounding_box(Fixed::zero(), Fixed::one()),
        Some(AABB {
            min: Vec3::new(Fixed::from_int(3), Fixed::from_int(1), Fixed::from_int(-2).sub(margin)),
            max: Vec3::new(Fixed::from_int(5), Fixed::from_int(3), Fixed::from_int(-2).add(margin)),
        })
    );
}
