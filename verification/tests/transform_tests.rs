use rtwrs_core::fixed::Fixed;
use rtwrs_core::fixed::SCALE;
use rtwrs_core::hittable::aabb::AABB;
use rtwrs_core::hittable::box_rect::BoxRect;
use rtwrs_core::hittable::constant_medium::free_flight;
use rtwrs_core::hittable::constant_medium::stretch;
use rtwrs_core::hittable::constant_medium::ConstantMedium;
use rtwrs_core::hittable::flip_normals::FlipNormals;
use rtwrs_core::hittable::hittable_list::HittableList;
use rtwrs_core::hittable::rect::Rect;
use rtwrs_core::hittable::rect::Span;
use rtwrs_core::hittable::rect::StaticAxis;
use rtwrs_core::hittable::rotate::RotateY;
use rtwrs_core::hittable::sphere::Sphere;
use rtwrs_core::hittable::translate::Translate;
use rtwrs_core::hittable::Hittables;
use rtwrs_core::material::Dielectric;
use rtwrs_core::material::MaterialType;
use rtwrs_core::ray::Ray;
use rtwrs_core::sampler::Sampler;
use rtwrs_core::texture::constant_texture::ConstantTexture;
use rtwrs_core::vec3::Vec3;

fn fx_t(v: f64) -> Fixed {
    Fixed::from_raw((v * SCALE as f64).round() as i64)
}

fn val_t(f: Fixed) -> f64 {
    f.raw as f64 / SCALE as f64
}

fn near_t(a: Vec3, x: f64, y: f64, z: f64) -> bool {
    (val_t(a.x) - x).abs() < 1e-4 && (val_t(a.y) - y).abs() < 1e-4 && (val_t(a.z) - z).abs() < 1e-4
}

fn glass_t() -> MaterialType {
    MaterialType::Dielectric(Dielectric { ref_idx: fx_t(1.5) })
}

fn ball_t(x: i32, y: i32, z: i32) -> Hittables {
    Hittables::Sphere(Sphere { center: Vec3::newi(x, y, z), radius: Fixed::one(), mat: glass_t() })
}

fn no_draws() -> Sampler {
    Sampler::new(vec![7, 8, 9])
}

#[test]
fn flipping_turns_the_normal_and_nothing_else() {
    let plain = ball_t(0, 0, 0);
    let flipped = FlipNormals::new(ball_t(0, 0, 0));
    let r = Ray::new(Vec3::newi(0, 0, 3), Vec3::newi(0, 0, -1), Fixed::zero());
    let mut s = no_draws();
    let a = plain.hit(&r, Fixed::zero(), Fixed::max_value(), &mut s).unwrap();
    let b = flipped.hit(&r, Fixed::zero(), Fixed::max_value(), &mut s).unwrap();
    assert_eq!(b.t, a.t);
    assert_eq!(b.point, a.point);
    assert_eq!(b.u, a.u);
    assert_eq!(b.v, a.v);
    assert_eq!(b.normal, a.normal.neg());
    assert_eq!(b.normal, Vec3::newi(0, 0, -1));
    assert_eq!(
        flipped.bounding_box(Fixed::zero(), Fixed::one()),
        plain.bounding_box(Fixed::zero(), Fixed::one())
    );
    assert_eq!(s.cursor, 0);
}

#[test]
fn the_box_of_a_moved_sphere_is_the_box_moved() {
    let offset = Vec3::newi(5, -2, 7);
    let moved = Translate::new(ball_t(1, 1, 1), offset);
    let plain = ball_t(1, 1, 1).bounding_box(Fixed::zero(), Fixed::one()).unwrap();
    assert_eq!(
        moved.bounding_box(Fixed::zero(), Fixed::one()),
        Some(AABB { min: plain.min.add(offset), max: plain.max.add(offset) })
    );
    assert_eq!(
        moved.bounding_box(Fixed::zero(), Fixed::one()),
        Some(AABB { min: Vec3::newi(5, -2, 7), max: Vec3::newi(7, 0, 9) })
    );
}

#[test]
fn hitting_a_moved_sphere_is_hitting_the_sphere_with_the_ray_moved_back() {
    let offset = Vec3::newi(5, 0, 0);
    let moved = Translate::new(ball_t(0, 0, 0), offset);
    let plain = ball_t(0, 0, 0);
    let r = Ray::new(Vec3::new(fx_t(5.3), fx_t(0.2), fx_t(3.0)), Vec3::newi(0, 0, -1), fx_t(0.5));
    let back = Ray::new(r.origin.sub(offset), r.direction, r.time);
    let mut s = no_draws();
    let there = moved.hit(&r, Fixed::zero(), Fixed::max_value(), &mut s).unwrap();
    let here = plain.hit(&back, Fixed::zero(), Fixed::max_value(), &mut s).unwrap();
    assert_eq!(there.t, here.t);
    assert_eq!(there.normal, here.normal);
    assert_eq!(there.u, here.u);
    assert_eq!(there.v, here.v);
    assert_eq!(there.point, here.point.add(offset));
    assert_eq!(there.point.sub(offset), here.point);
}

#[test]
fn a_moved_sphere_is_hit_where_it_stands() {
    let moved = Translate::new(ball_t(0, 0, 0), Vec3::newi(5, 0, 0));
    let mut s = no_draws();
    let at_it = Ray::new(Vec3::newi(5, 0, 3), Vec3::newi(0, 0, -1), Fixed::zero());
    let hit = moved.hit(&at_it, Fixed::zero(), Fixed::max_value(), &mut s).unwrap();
    assert_eq!(hit.t, Fixed::from_int(2));
    assert_eq!(hit.point, Vec3::newi(5, 0, 1));
    let at_the_origin = Ray::new(Vec3::newi(0, 0, 3), Vec3::newi(0, 0, -1), Fixed::zero());
    assert!(moved.hit(&at_the_origin, Fixed::zero(), Fixed::max_value(), &mut s).is_none());
}

#[test]
fn a_quarter_turn_about_y() {
    let turned = RotateY::new(ball_t(2, 0, 0), Fixed::from_int(90));
    let mut s = no_draws();
    let r = Ray::new(Vec3::newi(0, 0, -5), Vec3::newi(0, 0, 1), Fixed::zero());
    let hit = turned.hit(&r, Fixed::zero(), Fixed::max_value(), &mut s).unwrap();
    assert!((val_t(hit.t) - 2.0).abs() < 1e-4);
    assert!(near_t(hit.point, 0.0, 0.0, -3.0));
    assert!(near_t(hit.normal, 0.0, 0.0, -1.0));
    let b = turned.bounding_box(Fixed::zero(), Fixed::one()).unwrap();
    assert!(near_t(b.min, -1.0, -1.0, -3.0));
    assert!(near_t(b.max, 1.0, 1.0, -1.0));
    let old_place = Ray::new(Vec3::newi(2, 0, -5), Vec3::newi(0, 0, 1), Fixed::zero());
    assert!(turned.hit(&old_place, Fixed::zero(), Fixed::max_value(), &mut s).is_none());
}

#[test]
fn no_turn_at_all_changes_nothing() {
    let turned = RotateY::new(ball_t(2, 0, 0), Fixed::zero());
    let plain = ball_t(2, 0, 0);
    let mut s = no_draws();
    let r = Ray::new(Vec3::newi(2, 0, -5), Vec3::newi(0, 0, 1), Fixed::zero());
    let a = turned.hit(&r, Fixed::zero(), Fixed::max_value(), &mut s).unwrap();
    let b = plain.hit(&r, Fixed::zero(), Fixed::max_value(), &mut s).unwrap();
    assert_eq!(a.t, b.t);
    assert_eq!(a.point, b.point);
    assert_eq!(a.normal, b.normal);
    assert_eq!(
        turned.bounding_box(Fixed::zero(), Fixed::one()),
        plain.bounding_box(Fixed::zero(), Fixed::one())
    );
}

#[test]
fn turning_an_object_without_a_box_gives_no_box() {
    let turned = RotateY::new(HittableList::new(Vec::new()), Fixed::from_int(30));
    assert_eq!(turned.bounding_box(Fixed::zero(), Fixed::one()), None);
}

#[test]
fn a_box_has_six_faces_and_its_own_corners_as_its_box() {
    let b = BoxRect::new(Vec3::newi(0, 0, 0), Vec3::newi(2, 3, 4), glass_t());
    assert_eq!(
        b.bounding_box(Fixed::zero(), Fixed::one()),
        Some(AABB { min: Vec3::newi(0, 0, 0), max: Vec3::newi(2, 3, 4) })
    );
    match &b {
        Hittables::BoxRect(inner) => match &*inner.list_ptr {
            Hittables::HittableList(faces) => {
                assert_eq!(faces.list.len(), 6);
                assert!(matches!(faces.list[0], Hittables::Rect(_)));
                assert!(matches!(faces.list[1], Hittables::FlipNormals(_)));
                assert!(matches!(faces.list[2], Hittables::Rect(_)));
                assert!(matches!(faces.list[3], Hittables::FlipNormals(_)));
                assert!(matches!(faces.list[4], Hittables::Rect(_)));
                assert!(matches!(faces.list[5], Hittables::FlipNormals(_)));
            }
            _ => panic!("a box holds a list"),
        },
        _ => panic!("not a box"),
    }
}

#[test]
fn a_box_is_hit_on_the_face_toward_the_ray_with_the_normal_outward() {
    let b = BoxRect::new(Vec3::newi(0, 0, 0), Vec3::newi(2, 3, 4), glass_t());
    let mut s = no_draws();
    let from_front = Ray::new(Vec3::newi(1, 1, 10), Vec3::newi(0, 0, -1), Fixed::zero());
    let hit = b.hit(&from_front, fx_t(0.001), Fixed::max_value(), &mut s).unwrap();
    assert_eq!(hit.t, Fixed::from_int(6));
    assert_eq!(hit.normal, Vec3::newi(0, 0, 1));
    let from_behind = Ray::new(Vec3::newi(1, 1, -10), Vec3::newi(0, 0, 1), Fixed::zero());
    let hit = b.hit(&from_behind, fx_t(0.001), Fixed::max_value(), &mut s).unwrap();
    assert_eq!(hit.t, Fixed::from_int(10));
    assert_eq!(hit.normal, Vec3::newi(0, 0, -1));
    let from_above = Ray::new(Vec3::newi(1, 9, 1), Vec3::newi(0, -1, 0), Fixed::zero());
    let hit = b.hit(&from_above, fx_t(0.001), Fixed::max_value(), &mut s).unwrap();
    assert_eq!(hit.t, Fixed::from_int(6));
    assert_eq!(hit.normal, Vec3::newi(0, 1, 0));
    let from_the_left = Ray::new(Vec3::newi(-5, 1, 1), Vec3::newi(1, 0, 0), Fixed::zero());
    let hit = b.hit(&from_the_left, fx_t(0.001), Fixed::max_value(), &mut s).unwrap();
    assert_eq!(hit.t, Fixed::from_int(5));
    assert_eq!(hit.normal, Vec3::newi(-1, 0, 0));
    let past = Ray::new(Vec3::newi(5, 1, 10), Vec3::newi(0, 0, -1), Fixed::zero());
    assert!(b.hit(&past, fx_t(0.001), Fixed::max_value(), &mut s).is_none());
}

fn fog(density: f64) -> Hittables {
    ConstantMedium::new(
        ball_t(0, 0, 0),
        fx_t(density),
        ConstantTexture::new(Fixed::one(), Fixed::one(), Fixed::one()),
    )
}

#[test]
fn thick_fog_scatters_where_the_ray_enters() {
    let medium = fog(1000.0);
    let mut s = Sampler::new(vec![0x8000_0000]);
    let r = Ray::new(Vec3::newi(0, 0, 3), Vec3::newi(0, 0, -1), Fixed::zero());
    let hit = medium.hit(&r, Fixed::zero(), Fixed::max_value(), &mut s).unwrap();
    let want = 2.0 + (0.5f64).ln() * -0.001;
    assert!((val_t(hit.t) - want).abs() < 1e-5);
    assert_eq!(hit.normal, Vec3::newi(1, 0, 0));
    assert_eq!(hit.u, Fixed::zero());
    assert_eq!(hit.v, Fixed::zero());
    assert_eq!(hit.point, r.point_at(hit.t));
    assert!(matches!(hit.mat, MaterialType::Isotropic(_)));
}

#[test]
fn thin_fog_lets_the_ray_through() {
    let medium = fog(0.01);
    let mut s = Sampler::new(vec![0x8000_0000]);
    let r = Ray::new(Vec3::newi(0, 0, 3), Vec3::newi(0, 0, -1), Fixed::zero());
    assert!(medium.hit(&r, Fixed::zero(), Fixed::max_value(), &mut s).is_none());
}

#[test]
fn a_draw_of_zero_never_scatters() {
    let medium = fog(1000.0);
    let mut s = Sampler::new(vec![0]);
    let r = Ray::new(Vec3::newi(0, 0, 3), Vec3::newi(0, 0, -1), Fixed::zero());
    assert!(medium.hit(&r, Fixed::zero(), Fixed::max_value(), &mut s).is_none());
}

#[test]
fn fog_draws_once_where_the_ray_crosses_it_and_not_at_all_where_it_misses() {
    let medium = fog(1.0);
    let mut s = Sampler::new(vec![1, 2, 3, 4]);
    let through = Ray::new(Vec3::newi(0, 0, 3), Vec3::newi(0, 0, -1), Fixed::zero());
    let _ = medium.hit(&through, Fixed::zero(), Fixed::max_value(), &mut s);
    assert_eq!(s.cursor, 1);
    let past = Ray::new(Vec3::newi(5, 0, 3), Vec3::newi(0, 0, -1), Fixed::zero());
    assert!(medium.hit(&past, Fixed::zero(), Fixed::max_value(), &mut s).is_none());
    assert_eq!(s.cursor, 1);
    assert!(medium.hit(&through, Fixed::zero(), Fixed::one(), &mut s).is_none());
    assert_eq!(s.cursor, 1);
}

#[test]
fn the_stretch_inside_a_medium() {
    let two = Fixed::from_int(2);
    let four = Fixed::from_int(4);
    assert_eq!(stretch(two, four, Fixed::zero(), Fixed::max_value()), Some((two, four)));
    assert_eq!(stretch(two, four, Fixed::from_int(3), Fixed::max_value()), Some((Fixed::from_int(3), four)));
    assert_eq!(stretch(two, four, Fixed::zero(), Fixed::from_int(3)), Some((two, Fixed::from_int(3))));
    assert_eq!(stretch(two, four, four, Fixed::max_value()), None);
    assert_eq!(stretch(two, four, Fixed::zero(), two), None);
    assert_eq!(
        stretch(Fixed::from_int(-2), four, Fixed::from_int(-5), Fixed::max_value()),
        Some((Fixed::zero(), four))
    );
}

#[test]
fn free_flight_is_an_exponential_sample() {
    let d = free_flight(Fixed::from_int(2), fx_t(0.5));
    assert!((val_t(d) - 0.5 * (2.0f64).ln()).abs() < 1e-5);
    assert_eq!(free_flight(Fixed::from_int(2), Fixed::zero()), Fixed::from_raw(1 << 62));
}

#[test]
fn the_box_of_fog_is_the_box_of_its_boundary() {
    let medium = fog(1.0);
    assert_eq!(
        medium.bounding_box(Fixed::zero(), Fixed::one()),
        Some(AABB { min: Vec3::newi(-1, -1, -1), max: Vec3::newi(1, 1, 1) })
    );
}

#[test]
fn a_flipped_rectangle_in_a_list() {
    let wall = FlipNormals::new(Rect::new(
        Span::new(Fixed::zero(), Fixed::from_int(4)),
        Span::new(Fixed::zero(), Fixed::from_int(4)),
        Fixed::from_int(2),
        StaticAxis::X,
        glass_t(),
    ));
    let list = HittableList::new(vec![wall]);
    let mut s = no_draws();
    let r = Ray::new(Vec3::newi(0, 1, 1), Vec3::newi(1, 0, 0), Fixed::zero());
    let hit = list.hit(&r, Fixed::zero(), Fixed::max_value(), &mut s).unwrap();
    assert_eq!(hit.t, Fixed::from_int(2));
    assert_eq!(hit.normal, Vec3::newi(-1, 0, 0));
}
