use rtwrs_core::camera::Camera;
use rtwrs_core::fixed::Fixed;
use rtwrs_core::hittable::Hittables;
use rtwrs_core::material::MaterialType;
use rtwrs_core::ray::Ray;
use rtwrs_core::renderer::render_pixel;
use rtwrs_core::sampler::Sampler;
use rtwrs_core::scenes::cornell_box;
use rtwrs_core::scenes::cornell_box_scene;
use rtwrs_core::scenes::cornell_boxes;
use rtwrs_core::scenes::cornell_smoke;
use rtwrs_core::scenes::default_camera;
use rtwrs_core::scenes::default_checker;
use rtwrs_core::scenes::default_config;
use rtwrs_core::scenes::earth;
use rtwrs_core::scenes::random_material;
use rtwrs_core::scenes::random_scene;
use rtwrs_core::scenes::scene_kind;
use rtwrs_core::scenes::simple_light;
use rtwrs_core::scenes::two_perlin_spheres;
use rtwrs_core::scenes::two_spheres;
use rtwrs_core::scenes::SceneKind;
use rtwrs_core::scenes::HEIGHT;
use rtwrs_core::scenes::WIDTH;
use rtwrs_core::texture::image_texture::ImageTexture;
use rtwrs_core::texture::perlin::Perlin;
use rtwrs_core::texture::TextureType;
use rtwrs_core::vec3::Vec3;
use std::sync::Arc;

fn stream_z(count: u32, salt: u32) -> Sampler {
    Sampler::new((0..count).map(|i| (i + salt).wrapping_mul(2654435761)).collect())
}

fn count_leaves(h: &Hittables) -> usize {
    match h {
        Hittables::BvhNode(n) => {
            if Arc::ptr_eq(&n.left, &n.right) {
                count_leaves(&n.left)
            } else {
                count_leaves(&n.left) + count_leaves(&n.right)
            }
        }
        _ => 1,
    }
}

#[test]
fn the_usual_view() {
    let c = default_config();
    assert_eq!(c.lookfrom, Vec3::newi(13, 2, 3));
    assert_eq!(c.lookat, Vec3::newi(0, 0, 0));
    assert_eq!(c.vfov, Fixed::from_int(20));
    assert_eq!(c.focus_dist, Fixed::from_int(10));
    assert_eq!(c.width, WIDTH);
    assert_eq!(c.height, HEIGHT);
    assert_eq!(WIDTH, 800);
    assert_eq!(HEIGHT, 800);
    assert_eq!(default_camera(), Camera::new(default_config()));
}

#[test]
fn the_usual_checker() {
    match default_checker() {
        TextureType::CheckerTexture(c) => {
            let u = Fixed::zero();
            assert_eq!(
                c.odd.value(u, u, Vec3::zero()),
                Vec3::new(Fixed::ratio(2, 10), Fixed::ratio(3, 10), Fixed::ratio(1, 10))
            );
            assert_eq!(
                c.even.value(u, u, Vec3::zero()),
                Vec3::splat(Fixed::ratio(9, 10))
            );
        }
        _ => panic!("not a checker"),
    }
}

#[test]
fn two_spheres_are_two_spheres() {
    let scene = two_spheres();
    assert_eq!(scene.camera, default_camera());
    match &scene.hittables {
        Hittables::HittableList(l) => {
            assert_eq!(l.list.len(), 2);
            match (&l.list[0], &l.list[1]) {
                (Hittables::Sphere(a), Hittables::Sphere(b)) => {
                    assert_eq!(a.center, Vec3::newi(0, 10, 0));
                    assert_eq!(b.center, Vec3::newi(0, -10, 0));
                    assert_eq!(a.radius, Fixed::from_int(10));
                    assert!(matches!(a.mat, MaterialType::Lambertian(_)));
                }
                _ => panic!("two spheres"),
            }
        }
        _ => panic!("not a list"),
    }
}

#[test]
fn the_marble_scenes_share_their_noise_tables() {
    let perlin = Perlin::new(&mut stream_z(3000, 1));
    let scene = two_perlin_spheres(perlin.clone());
    match &scene.hittables {
        Hittables::HittableList(l) => assert_eq!(l.list.len(), 2),
        _ => panic!("not a list"),
    }
    let lit = simple_light(perlin);
    match &lit.hittables {
        Hittables::HittableList(l) => {
            assert_eq!(l.list.len(), 4);
            assert!(matches!(l.list[3], Hittables::Rect(_)));
        }
        _ => panic!("not a list"),
    }
    assert_eq!(lit.camera.origin, Vec3::newi(16, 3, 2));
}

#[test]
fn the_earth_wears_its_image() {
    let map = ImageTexture { data: Arc::new(vec![255, 0, 0]), nx: 1, ny: 1 };
    let scene = earth(map);
    match &scene.hittables {
        Hittables::Sphere(s) => {
            assert_eq!(s.radius, Fixed::from_int(2));
            match &s.mat {
                MaterialType::Lambertian(l) => assert!(matches!(l.albedo, TextureType::ImageTexture(_))),
                _ => panic!("not diffuse"),
            }
        }
        _ => panic!("not a sphere"),
    }
}

#[test]
fn the_room_has_five_walls_and_a_light() {
    match cornell_box() {
        Hittables::HittableList(l) => {
            assert_eq!(l.list.len(), 6);
            match &l.list[0] {
                Hittables::Rect(r) => assert!(matches!(r.material, MaterialType::DiffuseLight(_))),
                _ => panic!("the light comes first"),
            }
            assert!(matches!(l.list[1], Hittables::Rect(_)));
            assert!(matches!(l.list[2], Hittables::FlipNormals(_)));
            assert!(matches!(l.list[3], Hittables::FlipNormals(_)));
            assert!(matches!(l.list[4], Hittables::Rect(_)));
            assert!(matches!(l.list[5], Hittables::FlipNormals(_)));
        }
        _ => panic!("not a list"),
    }
}

#[test]
fn the_boxes_of_the_room_are_turned_and_moved() {
    let (a, b) = cornell_boxes();
    for (h, offset) in [(&a, Vec3::newi(130, 0, 65)), (&b, Vec3::newi(265, 0, 295))] {
        match h {
            Hittables::Translate(t) => {
                assert_eq!(t.offset, offset);
                assert!(matches!(&*t.ptr, Hittables::RotateY(_)));
            }
            _ => panic!("not moved"),
        }
        assert!(h.bounding_box(Fixed::zero(), Fixed::one()).is_some());
    }
    let (smoke_a, smoke_b) = cornell_smoke();
    assert!(matches!(&smoke_a, Hittables::ConstantMedium(m) if m.density == Fixed::ratio(1, 100)));
    assert!(matches!(&smoke_b, Hittables::ConstantMedium(_)));
}

#[test]
fn the_room_scene_is_a_tree_over_three_objects() {
    let scene = cornell_box_scene();
    assert_eq!(scene.camera.origin, Vec3::newi(278, 278, -800));
    assert_eq!(count_leaves(&scene.hittables), 3);
    let mut sampler = stream_z(64, 1);
    let into_the_room = Ray::new(Vec3::newi(500, 500, -800), Vec3::newi(0, 0, 1), Fixed::zero());
    let hit = scene
        .hittables
        .hit(&into_the_room, Fixed::ratio(1, 1000), Fixed::max_value(), &mut sampler)
        .unwrap();
    assert_eq!(hit.point.z, Fixed::from_int(555));
    assert_eq!(hit.normal, Vec3::newi(0, 0, -1));
}

#[test]
fn the_room_lights_a_pixel() {
    let mut scene = cornell_box_scene();
    scene.camera.width = 8;
    scene.camera.height = 8;
    let mut sampler = stream_z(20000, 5);
    let mut any = false;
    for pos in [27u64, 28, 35, 36] {
        let px = render_pixel(&scene.camera, &scene.hittables, pos, 8, 6, &mut sampler);
        assert_eq!(px[3], 255);
        any = any || px[0] > 0;
    }
    assert!(any);
}

#[test]
fn the_random_scene_is_a_tree_and_repeats_for_the_same_draws() {
    let scene = random_scene(&mut stream_z(5000, 11));
    let again = random_scene(&mut stream_z(5000, 11));
    assert_eq!(scene.camera, default_camera());
    assert!(matches!(scene.hittables, Hittables::BvhNode(_)));
    let leaves = count_leaves(&scene.hittables);
    assert!(leaves > 400 && leaves <= 488);
    assert_eq!(leaves, count_leaves(&again.hittables));
    assert_eq!(
        scene.hittables.bounding_box(Fixed::zero(), Fixed::one()),
        again.hittables.bounding_box(Fixed::zero(), Fixed::one())
    );
    let mut sampler = stream_z(64, 1);
    let down = Ray::new(
        Vec3::new(Fixed::ratio(3, 10), Fixed::from_int(50), Fixed::ratio(1, 10)),
        Vec3::newi(0, -1, 0),
        Fixed::zero(),
    );
    let hit = scene.hittables.hit(&down, Fixed::zero(), Fixed::max_value(), &mut sampler).unwrap();
    assert!(hit.t.gt(Fixed::from_int(48)) && hit.t.lt(Fixed::ratio(481, 10)));
    assert!(matches!(hit.mat, MaterialType::Dielectric(_)));
    let same = again.hittables.hit(&down, Fixed::zero(), Fixed::max_value(), &mut sampler).unwrap();
    assert_eq!(hit.t, same.t);
    assert_eq!(hit.point, same.point);
}

#[test]
fn the_material_of_a_small_sphere_goes_by_the_draw() {
    let mut s = stream_z(64, 1);
    assert!(matches!(random_material(Fixed::zero(), &mut s), MaterialType::Lambertian(_)));
    assert!(matches!(random_material(Fixed::ratio(79, 100), &mut s), MaterialType::Lambertian(_)));
    assert!(matches!(random_material(Fixed::ratio(8, 10), &mut s), MaterialType::Metal(_)));
    assert!(matches!(random_material(Fixed::ratio(94, 100), &mut s), MaterialType::Metal(_)));
    assert!(matches!(random_material(Fixed::ratio(95, 100), &mut s), MaterialType::Dielectric(_)));
    assert!(matches!(random_material(Fixed::ratio(99, 100), &mut s), MaterialType::Dielectric(_)));
}

#[test]
fn scenes_go_by_their_names() {
    assert_eq!(scene_kind("two_spheres"), SceneKind::TwoSpheres);
    assert_eq!(scene_kind("two_perlin_spheres"), SceneKind::TwoPerlinSpheres);
    assert_eq!(scene_kind("random"), SceneKind::Random);
    assert_eq!(scene_kind("earth"), SceneKind::Earth);
    assert_eq!(scene_kind("simple_light"), SceneKind::SimpleLight);
    assert_eq!(scene_kind("cornell_box"), SceneKind::CornellBox);
    assert_eq!(scene_kind("default"), SceneKind::CornellBox);
    assert_eq!(scene_kind(""), SceneKind::CornellBox);
    assert_eq!(scene_kind("Random"), SceneKind::CornellBox);
}
