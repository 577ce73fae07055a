//! Ready-made scenes.

use vstd::prelude::*;
use crate::camera::Camera;
use crate::camera::CameraConfig;
use crate::fixed::Fixed;
use crate::hittable::box_rect::BoxRect;
use crate::hittable::bvh_node::has_boxes;
use crate::hittable::bvh_node::BvhNode;
use crate::hittable::constant_medium::ConstantMedium;
use crate::hittable::flip_normals::FlipNormals;
use crate::hittable::hittable_list::HittableList;
use crate::hittable::lemma_box_dispatch;
use crate::hittable::moving_sphere::MovingSphere;
use crate::hittable::rect::Rect;
use crate::hittable::rect::Span;
use crate::hittable::rect::StaticAxis;
use crate::hittable::rotate::RotateY;
use crate::hittable::sphere::Sphere;
use crate::hittable::translate::Translate;
use crate::hittable::Hittables;
use crate::material::Dielectric;
use crate::material::DiffuseLight;
use crate::material::Lambertian;
use crate::material::MaterialType;
use crate::material::Metal;
use crate::sampler::Sampler;
use crate::texture::checker_texture::CheckerTexture;
use crate::texture::constant_texture::ConstantTexture;
use crate::texture::image_texture::ImageTexture;
use crate::texture::noise_texture::NoiseTexture;
use crate::texture::perlin::Perlin;
use crate::texture::TextureType;
use crate::vec3::Vec3;

verus! {

/// The width of the image of the ready-made scenes, in pixels.
pub const WIDTH: u32 = 800;

/// The height of the image of the ready-made scenes, in pixels.
pub const HEIGHT: u32 = 800;

/// A camera and what it looks at.
#[derive(Debug)]
pub struct Scene {
    pub camera: Camera,
    pub hittables: Hittables,
}

/// The ready-made scenes.
#[derive(Clone, Copy, PartialEq, Eq, Structural, Debug)]
pub enum SceneKind {
    TwoSpheres,
    TwoPerlinSpheres,
    Random,
    Earth,
    SimpleLight,
    CornellBox,
}

pub open spec fn scene_kind_spec(name: Seq<char>) -> SceneKind {
    if name == "two_spheres"@ {
        SceneKind::TwoSpheres
    } else if name == "two_perlin_spheres"@ {
        SceneKind::TwoPerlinSpheres
    } else if name == "random"@ {
        SceneKind::Random
    } else if name == "earth"@ {
        SceneKind::Earth
    } else if name == "simple_light"@ {
        SceneKind::SimpleLight
    } else {
        SceneKind::CornellBox
    }
}

/// Whether two texts are the same.
fn same_text(a: &str, b: &str) -> (same: bool)
    ensures
        same == (a@ == b@),
{
    let left = a.to_owned();
    let right = b.to_owned();
    left == right
}

/// The scene that goes by `name`. A name that no scene goes by stands for
/// the room with its two boxes.
pub fn scene_kind(name: &str) -> (kind: SceneKind)
    ensures
        kind == scene_kind_spec(name@),
{
    if same_text(name, "two_spheres") {
        SceneKind::TwoSpheres
    } else if same_text(name, "two_perlin_spheres") {
        SceneKind::TwoPerlinSpheres
    } else if same_text(name, "random") {
        SceneKind::Random
    } else if same_text(name, "earth") {
        SceneKind::Earth
    } else if same_text(name, "simple_light") {
        SceneKind::SimpleLight
    } else {
        SceneKind::CornellBox
    }
}

pub open spec fn default_config_spec() -> CameraConfig {
    CameraConfig {
        lookfrom: Vec3::newi(13, 2, 3),
        lookat: Vec3::newi(0, 0, 0),
        vfov: Fixed::from_int(20),
        focus_dist: Fixed::from_int(10),
        height: HEIGHT,
        width: WIDTH,
        vup: Vec3::newi(0, 1, 0),
        aspect: CameraConfig::default_aspect(WIDTH, HEIGHT),
        aperture: Fixed::zero(),
        exposure: crate::camera::Exposure { start: Fixed::zero(), end: Fixed::one() },
    }
}

/// The usual view: from `(13, 2, 3)` toward the origin, with a field of view
/// of 20 degrees.
#[verifier::when_used_as_spec(default_config_spec)]
pub fn default_config() -> (c: CameraConfig)
    ensures
        c == default_config_spec(),
{
    CameraConfig::new(
        Vec3::newi(13, 2, 3),
        Vec3::newi(0, 0, 0),
        Fixed::from_int(20),
        Fixed::from_int(10),
        WIDTH,
        HEIGHT,
    )
}

pub open spec fn default_camera_spec() -> Camera {
    Camera::new(default_config())
}

/// The camera of the usual view.
#[verifier::when_used_as_spec(default_camera_spec)]
pub fn default_camera() -> (c: Camera)
    ensures
        c == default_camera_spec(),
{
    Camera::new(default_config())
}

pub open spec fn default_checker_spec() -> TextureType {
    TextureType::CheckerTexture(
        CheckerTexture {
            odd: Box::new(
                TextureType::ConstantTexture(
                    ConstantTexture {
                        color: Vec3::new(Fixed::ratio(2, 10), Fixed::ratio(3, 10), Fixed::ratio(1, 10)),
                    },
                ),
            ),
            even: Box::new(
                TextureType::ConstantTexture(
                    ConstantTexture {
                        color: Vec3::new(Fixed::ratio(9, 10), Fixed::ratio(9, 10), Fixed::ratio(9, 10)),
                    },
                ),
            ),
        },
    )
}

/// The green and white checkerboard.
#[verifier::when_used_as_spec(default_checker_spec)]
pub fn default_checker() -> (t: TextureType)
    ensures
        t == default_checker_spec(),
{
    TextureType::CheckerTexture(
        CheckerTexture {
            odd: Box::new(
                ConstantTexture::new(Fixed::ratio(2, 10), Fixed::ratio(3, 10), Fixed::ratio(1, 10)),
            ),
            even: Box::new(
                ConstantTexture::new(Fixed::ratio(9, 10), Fixed::ratio(9, 10), Fixed::ratio(9, 10)),
            ),
        },
    )
}

/// The sphere with the given centre, radius and material, as a scene object.
pub fn sphere(center: Vec3, radius: Fixed, mat: MaterialType) -> (h: Hittables)
    ensures
        h == Hittables::Sphere(Sphere { center, radius, mat }),
{
    Hittables::Sphere(Sphere { center, radius, mat })
}

/// The material of a small sphere of the random scene, chosen by `choice`:
/// mostly diffuse, sometimes metal, rarely glass.
pub fn random_material(choice: Fixed, sampler: &mut Sampler) -> (m: MaterialType)
    ensures
        Fixed::zero().le(choice) && choice.lt(Fixed::ratio(8, 10)) ==> m is Lambertian,
        Fixed::ratio(8, 10).le(choice) && choice.lt(Fixed::ratio(95, 100)) ==> m is Metal,
        choice.lt(Fixed::zero()) || Fixed::ratio(95, 100).le(choice) ==> m == MaterialType::Dielectric(
            Dielectric { ref_idx: Fixed::ratio(15, 10) },
        ),
{
    if Fixed::zero().le(choice) && choice.lt(Fixed::ratio(8, 10)) {
        let r = sampler.next_unit().mul(sampler.next_unit());
        let g = sampler.next_unit().mul(sampler.next_unit());
        let b = sampler.next_unit().mul(sampler.next_unit());
        Lambertian::new(ConstantTexture::new(r, g, b))
    } else if Fixed::ratio(8, 10).le(choice) && choice.lt(Fixed::ratio(95, 100)) {
        let half = Fixed::ratio(1, 2);
        let r = half.mul(Fixed::one().add(sampler.next_unit()));
        let g = half.mul(Fixed::one().add(sampler.next_unit()));
        let b = half.mul(Fixed::one().add(sampler.next_unit()));
        let fuzz = half.mul(sampler.next_unit());
        MaterialType::Metal(Metal { albedo: Vec3::new(r, g, b), fuzz })
    } else {
        MaterialType::Dielectric(Dielectric { ref_idx: Fixed::ratio(15, 10) })
    }
}

/// Every object of `world` is a sphere, still or moving.
pub open spec fn all_spheres(world: Seq<Hittables>) -> bool {
    forall|i: int| 0 <= i < world.len() ==> (#[trigger] world[i]) is Sphere || world[i] is MovingSphere
}

proof fn lemma_spheres_have_boxes(world: Seq<Hittables>, time0: Fixed, time1: Fixed)
    requires
        all_spheres(world),
    ensures
        forall|i: int| 0 <= i < world.len() ==> has_boxes(&#[trigger] world[i], time0, time1),
{
    assert forall|i: int| 0 <= i < world.len() implies has_boxes(
        &#[trigger] world[i],
        time0,
        time1,
    ) by {
        lemma_box_dispatch(&world[i], Fixed::zero(), Fixed::zero());
        lemma_box_dispatch(&world[i], time0, time1);
    }
}

/// A plain of many small spheres of random materials around three large
/// ones, on a checkered ground, in a tree. The diffuse small spheres move.
pub fn random_scene(sampler: &mut Sampler) -> (scene: Scene)
    ensures
        scene.camera == default_camera(),
        scene.hittables is BvhNode,
{
    let mut world: Vec<Hittables> = Vec::new();
    world.push(sphere(Vec3::newi(0, -1000, 0), Fixed::from_int(1000), Lambertian::new(default_checker())));
    world.push(
        sphere(
            Vec3::newi(0, 1, 0),
            Fixed::one(),
            MaterialType::Dielectric(Dielectric { ref_idx: Fixed::ratio(15, 10) }),
        ),
    );
    world.push(
        sphere(
            Vec3::newi(-4, 1, 0),
            Fixed::one(),
            Lambertian::new(
                ConstantTexture::new(Fixed::ratio(4, 10), Fixed::ratio(2, 10), Fixed::ratio(1, 10)),
            ),
        ),
    );
    world.push(
        sphere(
            Vec3::newi(4, 1, 0),
            Fixed::one(),
            MaterialType::Metal(
                Metal {
                    albedo: Vec3::new(Fixed::ratio(7, 10), Fixed::ratio(6, 10), Fixed::ratio(5, 10)),
                    fuzz: Fixed::zero(),
                },
            ),
        ),
    );
    let mut a: i32 = -11;
    while a < 11
        invariant
            -11 <= a <= 11,
            world@.len() >= 4,
            all_spheres(world@),
        decreases 11 - a,
    {
        let mut b: i32 = -11;
        while b < 11
            invariant
                -11 <= b <= 11,
                -11 <= a < 11,
                world@.len() >= 4,
                all_spheres(world@),
            decreases 11 - b,
        {
            let nine_tenths = Fixed::ratio(9, 10);
            let center = Vec3::new(
                Fixed::from_int(a).add(nine_tenths.mul(sampler.next_unit())),
                Fixed::ratio(2, 10),
                Fixed::from_int(b).add(nine_tenths.mul(sampler.next_unit())),
            );
            let apart = center.sub(Vec3::new(Fixed::from_int(4), Fixed::ratio(2, 10), Fixed::zero()));
            if apart.norm().gt(nine_tenths) {
                let choice = sampler.next_unit();
                let material = random_material(choice, sampler);
                let radius = Fixed::ratio(2, 10);
                let small = match material {
                    MaterialType::Lambertian(_) => Hittables::MovingSphere(
                        MovingSphere {
                            center0: center,
                            center1: center.add(
                                Vec3::new(
                                    Fixed::zero(),
                                    Fixed::ratio(1, 2).mul(sampler.next_unit()),
                                    Fixed::zero(),
                                ),
                            ),
                            time0: Fixed::zero(),
                            time1: Fixed::one(),
                            radius,
                            material,
                        },
                    ),
                    _ => sphere(center, radius, material),
                };
                world.push(small);
            }
            b += 1;
        }
        a += 1;
    }
    proof {
        lemma_spheres_have_boxes(world@, Fixed::zero(), Fixed::one());
    }
    Scene {
        camera: default_camera(),
        hittables: BvhNode::new(world, Fixed::zero(), Fixed::one(), 0),
    }
}

/// The two objects of `two_spheres`: a sphere of radius ten above the origin
/// and one below it, both checkered.
pub open spec fn two_spheres_objects() -> Seq<Hittables> {
    seq![
        Hittables::Sphere(
            Sphere {
                center: Vec3::newi(0, 10, 0),
                radius: Fixed::from_int(10),
                mat: MaterialType::Lambertian(Lambertian { albedo: default_checker() }),
            },
        ),
        Hittables::Sphere(
            Sphere {
                center: Vec3::newi(0, (-10) as i32, 0),
                radius: Fixed::from_int(10),
                mat: MaterialType::Lambertian(Lambertian { albedo: default_checker() }),
            },
        ),
    ]
}

/// Two checkered spheres that touch at the origin.
pub fn two_spheres() -> (scene: Scene)
    ensures
        scene.camera == default_camera(),
        scene.hittables matches Hittables::HittableList(l) && l.list@ == two_spheres_objects(),
{
    let mut list: Vec<Hittables> = Vec::new();
    list.push(sphere(Vec3::newi(0, 10, 0), Fixed::from_int(10), Lambertian::new(default_checker())));
    list.push(sphere(Vec3::newi(0, -10, 0), Fixed::from_int(10), Lambertian::new(default_checker())));
    proof {
        assert(list@ =~= two_spheres_objects());
    }
    Scene { camera: default_camera(), hittables: HittableList::new(list) }
}

/// The marble texture over the given noise tables.
pub open spec fn marble_spec(perlin: Perlin) -> TextureType {
    TextureType::NoiseTexture(NoiseTexture { perlin, scale: Fixed::from_int(7) })
}

/// The two objects of `two_perlin_spheres`: a ground sphere and a sphere of
/// radius two on it, both of marble.
pub open spec fn two_perlin_spheres_objects(perlin: Perlin) -> Seq<Hittables> {
    seq![
        Hittables::Sphere(
            Sphere {
                center: Vec3::newi(0, (-1000) as i32, 0),
                radius: Fixed::from_int(1000),
                mat: MaterialType::Lambertian(Lambertian { albedo: marble_spec(perlin) }),
            },
        ),
        Hittables::Sphere(
            Sphere {
                center: Vec3::newi(0, 2, 0),
                radius: Fixed::from_int(2),
                mat: MaterialType::Lambertian(Lambertian { albedo: marble_spec(perlin) }),
            },
        ),
    ]
}

/// A marble sphere on marble ground, over the given noise tables.
pub fn two_perlin_spheres(perlin: Perlin) -> (scene: Scene)
    ensures
        scene.camera == default_camera(),
        scene.hittables matches Hittables::HittableList(l) && l.list@ == two_perlin_spheres_objects(
            perlin,
        ),
{
    let noise_texture = TextureType::NoiseTexture(
        NoiseTexture { perlin, scale: Fixed::from_int(7) },
    );
    let mut list: Vec<Hittables> = Vec::new();
    list.push(
        sphere(
            Vec3::newi(0, -1000, 0),
            Fixed::from_int(1000),
            Lambertian::new(noise_texture.clone()),
        ),
    );
    list.push(sphere(Vec3::newi(0, 2, 0), Fixed::from_int(2), Lambertian::new(noise_texture)));
    proof {
        assert(list@ =~= two_perlin_spheres_objects(perlin));
    }
    Scene { camera: default_camera(), hittables: HittableList::new(list) }
}

/// A sphere of radius two at the origin that wears the given image.
pub fn earth(map: ImageTexture) -> (scene: Scene)
    ensures
        scene.camera == default_camera(),
        scene.hittables == Hittables::Sphere(
            Sphere {
                center: Vec3::newi(0, 0, 0),
                radius: Fixed::from_int(2),
                mat: MaterialType::Lambertian(Lambertian { albedo: TextureType::ImageTexture(map) }),
            },
        ),
{
    let earth = sphere(
        Vec3::newi(0, 0, 0),
        Fixed::from_int(2),
        MaterialType::Lambertian(Lambertian { albedo: TextureType::ImageTexture(map) }),
    );
    Scene { camera: default_camera(), hittables: earth }
}

/// The light of `simple_light`: four in every channel.
pub open spec fn bright_light_spec() -> MaterialType {
    MaterialType::DiffuseLight(
        DiffuseLight {
            emit: TextureType::ConstantTexture(
                ConstantTexture {
                    color: Vec3::new(Fixed::from_int(4), Fixed::from_int(4), Fixed::from_int(4)),
                },
            ),
        },
    )
}

/// The four objects of `simple_light`: the two marble spheres, a sphere of
/// light above them and a rectangle of light beside them.
pub open spec fn simple_light_objects(perlin: Perlin) -> Seq<Hittables> {
    two_perlin_spheres_objects(perlin) + seq![
        Hittables::Sphere(
            Sphere {
                center: Vec3::newi(0, 7, 0),
                radius: Fixed::from_int(2),
                mat: bright_light_spec(),
            },
        ),
        Hittables::Rect(
            Rect {
                range1: Span::new(Fixed::from_int(3), Fixed::from_int(5)),
                range2: Span::new(Fixed::from_int(1), Fixed::from_int(3)),
                k: Fixed::from_int((-2) as i32),
                static_axis: StaticAxis::Z,
                material: bright_light_spec(),
            },
        ),
    ]
}

pub open spec fn simple_light_config() -> CameraConfig {
    CameraConfig {
        lookfrom: Vec3::newi(16, 3, 2),
        lookat: Vec3::newi(0, 1, 0),
        vfov: Fixed::from_int(40),
        ..default_config()
    }
}

/// The marble spheres in the dark, lit by a sphere and a rectangle.
pub fn simple_light(perlin: Perlin) -> (scene: Scene)
    ensures
        scene.camera == Camera::new(simple_light_config()),
        scene.hittables matches Hittables::HittableList(l) && l.list@ == simple_light_objects(perlin),
{
    let noise_texture = TextureType::NoiseTexture(
        NoiseTexture { perlin, scale: Fixed::from_int(7) },
    );
    let light_mat = MaterialType::DiffuseLight(
        DiffuseLight {
            emit: ConstantTexture::new(Fixed::from_int(4), Fixed::from_int(4), Fixed::from_int(4)),
        },
    );
    let mut list: Vec<Hittables> = Vec::new();
    list.push(
        sphere(
            Vec3::newi(0, -1000, 0),
            Fixed::from_int(1000),
            Lambertian::new(noise_texture.clone()),
        ),
    );
    list.push(sphere(Vec3::newi(0, 2, 0), Fixed::from_int(2), Lambertian::new(noise_texture)));
    list.push(sphere(Vec3::newi(0, 7, 0), Fixed::from_int(2), light_mat.clone()));
    list.push(
        Rect::new(
            Span::new(Fixed::from_int(3), Fixed::from_int(5)),
            Span::new(Fixed::from_int(1), Fixed::from_int(3)),
            Fixed::from_int(-2),
            StaticAxis::Z,
            light_mat,
        ),
    );
    proof {
        assert(list@ =~= simple_light_objects(perlin));
    }
    let mut config = default_config();
    config.lookfrom = Vec3::newi(16, 3, 2);
    config.lookat = Vec3::newi(0, 1, 0);
    config.vfov = Fixed::from_int(40);
    Scene { camera: Camera::new(config), hittables: HittableList::new(list) }
}

/// The diffuse material of one colour, given in hundredths.
pub open spec fn matte_spec(r: i64, g: i64, b: i64) -> MaterialType {
    MaterialType::Lambertian(
        Lambertian {
            albedo: TextureType::ConstantTexture(
                ConstantTexture {
                    color: Vec3::new(Fixed::ratio(r, 100), Fixed::ratio(g, 100), Fixed::ratio(b, 100)),
                },
            ),
        },
    )
}

#[verifier::when_used_as_spec(matte_spec)]
pub fn matte(r: i64, g: i64, b: i64) -> (m: MaterialType)
    ensures
        m == matte_spec(r, g, b),
{
    Lambertian::new(
        ConstantTexture::new(Fixed::ratio(r, 100), Fixed::ratio(g, 100), Fixed::ratio(b, 100)),
    )
}

/// A wall of the room: the square from 0 to 555 in the plane at `k` on
/// `axis`, of the given material.
pub open spec fn wall_spec(k: i32, axis: StaticAxis, material: MaterialType) -> Hittables {
    Hittables::Rect(
        Rect {
            range1: Span::new(Fixed::zero(), Fixed::from_int(555)),
            range2: Span::new(Fixed::zero(), Fixed::from_int(555)),
            k: Fixed::from_int(k),
            static_axis: axis,
            material,
        },
    )
}

#[verifier::when_used_as_spec(wall_spec)]
pub fn wall(k: i32, axis: StaticAxis, material: MaterialType) -> (h: Hittables)
    ensures
        h == wall_spec(k, axis, material),
{
    Rect::new(
        Span::new(Fixed::zero(), Fixed::from_int(555)),
        Span::new(Fixed::zero(), Fixed::from_int(555)),
        Fixed::from_int(k),
        axis,
        material,
    )
}

/// The light in the ceiling of the room.
pub open spec fn ceiling_light_spec() -> Hittables {
    Hittables::Rect(
        Rect {
            range1: Span::new(Fixed::from_int(113), Fixed::from_int(443)),
            range2: Span::new(Fixed::from_int(127), Fixed::from_int(432)),
            k: Fixed::from_int(554),
            static_axis: StaticAxis::Y,
            material: MaterialType::DiffuseLight(
                DiffuseLight {
                    emit: TextureType::ConstantTexture(
                        ConstantTexture {
                            color: Vec3::new(
                                Fixed::from_int(2),
                                Fixed::from_int(2),
                                Fixed::from_int(2),
                            ),
                        },
                    ),
                },
            ),
        },
    )
}

/// The six objects of the empty room: the light, the floor, the ceiling, the
/// rear wall, the red wall and the green wall. The walls whose outer side
/// would face the room are turned around.
pub open spec fn cornell_box_objects() -> Seq<Hittables> {
    seq![
        ceiling_light_spec(),
        wall(0, StaticAxis::Y, matte(73, 73, 73)),
        Hittables::FlipNormals(
            FlipNormals { ptr: Box::new(wall(555, StaticAxis::Y, matte(73, 73, 73))) },
        ),
        Hittables::FlipNormals(
            FlipNormals { ptr: Box::new(wall(555, StaticAxis::Z, matte(73, 73, 73))) },
        ),
        wall(0, StaticAxis::X, matte(65, 5, 5)),
        Hittables::FlipNormals(
            FlipNormals { ptr: Box::new(wall(555, StaticAxis::X, matte(12, 45, 15))) },
        ),
    ]
}

/// The empty room: five walls and a light.
pub fn cornell_box() -> (h: Hittables)
    ensures
        h matches Hittables::HittableList(l) && l.list@ == cornell_box_objects(),
{
    let red = matte(65, 5, 5);
    let green = matte(12, 45, 15);
    let white = matte(73, 73, 73);
    let light = DiffuseLight::new(
        ConstantTexture::new(Fixed::from_int(2), Fixed::from_int(2), Fixed::from_int(2)),
    );
    let mut list: Vec<Hittables> = Vec::new();
    list.push(
        Rect::new(
            Span::new(Fixed::from_int(113), Fixed::from_int(443)),
            Span::new(Fixed::from_int(127), Fixed::from_int(432)),
            Fixed::from_int(554),
            StaticAxis::Y,
            light,
        ),
    );
    list.push(wall(0, StaticAxis::Y, white.clone()));
    list.push(FlipNormals::new(wall(555, StaticAxis::Y, white.clone())));
    list.push(FlipNormals::new(wall(555, StaticAxis::Z, white.clone())));
    list.push(wall(0, StaticAxis::X, red));
    list.push(FlipNormals::new(wall(555, StaticAxis::X, green)));
    proof {
        assert(list@ =~= cornell_box_objects());
    }
    HittableList::new(list)
}

/// A white box of the given size, turned about the y axis by `angle` degrees
/// and then moved by `offset`.
pub fn placed_box(size: Vec3, angle: Fixed, offset: Vec3) -> (h: Hittables)
    ensures
        h matches Hittables::Translate(t) && t.offset == offset && (*t.ptr matches Hittables::RotateY(
            turned,
        ) && (*turned.ptr matches Hittables::BoxRect(b) && b.pmin == Vec3::zero() && b.pmax
            == size && turned.bbox is Some)),
{
    let inner = BoxRect::new(Vec3::zero(), size, matte(73, 73, 73));
    proof {
        lemma_box_dispatch(&inner, Fixed::zero(), Fixed::one());
    }
    Translate::new(RotateY::new(inner, angle), offset)
}

/// The two boxes that stand in the room.
pub fn cornell_boxes() -> (boxes: (Hittables, Hittables))
    ensures
        boxes.0 is Translate,
        boxes.1 is Translate,
        has_boxes(&boxes.0, Fixed::zero(), Fixed::one()),
        has_boxes(&boxes.1, Fixed::zero(), Fixed::one()),
{
    let box1 = placed_box(Vec3::newi(165, 165, 165), Fixed::from_int(-18), Vec3::newi(130, 0, 65));
    let box2 = placed_box(Vec3::newi(165, 330, 165), Fixed::from_int(15), Vec3::newi(265, 0, 295));
    proof {
        lemma_placed_box_has_boxes(&box1);
        lemma_placed_box_has_boxes(&box2);
    }
    (box1, box2)
}

proof fn lemma_placed_box_has_boxes(h: &Hittables)
    requires
        h matches Hittables::Translate(t) && (*t.ptr matches Hittables::RotateY(turned)
            && turned.bbox is Some),
    ensures
        has_boxes(h, Fixed::zero(), Fixed::one()),
{
    let t = h->Translate_0;
    lemma_box_dispatch(h, Fixed::zero(), Fixed::zero());
    lemma_box_dispatch(h, Fixed::zero(), Fixed::one());
    lemma_box_dispatch(&*t.ptr, Fixed::zero(), Fixed::zero());
    lemma_box_dispatch(&*t.ptr, Fixed::zero(), Fixed::one());
}

/// The two boxes of the room as smoke: one of white and one of black fog.
pub fn cornell_smoke() -> (boxes: (Hittables, Hittables))
    ensures
        boxes.0 matches Hittables::ConstantMedium(m) && m.density == Fixed::ratio(1, 100),
        boxes.1 matches Hittables::ConstantMedium(m) && m.density == Fixed::ratio(1, 100),
{
    let (box1, box2) = cornell_boxes();
    let smoke_box1 = ConstantMedium::new(
        box1,
        Fixed::ratio(1, 100),
        ConstantTexture::new(Fixed::one(), Fixed::one(), Fixed::one()),
    );
    let smoke_box2 = ConstantMedium::new(
        box2,
        Fixed::ratio(1, 100),
        ConstantTexture::new(Fixed::zero(), Fixed::zero(), Fixed::zero()),
    );
    (smoke_box1, smoke_box2)
}

pub open spec fn cornell_config() -> CameraConfig {
    CameraConfig {
        lookfrom: Vec3::newi(278, 278, (-800) as i32),
        lookat: Vec3::newi(278, 278, 0),
        focus_dist: Fixed::from_int(10),
        vfov: Fixed::from_int(40),
        ..default_config()
    }
}

proof fn lemma_room_has_boxes(room: &Hittables)
    requires
        room matches Hittables::HittableList(l) && l.list@ == cornell_box_objects(),
    ensures
        has_boxes(room, Fixed::zero(), Fixed::one()),
{
    let l = room->HittableList_0;
    lemma_list_of_rects_has_box(room, Fixed::zero(), Fixed::zero());
    lemma_list_of_rects_has_box(room, Fixed::zero(), Fixed::one());
}

/// A wall, or a wall turned around.
pub open spec fn is_wall(h: &Hittables) -> bool {
    h is Rect || (h matches Hittables::FlipNormals(f) && *f.ptr is Rect)
}

proof fn lemma_wall_has_box(h: &Hittables, t0: Fixed, t1: Fixed)
    requires
        is_wall(h),
    ensures
        h.bounding_box_spec(t0, t1) is Some,
{
    lemma_box_dispatch(h, t0, t1);
    if h is FlipNormals {
        lemma_box_dispatch(&*h->FlipNormals_0.ptr, t0, t1);
    }
}

proof fn lemma_walls_fold(l: &HittableList, t0: Fixed, t1: Fixed, n: nat)
    requires
        1 <= n <= l.list@.len(),
        forall|i: int| 0 <= i < l.list@.len() ==> is_wall(&#[trigger] l.list@[i]),
    ensures
        l.box_fold_spec(t0, t1, n) is Some,
    decreases n,
{
    lemma_wall_has_box(&l.list@[n - 1], t0, t1);
    if n > 1 {
        lemma_walls_fold(l, t0, t1, (n - 1) as nat);
    }
}

proof fn lemma_list_of_rects_has_box(room: &Hittables, t0: Fixed, t1: Fixed)
    requires
        room matches Hittables::HittableList(l) && l.list@ == cornell_box_objects(),
    ensures
        room.bounding_box_spec(t0, t1) is Some,
{
    let l = room->HittableList_0;
    lemma_box_dispatch(room, t0, t1);
    assert forall|i: int| 0 <= i < l.list@.len() implies is_wall(&#[trigger] l.list@[i]) by {
        let objects = cornell_box_objects();
        assert(objects.len() == 6);
        assert(is_wall(&objects[0]));
        assert(is_wall(&objects[1]));
        assert(is_wall(&objects[2]));
        assert(is_wall(&objects[3]));
        assert(is_wall(&objects[4]));
        assert(is_wall(&objects[5]));
    }
    lemma_walls_fold(&l, t0, t1, l.list@.len());
}

/// The room with its two boxes, in a tree, seen through the open side.
pub fn cornell_box_scene() -> (scene: Scene)
    ensures
        scene.camera == Camera::new(cornell_config()),
        scene.hittables is BvhNode,
{
    let mut cam_config = default_config();
    cam_config.lookfrom = Vec3::newi(278, 278, -800);
    cam_config.lookat = Vec3::newi(278, 278, 0);
    cam_config.focus_dist = Fixed::from_int(10);
    cam_config.vfov = Fixed::from_int(40);
    let (box1, box2) = cornell_boxes();
    let room = cornell_box();
    proof {
        lemma_room_has_boxes(&room);
    }
    let mut list: Vec<Hittables> = Vec::new();
    list.push(room);
    list.push(box1);
    list.push(box2);
    Scene {
        camera: Camera::new(cam_config),
        hittables: BvhNode::new(list, Fixed::zero(), Fixed::one(), 0),
    }
}

} // verus!
