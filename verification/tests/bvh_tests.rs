use rtwrs_core::fixed::Fixed;
use rtwrs_core::fixed::SCALE;
use rtwrs_core::hittable::aabb::surrounding_box;
use rtwrs_core::hittable::aabb::AABB;
use rtwrs_core::hittable::bvh_node::nearer;
use rtwrs_core::hittable::bvh_node::next_depth;
use rtwrs_core::hittable::bvh_node::sort_by_axis;
use rtwrs_core::hittable::bvh_node::sort_key;
use rtwrs_core::hittable::bvh_node::split_axis;
use rtwrs_core::hittable::bvh_node::BvhNode;
use rtwrs_core::hittable::hittable_list::HittableList;
use rtwrs_core::hittable::rect::Rect;
use rtwrs_core::hittable::rect::Span;
use rtwrs_core::hittable::rect::StaticAxis;
use rtwrs_core::hittable::sphere::Sphere;
use rtwrs_core::hittable::HitRecord;
use rtwrs_core::hittable::Hittables;
use rtwrs_core::material::Dielectric;
use rtwrs_core::material::MaterialType;
use rtwrs_core::ray::Ray;
use rtwrs_core::sampler::Sampler;
use rtwrs_core::vec3::Vec3;

fn fx_h(v: f64) -> Fixed {
    Fixed::from_raw((v * SCALE as f64).round() as i64)
}

fn glass_h(index: f64) -> MaterialType {
    MaterialType::Dielectric(Dielectric { ref_idx: fx_h(index) })
}

fn ball_h(x: f64, y: f64, z: f64, radius: f64, tag: f64) -> Hittables {
    Hittables::Sphere(Sphere {
        center: Vec3::new(fx_h(x), fx_h(y), fx_h(z)),
        radius: fx_h(radius),
        mat: glass_h(tag),
    })
}

fn tag_of(h: &HitRecord) -> Fixed {
    match h.mat {
        MaterialType::Dielectric(d) => d.ref_idx,
        _ => Fixed::zero(),
    }
}

struct Lcg(u64);

impl Lcg {
    fn next(&mut self) -> f64 {
        self.0 = self.0.wrapping_mul(6364136223846793005).wrapping_add(1442695040888963407);
        ((self.0 >> 11) as f64) / ((1u64 << 53) as f64)
    }

    fn between(&mut self, lo: f64, hi: f64) -> f64 {
        lo + (hi - lo) * self.next()
    }
}

fn crowd(seed: u64, count: usize) -> Vec<Hittables> {
    let mut rng = Lcg(seed);
    let mut objects = Vec::new();
    for i in 0..count {
        let tag = 1.0 + i as f64;
        if i % 4 == 3 {
            let x = rng.between(-20.0, 20.0);
            let y = rng.between(-20.0, 20.0);
            let k = rng.between(-20.0, 20.0);
            objects.push(Rect::new(
                Span::new(fx_h(x), fx_h(x + rng.between(0.5, 6.0))),
                Span::new(fx_h(y), fx_h(y + rng.between(0.5, 6.0))),
                fx_h(k),
                match i % 3 {
                    0 => StaticAxis::X,
                    1 => StaticAxis::Y,
                    _ => StaticAxis::Z,
                },
                glass_h(tag),
            ));
        } else {
            objects.push(ball_h(
                rng.between(-20.0, 20.0),
                rng.between(-20.0, 20.0),
                rng.between(-20.0, 20.0),
                rng.between(0.3, 4.0),
                tag,
            ));
        }
    }
    objects
}

fn compare_tree_and_list(seed: u64, count: usize, rays: usize, least_hits: usize) {
    let tree = BvhNode::new(crowd(seed, count), Fixed::zero(), Fixed::one(), 0);
    let list = HittableList::new(crowd(seed, count));
    let mut rng = Lcg(seed ^ 0x5555);
    let mut sampler = Sampler::new(vec![1]);
    let mut hits = 0;
    for _ in 0..rays {
        let origin = Vec3::new(
            fx_h(rng.between(-40.0, 40.0)),
            fx_h(rng.between(-40.0, 40.0)),
            fx_h(rng.between(-40.0, 40.0)),
        );
        let target = Vec3::new(
            fx_h(rng.between(-15.0, 15.0)),
            fx_h(rng.between(-15.0, 15.0)),
            fx_h(rng.between(-15.0, 15.0)),
        );
        let r = Ray::new(origin, target.sub(origin), Fixed::zero());
        let a = tree.hit(&r, fx_h(0.001), Fixed::max_value(), &mut sampler);
        let b = list.hit(&r, fx_h(0.001), Fixed::max_value(), &mut sampler);
        assert_eq!(a.is_some(), b.is_some());
        if let (Some(a), Some(b)) = (a, b) {
            hits += 1;
            assert_eq!(a.t, b.t);
            assert_eq!(a.point, b.point);
            assert_eq!(a.normal, b.normal);
            assert_eq!(tag_of(&a), tag_of(&b));
        }
    }
    assert!(hits >= least_hits);
    assert_eq!(sampler.cursor, 0);
}

#[test]
fn the_tree_answers_as_the_list_does_for_a_small_scene() {
    compare_tree_and_list(1, 5, 300, 5);
}

#[test]
fn the_tree_answers_as_the_list_does_for_a_crowd() {
    compare_tree_and_list(2, 60, 300, 60);
}

#[test]
fn the_tree_answers_as_the_list_does_for_another_crowd() {
    compare_tree_and_list(3, 33, 300, 30);
}

#[test]
fn a_tree_over_one_object_holds_it_twice() {
    let tree = BvhNode::new(vec![ball_h(1.0, 2.0, 3.0, 1.0, 1.5)], Fixed::zero(), Fixed::one(), 0);
    match &tree {
        Hittables::BvhNode(node) => {
            assert!(matches!(&*node.left, Hittables::Sphere(_)));
            assert!(matches!(&*node.right, Hittables::Sphere(_)));
            assert!(std::sync::Arc::ptr_eq(&node.left, &node.right));
            assert_eq!(
                node.bounding_box,
                AABB { min: Vec3::newi(0, 1, 2), max: Vec3::newi(2, 3, 4) }
            );
        }
        _ => panic!("not a tree"),
    }
    let single = ball_h(1.0, 2.0, 3.0, 1.0, 1.5);
    let mut sampler = Sampler::new(vec![1]);
    let r = Ray::new(Vec3::new(fx_h(1.5), fx_h(2.0), fx_h(10.0)), Vec3::newi(0, 0, -1), Fixed::zero());
    let in_tree = tree.hit(&r, Fixed::zero(), Fixed::max_value(), &mut sampler).unwrap();
    let alone = single.hit(&r, Fixed::zero(), Fixed::max_value(), &mut sampler).unwrap();
    assert_eq!(in_tree.t, alone.t);
    assert_eq!(in_tree.point, alone.point);
    assert_eq!(in_tree.normal, alone.normal);
}

#[test]
fn a_hit_on_the_very_face_of_the_box_is_left_to_the_list() {
    let tree = BvhNode::new(vec![ball_h(1.0, 2.0, 3.0, 1.0, 1.5)], Fixed::zero(), Fixed::one(), 0);
    let list = HittableList::new(vec![ball_h(1.0, 2.0, 3.0, 1.0, 1.5)]);
    let mut sampler = Sampler::new(vec![1]);
    let r = Ray::new(Vec3::newi(1, 2, 10), Vec3::newi(0, 0, -1), Fixed::zero());
    let scanned = list.hit(&r, Fixed::zero(), Fixed::max_value(), &mut sampler).unwrap();
    assert_eq!(scanned.t, Fixed::from_int(6));
    assert!(tree.hit(&r, Fixed::zero(), Fixed::max_value(), &mut sampler).is_none());
}

#[test]
fn a_tree_over_two_objects_holds_one_on_each_side_in_order() {
    let tree = BvhNode::new(
        vec![ball_h(5.0, 0.0, 0.0, 1.0, 2.0), ball_h(-5.0, 0.0, 0.0, 1.0, 1.0)],
        Fixed::zero(),
        Fixed::one(),
        0,
    );
    match &tree {
        Hittables::BvhNode(node) => {
            match (&*node.left, &*node.right) {
                (Hittables::Sphere(l), Hittables::Sphere(r)) => {
                    assert_eq!(l.center, Vec3::newi(-5, 0, 0));
                    assert_eq!(r.center, Vec3::newi(5, 0, 0));
                }
                _ => panic!("two spheres"),
            }
            assert_eq!(
                node.bounding_box,
                AABB { min: Vec3::newi(-6, -1, -1), max: Vec3::newi(6, 1, 1) }
            );
        }
        _ => panic!("not a tree"),
    }
}

#[test]
fn a_tree_over_more_objects_splits_them_in_the_middle() {
    let objects = vec![
        ball_h(9.0, 0.0, 0.0, 1.0, 1.0),
        ball_h(3.0, 0.0, 0.0, 1.0, 2.0),
        ball_h(6.0, 0.0, 0.0, 1.0, 3.0),
        ball_h(0.0, 0.0, 0.0, 1.0, 4.0),
        ball_h(12.0, 0.0, 0.0, 1.0, 5.0),
    ];
    let tree = BvhNode::new(objects, Fixed::zero(), Fixed::one(), 0);
    match &tree {
        Hittables::BvhNode(root) => {
            assert_eq!(
                root.bounding_box,
                AABB { min: Vec3::newi(-1, -1, -1), max: Vec3::newi(13, 1, 1) }
            );
            match (&*root.left, &*root.right) {
                (Hittables::BvhNode(l), Hittables::BvhNode(r)) => {
                    assert_eq!(
                        l.bounding_box,
                        AABB { min: Vec3::newi(-1, -1, -1), max: Vec3::newi(4, 1, 1) }
                    );
                    assert_eq!(
                        r.bounding_box,
                        AABB { min: Vec3::newi(5, -1, -1), max: Vec3::newi(13, 1, 1) }
                    );
                    assert!(matches!(&*l.left, Hittables::Sphere(_)));
                    assert!(matches!(&*r.left, Hittables::BvhNode(_)));
                    assert!(matches!(&*r.right, Hittables::BvhNode(_)));
                }
                _ => panic!("two subtrees"),
            }
        }
        _ => panic!("not a tree"),
    }
}

#[test]
fn the_box_of_a_tree_is_the_union_of_the_boxes_of_its_objects() {
    let objects = crowd(9, 17);
    let mut union: Option<AABB> = None;
    for o in &objects {
        let b = o.bounding_box(Fixed::zero(), Fixed::one()).unwrap();
        union = Some(match union {
            Some(u) => surrounding_box(u, b),
            None => b,
        });
    }
    let tree = BvhNode::new(objects, Fixed::zero(), Fixed::one(), 0);
    assert_eq!(tree.bounding_box(Fixed::zero(), Fixed::one()), union);
    let list = HittableList::new(crowd(9, 17));
    assert_eq!(list.bounding_box(Fixed::zero(), Fixed::one()), union);
}

#[test]
fn sorting_orders_by_the_least_corner_and_keeps_ties_in_place() {
    let mut objects = vec![
        ball_h(4.0, 0.0, 0.0, 1.0, 1.0),
        ball_h(1.0, 5.0, 0.0, 1.0, 2.0),
        ball_h(4.0, -3.0, 0.0, 1.0, 3.0),
        ball_h(-2.0, 9.0, 0.0, 1.0, 4.0),
        ball_h(1.0, 2.0, 0.0, 1.0, 5.0),
    ];
    sort_by_axis(&mut objects, 0);
    let tags: Vec<Fixed> = objects
        .iter()
        .map(|o| match o {
            Hittables::Sphere(s) => match &s.mat {
                MaterialType::Dielectric(d) => d.ref_idx,
                _ => Fixed::zero(),
            },
            _ => Fixed::zero(),
        })
        .collect();
    assert_eq!(tags, vec![fx_h(4.0), fx_h(2.0), fx_h(5.0), fx_h(1.0), fx_h(3.0)]);
    sort_by_axis(&mut objects, 1);
    let keys: Vec<Fixed> = objects.iter().map(|o| sort_key(o, 1)).collect();
    assert_eq!(keys, vec![fx_h(-4.0), fx_h(-1.0), fx_h(1.0), fx_h(4.0), fx_h(8.0)]);
}

#[test]
fn the_split_axis_cycles_with_the_depth() {
    assert_eq!(split_axis(0), 0);
    assert_eq!(split_axis(1), 1);
    assert_eq!(split_axis(2), 2);
    assert_eq!(split_axis(3), 0);
    assert_eq!(split_axis(4), 1);
    assert_eq!(split_axis(-1), 2);
    assert_eq!(split_axis(-3), 0);
    assert_eq!(next_depth(4), 5);
    assert_eq!(next_depth(i32::MAX), i32::MIN);
}

#[test]
fn the_nearer_of_two_hits() {
    let m = glass_h(1.5);
    let rec = |t: i32| HitRecord::new(
        Fixed::from_int(t),
        Fixed::zero(),
        Fixed::zero(),
        Vec3::zero(),
        Vec3::newi(t, 0, 0),
        &m,
    );
    assert_eq!(nearer(Some(rec(1)), Some(rec(2))).map(|h| h.t), Some(Fixed::from_int(1)));
    assert_eq!(nearer(Some(rec(3)), Some(rec(2))).map(|h| h.t), Some(Fixed::from_int(2)));
    assert_eq!(nearer(Some(rec(3)), None).map(|h| h.t), Some(Fixed::from_int(3)));
    assert_eq!(nearer(None, Some(rec(4))).map(|h| h.t), Some(Fixed::from_int(4)));
    assert!(nearer(None, None).is_none());
    let left = HitRecord::new(Fixed::one(), Fixed::zero(), Fixed::zero(), Vec3::zero(), Vec3::newi(1, 0, 0), &m);
    let right = HitRecord::new(Fixed::one(), Fixed::zero(), Fixed::zero(), Vec3::zero(), Vec3::newi(2, 0, 0), &m);
    assert_eq!(nearer(Some(left), Some(right)).map(|h| h.normal), Some(Vec3::newi(2, 0, 0)));
}

#[test]
fn a_list_returns_its_nearest_hit_and_an_empty_list_none() {
    let list = HittableList::new(vec![
        ball_h(0.0, 0.0, -10.0, 1.0, 1.0),
        ball_h(0.0, 0.0, 0.0, 1.0, 2.0),
        ball_h(0.0, 0.0, -5.0, 1.0, 3.0),
    ]);
    let mut sampler = Sampler::new(vec![1]);
    let r = Ray::new(Vec3::newi(0, 0, 5), Vec3::newi(0, 0, -1), Fixed::zero());
    let hit = list.hit(&r, Fixed::zero(), Fixed::max_value(), &mut sampler).unwrap();
    assert_eq!(hit.t, Fixed::from_int(4));
    assert_eq!(tag_of(&hit), fx_h(2.0));
    let empty = HittableList::new(Vec::new());
    assert!(empty.hit(&r, Fixed::zero(), Fixed::max_value(), &mut sampler).is_none());
    assert_eq!(empty.bounding_box(Fixed::zero(), Fixed::one()), None);
}

fn levels_of(h: &Hittables) -> usize {
    match h {
        Hittables::BvhNode(n) => 1 + levels_of(&n.left).max(levels_of(&n.right)),
        _ => 0,
    }
}

#[test]
fn the_tree_is_as_deep_as_the_logarithm_of_its_size() {
    for (count, most) in [(1, 1), (2, 1), (3, 2), (4, 2), (5, 3), (8, 3), (9, 4), (60, 6), (64, 6), (65, 7)] {
        let tree = BvhNode::new(crowd(7, count), Fixed::zero(), Fixed::one(), 0);
        assert_eq!(levels_of(&tree), most, "{} objects", count);
    }
}
