//! A path tracer over fixed-point numbers: scalars and vectors, rays and boxes,
//! textures, materials, the scene primitives with their bounding-volume tree,
//! a camera and the integrator that turns a scene into pixels.
//!
//! Every number is a [`fixed::Fixed`], a signed binary fixed-point scalar with
//! saturating arithmetic, so that each function is total and its contract is an
//! exact statement over integers. Random numbers come from a
//! [`sampler::Sampler`], which replays words drawn in advance, so that an
//! image is a function of the scene, the camera and those words.
//!
//! Beside the contracts of the functions, the crate proves what holds
//! between them: the laws of the union of boxes (`hittable::aabb`), that a
//! moved object is hit as the object itself by the ray moved back
//! (`hittable::translate`), that the tree answers as the plain list does
//! (`hittable::nearest`, `hittable::sound`, `hittable::tame`), that the tree
//! is as deep as the logarithm of its size (`hittable::depth`), and that a
//! render is repeatable (`renderer`).

pub mod fixed;
pub mod vec3;
pub mod ray;
pub mod hittable;
pub mod sampler;
pub mod elementary;
pub mod utils;
pub mod texture;
pub mod material;
pub mod camera;
pub mod renderer;
pub mod scenes;
