//! Materials: how a surface scatters a ray that hits it, and what light it
//! gives off.

use vstd::prelude::*;
use crate::fixed::Fixed;
use crate::hittable::HitRecord;
use crate::material::utils::random_in_unit_sphere;
use crate::material::utils::reflect;
use crate::material::utils::refract;
use crate::material::utils::schlick;
use crate::material::utils::sphere_point_spec;
use crate::material::utils::MAX_TRIES;
use crate::ray::Ray;
use crate::sampler::Sampler;
use crate::sampler::Stream;
use crate::texture::TextureType;
use crate::vec3::Vec3;

pub mod utils;

verus! {

/// The closed set of materials.
#[derive(Debug)]
pub enum MaterialType {
    Lambertian(Lambertian),
    Metal(Metal),
    Dielectric(Dielectric),
    DiffuseLight(DiffuseLight),
    Isotropic(Isotropic),
}

/// A diffuse surface.
#[derive(Debug)]
pub struct Lambertian {
    pub albedo: TextureType,
}

/// A mirror, more or less polished.
#[derive(Debug)]
pub struct Metal {
    pub albedo: Vec3,
    pub fuzz: Fixed,
}

/// A clear material that refracts, such as glass.
#[derive(Clone, Copy, PartialEq, Eq, Structural, Debug)]
pub struct Dielectric {
    pub ref_idx: Fixed,
}

/// A surface that gives off light and scatters none.
#[derive(Debug)]
pub struct DiffuseLight {
    pub emit: TextureType,
}

/// The material of a medium that scatters evenly in every direction.
#[derive(Debug)]
pub struct Isotropic {
    pub albedo: TextureType,
}

impl Clone for Lambertian {
    fn clone(&self) -> (r: Self)
        ensures
            r == *self,
    {
        Lambertian { albedo: self.albedo.clone() }
    }
}

impl Clone for Metal {
    fn clone(&self) -> (r: Self)
        ensures
            r == *self,
    {
        Metal { albedo: self.albedo, fuzz: self.fuzz }
    }
}

impl Clone for DiffuseLight {
    fn clone(&self) -> (r: Self)
        ensures
            r == *self,
    {
        DiffuseLight { emit: self.emit.clone() }
    }
}

impl Clone for Isotropic {
    fn clone(&self) -> (r: Self)
        ensures
            r == *self,
    {
        Isotropic { albedo: self.albedo.clone() }
    }
}

impl Clone for MaterialType {
    /// A copy that shares its image bytes and noise tables with `self`.
    fn clone(&self) -> (r: Self)
        ensures
            r == *self,
    {
        match self {
            MaterialType::Lambertian(m) => MaterialType::Lambertian(m.clone()),
            MaterialType::Metal(m) => MaterialType::Metal(m.clone()),
            MaterialType::Dielectric(m) => MaterialType::Dielectric(*m),
            MaterialType::DiffuseLight(m) => MaterialType::DiffuseLight(m.clone()),
            MaterialType::Isotropic(m) => MaterialType::Isotropic(m.clone()),
        }
    }
}

impl Lambertian {
    /// The diffuse material with the given albedo.
    #[allow(clippy::new_ret_no_self)]
    pub fn new(albedo: TextureType) -> (m: MaterialType)
        ensures
            m == MaterialType::Lambertian(Lambertian { albedo }),
    {
        MaterialType::Lambertian(Lambertian { albedo })
    }

    /// The scattered ray leaves the hit point toward
    /// `point + normal + a random point inside the unit sphere`, at the time
    /// of the incoming ray; the attenuation is the albedo at the hit.
    pub open spec fn scatter_spec(&self, ray: &Ray, hit: &HitRecord, sampler: Stream) -> (
        Option<(Ray, Vec3)>,
        Stream,
    ) {
        let drawn = sphere_point_spec(sampler, MAX_TRIES as nat);
        let target = hit.point.add(hit.normal).add(drawn.0);
        (
            Some(
                (
                    Ray::new(hit.point, target.sub(hit.point), ray.time),
                    self.albedo.value(hit.u, hit.v, hit.point),
                ),
            ),
            drawn.1,
        )
    }

    /// Diffuse reflection. Always scatters.
    pub fn scatter(&self, ray: &Ray, hit: &HitRecord, sampler: &mut Sampler) -> (r: Option<
        (Ray, Vec3),
    >)
        ensures
            (r, final(sampler)@) == self.scatter_spec(ray, hit, old(sampler)@),
            r is Some,
    {
        let target = hit.point.add(hit.normal).add(random_in_unit_sphere(sampler));
        Some(
            (
                Ray::new(hit.point, target.sub(hit.point), ray.time),
                self.albedo.value(hit.u, hit.v, hit.point),
            ),
        )
    }
}

impl Metal {
    /// The fuzz kept within zero and one.
    pub open spec fn fuzz_spec(&self) -> Fixed {
        if self.fuzz.raw < 0 {
            Fixed::zero()
        } else if self.fuzz.lt(Fixed::one()) {
            self.fuzz
        } else {
            Fixed::one()
        }
    }

    /// The direction of the scattered ray: the unit direction of the incoming
    /// ray mirrored at the surface, plus the fuzz times `drawn`.
    pub open spec fn scattered_direction(&self, ray: &Ray, hit: &HitRecord, drawn: Vec3) -> Vec3 {
        reflect(ray.direction.unit(), hit.normal).add(drawn.scale(self.fuzz_spec()))
    }

    /// The mirrored ray, disturbed by a random point inside the unit sphere,
    /// with the albedo as attenuation; nothing where the disturbed direction
    /// does not leave the surface.
    pub open spec fn scatter_spec(&self, ray: &Ray, hit: &HitRecord, sampler: Stream) -> (
        Option<(Ray, Vec3)>,
        Stream,
    ) {
        let drawn = sphere_point_spec(sampler, MAX_TRIES as nat);
        let direction = self.scattered_direction(ray, hit, drawn.0);
        if direction.dot(hit.normal).raw > 0 {
            (Some((Ray::new(hit.point, direction, ray.time), self.albedo)), drawn.1)
        } else {
            (None, drawn.1)
        }
    }

    /// Fuzzy mirror reflection. The ray is absorbed where the scattered
    /// direction points into the surface.
    pub fn scatter(&self, ray: &Ray, hit: &HitRecord, sampler: &mut Sampler) -> (r: Option<
        (Ray, Vec3),
    >)
        ensures
            (r, final(sampler)@) == self.scatter_spec(ray, hit, old(sampler)@),
            r is Some <==> self.scattered_direction(
                ray,
                hit,
                sphere_point_spec(old(sampler)@, MAX_TRIES as nat).0,
            ).dot(hit.normal).raw > 0,
    {
        let fuzz = if self.fuzz.raw < 0 {
            Fixed::zero()
        } else if self.fuzz.lt(Fixed::one()) {
            self.fuzz
        } else {
            Fixed::one()
        };
        let reflected = reflect(ray.direction.unit(), hit.normal);
        let scattered = Ray::new(
            hit.point,
            reflected.add(random_in_unit_sphere(sampler).scale(fuzz)),
            ray.time,
        );
        if scattered.direction.dot(hit.normal).raw > 0 {
            Some((scattered, self.albedo))
        } else {
            None
        }
    }
}

impl Dielectric {
    /// The ray meets the surface from inside the material.
    pub open spec fn leaving(ray: &Ray, hit: &HitRecord) -> bool {
        ray.direction.dot(hit.normal).raw > 0
    }

    /// The normal on the side that the ray comes from.
    pub open spec fn outward_normal(ray: &Ray, hit: &HitRecord) -> Vec3 {
        if Dielectric::leaving(ray, hit) {
            hit.normal.neg()
        } else {
            hit.normal
        }
    }

    /// The ratio of the refractive indices: from the material's into air for
    /// a leaving ray, the inverse for an entering one.
    pub open spec fn index_ratio(&self, ray: &Ray, hit: &HitRecord) -> Fixed {
        if Dielectric::leaving(ray, hit) {
            self.ref_idx
        } else {
            Fixed::one().div(self.ref_idx)
        }
    }

    /// The cosine that the reflectance is taken at.
    pub open spec fn cosine(&self, ray: &Ray, hit: &HitRecord) -> Fixed {
        if Dielectric::leaving(ray, hit) {
            self.ref_idx.mul(ray.direction.dot(hit.normal)).div(ray.direction.norm())
        } else {
            ray.direction.dot(hit.normal).neg().div(ray.direction.norm())
        }
    }

    /// The scattered direction for the uniform draw `chance`: the refracted
    /// direction where refraction is possible and `chance` is above the
    /// reflectance, and the mirrored direction otherwise.
    pub open spec fn choose_direction(&self, ray: &Ray, hit: &HitRecord, chance: Fixed) -> Vec3 {
        match refract(
            ray.direction,
            Dielectric::outward_normal(ray, hit),
            self.index_ratio(ray, hit),
        ) {
            Some(refracted) => if chance.gt(schlick(self.cosine(ray, hit), self.ref_idx)) {
                refracted
            } else {
                reflect(ray.direction, hit.normal)
            },
            None => reflect(ray.direction, hit.normal),
        }
    }

    /// The ray from the hit point along the chosen direction, at time zero,
    /// with the attenuation one. One scalar is drawn where refraction is
    /// possible, and none otherwise.
    pub open spec fn scatter_spec(&self, ray: &Ray, hit: &HitRecord, sampler: Stream) -> (
        Option<(Ray, Vec3)>,
        Stream,
    ) {
        let can_refract = refract(
            ray.direction,
            Dielectric::outward_normal(ray, hit),
            self.index_ratio(ray, hit),
        ) is Some;
        (
            Some(
                (
                    Ray::new(
                        hit.point,
                        self.choose_direction(ray, hit, sampler.unit()),
                        Fixed::zero(),
                    ),
                    Vec3::one(),
                ),
            ),
            if can_refract {
                sampler.advance()
            } else {
                sampler
            },
        )
    }

    /// Refraction or reflection at a clear surface. Always scatters, and
    /// takes no light away: the attenuation is one in every channel.
    pub fn scatter(&self, ray: &Ray, hit: &HitRecord, sampler: &mut Sampler) -> (r: Option<
        (Ray, Vec3),
    >)
        ensures
            (r, final(sampler)@) == self.scatter_spec(ray, hit, old(sampler)@),
            r matches Some((_, attenuation)) && attenuation == Vec3::one(),
    {
        let reflected = reflect(ray.direction, hit.normal);
        let attenuation = Vec3::one();
        let outward_normal: Vec3;
        let ni_over_nt: Fixed;
        let cosine: Fixed;
        if ray.direction.dot(hit.normal).raw > 0 {
            outward_normal = hit.normal.neg();
            ni_over_nt = self.ref_idx;
            cosine = self.ref_idx.mul(ray.direction.dot(hit.normal)).div(ray.direction.norm());
        } else {
            outward_normal = hit.normal;
            ni_over_nt = Fixed::one().div(self.ref_idx);
            cosine = ray.direction.dot(hit.normal).neg().div(ray.direction.norm());
        }
        let scattered = match refract(ray.direction, outward_normal, ni_over_nt) {
            Some(refracted) => {
                if sampler.next_unit().gt(schlick(cosine, self.ref_idx)) {
                    refracted
                } else {
                    reflected
                }
            },
            None => reflected,
        };
        Some((Ray::new(hit.point, scattered, Fixed::zero()), attenuation))
    }
}

impl DiffuseLight {
    /// The light with the given emission.
    #[allow(clippy::new_ret_no_self)]
    pub fn new(emit: TextureType) -> (m: MaterialType)
        ensures
            m == MaterialType::DiffuseLight(DiffuseLight { emit }),
    {
        MaterialType::DiffuseLight(DiffuseLight { emit })
    }

    /// A light scatters nothing.
    pub fn scatter(&self, ray: &Ray, hit: &HitRecord, sampler: &mut Sampler) -> (r: Option<
        (Ray, Vec3),
    >)
        ensures
            r is None,
            final(sampler)@ == old(sampler)@,
    {
        None
    }

    pub open spec fn emitted_spec(&self, u: Fixed, v: Fixed, p: Vec3) -> Vec3 {
        self.emit.value(u, v, p)
    }

    /// The light given off at the surface coordinates `(u, v)` and the point
    /// `p`: the value of the emission texture there.
    #[verifier::when_used_as_spec(emitted_spec)]
    pub fn emitted(&self, u: Fixed, v: Fixed, p: Vec3) -> (c: Vec3)
        ensures
            c == self.emitted_spec(u, v, p),
    {
        self.emit.value(u, v, p)
    }
}

impl Isotropic {
    /// The isotropic material with the given albedo.
    #[allow(clippy::new_ret_no_self)]
    pub fn new(albedo: TextureType) -> (m: MaterialType)
        ensures
            m == MaterialType::Isotropic(Isotropic { albedo }),
    {
        MaterialType::Isotropic(Isotropic { albedo })
    }

    /// The scattered ray leaves the hit point along a random point inside the
    /// unit sphere (not brought to unit length), at time zero; the
    /// attenuation is the albedo at the hit.
    pub open spec fn scatter_spec(&self, ray: &Ray, hit: &HitRecord, sampler: Stream) -> (
        Option<(Ray, Vec3)>,
        Stream,
    ) {
        let drawn = sphere_point_spec(sampler, MAX_TRIES as nat);
        (
            Some(
                (
                    Ray::new(hit.point, drawn.0, Fixed::zero()),
                    self.albedo.value(hit.u, hit.v, hit.point),
                ),
            ),
            drawn.1,
        )
    }

    /// Scattering in a random direction. Always scatters.
    pub fn scatter(&self, ray: &Ray, hit: &HitRecord, sampler: &mut Sampler) -> (r: Option<
        (Ray, Vec3),
    >)
        ensures
            (r, final(sampler)@) == self.scatter_spec(ray, hit, old(sampler)@),
            r is Some,
    {
        let scattered = Ray::new(hit.point, random_in_unit_sphere(sampler), Fixed::zero());
        let attenuation = self.albedo.value(hit.u, hit.v, hit.point);
        Some((scattered, attenuation))
    }
}

impl MaterialType {
    #[verifier::opaque]
    pub open spec fn scatter_spec(&self, ray: &Ray, hit: &HitRecord, sampler: Stream) -> (
        Option<(Ray, Vec3)>,
        Stream,
    ) {
        match self {
            MaterialType::Lambertian(m) => m.scatter_spec(ray, hit, sampler),
            MaterialType::Metal(m) => m.scatter_spec(ray, hit, sampler),
            MaterialType::Dielectric(m) => m.scatter_spec(ray, hit, sampler),
            MaterialType::DiffuseLight(m) => (None, sampler),
            MaterialType::Isotropic(m) => m.scatter_spec(ray, hit, sampler),
        }
    }

    /// What the material makes of the ray that hit it: the scattered ray and
    /// the attenuation that the path is weighted by from there on, or nothing
    /// where the path ends.
    pub fn scatter(&self, ray: &Ray, hit: &HitRecord, sampler: &mut Sampler) -> (r: Option<
        (Ray, Vec3),
    >)
        ensures
            (r, final(sampler)@) == self.scatter_spec(ray, hit, old(sampler)@),
            self is DiffuseLight ==> r is None,
            self is Dielectric ==> (r matches Some((_, attenuation)) && attenuation == Vec3::one()),
            self is Lambertian || self is Isotropic ==> r is Some,
    {
        reveal(MaterialType::scatter_spec);
        match self {
            MaterialType::Lambertian(m) => m.scatter(ray, hit, sampler),
            MaterialType::Metal(m) => m.scatter(ray, hit, sampler),
            MaterialType::Dielectric(m) => m.scatter(ray, hit, sampler),
            MaterialType::DiffuseLight(m) => m.scatter(ray, hit, sampler),
            MaterialType::Isotropic(m) => m.scatter(ray, hit, sampler),
        }
    }

    pub open spec fn emitted_spec(&self, u: Fixed, v: Fixed, p: Vec3) -> Vec3 {
        match self {
            MaterialType::DiffuseLight(m) => m.emitted(u, v, p),
            _ => Vec3::zero(),
        }
    }

    /// The light that the material gives off: zero, but for a light.
    #[verifier::when_used_as_spec(emitted_spec)]
    pub fn emitted(&self, u: Fixed, v: Fixed, p: Vec3) -> (c: Vec3)
        ensures
            c == self.emitted_spec(u, v, p),
            !(self is DiffuseLight) ==> c == Vec3::zero(),
    {
        match self {
            MaterialType::DiffuseLight(m) => m.emitted(u, v, p),
            _ => Vec3::zero(),
        }
    }
}

/// What every material offers: it scatters a ray or ends its path, and it
/// may give off light.
pub trait Material: Clone {
    /// What `scatter` returns, and the sampler that it leaves.
    spec fn scatter_of(&self, ray: &Ray, hit: &HitRecord, sampler: Stream) -> (
        Option<(Ray, Vec3)>,
        Stream,
    );

    /// The light that `emitted` returns.
    spec fn emitted_of(&self, u: Fixed, v: Fixed, point: Vec3) -> Vec3;

    /// The scattered ray and the attenuation, or nothing where the path ends.
    fn scatter(&self, ray: &Ray, hit: &HitRecord, sampler: &mut Sampler) -> (r: Option<(Ray, Vec3)>)
        ensures
            (r, final(sampler)@) == self.scatter_of(ray, hit, old(sampler)@),
    ;

    /// The light given off at the surface coordinates `(u, v)` and the point.
    fn emitted(&self, u: Fixed, v: Fixed, point: Vec3) -> (c: Vec3)
        ensures
            c == self.emitted_of(u, v, point),
    ;
}

impl Material for Lambertian {
    open spec fn scatter_of(&self, ray: &Ray, hit: &HitRecord, sampler: Stream) -> (
        Option<(Ray, Vec3)>,
        Stream,
    ) {
        self.scatter_spec(ray, hit, sampler)
    }

    open spec fn emitted_of(&self, u: Fixed, v: Fixed, point: Vec3) -> Vec3 {
        Vec3::zero()
    }

    fn scatter(&self, ray: &Ray, hit: &HitRecord, sampler: &mut Sampler) -> (r: Option<(Ray, Vec3)>) {
        Lambertian::scatter(self, ray, hit, sampler)
    }

    fn emitted(&self, u: Fixed, v: Fixed, point: Vec3) -> (c: Vec3) {
        Vec3::zero()
    }
}

impl Material for Metal {
    open spec fn scatter_of(&self, ray: &Ray, hit: &HitRecord, sampler: Stream) -> (
        Option<(Ray, Vec3)>,
        Stream,
    ) {
        self.scatter_spec(ray, hit, sampler)
    }

    open spec fn emitted_of(&self, u: Fixed, v: Fixed, point: Vec3) -> Vec3 {
        Vec3::zero()
    }

    fn scatter(&self, ray: &Ray, hit: &HitRecord, sampler: &mut Sampler) -> (r: Option<(Ray, Vec3)>) {
        Metal::scatter(self, ray, hit, sampler)
    }

    fn emitted(&self, u: Fixed, v: Fixed, point: Vec3) -> (c: Vec3) {
        Vec3::zero()
    }
}

impl Material for Dielectric {
    open spec fn scatter_of(&self, ray: &Ray, hit: &HitRecord, sampler: Stream) -> (
        Option<(Ray, Vec3)>,
        Stream,
    ) {
        self.scatter_spec(ray, hit, sampler)
    }

    open spec fn emitted_of(&self, u: Fixed, v: Fixed, point: Vec3) -> Vec3 {
        Vec3::zero()
    }

    fn scatter(&self, ray: &Ray, hit: &HitRecord, sampler: &mut Sampler) -> (r: Option<(Ray, Vec3)>) {
        Dielectric::scatter(self, ray, hit, sampler)
    }

    fn emitted(&self, u: Fixed, v: Fixed, point: Vec3) -> (c: Vec3) {
        Vec3::zero()
    }
}

impl Material for DiffuseLight {
    open spec fn scatter_of(&self, ray: &Ray, hit: &HitRecord, sampler: Stream) -> (
        Option<(Ray, Vec3)>,
        Stream,
    ) {
        (None, sampler)
    }

    open spec fn emitted_of(&self, u: Fixed, v: Fixed, point: Vec3) -> Vec3 {
        self.emitted_spec(u, v, point)
    }

    fn scatter(&self, ray: &Ray, hit: &HitRecord, sampler: &mut Sampler) -> (r: Option<(Ray, Vec3)>) {
        DiffuseLight::scatter(self, ray, hit, sampler)
    }

    fn emitted(&self, u: Fixed, v: Fixed, point: Vec3) -> (c: Vec3) {
        DiffuseLight::emitted(self, u, v, point)
    }
}

impl Material for Isotropic {
    open spec fn scatter_of(&self, ray: &Ray, hit: &HitRecord, sampler: Stream) -> (
        Option<(Ray, Vec3)>,
        Stream,
    ) {
        self.scatter_spec(ray, hit, sampler)
    }

    open spec fn emitted_of(&self, u: Fixed, v: Fixed, point: Vec3) -> Vec3 {
        Vec3::zero()
    }

    fn scatter(&self, ray: &Ray, hit: &HitRecord, sampler: &mut Sampler) -> (r: Option<(Ray, Vec3)>) {
        Isotropic::scatter(self, ray, hit, sampler)
    }

    fn emitted(&self, u: Fixed, v: Fixed, point: Vec3) -> (c: Vec3) {
        Vec3::zero()
    }
}

impl Material for MaterialType {
    open spec fn scatter_of(&self, ray: &Ray, hit: &HitRecord, sampler: Stream) -> (
        Option<(Ray, Vec3)>,
        Stream,
    ) {
        self.scatter_spec(ray, hit, sampler)
    }

    open spec fn emitted_of(&self, u: Fixed, v: Fixed, point: Vec3) -> Vec3 {
        self.emitted_spec(u, v, point)
    }

    fn scatter(&self, ray: &Ray, hit: &HitRecord, sampler: &mut Sampler) -> (r: Option<(Ray, Vec3)>) {
        MaterialType::scatter(self, ray, hit, sampler)
    }

    fn emitted(&self, u: Fixed, v: Fixed, point: Vec3) -> (c: Vec3) {
        MaterialType::emitted(self, u, v, point)
    }
}

/// What the material of the hit makes of the ray: see `MaterialType::scatter`.
pub fn scatter(ray_in: &Ray, rec: &HitRecord, sampler: &mut Sampler) -> (r: Option<(Ray, Vec3)>)
    ensures
        (r, final(sampler)@) == rec.mat.scatter_spec(ray_in, rec, old(sampler)@),
{
    rec.mat.scatter(ray_in, rec, sampler)
}

} // verus!
