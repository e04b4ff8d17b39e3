use vstd::prelude::*;

use crate::surface::FaceKind;

verus! {

/// A ray: an origin and a direction, in whatever vector type the caller computes with.
#[derive(Clone, Copy, Debug)]
pub struct Ray<V> {
    pub origin: V,
    pub direction: V,
}

/// The ray a material sends on from a hit, and the share of light that it keeps per channel.
#[derive(Clone, Copy, Debug)]
pub struct ScatterRecord<V> {
    pub ray: Ray<V>,
    pub attenuation: V,
}

/// Diffuse material: scatters around the surface normal and never absorbs.
#[derive(Clone, Copy, Debug)]
pub struct Lambertian<V> {
    pub albedo: V,
}

/// Mirror-like material whose reflection is blurred by `fuzz`.
#[derive(Clone, Copy, Debug)]
pub struct Metal<V, S> {
    pub albedo: V,
    pub fuzz: S,
}

/// Refractive material with index of refraction `ior`; it never absorbs nor tints.
#[derive(Clone, Copy, Debug)]
pub struct Dielectric<S> {
    pub ior: S,
}

/// The materials a surface can have.
#[derive(Clone, Copy, Debug)]
pub enum Material<V, S> {
    Lambertian(Lambertian<V>),
    Metal(Metal<V, S>),
    Dielectric(Dielectric<S>),
}

impl<V: Copy> Lambertian<V> {
    /// Scatters from `hit_point` along `normal + diffuse`, the normal moved by a random unit
    /// vector. Where that sum is nearly the zero vector (`sum_degenerate`) the ray leaves
    /// along the normal itself. The albedo is the attenuation.
    pub fn scatter(&self, hit_point: V, normal: V, sum: V, sum_degenerate: bool) -> (r:
        ScatterRecord<V>)
        ensures
            r.ray.origin == hit_point,
            r.ray.direction == (if sum_degenerate { normal } else { sum }),
            r.attenuation == self.albedo,
    {
        let direction = if sum_degenerate {
            normal
        } else {
            sum
        };
        ScatterRecord { ray: Ray { origin: hit_point, direction }, attenuation: self.albedo }
    }
}

impl<V: Copy, S> Metal<V, S> {
    /// Scatters from `hit_point` along `fuzzed`, the mirror direction moved by `fuzz` times a
    /// random point of the unit ball, when that direction leaves the surface
    /// (`fuzzed · normal > 0`); otherwise the ray is absorbed.
    pub fn scatter(&self, hit_point: V, fuzzed: V, leaves_surface: bool) -> (r: Option<
        ScatterRecord<V>,
    >)
        ensures
            r == (if leaves_surface {
                Some(ScatterRecord { ray: Ray { origin: hit_point, direction: fuzzed }, attenuation: self.albedo })
            } else {
                None
            }),
    {
        if leaves_surface {
            Some(
                ScatterRecord {
                    ray: Ray { origin: hit_point, direction: fuzzed },
                    attenuation: self.albedo,
                },
            )
        } else {
            None
        }
    }
}

impl<S: Copy> Dielectric<S> {
    /// The refractive indices `(n1, n2)` on the incident side and on the far side, for a
    /// boundary between an `outside` medium and this material: a ray meeting the front
    /// face enters the material, one meeting the back face leaves it. For a solid in
    /// vacuum, as in a scene of this library's renderer, `outside` is 1.
    pub fn indices(&self, face: FaceKind, outside: S) -> (r: (S, S))
        ensures
            r == (match face {
                FaceKind::Front => (outside, self.ior),
                FaceKind::Back => (self.ior, outside),
            }),
    {
        match face {
            FaceKind::Front => (outside, self.ior),
            FaceKind::Back => (self.ior, outside),
        }
    }

    /// Scatters from `hit_point`, reflecting where refraction is impossible
    /// (`cannot_refract`) or where the sampled Fresnel reflectance says so
    /// (`reflect_sampled`), refracting otherwise. The attenuation is `clear`: a
    /// dielectric does not tint light, so callers pass the colour (1, 1, 1) that keeps all
    /// of it. The ray is never absorbed.
    pub fn scatter<V>(
        &self,
        hit_point: V,
        reflected: V,
        refracted: V,
        cannot_refract: bool,
        reflect_sampled: bool,
        clear: V,
    ) -> (r: ScatterRecord<V>)
        ensures
            r.ray.origin == hit_point,
            r.ray.direction == (if cannot_refract || reflect_sampled {
                reflected
            } else {
                refracted
            }),
            r.attenuation == clear,
    {
        let direction = if cannot_refract || reflect_sampled {
            reflected
        } else {
            refracted
        };
        ScatterRecord { ray: Ray { origin: hit_point, direction }, attenuation: clear }
    }
}

} // verus!
