//! The scene's lights and the fragment shading model.
//!
//! The GPU evaluates this model per fragment from the uniforms the library
//! supplies: an ambient term (a flat color scaled by an intensity) plus a
//! Lambertian directional term (the dot product of the surface normal and
//! the *normalized* direction toward the light, clamped to zero), both
//! multiplied by the fragment's base color. This module states that model
//! over exact fixed-point values. Normalization itself is irrational and has
//! no exact fixed-point form, so the verified shading takes the direction
//! toward the light as an argument, already normalized by whoever evaluates
//! the model in floating point — on the GPU, the fragment shader normalizes
//! the raw difference that `direction_from` returns. The weight's sign is
//! independent of that step: normalization only scales the direction by a
//! positive factor, and `lemma_direction_scale_preserves_sign` proves that
//! such a scaling cannot change whether the term vanishes.

use crate::mat::{Vec3, Vec4};
use vstd::arithmetic::div_mod::{lemma_div_is_ordered, lemma_div_pos_is_pos};
use vstd::arithmetic::mul::lemma_mul_is_distributive_add;
use vstd::prelude::*;

verus! {

/// Largest coordinate magnitude the shading functions accept; keeps every
/// product comfortably inside the machine integers.
pub const COORD_LIMIT: i64 = 1000000;

/// Largest color component or intensity the shading functions accept.
pub const COLOR_LIMIT: u64 = 1000000000;

/// A color in fixed point: 1000 stands for a channel value of 1.0.
#[derive(Clone, Copy, Debug, PartialEq, Eq, Structural)]
pub struct Rgb {
    pub r: u64,
    pub g: u64,
    pub b: u64,
}

/// The scene's ambient light: a flat color and an intensity.
#[derive(Clone, Copy, Debug, PartialEq, Eq, Structural)]
pub struct AmbientLight {
    pub color: Rgb,
    pub intensity: u64,
}

/// The scene's directional light: a position in homogeneous coordinates and
/// a color.
#[derive(Clone, Copy, Debug, PartialEq, Eq, Structural)]
pub struct DirectionalLight {
    pub position: Vec4,
    pub color: Rgb,
}

/// Dot product of two vectors given by their components.
pub open spec fn spec_dot3(ax: int, ay: int, az: int, bx: int, by: int, bz: int) -> int {
    ax * bx + ay * by + az * bz
}

/// Dot product of two fixed-point vectors.
pub open spec fn spec_dot(a: Vec3, b: Vec3) -> int {
    spec_dot3(a.x as int, a.y as int, a.z as int, b.x as int, b.y as int, b.z as int)
}

/// The Lambert weight of a surface normal against a direction toward the
/// light: the dot product clamped to zero, rescaled from the product of two
/// fixed-point values back to fixed point.
pub open spec fn spec_lambert_weight(normal: Vec3, toward_light: Vec3) -> int {
    if spec_dot(normal, toward_light) > 0 {
        spec_dot(normal, toward_light) / 1000
    } else {
        0
    }
}

/// Raw direction from a fragment toward the light: the light position minus
/// the fragment position, componentwise. The shader normalizes this
/// difference before taking the dot product.
pub open spec fn spec_direction(light: DirectionalLight, frag: Vec3) -> Vec3 {
    Vec3 {
        x: (light.position.x - frag.x) as i64,
        y: (light.position.y - frag.y) as i64,
        z: (light.position.z - frag.z) as i64,
    }
}

impl AmbientLight {
    /// The ambient contribution: the flat color scaled by the intensity.
    pub fn term(&self) -> (t: Rgb)
        requires
            self.color.r <= COLOR_LIMIT,
            self.color.g <= COLOR_LIMIT,
            self.color.b <= COLOR_LIMIT,
            self.intensity <= COLOR_LIMIT,
        ensures
            t.r == self.color.r * self.intensity / 1000,
            t.g == self.color.g * self.intensity / 1000,
            t.b == self.color.b * self.intensity / 1000,
    {
        proof {
            assert(self.color.r * self.intensity <= 1000000000000000000) by (nonlinear_arith)
                requires
                    self.color.r <= 1000000000,
                    self.intensity <= 1000000000,
            ;
            assert(self.color.g * self.intensity <= 1000000000000000000) by (nonlinear_arith)
                requires
                    self.color.g <= 1000000000,
                    self.intensity <= 1000000000,
            ;
            assert(self.color.b * self.intensity <= 1000000000000000000) by (nonlinear_arith)
                requires
                    self.color.b <= 1000000000,
                    self.intensity <= 1000000000,
            ;
        }
        Rgb {
            r: self.color.r * self.intensity / 1000,
            g: self.color.g * self.intensity / 1000,
            b: self.color.b * self.intensity / 1000,
        }
    }
}

impl DirectionalLight {
    /// Raw direction from the fragment toward the light; the caller
    /// normalizes it before handing it to [`DirectionalLight::term`], as the
    /// fragment shader does before its dot product.
    pub fn direction_from(&self, frag: Vec3) -> (d: Vec3)
        requires
            -COORD_LIMIT <= self.position.x <= COORD_LIMIT,
            -COORD_LIMIT <= self.position.y <= COORD_LIMIT,
            -COORD_LIMIT <= self.position.z <= COORD_LIMIT,
            -COORD_LIMIT <= frag.x <= COORD_LIMIT,
            -COORD_LIMIT <= frag.y <= COORD_LIMIT,
            -COORD_LIMIT <= frag.z <= COORD_LIMIT,
        ensures
            d == spec_direction(*self, frag),
            d.x == self.position.x - frag.x,
            d.y == self.position.y - frag.y,
            d.z == self.position.z - frag.z,
    {
        Vec3 {
            x: self.position.x - frag.x,
            y: self.position.y - frag.y,
            z: self.position.z - frag.z,
        }
    }

    /// The directional contribution at a fragment: the Lambert weight of the
    /// surface normal against `toward_light`, applied to the light's color.
    ///
    /// `toward_light` must be the *normalized* direction from the fragment
    /// toward this light for the result to be the shader's: the caller
    /// normalizes the raw difference [`DirectionalLight::direction_from`]
    /// returns, since exact normalization has no fixed-point form. Whether
    /// the term vanishes does not depend on that positive rescaling
    /// (`lemma_direction_scale_preserves_sign`).
    pub fn term(&self, normal: Vec3, toward_light: Vec3) -> (t: Rgb)
        requires
            -2 * COORD_LIMIT <= toward_light.x <= 2 * COORD_LIMIT,
            -2 * COORD_LIMIT <= toward_light.y <= 2 * COORD_LIMIT,
            -2 * COORD_LIMIT <= toward_light.z <= 2 * COORD_LIMIT,
            -2 * COORD_LIMIT <= normal.x <= 2 * COORD_LIMIT,
            -2 * COORD_LIMIT <= normal.y <= 2 * COORD_LIMIT,
            -2 * COORD_LIMIT <= normal.z <= 2 * COORD_LIMIT,
            self.color.r <= COLOR_LIMIT,
            self.color.g <= COLOR_LIMIT,
            self.color.b <= COLOR_LIMIT,
        ensures
            ({
                let w = spec_lambert_weight(normal, toward_light);
                &&& t.r == w * self.color.r / 1000
                &&& t.g == w * self.color.g / 1000
                &&& t.b == w * self.color.b / 1000
            }),
    {
        let w = lambert_weight(normal, toward_light);
        proof {
            assert(w * self.color.r <= 18000000000000000000u64) by (nonlinear_arith)
                requires
                    0 <= w <= 12000000000u64,
                    self.color.r <= 1000000000,
            ;
            assert(w * self.color.g <= 18000000000000000000u64) by (nonlinear_arith)
                requires
                    0 <= w <= 12000000000u64,
                    self.color.g <= 1000000000,
            ;
            assert(w * self.color.b <= 18000000000000000000u64) by (nonlinear_arith)
                requires
                    0 <= w <= 12000000000u64,
                    self.color.b <= 1000000000,
            ;
        }
        Rgb {
            r: w * self.color.r / 1000,
            g: w * self.color.g / 1000,
            b: w * self.color.b / 1000,
        }
    }
}

/// The Lambert weight: the dot product of the surface normal and the given
/// direction toward the light, clamped to zero. The weight is stated exactly
/// over whatever direction is supplied; for the shader's value, supply the
/// normalized direction. `lemma_direction_scale_preserves_sign` shows that
/// normalization, a positive rescaling, cannot change whether the weight
/// vanishes.
pub fn lambert_weight(normal: Vec3, toward_light: Vec3) -> (w: u64)
    requires
        -2 * COORD_LIMIT <= normal.x <= 2 * COORD_LIMIT,
        -2 * COORD_LIMIT <= normal.y <= 2 * COORD_LIMIT,
        -2 * COORD_LIMIT <= normal.z <= 2 * COORD_LIMIT,
        -2 * COORD_LIMIT <= toward_light.x <= 2 * COORD_LIMIT,
        -2 * COORD_LIMIT <= toward_light.y <= 2 * COORD_LIMIT,
        -2 * COORD_LIMIT <= toward_light.z <= 2 * COORD_LIMIT,
    ensures
        w == spec_lambert_weight(normal, toward_light),
        w <= 12000000000u64,
{
    proof {
        assert(-4000000000000 <= normal.x * toward_light.x <= 4000000000000) by (nonlinear_arith)
            requires
                -2000000 <= normal.x <= 2000000,
                -2000000 <= toward_light.x <= 2000000,
        ;
        assert(-4000000000000 <= normal.y * toward_light.y <= 4000000000000) by (nonlinear_arith)
            requires
                -2000000 <= normal.y <= 2000000,
                -2000000 <= toward_light.y <= 2000000,
        ;
        assert(-4000000000000 <= normal.z * toward_light.z <= 4000000000000) by (nonlinear_arith)
            requires
                -2000000 <= normal.z <= 2000000,
                -2000000 <= toward_light.z <= 2000000,
        ;
    }
    let px = normal.x * toward_light.x;
    let py = normal.y * toward_light.y;
    let pz = normal.z * toward_light.z;
    let dot = px + py + pz;
    if dot > 0 {
        proof {
            lemma_div_pos_is_pos(dot as int, 1000);
            lemma_div_is_ordered(dot as int, 12000000000000, 1000);
        }
        (dot as u64) / 1000
    } else {
        0
    }
}

/// One fragment of the shading equation: the ambient and directional
/// contributions are combined additively and applied to the fragment's base
/// color.
pub fn shade_fragment(ambient: Rgb, directional: Rgb, base: Rgb) -> (out: Rgb)
    requires
        ambient.r <= COLOR_LIMIT,
        ambient.g <= COLOR_LIMIT,
        ambient.b <= COLOR_LIMIT,
        directional.r <= COLOR_LIMIT,
        directional.g <= COLOR_LIMIT,
        directional.b <= COLOR_LIMIT,
        base.r <= COLOR_LIMIT,
        base.g <= COLOR_LIMIT,
        base.b <= COLOR_LIMIT,
    ensures
        out.r == (ambient.r + directional.r) * base.r / 1000,
        out.g == (ambient.g + directional.g) * base.g / 1000,
        out.b == (ambient.b + directional.b) * base.b / 1000,
{
    proof {
        assert((ambient.r + directional.r) * base.r <= 2000000000000000000) by (nonlinear_arith)
            requires
                ambient.r + directional.r <= 2000000000,
                base.r <= 1000000000,
        ;
        assert((ambient.g + directional.g) * base.g <= 2000000000000000000) by (nonlinear_arith)
            requires
                ambient.g + directional.g <= 2000000000,
                base.g <= 1000000000,
        ;
        assert((ambient.b + directional.b) * base.b <= 2000000000000000000) by (nonlinear_arith)
            requires
                ambient.b + directional.b <= 2000000000,
                base.b <= 1000000000,
        ;
    }
    Rgb {
        r: (ambient.r + directional.r) * base.r / 1000,
        g: (ambient.g + directional.g) * base.g / 1000,
        b: (ambient.b + directional.b) * base.b / 1000,
    }
}

/// The lights the scene always uses: a white ambient light at intensity 0.2.
pub fn scene_ambient() -> (l: AmbientLight)
    ensures
        l.color == (Rgb { r: 1000, g: 1000, b: 1000 }),
        l.intensity == 200,
{
    AmbientLight { color: Rgb { r: 1000, g: 1000, b: 1000 }, intensity: 200 }
}

/// The lights the scene always uses: a white directional light at
/// (-4, -4, 0, 1) in homogeneous coordinates.
pub fn scene_directional() -> (l: DirectionalLight)
    ensures
        l.position == (Vec4 { x: -4000i64, y: -4000i64, z: 0, w: 1000 }),
        l.color == (Rgb { r: 1000, g: 1000, b: 1000 }),
{
    DirectionalLight {
        position: Vec4 { x: -4000, y: -4000, z: 0, w: 1000 },
        color: Rgb { r: 1000, g: 1000, b: 1000 },
    }
}

/// Directional lighting is never negative, and it is exactly zero whenever
/// the surface normal is orthogonal to or facing away from the light
/// direction — whenever their dot product is at most zero.
pub proof fn lemma_lambert_weight_nonnegative(normal: Vec3, toward_light: Vec3)
    ensures
        spec_lambert_weight(normal, toward_light) >= 0,
        spec_dot(normal, toward_light) <= 0 ==> spec_lambert_weight(normal, toward_light) == 0,
{
    if spec_dot(normal, toward_light) > 0 {
        lemma_div_pos_is_pos(spec_dot(normal, toward_light), 1000);
    }
}

/// The Lambert weight is monotone in the dot product: a surface turned
/// further toward the light is never lit less.
pub proof fn lemma_lambert_weight_monotone(normal: Vec3, d1: Vec3, d2: Vec3)
    requires
        spec_dot(normal, d1) <= spec_dot(normal, d2),
    ensures
        spec_lambert_weight(normal, d1) <= spec_lambert_weight(normal, d2),
{
    if spec_dot(normal, d1) > 0 {
        lemma_div_is_ordered(spec_dot(normal, d1), spec_dot(normal, d2), 1000);
    } else if spec_dot(normal, d2) > 0 {
        lemma_div_pos_is_pos(spec_dot(normal, d2), 1000);
    }
}

/// Scaling the direction toward the light by any positive factor — which is
/// all that normalizing it does — scales the dot product by that factor and
/// therefore cannot change its sign: the Lambert weight vanishes for the
/// scaled direction exactly when it vanishes for the original one.
pub proof fn lemma_direction_scale_preserves_sign(
    nx: int,
    ny: int,
    nz: int,
    dx: int,
    dy: int,
    dz: int,
    k: int,
)
    requires
        k > 0,
    ensures
        spec_dot3(nx, ny, nz, k * dx, k * dy, k * dz) == k * spec_dot3(nx, ny, nz, dx, dy, dz),
        spec_dot3(nx, ny, nz, dx, dy, dz) <= 0 <==> spec_dot3(nx, ny, nz, k * dx, k * dy, k * dz)
            <= 0,
{
    assert(nx * (k * dx) == k * (nx * dx)) by (nonlinear_arith);
    assert(ny * (k * dy) == k * (ny * dy)) by (nonlinear_arith);
    assert(nz * (k * dz) == k * (nz * dz)) by (nonlinear_arith);
    lemma_mul_is_distributive_add(k, nx * dx, ny * dy);
    lemma_mul_is_distributive_add(k, nx * dx + ny * dy, nz * dz);
    assert((nx * dx + ny * dy + nz * dz <= 0) <==> (k * (nx * dx + ny * dy + nz * dz) <= 0))
        by (nonlinear_arith)
        requires
            k > 0,
    ;
}

} // verus!
