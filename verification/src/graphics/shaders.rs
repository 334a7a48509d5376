//! The stock stages: a matrix transform for vertices, Phong lighting and a
//! flat colour for fragments, and depth-tested alpha blending.

use vstd::prelude::*;
use crate::graphics::attributes::{
    pack_channel, packed_channel, FragmentAttributes, FrameBufferAttributes, PackedColor,
    UniformAttributes, VertexAttributes,
};
use crate::graphics::fixed::{
    divide, floor_div, lemma_mul_bounded, multiply, product, quotient, ONE,
};
use crate::graphics::linear::{Vec3, Vec4};
use crate::graphics::primitives::Camera;
use crate::graphics::raster::{BlendingShader, FragmentShader, VertexShader};

verus! {

/// The vertex stage that leaves every vertex as it is.
pub struct PassThrough;

/// The vertex stage that applies the matrices of the uniform bundle: the
/// position goes through model, view and projection, the normal through the
/// normal matrix, and the fragment position is the position in world space.
pub struct MatrixTransform;

/// The fragment stage that gives every fragment the same colour.
pub struct FlatColor {
    pub color: Vec4,
}

/// The fragment stage that lights a fragment by one point light: a diffuse
/// and a specular term, weakened by the squared distance to the light.
pub struct PhongLighting;

/// The blending stage that composites a fragment over the previous colour
/// by its alpha, and keeps the result only where the fragment is nearer than
/// what the cell holds.
pub struct DepthTestedBlend;

/// The first three components of a homogeneous point.
pub open spec fn truncated(v: Vec4) -> Vec3 {
    Vec3 { x: v.x, y: v.y, z: v.z }
}

/// A direction as a homogeneous vector, with `w = 0`.
pub open spec fn direction(v: Vec3) -> Vec4 {
    Vec4 { x: v.x, y: v.y, z: v.z, w: 0 }
}

/// The larger of `x` and zero.
pub open spec fn at_least_zero(x: int) -> int {
    if x < 0 {
        0
    } else {
        x
    }
}

/// `base` multiplied with itself `n` times, starting from one.
pub open spec fn power(base: int, n: nat) -> int
    decreases n,
{
    if n == 0 {
        ONE as int
    } else {
        product(power(base, (n - 1) as nat), base)
    }
}

/// The exponent that a shininess stands for: its whole part, and zero for a
/// negative shininess.
pub open spec fn exponent(shininess: i32) -> nat {
    if shininess <= 0 {
        0
    } else {
        (shininess / ONE) as nat
    }
}

/// The quotient of two scalars. Division by zero gives the largest scalar
/// with the sign of the dividend, and zero for zero.
pub open spec fn ratio(a: int, b: int) -> int {
    if b != 0 {
        quotient(a, b)
    } else if a > 0 {
        i32::MAX as int
    } else if a < 0 {
        i32::MIN as int
    } else {
        0
    }
}

/// The direction from a fragment to the viewer: towards the camera for a
/// perspective camera, along the negative depth axis for an orthographic one.
pub open spec fn view_direction(camera: Camera, frag_pos: Vec3) -> Vec3 {
    if camera.is_perspective {
        camera.position.minus_spec(frag_pos).unit()
    } else {
        Vec3 { x: 0, y: 0, z: (-ONE) as i32 }
    }
}

/// The colour that Phong lighting gives a fragment.
pub open spec fn phong_color(va: VertexAttributes, uniform: UniformAttributes) -> Vec3 {
    let n = va.normal;
    let v = view_direction(uniform.camera, va.frag_pos);
    let to_light = uniform.light.position.minus_spec(va.frag_pos);
    let li = to_light.unit();
    let diffuse = uniform.material.diffuse_color.scaled_spec(
        at_least_zero(li.dot_spec(n)) as i32,
    );
    let highlight = power(
        at_least_zero(n.dot_spec(li.plus_spec(v).unit())),
        exponent(uniform.material.shininess),
    );
    let specular = uniform.material.specular_color.scaled_spec(highlight as i32);
    let lit = diffuse.plus_spec(specular).times_spec(uniform.light.intensity);
    let falloff = to_light.dot_spec(to_light);
    Vec3 {
        x: ratio(lit.x as int, falloff) as i32,
        y: ratio(lit.y as int, falloff) as i32,
        z: ratio(lit.z as int, falloff) as i32,
    }
}

/// One channel of a fragment composited over the previous channel.
pub open spec fn over(fragment: int, alpha: int, previous: int) -> int {
    floor_div(fragment * alpha + previous * (ONE - alpha), ONE as int)
}

/// The colour of a fragment composited over the previous colour.
pub open spec fn composite(color: Vec4, previous: Vec4) -> PackedColor {
    PackedColor {
        r: packed_channel(over(color.x as int, color.w as int, previous.x as int)),
        g: packed_channel(over(color.y as int, color.w as int, previous.y as int)),
        b: packed_channel(over(color.z as int, color.w as int, previous.z as int)),
        a: packed_channel(over(color.w as int, color.w as int, previous.w as int)),
    }
}

fn clamp_below(x: i32) -> (r: i32)
    ensures
        r == at_least_zero(x as int),
{
    if x < 0 {
        0
    } else {
        x
    }
}

/// Raises `base` to the whole part of `shininess`.
fn raise(base: i32, shininess: i32) -> (r: i32)
    ensures
        r == power(base as int, exponent(shininess)),
{
    let n: i32 = if shininess <= 0 {
        0
    } else {
        shininess / 65536
    };
    let mut p: i32 = ONE;
    let mut k: i32 = 0;
    while k < n
        invariant
            0 <= k <= n,
            n == exponent(shininess),
            p == power(base as int, k as nat),
        decreases n - k,
    {
        p = multiply(p, base);
        k = k + 1;
    }
    p
}

fn divide_or_saturate(a: i32, b: i32) -> (r: i32)
    ensures
        r == ratio(a as int, b as int),
{
    if b != 0 {
        divide(a, b)
    } else if a > 0 {
        2147483647
    } else if a < 0 {
        -2147483648
    } else {
        0
    }
}

fn composite_channel(fragment: i32, alpha: i32, previous: i32) -> (r: u8)
    requires
        0 <= previous <= ONE,
    ensures
        r == packed_channel(over(fragment as int, alpha as int, previous as int)),
{
    proof {
        lemma_mul_bounded(fragment as int, alpha as int, 0x8000_0000, 0x8000_0000);
        lemma_mul_bounded(previous as int, ONE - alpha, 0x1_0000, 0x8001_0000);
        crate::graphics::fixed::lemma_floor_div_magnitude(
            fragment * alpha + previous * (ONE - alpha),
            ONE as int,
            0x8000_0000int * 0x8000_0000int + 0x1_0000int * 0x8001_0000int,
        );
    }
    let mixed: i128 = (fragment as i128) * (alpha as i128) + (previous as i128) * (65536
        - alpha as i128);
    pack_channel(crate::graphics::fixed::div_floor(mixed, 65536))
}

impl VertexShader for PassThrough {
    open spec fn transformed(
        &self,
        va: VertexAttributes,
        uniform: UniformAttributes,
    ) -> VertexAttributes {
        va
    }

    fn transform(&self, va: VertexAttributes, uniform: &UniformAttributes) -> (r:
        VertexAttributes) {
        va
    }
}

impl VertexShader for MatrixTransform {
    open spec fn transformed(
        &self,
        va: VertexAttributes,
        uniform: UniformAttributes,
    ) -> VertexAttributes {
        let world = uniform.model_matrix.apply(va.position);
        VertexAttributes {
            position: uniform.projection_matrix.apply(uniform.view_matrix.apply(world)),
            normal: truncated(uniform.normal_matrix.apply(direction(va.normal))),
            frag_pos: truncated(world),
        }
    }

    fn transform(&self, va: VertexAttributes, uniform: &UniformAttributes) -> (r:
        VertexAttributes) {
        let world = uniform.model_matrix.mul_vec4(va.position);
        let eye = uniform.view_matrix.mul_vec4(world);
        VertexAttributes {
            position: uniform.projection_matrix.mul_vec4(eye),
            normal: uniform.normal_matrix.mul_vec4(va.normal.extend(0)).truncate(),
            frag_pos: world.truncate(),
        }
    }
}

impl FragmentShader for FlatColor {
    open spec fn shaded(
        &self,
        va: VertexAttributes,
        uniform: UniformAttributes,
    ) -> FragmentAttributes {
        FragmentAttributes {
            color: self.color,
            position: truncated(va.position),
            normal: va.normal,
        }
    }

    fn shade(&self, va: VertexAttributes, uniform: &UniformAttributes) -> (r:
        FragmentAttributes) {
        FragmentAttributes::new(self.color, va.position.truncate(), va.normal)
    }
}

impl FragmentShader for PhongLighting {
    open spec fn shaded(
        &self,
        va: VertexAttributes,
        uniform: UniformAttributes,
    ) -> FragmentAttributes {
        let c = phong_color(va, uniform);
        FragmentAttributes {
            color: Vec4 { x: c.x, y: c.y, z: c.z, w: ONE },
            position: truncated(va.position),
            normal: va.normal,
        }
    }

    fn shade(&self, va: VertexAttributes, uniform: &UniformAttributes) -> (r:
        FragmentAttributes) {
        let n = va.normal;
        let v = if uniform.camera.is_perspective {
            uniform.camera.position.minus(va.frag_pos).normalize()
        } else {
            Vec3::new(0, 0, -ONE)
        };
        let to_light = uniform.light.position.minus(va.frag_pos);
        let li = to_light.normalize();
        let diffuse = uniform.material.diffuse_color.scaled(clamp_below(li.dot(n)));
        let highlight = raise(
            clamp_below(n.dot(li.plus(v).normalize())),
            uniform.material.shininess,
        );
        let specular = uniform.material.specular_color.scaled(highlight);
        let lit = diffuse.plus(specular).times(uniform.light.intensity);
        let falloff = to_light.dot(to_light);
        let color = Vec3::new(
            divide_or_saturate(lit.x, falloff),
            divide_or_saturate(lit.y, falloff),
            divide_or_saturate(lit.z, falloff),
        );
        FragmentAttributes::new(color.extend(ONE), va.position.truncate(), n)
    }
}

impl BlendingShader for DepthTestedBlend {
    open spec fn blended(
        &self,
        fa: FragmentAttributes,
        previous: FrameBufferAttributes,
    ) -> FrameBufferAttributes {
        if fa.position.z < previous.depth {
            FrameBufferAttributes {
                color: composite(fa.color, previous.color_vec()),
                depth: fa.position.z,
            }
        } else {
            previous
        }
    }

    fn blend(&self, fa: FragmentAttributes, previous: FrameBufferAttributes) -> (r:
        FrameBufferAttributes) {
        if fa.position.z < previous.depth {
            let under = previous.get_color();
            let alpha = fa.color.w;
            FrameBufferAttributes {
                color: PackedColor {
                    r: composite_channel(fa.color.x, alpha, under.x),
                    g: composite_channel(fa.color.y, alpha, under.y),
                    b: composite_channel(fa.color.z, alpha, under.z),
                    a: composite_channel(fa.color.w, alpha, under.w),
                },
                depth: fa.position.z,
            }
        } else {
            previous
        }
    }
}

} // verus!
