//! The records that flow through the pipeline, and the frame buffer.

use vstd::prelude::*;
use crate::graphics::fixed::{
    clamp, div_floor, divide, fits, floor_div, lemma_floor_div_magnitude, lemma_mul_bounded, multiply,
    negate, negation, product, quotient, HALF, ONE,
};
use crate::graphics::linear::{unit_component, unit_components, Mat4, Vec3, Vec4};
use crate::graphics::primitives::{Camera, Light, Material, Transform};

verus! {

/// What the vertex stage hands to the rasterizer.
#[derive(Clone, Copy, Debug, PartialEq, Eq, Structural)]
pub struct VertexAttributes {
    /// The clip-space position, homogeneous.
    pub position: Vec4,
    pub normal: Vec3,
    /// The world-space position of the fragment.
    pub frag_pos: Vec3,
}

/// What the fragment stage hands to the blending stage.
#[derive(Clone, Copy, Debug, PartialEq, Eq, Structural)]
pub struct FragmentAttributes {
    /// Red, green, blue and alpha, each in `[0, 1]`.
    pub color: Vec4,
    pub position: Vec3,
    pub normal: Vec3,
}

/// Everything a stage may read besides its input: the scene's light,
/// material, camera and transform, and the four matrices derived from them.
/// The matrices are only up to date after `calc_matrices`; nothing marks
/// them stale when a camera or transform field changes.
#[derive(Clone, Copy, Debug, PartialEq, Eq, Structural)]
pub struct UniformAttributes {
    pub light: Light,
    pub material: Material,
    pub camera: Camera,
    pub transform: Transform,
    pub view_matrix: Mat4,
    pub model_matrix: Mat4,
    pub projection_matrix: Mat4,
    pub normal_matrix: Mat4,
}

/// The values of the trigonometric functions that the matrices are built
/// from. The caller computes them from the transform's angle and the
/// camera's field of view.
#[derive(Clone, Copy, Debug, PartialEq, Eq, Structural)]
pub struct Trigonometry {
    /// The cosine of `transform.angle` half-turns.
    pub cos_angle: i32,
    /// The sine of `transform.angle` half-turns.
    pub sin_angle: i32,
    /// The cotangent of half of `camera.field_of_view`.
    pub cot_half_fov: i32,
}

/// The component `c` of a homogeneous point after the division by `w`.
pub open spec fn divided(c: int, w: int) -> int {
    floor_div(c * ONE, w)
}

/// The weighted sum `alpha * a + beta * b + gamma * c` of three scalars.
pub open spec fn weighted(alpha: int, beta: int, gamma: int, a: int, b: int, c: int) -> int {
    floor_div(alpha * a + beta * b + gamma * c, ONE as int)
}

/// The weights of an interpolation.
#[derive(Clone, Copy, Debug, PartialEq, Eq, Structural)]
pub struct Weights {
    pub alpha: i32,
    pub beta: i32,
    pub gamma: i32,
}

impl Weights {
    /// The weighted sum of three scalars under these weights.
    pub open spec fn mix(self, a: int, b: int, c: int) -> int {
        weighted(self.alpha as int, self.beta as int, self.gamma as int, a, b, c)
    }
}

impl VertexAttributes {
    /// The vertex with the given position, `w = 1`, and the given normal.
    pub open spec fn from_parts(position: Vec3, normal: Vec3) -> VertexAttributes {
        VertexAttributes {
            position: Vec4 { x: position.x, y: position.y, z: position.z, w: ONE },
            normal,
            frag_pos: Vec3::zero(),
        }
    }

    /// The vertex whose components are all zero.
    pub open spec fn zero() -> VertexAttributes {
        VertexAttributes {
            position: Vec4 { x: 0, y: 0, z: 0, w: 0 },
            normal: Vec3::zero(),
            frag_pos: Vec3::zero(),
        }
    }

    /// The x coordinate after the perspective division.
    pub open spec fn ndc_x(self) -> int {
        divided(self.position.x as int, self.position.w as int)
    }

    /// The y coordinate after the perspective division.
    pub open spec fn ndc_y(self) -> int {
        divided(self.position.y as int, self.position.w as int)
    }

    /// The depth after the perspective division.
    pub open spec fn ndc_z(self) -> int {
        divided(self.position.z as int, self.position.w as int)
    }

    /// The weighted sum of the three normals, before it is scaled to unit
    /// length.
    pub open spec fn mixed_normal(
        a: VertexAttributes,
        b: VertexAttributes,
        c: VertexAttributes,
        k: Weights,
    ) -> (int, int, int) {
        (
            k.mix(a.normal.x as int, b.normal.x as int, c.normal.x as int),
            k.mix(a.normal.y as int, b.normal.y as int, c.normal.y as int),
            k.mix(a.normal.z as int, b.normal.z as int, c.normal.z as int),
        )
    }

    /// The interpolated normal: the weighted sum of the three normals,
    /// scaled to unit length.
    pub open spec fn interpolated_normal(
        a: VertexAttributes,
        b: VertexAttributes,
        c: VertexAttributes,
        k: Weights,
    ) -> Vec3 {
        let n = Self::mixed_normal(a, b, c, k);
        Vec3 {
            x: unit_component(n.0, n.0, n.1, n.2) as i32,
            y: unit_component(n.1, n.0, n.1, n.2) as i32,
            z: unit_component(n.2, n.0, n.1, n.2) as i32,
        }
    }

    /// Whether an interpolation of the three vertices is defined: each has a
    /// non-zero `w`, and each component of the interpolated position fits a
    /// scalar.
    pub open spec fn interpolable(
        a: VertexAttributes,
        b: VertexAttributes,
        c: VertexAttributes,
        k: Weights,
    ) -> bool {
        &&& a.position.w != 0
        &&& b.position.w != 0
        &&& c.position.w != 0
        &&& fits(k.mix(a.ndc_x(), b.ndc_x(), c.ndc_x()))
        &&& fits(k.mix(a.ndc_y(), b.ndc_y(), c.ndc_y()))
        &&& fits(k.mix(a.ndc_z(), b.ndc_z(), c.ndc_z()))
        &&& fits(k.alpha + k.beta + k.gamma)
    }

    /// The interpolated vertex: each position is divided by its own `w`
    /// first, then the weights are applied; the normal is the weighted sum
    /// of the normals, scaled to unit length.
    pub open spec fn interpolated(
        a: VertexAttributes,
        b: VertexAttributes,
        c: VertexAttributes,
        k: Weights,
    ) -> VertexAttributes {
        VertexAttributes {
            position: Vec4 {
                x: k.mix(a.ndc_x(), b.ndc_x(), c.ndc_x()) as i32,
                y: k.mix(a.ndc_y(), b.ndc_y(), c.ndc_y()) as i32,
                z: k.mix(a.ndc_z(), b.ndc_z(), c.ndc_z()) as i32,
                w: (k.alpha + k.beta + k.gamma) as i32,
            },
            normal: Self::interpolated_normal(a, b, c, k),
            frag_pos: Vec3::zero(),
        }
    }

    /// A vertex at `position` with `w = 1`.
    pub fn new(position: Vec3, normal: Vec3) -> (r: Self)
        ensures
            r == VertexAttributes::from_parts(position, normal),
    {
        VertexAttributes { position: position.extend(ONE), normal, frag_pos: Vec3::new(0, 0, 0) }
    }

    /// Interpolates three vertices with the weights `alpha`, `beta` and
    /// `gamma`. This is not perspective-correct: the positions are divided
    /// by their own `w` before the weights are applied, and nothing is
    /// renormalised afterwards. Returns `None` where the interpolation is not
    /// defined.
    pub fn interpolate(
        a: VertexAttributes,
        b: VertexAttributes,
        c: VertexAttributes,
        alpha: i32,
        beta: i32,
        gamma: i32,
    ) -> (r: Option<VertexAttributes>)
        ensures
            r is Some <==> VertexAttributes::interpolable(a, b, c, Weights { alpha, beta, gamma }),
            r is Some ==> r->Some_0 == VertexAttributes::interpolated(
                a,
                b,
                c,
                Weights { alpha, beta, gamma },
            ),
    {
        if a.position.w == 0 || b.position.w == 0 || c.position.w == 0 {
            return None;
        }
        let k = Weights { alpha, beta, gamma };
        let x = mix_scalars(
            &k,
            divide_component(a.position.x, a.position.w),
            divide_component(b.position.x, b.position.w),
            divide_component(c.position.x, c.position.w),
        );
        let y = mix_scalars(
            &k,
            divide_component(a.position.y, a.position.w),
            divide_component(b.position.y, b.position.w),
            divide_component(c.position.y, c.position.w),
        );
        let z = mix_scalars(
            &k,
            divide_component(a.position.z, a.position.w),
            divide_component(b.position.z, b.position.w),
            divide_component(c.position.z, c.position.w),
        );
        let w: i64 = alpha as i64 + beta as i64 + gamma as i64;
        if !in_scalar_range(x) || !in_scalar_range(y) || !in_scalar_range(z) || !in_scalar_range(
            w as i128,
        ) {
            return None;
        }
        let nx = mix_scalars(&k, a.normal.x as i128, b.normal.x as i128, c.normal.x as i128);
        let ny = mix_scalars(&k, a.normal.y as i128, b.normal.y as i128, c.normal.y as i128);
        let nz = mix_scalars(&k, a.normal.z as i128, b.normal.z as i128, c.normal.z as i128);
        proof {
            lemma_mixed_normal_bound(k, a.normal.x as int, b.normal.x as int, c.normal.x as int);
            lemma_mixed_normal_bound(k, a.normal.y as int, b.normal.y as int, c.normal.y as int);
            lemma_mixed_normal_bound(k, a.normal.z as int, b.normal.z as int, c.normal.z as int);
        }
        let (ux, uy, uz) = unit_components(nx, ny, nz);
        Some(
            VertexAttributes {
                position: Vec4 { x: x as i32, y: y as i32, z: z as i32, w: w as i32 },
                normal: Vec3 { x: ux, y: uy, z: uz },
                frag_pos: Vec3 { x: 0, y: 0, z: 0 },
            },
        )
    }
}

impl UniformAttributes {
    /// The model matrix: a rotation about the vertical axis followed by a
    /// translation by `distance` away from the viewer.
    pub open spec fn model_matrix_of(transform: Transform, trig: Trigonometry) -> Mat4 {
        Mat4 {
            x_axis: Vec4 { x: trig.cos_angle, y: 0, z: trig.sin_angle, w: 0 },
            y_axis: Vec4 { x: 0, y: ONE, z: 0, w: 0 },
            z_axis: Vec4 { x: negation(trig.sin_angle as int) as i32, y: 0, z: trig.cos_angle, w: 0 },
            w_axis: Vec4 { x: 0, y: 0, z: negation(transform.distance as int) as i32, w: ONE },
        }
    }

    /// The normal matrix: the transpose of the inverse of the model matrix,
    /// with the rotation taken as orthonormal. Its upper 3x3 block is the
    /// rotation itself.
    pub open spec fn normal_matrix_of(transform: Transform, trig: Trigonometry) -> Mat4 {
        Mat4 {
            x_axis: Vec4 {
                x: trig.cos_angle,
                y: 0,
                z: trig.sin_angle,
                w: product(transform.distance as int, trig.sin_angle as int) as i32,
            },
            y_axis: Vec4 { x: 0, y: ONE, z: 0, w: 0 },
            z_axis: Vec4 {
                x: negation(trig.sin_angle as int) as i32,
                y: 0,
                z: trig.cos_angle,
                w: product(transform.distance as int, trig.cos_angle as int) as i32,
            },
            w_axis: Vec4 { x: 0, y: 0, z: 0, w: ONE },
        }
    }

    /// The view matrix: a translation by the negated camera position. The
    /// camera has no orientation.
    pub open spec fn view_matrix_of(camera: Camera) -> Mat4 {
        Mat4 {
            x_axis: Vec4 { x: ONE, y: 0, z: 0, w: 0 },
            y_axis: Vec4 { x: 0, y: ONE, z: 0, w: 0 },
            z_axis: Vec4 { x: 0, y: 0, z: ONE, w: 0 },
            w_axis: Vec4 {
                x: negation(camera.position.x as int) as i32,
                y: negation(camera.position.y as int) as i32,
                z: negation(camera.position.z as int) as i32,
                w: ONE,
            },
        }
    }

    /// The right-handed perspective matrix with the near plane at -1 and the
    /// far plane at 1.
    pub open spec fn perspective_matrix(camera: Camera, trig: Trigonometry) -> Mat4 {
        Mat4 {
            x_axis: Vec4 {
                x: quotient(trig.cot_half_fov as int, camera.aspect_ratio as int) as i32,
                y: 0,
                z: 0,
                w: 0,
            },
            y_axis: Vec4 { x: 0, y: trig.cot_half_fov, z: 0, w: 0 },
            z_axis: Vec4 { x: 0, y: 0, z: (-HALF) as i32, w: (-ONE) as i32 },
            w_axis: Vec4 { x: 0, y: 0, z: HALF, w: 0 },
        }
    }

    /// The projection matrix: the perspective matrix for a perspective
    /// camera, the identity for an orthographic one.
    pub open spec fn projection_matrix_of(camera: Camera, trig: Trigonometry) -> Mat4 {
        if camera.is_perspective {
            Self::perspective_matrix(camera, trig)
        } else {
            Mat4::identity_spec()
        }
    }

    /// Derives the model matrix and the normal matrix from the transform.
    pub fn calc_model_matrix(&mut self, trig: &Trigonometry)
        ensures
            *final(self) == (UniformAttributes {
                model_matrix: Self::model_matrix_of(old(self).transform, *trig),
                normal_matrix: Self::normal_matrix_of(old(self).transform, *trig),
                ..*old(self)
            }),
    {
        let cos = trig.cos_angle;
        let sin = trig.sin_angle;
        let distance = self.transform.distance;
        let mut transform = Mat4::identity();
        transform.w_axis.z = negate(distance);
        transform.x_axis.x = cos;
        transform.x_axis.z = sin;
        transform.z_axis.x = negate(sin);
        transform.z_axis.z = cos;
        self.model_matrix = transform;
        transform.w_axis.z = 0;
        transform.x_axis.w = multiply(distance, sin);
        transform.z_axis.w = multiply(distance, cos);
        self.normal_matrix = transform;
    }

    /// Derives the view matrix from the camera position.
    pub fn calc_view_matrix(&mut self)
        ensures
            *final(self) == (UniformAttributes {
                view_matrix: Self::view_matrix_of(old(self).camera),
                ..*old(self)
            }),
    {
        let mut transform = Mat4::identity();
        transform.w_axis.x = negate(self.camera.position.x);
        transform.w_axis.y = negate(self.camera.position.y);
        transform.w_axis.z = negate(self.camera.position.z);
        self.view_matrix = transform;
    }

    /// Derives the projection matrix from the camera.
    pub fn calc_projection_matrix(&mut self, trig: &Trigonometry)
        requires
            old(self).camera.is_perspective ==> old(self).camera.aspect_ratio != 0,
        ensures
            *final(self) == (UniformAttributes {
                projection_matrix: Self::projection_matrix_of(old(self).camera, *trig),
                ..*old(self)
            }),
            !old(self).camera.is_perspective ==> final(self).projection_matrix
                == Mat4::identity_spec(),
            old(self).camera.is_perspective ==> final(self).projection_matrix.w_axis.w == 0,
    {
        if self.camera.is_perspective {
            let h = trig.cot_half_fov;
            let w = divide(h, self.camera.aspect_ratio);
            self.projection_matrix = Mat4 {
                x_axis: Vec4 { x: w, y: 0, z: 0, w: 0 },
                y_axis: Vec4 { x: 0, y: h, z: 0, w: 0 },
                z_axis: Vec4 { x: 0, y: 0, z: -HALF, w: -ONE },
                w_axis: Vec4 { x: 0, y: 0, z: HALF, w: 0 },
            };
        } else {
            self.projection_matrix = Mat4::identity();
        }
    }

    /// Derives the model, view and projection matrices, in that order. It
    /// has to be called again after every change to the camera or the
    /// transform, before the next render.
    pub fn calc_matrices(&mut self, trig: &Trigonometry)
        requires
            old(self).camera.is_perspective ==> old(self).camera.aspect_ratio != 0,
        ensures
            *final(self) == (UniformAttributes {
                model_matrix: Self::model_matrix_of(old(self).transform, *trig),
                normal_matrix: Self::normal_matrix_of(old(self).transform, *trig),
                view_matrix: Self::view_matrix_of(old(self).camera),
                projection_matrix: Self::projection_matrix_of(old(self).camera, *trig),
                ..*old(self)
            }),
    {
        self.calc_model_matrix(trig);
        self.calc_view_matrix();
        self.calc_projection_matrix(trig);
    }
}

impl Default for VertexAttributes {
    fn default() -> (r: Self)
        ensures
            r == VertexAttributes::zero(),
    {
        VertexAttributes {
            position: Vec4 { x: 0, y: 0, z: 0, w: 0 },
            normal: Vec3 { x: 0, y: 0, z: 0 },
            frag_pos: Vec3 { x: 0, y: 0, z: 0 },
        }
    }
}

impl FragmentAttributes {
    pub fn new(color: Vec4, position: Vec3, normal: Vec3) -> (r: Self)
        ensures
            r == (FragmentAttributes { color, position, normal }),
    {
        FragmentAttributes { color, position, normal }
    }
}

/// The weighted sum of three scalar-sized numbers is below `2^48` in
/// magnitude.
pub proof fn lemma_mixed_normal_bound(k: Weights, a: int, b: int, c: int)
    requires
        -0x8000_0000 <= a <= 0x8000_0000,
        -0x8000_0000 <= b <= 0x8000_0000,
        -0x8000_0000 <= c <= 0x8000_0000,
    ensures
        -0x1_0000_0000_0000 <= k.mix(a, b, c) <= 0x1_0000_0000_0000,
{
    lemma_mul_bounded(k.alpha as int, a, 0x8000_0000, 0x8000_0000);
    lemma_mul_bounded(k.beta as int, b, 0x8000_0000, 0x8000_0000);
    lemma_mul_bounded(k.gamma as int, c, 0x8000_0000, 0x8000_0000);
    let sum = k.alpha * a + k.beta * b + k.gamma * c;
    crate::graphics::fixed::lemma_floor_div_bounds(sum, ONE as int);
}

fn in_scalar_range(x: i128) -> (r: bool)
    ensures
        r == fits(x as int),
{
    -2147483648 <= x && x <= 2147483647
}

/// Divides a component by `w`.
pub(crate) fn divide_component(c: i32, w: i32) -> (r: i128)
    requires
        w != 0,
    ensures
        r == divided(c as int, w as int),
        -0x8000_0000_0000 <= r <= 0x8000_0000_0000,
{
    proof {
        lemma_floor_div_magnitude(c * ONE, w as int, 0x8000_0000_0000);
    }
    div_floor((c as i128) * 65536, w as i128)
}

/// The weighted sum of three numbers below `2^47` in magnitude.
pub(crate) fn mix_scalars(k: &Weights, a: i128, b: i128, c: i128) -> (r: i128)
    requires
        -0x8000_0000_0000 <= a <= 0x8000_0000_0000,
        -0x8000_0000_0000 <= b <= 0x8000_0000_0000,
        -0x8000_0000_0000 <= c <= 0x8000_0000_0000,
    ensures
        r == k.mix(a as int, b as int, c as int),
{
    proof {
        lemma_mul_bounded(k.alpha as int, a as int, 0x8000_0000, 0x8000_0000_0000);
        lemma_mul_bounded(k.beta as int, b as int, 0x8000_0000, 0x8000_0000_0000);
        lemma_mul_bounded(k.gamma as int, c as int, 0x8000_0000, 0x8000_0000_0000);
    }
    let sum: i128 = (k.alpha as i128) * a + (k.beta as i128) * b + (k.gamma as i128) * c;
    div_floor(sum, 65536)
}

/// The largest width or height of a frame buffer.
pub const MAX_DIMENSION: usize = 16384;

/// A packed colour: red, green, blue and alpha, eight bits each.
#[derive(Clone, Copy, Debug, PartialEq, Eq, Structural)]
pub struct PackedColor {
    pub r: u8,
    pub g: u8,
    pub b: u8,
    pub a: u8,
}

/// One cell of the frame buffer: a packed colour and a depth.
#[derive(Clone, Copy, Debug, PartialEq, Eq, Structural)]
pub struct FrameBufferAttributes {
    pub color: PackedColor,
    pub depth: i32,
}

/// The scalar in `[0, 1]` that an eight-bit channel stands for: the
/// smallest scalar that packs back into the channel.
pub open spec fn channel_value(c: u8) -> int {
    floor_div(c * ONE + 254, 255)
}

/// The eight-bit channel that holds a scalar: 255 times the scalar, rounded
/// down and limited to the range of a byte.
pub open spec fn packed_channel(v: int) -> u8 {
    clamp(floor_div(v * 255, ONE as int), 0, 255) as u8
}

/// Packing the scalar of a channel gives the channel back.
pub proof fn lemma_channel_round_trip(c: u8)
    ensures
        packed_channel(channel_value(c)) == c,
        0 <= channel_value(c) <= ONE,
{
    let v = channel_value(c);
    assert(255 * v <= c * ONE + 254 < 255 * v + 255);
    assert(c * ONE <= v * 255 < c * ONE + ONE);
}

impl FrameBufferAttributes {
    /// The cell of an empty buffer: opaque white at depth 100.
    pub open spec fn empty() -> FrameBufferAttributes {
        FrameBufferAttributes { color: PackedColor { r: 255, g: 255, b: 255, a: 255 }, depth: 6553600 }
    }

    /// The colour of the cell as four scalars in `[0, 1]`.
    pub open spec fn color_vec(self) -> Vec4 {
        Vec4 {
            x: channel_value(self.color.r) as i32,
            y: channel_value(self.color.g) as i32,
            z: channel_value(self.color.b) as i32,
            w: channel_value(self.color.a) as i32,
        }
    }

    pub fn new() -> (r: Self)
        ensures
            r == FrameBufferAttributes::empty(),
    {
        FrameBufferAttributes { color: PackedColor { r: 255, g: 255, b: 255, a: 255 }, depth: 6553600 }
    }

    /// Unpacks the colour into scalars in `[0, 1]`.
    pub fn get_color(&self) -> (r: Vec4)
        ensures
            r == self.color_vec(),
            0 <= r.x <= ONE,
            0 <= r.y <= ONE,
            0 <= r.z <= ONE,
            0 <= r.w <= ONE,
    {
        Vec4 {
            x: unpack_channel(self.color.r),
            y: unpack_channel(self.color.g),
            z: unpack_channel(self.color.b),
            w: unpack_channel(self.color.a),
        }
    }
}

fn unpack_channel(c: u8) -> (r: i32)
    ensures
        r == channel_value(c),
        0 <= r <= ONE,
{
    let q: i128 = div_floor((c as i128) * 65536 + 254, 255);
    q as i32
}

/// Packs a scalar into an eight-bit channel.
pub fn pack_channel(v: i128) -> (r: u8)
    requires
        -0x1_0000_0000_0000_0000 <= v <= 0x1_0000_0000_0000_0000,
    ensures
        r == packed_channel(v as int),
{
    let q: i128 = div_floor(v * 255, 65536);
    if q < 0 {
        0
    } else if q > 255 {
        255
    } else {
        q as u8
    }
}

/// A grid of cells, `height` rows of `width` cells each. Row 0 is the top
/// row of the exported image.
pub struct FrameBuffer {
    frame_buffer: Vec<Vec<FrameBufferAttributes>>,
    columns: usize,
}

impl View for FrameBuffer {
    type V = Seq<Seq<FrameBufferAttributes>>;

    /// The rows of the buffer, each a sequence of cells.
    closed spec fn view(&self) -> Seq<Seq<FrameBufferAttributes>> {
        Seq::new(self.frame_buffer@.len(), |r: int| self.frame_buffer@[r]@)
    }
}

/// The cell in column `x` of row `y` of a grid.
pub open spec fn cell_at(grid: Seq<Seq<FrameBufferAttributes>>, x: int, y: int) -> FrameBufferAttributes {
    grid[y][x]
}

/// A grid of the given size with every cell empty.
pub open spec fn empty_grid(w: nat, h: nat) -> Seq<Seq<FrameBufferAttributes>> {
    Seq::new(h, |r: int| Seq::new(w, |x: int| FrameBufferAttributes::empty()))
}

/// The bytes of a grid, row after row, four bytes per cell.
pub open spec fn raw_byte(grid: Seq<Seq<FrameBufferAttributes>>, w: int, k: int) -> u8 {
    let cell = grid[(k / 4) / w][(k / 4) % w];
    if k % 4 == 0 {
        cell.color.r
    } else if k % 4 == 1 {
        cell.color.g
    } else if k % 4 == 2 {
        cell.color.b
    } else {
        cell.color.a
    }
}

impl FrameBuffer {
    /// The number of cells in each row.
    pub closed spec fn spec_width(&self) -> nat {
        self.columns as nat
    }

    /// The number of rows.
    pub open spec fn spec_height(&self) -> nat {
        self@.len()
    }

    /// Every row has `spec_width` cells, and neither dimension exceeds
    /// `MAX_DIMENSION`.
    pub open spec fn wf(&self) -> bool {
        &&& self.spec_width() <= MAX_DIMENSION
        &&& self@.len() <= MAX_DIMENSION
        &&& forall|r: int| 0 <= r < self@.len() ==> (#[trigger] self@[r]).len() == self.spec_width()
    }

    /// The cell in column `x` of row `y`.
    pub open spec fn cell(&self, x: int, y: int) -> FrameBufferAttributes {
        cell_at(self@, x, y)
    }

    /// Creates a buffer of `w` columns and `h` rows, every cell empty.
    pub fn new(w: usize, h: usize) -> (r: Self)
        requires
            w <= MAX_DIMENSION,
            h <= MAX_DIMENSION,
        ensures
            r.wf(),
            r.spec_width() == w,
            r.spec_height() == h,
            r@ == empty_grid(w as nat, h as nat),
    {
        let rows = empty_rows(w, h);
        let r = FrameBuffer { frame_buffer: rows, columns: w };
        assert(r@ =~= empty_grid(w as nat, h as nat)) by {
            assert forall|y: int| 0 <= y < h implies #[trigger] r@[y] =~= Seq::new(
                w as nat,
                |x: int| FrameBufferAttributes::empty(),
            ) by {}
        }
        r
    }

    pub fn height(&self) -> (r: usize)
        ensures
            r == self.spec_height(),
    {
        self.frame_buffer.len()
    }

    pub fn width(&self) -> (r: usize)
        ensures
            r == self.spec_width(),
    {
        self.columns
    }

    /// Reads the cell in column `x` of row `y`.
    pub fn get(&self, x: usize, y: usize) -> (r: FrameBufferAttributes)
        requires
            self.wf(),
            x < self.spec_width(),
            y < self.spec_height(),
        ensures
            r == self.cell(x as int, y as int),
    {
        assert(self@[y as int].len() == self.spec_width());
        self.frame_buffer[y][x]
    }

    /// Overwrites the cell in column `x` of row `y`.
    pub fn set(&mut self, x: usize, y: usize, val: FrameBufferAttributes)
        requires
            old(self).wf(),
            x < old(self).spec_width(),
            y < old(self).spec_height(),
        ensures
            final(self).wf(),
            final(self).spec_width() == old(self).spec_width(),
            final(self)@ == old(self)@.update(y as int, old(self)@[y as int].update(x as int, val)),
    {
        assert(self@[y as int].len() == self.spec_width());
        let mut row: Vec<FrameBufferAttributes> = Vec::new();
        std::mem::swap(&mut row, &mut self.frame_buffer[y]);
        row.set(x, val);
        std::mem::swap(&mut row, &mut self.frame_buffer[y]);
        assert(self@ =~= old(self)@.update(y as int, old(self)@[y as int].update(x as int, val)));
        assert forall|r: int| 0 <= r < self@.len() implies (#[trigger] self@[r]).len()
            == self.spec_width() by {
            if r != y {
                assert(self@[r] == old(self)@[r]);
            }
        }
    }

    /// Resets every cell to the empty cell.
    pub fn clear(&mut self)
        requires
            old(self).wf(),
        ensures
            final(self).wf(),
            final(self).spec_width() == old(self).spec_width(),
            final(self).spec_height() == old(self).spec_height(),
            final(self)@ == empty_grid(old(self).spec_width(), old(self).spec_height()),
    {
        let w = self.columns;
        let h = self.frame_buffer.len();
        self.frame_buffer = empty_rows(w, h);
        assert(self@ =~= empty_grid(w as nat, h as nat)) by {
            assert forall|y: int| 0 <= y < h implies #[trigger] self@[y] =~= Seq::new(
                w as nat,
                |x: int| FrameBufferAttributes::empty(),
            ) by {}
        }
    }

    /// The colours of the buffer as bytes: row after row from row 0, four
    /// bytes (red, green, blue, alpha) per cell.
    pub fn as_raw(&self) -> (r: Vec<u8>)
        requires
            self.wf(),
        ensures
            r@.len() == 4 * self.spec_width() * self.spec_height(),
            forall|k: int|
                0 <= k < r@.len() ==> r@[k] == raw_byte(self@, self.spec_width() as int, k),
    {
        let w = self.columns;
        let h = self.frame_buffer.len();
        let mut out: Vec<u8> = Vec::new();
        let mut y: usize = 0;
        while y < h
            invariant
                self.wf(),
                w == self.spec_width(),
                h == self.spec_height(),
                0 <= y <= h,
                out@.len() == 4 * w * y,
                forall|k: int| 0 <= k < out@.len() ==> out@[k] == raw_byte(self@, w as int, k),
            decreases h - y,
        {
            let mut x: usize = 0;
            while x < w
                invariant
                    self.wf(),
                    w == self.spec_width(),
                    h == self.spec_height(),
                    0 <= y < h,
                    0 <= x <= w,
                    out@.len() == 4 * w * y + 4 * x,
                    forall|k: int| 0 <= k < out@.len() ==> out@[k] == raw_byte(self@, w as int, k),
                decreases w - x,
            {
                let cell = self.get(x, y);
                let ghost base = out@.len() as int;
                proof {
                    assert(base == 4 * (w * y + x)) by (nonlinear_arith)
                        requires
                            base == 4 * w * y + 4 * x,
                    ;
                    let idx = w * y + x;
                    assert(idx / (w as int) == y && idx % (w as int) == x) by (nonlinear_arith)
                        requires
                            idx == w * y + x,
                            0 <= x < w,
                            0 <= y,
                    ;
                }
                out.push(cell.color.r);
                out.push(cell.color.g);
                out.push(cell.color.b);
                out.push(cell.color.a);
                proof {
                    assert forall|k: int| 0 <= k < out@.len() implies out@[k] == raw_byte(
                        self@,
                        w as int,
                        k,
                    ) by {
                        if k >= base {
                            assert(k / 4 == w * y + x && k % 4 == k - base);
                        }
                    }
                }
                x = x + 1;
            }
            proof {
                assert(4 * w * y + 4 * w == 4 * w * (y + 1)) by (nonlinear_arith);
            }
            y = y + 1;
        }
        proof {
            assert(4 * w * h == 4 * self.spec_width() * self.spec_height()) by (nonlinear_arith)
                requires
                    w == self.spec_width(),
                    h == self.spec_height(),
            ;
        }
        out
    }
}

fn empty_rows(w: usize, h: usize) -> (rows: Vec<Vec<FrameBufferAttributes>>)
    ensures
        rows@.len() == h,
        forall|y: int|
            0 <= y < h ==> (#[trigger] rows@[y])@ == Seq::new(
                w as nat,
                |x: int| FrameBufferAttributes::empty(),
            ),
{
    let mut rows: Vec<Vec<FrameBufferAttributes>> = Vec::new();
    let mut y: usize = 0;
    while y < h
        invariant
            0 <= y <= h,
            rows@.len() == y,
            forall|k: int|
                0 <= k < y ==> (#[trigger] rows@[k])@ == Seq::new(
                    w as nat,
                    |x: int| FrameBufferAttributes::empty(),
                ),
        decreases h - y,
    {
        let mut row: Vec<FrameBufferAttributes> = Vec::new();
        let mut x: usize = 0;
        while x < w
            invariant
                0 <= x <= w,
                row@.len() == x,
                forall|k: int| 0 <= k < x ==> row@[k] == FrameBufferAttributes::empty(),
            decreases w - x,
        {
            row.push(FrameBufferAttributes::new());
            x = x + 1;
        }
        assert(row@ =~= Seq::new(w as nat, |x: int| FrameBufferAttributes::empty()));
        rows.push(row);
        y = y + 1;
    }
    rows
}

} // verus!
