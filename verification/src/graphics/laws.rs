//! What holds of the pipeline as a whole.

use vstd::prelude::*;
use crate::graphics::attributes::{
    channel_value, lemma_channel_round_trip, packed_channel, FragmentAttributes,
    FrameBufferAttributes, PackedColor, UniformAttributes, VertexAttributes, Weights,
};
use crate::graphics::fixed::{fits, lemma_floor_div_bounds, lemma_floor_div_unique, ONE};
use crate::graphics::linear::Vec4;
use crate::graphics::primitives::{PrimitiveType, RasterError};
use crate::graphics::raster::{
    rectangular, triangle_error, BlendingShader, FragmentShader, Program, VertexShader,
};
use crate::graphics::screen::{center, projectable, screen_triangle, triangle_sample, ScreenLine};
use crate::graphics::shaders::{over, DepthTestedBlend};

verus! {

/// With all the weight on the first vertex, the interpolated position is
/// that vertex after its perspective division, and the interpolated normal
/// is its normal scaled to unit length.
pub proof fn lemma_interpolation_at_a_vertex(
    a: VertexAttributes,
    b: VertexAttributes,
    c: VertexAttributes,
)
    requires
        a.position.w != 0,
        b.position.w != 0,
        c.position.w != 0,
        fits(a.ndc_x()),
        fits(a.ndc_y()),
        fits(a.ndc_z()),
    ensures
        VertexAttributes::interpolable(a, b, c, Weights { alpha: ONE, beta: 0, gamma: 0 }),
        VertexAttributes::interpolated(a, b, c, Weights { alpha: ONE, beta: 0, gamma: 0 }).position
            == (Vec4 { x: a.ndc_x() as i32, y: a.ndc_y() as i32, z: a.ndc_z() as i32, w: ONE }),
        VertexAttributes::interpolated(a, b, c, Weights { alpha: ONE, beta: 0, gamma: 0 }).normal
            == a.normal.unit(),
{
    let k = Weights { alpha: ONE, beta: 0, gamma: 0 };
    lemma_all_weight_on_first(a.ndc_x(), b.ndc_x(), c.ndc_x());
    lemma_all_weight_on_first(a.ndc_y(), b.ndc_y(), c.ndc_y());
    lemma_all_weight_on_first(a.ndc_z(), b.ndc_z(), c.ndc_z());
    lemma_all_weight_on_first(a.normal.x as int, b.normal.x as int, c.normal.x as int);
    lemma_all_weight_on_first(a.normal.y as int, b.normal.y as int, c.normal.y as int);
    lemma_all_weight_on_first(a.normal.z as int, b.normal.z as int, c.normal.z as int);
}

/// The weights `(1, 0, 0)` pick the first of three scalars.
pub proof fn lemma_all_weight_on_first(a: int, b: int, c: int)
    ensures
        (Weights { alpha: ONE, beta: 0, gamma: 0 }).mix(a, b, c) == a,
{
    assert(ONE * a + 0 * b + 0 * c == a * ONE) by (nonlinear_arith);
    lemma_floor_div_unique(a * ONE, ONE as int, a);
}

/// With three equal weights of one third, each interpolated coordinate is a
/// third of the sum of the three coordinates, up to one part in 65536 of
/// the sum and one unit of rounding: one third is held as 21845/65536.
pub proof fn lemma_interpolation_with_equal_weights(a: int, b: int, c: int)
    ensures
        ({
            let r = (Weights { alpha: 21845, beta: 21845, gamma: 21845 }).mix(a, b, c);
            -(a + b + c) - 3 * ONE < ONE * (3 * r - (a + b + c)) <= -(a + b + c)
        }),
{
    let total = 21845 * a + 21845 * b + 21845 * c;
    lemma_floor_div_bounds(total, ONE as int);
}

/// The depth test: a fragment that is not nearer than what the cell holds
/// leaves the cell as it is.
pub proof fn lemma_farther_fragment_keeps_cell(
    fa: FragmentAttributes,
    previous: FrameBufferAttributes,
)
    requires
        fa.position.z >= previous.depth,
    ensures
        DepthTestedBlend.blended(fa, previous) == previous,
{
}

/// A fragment that is nearer than what the cell holds leaves its own depth
/// in the cell.
pub proof fn lemma_nearer_fragment_sets_depth(
    fa: FragmentAttributes,
    previous: FrameBufferAttributes,
)
    requires
        fa.position.z < previous.depth,
    ensures
        DepthTestedBlend.blended(fa, previous).depth == fa.position.z,
{
}

/// An opaque fragment that is nearer than what the cell holds replaces the
/// colour of the cell by its own.
pub proof fn lemma_opaque_fragment_replaces(fa: FragmentAttributes, previous: FrameBufferAttributes)
    requires
        fa.color.w == ONE,
        fa.position.z < previous.depth,
    ensures
        DepthTestedBlend.blended(fa, previous) == (FrameBufferAttributes {
            color: PackedColor {
                r: packed_channel(fa.color.x as int),
                g: packed_channel(fa.color.y as int),
                b: packed_channel(fa.color.z as int),
                a: 255,
            },
            depth: fa.position.z,
        }),
{
    let under = previous.color_vec();
    lemma_opaque_over(fa.color.x as int, under.x as int);
    lemma_opaque_over(fa.color.y as int, under.y as int);
    lemma_opaque_over(fa.color.z as int, under.z as int);
    lemma_opaque_over(fa.color.w as int, under.w as int);
    assert(packed_channel(ONE as int) == 255);
}

/// Composited with an alpha of one, a channel is the fragment's.
pub proof fn lemma_opaque_over(fragment: int, previous: int)
    ensures
        over(fragment, ONE as int, previous) == fragment,
{
    assert(fragment * ONE + previous * (ONE - ONE) == fragment * ONE) by (nonlinear_arith);
    lemma_floor_div_unique(fragment * ONE, ONE as int, fragment);
}

/// Composited with an alpha of zero, a channel is the previous one, and
/// packs back into the byte it came from.
pub proof fn lemma_transparent_over(fragment: int, previous: u8)
    ensures
        packed_channel(over(fragment, 0, channel_value(previous))) == previous,
{
    let under = channel_value(previous);
    assert(fragment * 0 + under * (ONE - 0) == under * ONE) by (nonlinear_arith);
    lemma_floor_div_unique(under * ONE, ONE as int, under);
    lemma_channel_round_trip(previous);
}

/// Depth-test monotonicity: a triangle that is nowhere nearer than what the
/// grid already holds changes no cell of the grid.
pub proof fn lemma_farther_triangle_changes_nothing<V: VertexShader, F: FragmentShader>(
    program: Program<V, F, DepthTestedBlend>,
    uniform: UniformAttributes,
    v1: VertexAttributes,
    v2: VertexAttributes,
    v3: VertexAttributes,
    grid: Seq<Seq<FrameBufferAttributes>>,
    width: int,
)
    requires
        0 <= width,
        rectangular(grid, width),
        forall|x: int, row: int|
            0 <= x < width && 0 <= row < grid.len() ==> match #[trigger] triangle_sample(
                v1,
                v2,
                v3,
                width,
                grid.len() as int,
                x,
                grid.len() - 1 - row,
            ) {
                Some(va) => program.fragment_shader.shaded(va, uniform).position.z
                    >= grid[row][x].depth,
                None => true,
            },
    ensures
        program.triangle_grid(uniform, v1, v2, v3, grid, width) == grid,
{
    let after = program.triangle_grid(uniform, v1, v2, v3, grid, width);
    assert forall|row: int| 0 <= row < grid.len() implies #[trigger] after[row] =~= grid[row] by {
        assert forall|x: int| 0 <= x < width implies after[row][x] == grid[row][x] by {
            let sample = triangle_sample(
                v1,
                v2,
                v3,
                width,
                grid.len() as int,
                x,
                grid.len() - 1 - row,
            );
            assert(after[row][x] == program.fragment_cell(uniform, sample, grid[row][x]));
        }
    }
    assert(after =~= grid);
}

/// A triangle without area on screen is reported as degenerate, whatever
/// else holds of it, as long as its vertices can be projected.
pub proof fn lemma_degenerate_triangle_is_reported(
    v1: VertexAttributes,
    v2: VertexAttributes,
    v3: VertexAttributes,
    width: int,
    height: int,
)
    requires
        projectable(v1),
        projectable(v2),
        projectable(v3),
    ensures
        triangle_error(v1, v2, v3, width, height) == Some(RasterError::GeometryDegenerate)
            <==> screen_triangle(v1, v2, v3, width, height).doubled_area() == 0,
        triangle_error(v1, v2, v3, width, height) is None <==> screen_triangle(
            v1,
            v2,
            v3,
            width,
            height,
        ).doubled_area() != 0,
{
}

/// Rendering an index list that holds no complete primitive changes
/// nothing and does not fail.
pub proof fn lemma_empty_render_changes_nothing<
    V: VertexShader,
    F: FragmentShader,
    B: BlendingShader,
>(
    program: Program<V, F, B>,
    uniform: UniformAttributes,
    vertices: Seq<VertexAttributes>,
    indices: Seq<usize>,
    grid: Seq<Seq<FrameBufferAttributes>>,
    width: int,
    primitive_type: PrimitiveType,
)
    requires
        primitive_type == PrimitiveType::Triangle ==> indices.len() < 3,
        primitive_type == PrimitiveType::Line ==> indices.len() < 2,
    ensures
        program.render_outcome(uniform, vertices, indices, grid, width, primitive_type) == (
            None::<RasterError>,
            grid,
        ),
{
}

/// A line of length zero is a disc: it covers the pixels whose centres are
/// closer to its one point than the thickness.
pub proof fn lemma_point_line_is_disc(l: ScreenLine, i: int, j: int, thickness: int)
    requires
        l.a == l.b,
    ensures
        l.covers(i, j, thickness) <==> thickness > 0 && (center(i) - l.a.x) * (center(i) - l.a.x)
            + (center(j) - l.a.y) * (center(j) - l.a.y) < thickness * thickness,
{
    assert(l.length_squared() == 0) by (nonlinear_arith)
        requires
            l.a.x - l.b.x == 0,
            l.a.y - l.b.y == 0,
            l.length_squared() == (l.a.x - l.b.x) * (l.a.x - l.b.x) + (l.a.y - l.b.y) * (l.a.y
                - l.b.y),
    ;
    assert(l.parameter(i, j) == 0);
    assert(0 * (l.b.x - l.a.x) == 0 && 0 * (l.b.y - l.a.y) == 0);
    assert(l.nearest_x(i, j) == l.a.x);
    assert(l.nearest_y(i, j) == l.a.y);
}

} // verus!
