//! The shader program: three pluggable stages and the rasterizer that
//! drives them over triangles and lines.
//!
//! Pixels are sampled at their centres. A centre that lies exactly on an
//! edge shared by two triangles belongs to both, so such a pixel is shaded
//! and blended once for each.

use vstd::prelude::*;
use crate::graphics::attributes::{
    cell_at, FragmentAttributes, FrameBuffer, FrameBufferAttributes, UniformAttributes,
    VertexAttributes,
};
use crate::graphics::coverage::lemma_projectable_interpolable;
use crate::graphics::fixed::ONE;
use crate::graphics::primitives::{PrimitiveType, RasterError};
use crate::graphics::screen::{
    line_sample, project_vertex, projectable, screen_line, screen_triangle, triangle_sample,
    ScreenLine, ScreenTriangle,
};

verus! {

/// The thickness of the lines that `render` draws: half a pixel.
pub const LINE_THICKNESS: i32 = 32768;

/// The stage that moves a mesh vertex into clip space.
pub trait VertexShader {
    /// What the stage makes of a vertex.
    spec fn transformed(&self, va: VertexAttributes, uniform: UniformAttributes) -> VertexAttributes;

    fn transform(&self, va: VertexAttributes, uniform: &UniformAttributes) -> (r: VertexAttributes)
        ensures
            r == self.transformed(va, *uniform),
    ;
}

/// The stage that gives a covered pixel its colour.
pub trait FragmentShader {
    /// What the stage makes of an interpolated vertex.
    spec fn shaded(&self, va: VertexAttributes, uniform: UniformAttributes) -> FragmentAttributes;

    fn shade(&self, va: VertexAttributes, uniform: &UniformAttributes) -> (r: FragmentAttributes)
        ensures
            r == self.shaded(va, *uniform),
    ;
}

/// The stage that decides what a fragment leaves in its cell. It is the one
/// place where depth is tested.
pub trait BlendingShader {
    /// The cell that a fragment leaves where `previous` was.
    spec fn blended(
        &self,
        fa: FragmentAttributes,
        previous: FrameBufferAttributes,
    ) -> FrameBufferAttributes;

    fn blend(&self, fa: FragmentAttributes, previous: FrameBufferAttributes) -> (r:
        FrameBufferAttributes)
        ensures
            r == self.blended(fa, previous),
    ;
}

/// A raster program: vertex -> fragment -> frame buffer.
pub struct Program<V: VertexShader, F: FragmentShader, B: BlendingShader> {
    pub vertex_shader: V,
    pub fragment_shader: F,
    pub blending_shader: B,
}

/// The result that goes with an outcome: `Ok` where nothing failed.
pub open spec fn as_result(error: Option<RasterError>) -> Result<(), RasterError> {
    match error {
        Some(e) => Err(e),
        None => Ok(()),
    }
}

/// Why a triangle cannot be rasterized, if it cannot: a vertex that is not
/// projectable is a stage failure, a triangle without area is degenerate.
pub open spec fn triangle_error(
    v1: VertexAttributes,
    v2: VertexAttributes,
    v3: VertexAttributes,
    width: int,
    height: int,
) -> Option<RasterError> {
    if !projectable(v1) || !projectable(v2) || !projectable(v3) {
        Some(RasterError::ShaderStageFailure)
    } else if screen_triangle(v1, v2, v3, width, height).doubled_area() == 0 {
        Some(RasterError::GeometryDegenerate)
    } else {
        None
    }
}

/// Why a line cannot be rasterized, if it cannot.
pub open spec fn line_error(v1: VertexAttributes, v2: VertexAttributes) -> Option<RasterError> {
    if !projectable(v1) || !projectable(v2) {
        Some(RasterError::ShaderStageFailure)
    } else {
        None
    }
}

/// Whether every row of the grid has `width` cells.
pub open spec fn rectangular(grid: Seq<Seq<FrameBufferAttributes>>, width: int) -> bool {
    forall|row: int| 0 <= row < grid.len() ==> (#[trigger] grid[row]).len() == width
}

impl<V: VertexShader, F: FragmentShader, B: BlendingShader> Program<V, F, B> {
    /// The cell that a sample leaves where `previous` was: the sample goes
    /// through the fragment stage and then, with the previous cell, through
    /// the blending stage. Without a sample the cell stays.
    pub open spec fn fragment_cell(
        &self,
        uniform: UniformAttributes,
        sample: Option<VertexAttributes>,
        previous: FrameBufferAttributes,
    ) -> FrameBufferAttributes {
        match sample {
            Some(va) => self.blending_shader.blended(
                self.fragment_shader.shaded(va, uniform),
                previous,
            ),
            None => previous,
        }
    }

    /// The cell in column `x` of row `row` after a triangle was rendered
    /// into `grid`. Row 0 is the top row, so the cell belongs to the pixel
    /// `(x, height - 1 - row)`.
    pub open spec fn triangle_cell(
        &self,
        uniform: UniformAttributes,
        v1: VertexAttributes,
        v2: VertexAttributes,
        v3: VertexAttributes,
        grid: Seq<Seq<FrameBufferAttributes>>,
        width: int,
        x: int,
        row: int,
    ) -> FrameBufferAttributes {
        self.fragment_cell(
            uniform,
            triangle_sample(v1, v2, v3, width, grid.len() as int, x, grid.len() - 1 - row),
            grid[row][x],
        )
    }

    /// The grid after a triangle was rendered into it.
    pub open spec fn triangle_grid(
        &self,
        uniform: UniformAttributes,
        v1: VertexAttributes,
        v2: VertexAttributes,
        v3: VertexAttributes,
        grid: Seq<Seq<FrameBufferAttributes>>,
        width: int,
    ) -> Seq<Seq<FrameBufferAttributes>> {
        Seq::new(
            grid.len(),
            |row: int|
                Seq::new(
                    width as nat,
                    |x: int| self.triangle_cell(uniform, v1, v2, v3, grid, width, x, row),
                ),
        )
    }

    /// The cell in column `x` of row `row` after a line was rendered into
    /// `grid`.
    pub open spec fn line_cell(
        &self,
        uniform: UniformAttributes,
        v1: VertexAttributes,
        v2: VertexAttributes,
        thickness: int,
        grid: Seq<Seq<FrameBufferAttributes>>,
        width: int,
        x: int,
        row: int,
    ) -> FrameBufferAttributes {
        self.fragment_cell(
            uniform,
            line_sample(v1, v2, thickness, width, grid.len() as int, x, grid.len() - 1 - row),
            grid[row][x],
        )
    }

    /// The grid after a line was rendered into it.
    pub open spec fn line_grid(
        &self,
        uniform: UniformAttributes,
        v1: VertexAttributes,
        v2: VertexAttributes,
        thickness: int,
        grid: Seq<Seq<FrameBufferAttributes>>,
        width: int,
    ) -> Seq<Seq<FrameBufferAttributes>> {
        Seq::new(
            grid.len(),
            |row: int|
                Seq::new(
                    width as nat,
                    |x: int| self.line_cell(uniform, v1, v2, thickness, grid, width, x, row),
                ),
        )
    }

    /// The outcome of rendering the first `n` triangles of an index list
    /// into `grid`: the first error, if there was one, and the grid as the
    /// triangles before it left it.
    pub open spec fn triangles_outcome(
        &self,
        uniform: UniformAttributes,
        vertices: Seq<VertexAttributes>,
        indices: Seq<usize>,
        grid: Seq<Seq<FrameBufferAttributes>>,
        width: int,
        n: nat,
    ) -> (Option<RasterError>, Seq<Seq<FrameBufferAttributes>>)
        decreases n,
    {
        if n == 0 {
            (None, grid)
        } else {
            let before = self.triangles_outcome(
                uniform,
                vertices,
                indices,
                grid,
                width,
                (n - 1) as nat,
            );
            let (i1, i2, i3) = (indices[3 * (n - 1)], indices[3 * (n - 1) + 1], indices[3 * (n
                - 1) + 2]);
            if before.0 is Some {
                before
            } else if i1 >= vertices.len() || i2 >= vertices.len() || i3 >= vertices.len() {
                (Some(RasterError::IndexOutOfRange), before.1)
            } else {
                let (v1, v2, v3) = (vertices[i1 as int], vertices[i2 as int], vertices[i3 as int]);
                match triangle_error(v1, v2, v3, width, before.1.len() as int) {
                    Some(e) => (Some(e), before.1),
                    None => (None, self.triangle_grid(uniform, v1, v2, v3, before.1, width)),
                }
            }
        }
    }

    /// The outcome of rendering the first `n` lines of an index list into
    /// `grid`.
    pub open spec fn lines_outcome(
        &self,
        uniform: UniformAttributes,
        vertices: Seq<VertexAttributes>,
        indices: Seq<usize>,
        thickness: int,
        grid: Seq<Seq<FrameBufferAttributes>>,
        width: int,
        n: nat,
    ) -> (Option<RasterError>, Seq<Seq<FrameBufferAttributes>>)
        decreases n,
    {
        if n == 0 {
            (None, grid)
        } else {
            let before = self.lines_outcome(
                uniform,
                vertices,
                indices,
                thickness,
                grid,
                width,
                (n - 1) as nat,
            );
            let (i1, i2) = (indices[2 * (n - 1)], indices[2 * (n - 1) + 1]);
            if before.0 is Some {
                before
            } else if i1 >= vertices.len() || i2 >= vertices.len() {
                (Some(RasterError::IndexOutOfRange), before.1)
            } else {
                let (v1, v2) = (vertices[i1 as int], vertices[i2 as int]);
                match line_error(v1, v2) {
                    Some(e) => (Some(e), before.1),
                    None => (None, self.line_grid(uniform, v1, v2, thickness, before.1, width)),
                }
            }
        }
    }

    /// The outcome of a whole render: the indices are grouped into triangles
    /// or lines, and rendered one after the other until one fails.
    pub open spec fn render_outcome(
        &self,
        uniform: UniformAttributes,
        vertices: Seq<VertexAttributes>,
        indices: Seq<usize>,
        grid: Seq<Seq<FrameBufferAttributes>>,
        width: int,
        primitive_type: PrimitiveType,
    ) -> (Option<RasterError>, Seq<Seq<FrameBufferAttributes>>) {
        match primitive_type {
            PrimitiveType::Triangle => self.triangles_outcome(
                uniform,
                vertices,
                indices,
                grid,
                width,
                indices.len() / 3,
            ),
            PrimitiveType::Line => self.lines_outcome(
                uniform,
                vertices,
                indices,
                LINE_THICKNESS as int,
                grid,
                width,
                indices.len() / 2,
            ),
        }
    }

    /// Once a triangle has failed, the outcome does not change any more.
    pub proof fn lemma_triangles_error_stays(
        &self,
        uniform: UniformAttributes,
        vertices: Seq<VertexAttributes>,
        indices: Seq<usize>,
        grid: Seq<Seq<FrameBufferAttributes>>,
        width: int,
        m: nat,
        n: nat,
    )
        requires
            m <= n,
            self.triangles_outcome(uniform, vertices, indices, grid, width, m).0 is Some,
        ensures
            self.triangles_outcome(uniform, vertices, indices, grid, width, n)
                == self.triangles_outcome(uniform, vertices, indices, grid, width, m),
        decreases n - m,
    {
        if m < n {
            self.lemma_triangles_error_stays(
                uniform,
                vertices,
                indices,
                grid,
                width,
                m,
                (n - 1) as nat,
            );
        }
    }

    /// Once a line has failed, the outcome does not change any more.
    pub proof fn lemma_lines_error_stays(
        &self,
        uniform: UniformAttributes,
        vertices: Seq<VertexAttributes>,
        indices: Seq<usize>,
        thickness: int,
        grid: Seq<Seq<FrameBufferAttributes>>,
        width: int,
        m: nat,
        n: nat,
    )
        requires
            m <= n,
            self.lines_outcome(uniform, vertices, indices, thickness, grid, width, m).0 is Some,
        ensures
            self.lines_outcome(uniform, vertices, indices, thickness, grid, width, n)
                == self.lines_outcome(uniform, vertices, indices, thickness, grid, width, m),
        decreases n - m,
    {
        if m < n {
            self.lemma_lines_error_stays(
                uniform,
                vertices,
                indices,
                thickness,
                grid,
                width,
                m,
                (n - 1) as nat,
            );
        }
    }

    /// Runs the vertex stage over a list of vertices.
    pub fn transform_vertices(
        &self,
        uniform: &UniformAttributes,
        vertices: &[VertexAttributes],
    ) -> (r: Vec<VertexAttributes>)
        ensures
            r@.len() == vertices@.len(),
            forall|i: int|
                0 <= i < vertices@.len() ==> r@[i] == self.vertex_shader.transformed(
                    vertices@[i],
                    *uniform,
                ),
    {
        let mut out: Vec<VertexAttributes> = Vec::new();
        let mut i: usize = 0;
        while i < vertices.len()
            invariant
                0 <= i <= vertices@.len(),
                out@.len() == i,
                forall|k: int|
                    0 <= k < i ==> out@[k] == self.vertex_shader.transformed(
                        vertices@[k],
                        *uniform,
                    ),
            decreases vertices@.len() - i,
        {
            out.push(self.vertex_shader.transform(vertices[i], uniform));
            i = i + 1;
        }
        out
    }

    /// Shades one sample and blends it into the cell in column `x` of row
    /// `row`.
    fn shade_and_blend(
        &self,
        uniform: &UniformAttributes,
        va: VertexAttributes,
        x: usize,
        row: usize,
        frame_buffer: &mut FrameBuffer,
    )
        requires
            old(frame_buffer).wf(),
            x < old(frame_buffer).spec_width(),
            row < old(frame_buffer).spec_height(),
        ensures
            final(frame_buffer).wf(),
            final(frame_buffer).spec_width() == old(frame_buffer).spec_width(),
            final(frame_buffer)@ == old(frame_buffer)@.update(
                row as int,
                old(frame_buffer)@[row as int].update(
                    x as int,
                    self.fragment_cell(*uniform, Some(va), old(frame_buffer)@[row as int][x as int]),
                ),
            ),
    {
        let frag = self.fragment_shader.shade(va, uniform);
        let previous = frame_buffer.get(x, row);
        let cell = self.blending_shader.blend(frag, previous);
        frame_buffer.set(x, row, cell);
    }
}

/// What a rasterizer offers: single primitives, lists of them, and the
/// dispatch by primitive type. Nothing is drawn anywhere but into the frame
/// buffer.
pub trait Raster {
    fn render_triangle(
        &self,
        uniform: &UniformAttributes,
        v1: &VertexAttributes,
        v2: &VertexAttributes,
        v3: &VertexAttributes,
        frame_buffer: &mut FrameBuffer,
    ) -> (r: Result<(), RasterError>)
        requires
            old(frame_buffer).wf(),
        ensures
            final(frame_buffer).wf(),
            final(frame_buffer).spec_width() == old(frame_buffer).spec_width(),
            final(frame_buffer).spec_height() == old(frame_buffer).spec_height(),
    ;

    fn render_triangles(
        &self,
        uniform: &UniformAttributes,
        vertices: &[VertexAttributes],
        indices: &[usize],
        frame_buffer: &mut FrameBuffer,
    ) -> (r: Result<(), RasterError>)
        requires
            old(frame_buffer).wf(),
        ensures
            final(frame_buffer).wf(),
            final(frame_buffer).spec_width() == old(frame_buffer).spec_width(),
            final(frame_buffer).spec_height() == old(frame_buffer).spec_height(),
    ;

    fn render_line(
        &self,
        uniform: &UniformAttributes,
        v1: &VertexAttributes,
        v2: &VertexAttributes,
        line_thickness: i32,
        frame_buffer: &mut FrameBuffer,
    ) -> (r: Result<(), RasterError>)
        requires
            old(frame_buffer).wf(),
        ensures
            final(frame_buffer).wf(),
            final(frame_buffer).spec_width() == old(frame_buffer).spec_width(),
            final(frame_buffer).spec_height() == old(frame_buffer).spec_height(),
    ;

    fn render_lines(
        &self,
        uniform: &UniformAttributes,
        vertices: &[VertexAttributes],
        indices: &[usize],
        line_thickness: i32,
        frame_buffer: &mut FrameBuffer,
    ) -> (r: Result<(), RasterError>)
        requires
            old(frame_buffer).wf(),
        ensures
            final(frame_buffer).wf(),
            final(frame_buffer).spec_width() == old(frame_buffer).spec_width(),
            final(frame_buffer).spec_height() == old(frame_buffer).spec_height(),
    ;

    fn render(
        &self,
        uniform: &UniformAttributes,
        vertices: &[VertexAttributes],
        indices: &[usize],
        frame_buffer: &mut FrameBuffer,
        primitive_type: PrimitiveType,
    ) -> (r: Result<(), RasterError>)
        requires
            old(frame_buffer).wf(),
        ensures
            final(frame_buffer).wf(),
            final(frame_buffer).spec_width() == old(frame_buffer).spec_width(),
            final(frame_buffer).spec_height() == old(frame_buffer).spec_height(),
    ;
}

impl<V: VertexShader, F: FragmentShader, B: BlendingShader> Raster for Program<V, F, B> {
    /// Rasterizes one triangle: every pixel whose centre the triangle
    /// contains, and whose interpolated depth lies in `[-1, 1]`, is shaded
    /// and blended into its cell. A triangle without area is reported as
    /// degenerate, and nothing is drawn.
    fn render_triangle(
        &self,
        uniform: &UniformAttributes,
        v1: &VertexAttributes,
        v2: &VertexAttributes,
        v3: &VertexAttributes,
        frame_buffer: &mut FrameBuffer,
    ) -> (r: Result<(), RasterError>)
        ensures
            r == as_result(
                triangle_error(
                    *v1,
                    *v2,
                    *v3,
                    old(frame_buffer).spec_width() as int,
                    old(frame_buffer).spec_height() as int,
                ),
            ),
            r is Err ==> final(frame_buffer)@ == old(frame_buffer)@,
            r is Ok ==> final(frame_buffer)@ == self.triangle_grid(
                *uniform,
                *v1,
                *v2,
                *v3,
                old(frame_buffer)@,
                old(frame_buffer).spec_width() as int,
            ),
    {
        let width = frame_buffer.width();
        let height = frame_buffer.height();
        let a = match project_vertex(v1, width, height) {
            Some(p) => p,
            None => {
                return Err(RasterError::ShaderStageFailure);
            },
        };
        let b = match project_vertex(v2, width, height) {
            Some(p) => p,
            None => {
                return Err(RasterError::ShaderStageFailure);
            },
        };
        let c = match project_vertex(v3, width, height) {
            Some(p) => p,
            None => {
                return Err(RasterError::ShaderStageFailure);
            },
        };
        let tri = ScreenTriangle { a, b, c };
        let area = tri.area();
        if area == 0 {
            return Err(RasterError::GeometryDegenerate);
        }
        let bounds = tri.bounding_box(width, height);
        let ghost before = frame_buffer@;
        let mut i = bounds.x_start;
        while i < bounds.x_end
            invariant
                frame_buffer.wf(),
                frame_buffer.spec_width() == width,
                frame_buffer.spec_height() == height,
                before.len() == height,
                rectangular(before, width as int),
                tri == screen_triangle(*v1, *v2, *v3, width as int, height as int),
                tri.on_screen(),
                area == tri.doubled_area(),
                area != 0,
                projectable(*v1),
                projectable(*v2),
                projectable(*v3),
                bounds.x_end <= width,
                bounds.y_end <= height,
                bounds.x_start <= i,
                forall|x: int, y: int|
                    0 <= x < width && 0 <= y < height && #[trigger] tri.contains(x, y)
                        ==> bounds.holds(x, y),
                forall|x: int, row: int|
                    0 <= x < width && 0 <= row < height ==> #[trigger] cell_at(
                        frame_buffer@,
                        x,
                        row,
                    ) == if x < i {
                        self.triangle_cell(*uniform, *v1, *v2, *v3, before, width as int, x, row)
                    } else {
                        before[row][x]
                    },
            decreases bounds.x_end - i,
        {
            let mut j = bounds.y_start;
            while j < bounds.y_end
                invariant
                    frame_buffer.wf(),
                    frame_buffer.spec_width() == width,
                    frame_buffer.spec_height() == height,
                    before.len() == height,
                    rectangular(before, width as int),
                    tri == screen_triangle(*v1, *v2, *v3, width as int, height as int),
                    tri.on_screen(),
                    area == tri.doubled_area(),
                    area != 0,
                    projectable(*v1),
                    projectable(*v2),
                    projectable(*v3),
                    bounds.x_end <= width,
                    bounds.y_end <= height,
                    bounds.x_start <= i < bounds.x_end,
                    bounds.y_start <= j,
                    forall|x: int, y: int|
                        0 <= x < width && 0 <= y < height && #[trigger] tri.contains(x, y)
                            ==> bounds.holds(x, y),
                    forall|x: int, row: int|
                        0 <= x < width && 0 <= row < height ==> #[trigger] cell_at(
                            frame_buffer@,
                            x,
                            row,
                        ) == if x < i || (x == i && height - 1 - row < j) {
                            self.triangle_cell(
                                *uniform,
                                *v1,
                                *v2,
                                *v3,
                                before,
                                width as int,
                                x,
                                row,
                            )
                        } else {
                            before[row][x]
                        },
                decreases bounds.y_end - j,
            {
                let row = height - 1 - j;
                let ghost grid = frame_buffer@;
                assert(cell_at(grid, i as int, row as int) == before[row as int][i as int]);
                if let Some(k) = tri.weights_at(i, j, area) {
                    proof {
                        lemma_projectable_interpolable(*v1, *v2, *v3, k);
                    }
                    if let Some(va) = VertexAttributes::interpolate(
                        *v1,
                        *v2,
                        *v3,
                        k.alpha,
                        k.beta,
                        k.gamma,
                    ) {
                        if -ONE <= va.position.z && va.position.z <= ONE {
                            self.shade_and_blend(uniform, va, i, row, frame_buffer);
                        }
                    }
                }
                proof {
                    assert forall|x: int, r2: int|
                        0 <= x < width && 0 <= r2 < height implies #[trigger] cell_at(
                        frame_buffer@,
                        x,
                        r2,
                    ) == if x < i || (x == i && height - 1 - r2 < j + 1) {
                        self.triangle_cell(*uniform, *v1, *v2, *v3, before, width as int, x, r2)
                    } else {
                        before[r2][x]
                    } by {
                        assert(grid[r2].len() == width);
                        if x == i && r2 == row {
                        } else {
                            assert(cell_at(frame_buffer@, x, r2) == cell_at(grid, x, r2));
                            let old_cell = if x < i || (x == i && height - 1 - r2 < j) {
                                self.triangle_cell(
                                    *uniform,
                                    *v1,
                                    *v2,
                                    *v3,
                                    before,
                                    width as int,
                                    x,
                                    r2,
                                )
                            } else {
                                before[r2][x]
                            };
                            assert(cell_at(grid, x, r2) == old_cell);
                        }
                    }
                }
                j = j + 1;
            }
            proof {
                assert forall|x: int, r2: int|
                    0 <= x < width && 0 <= r2 < height implies #[trigger] cell_at(
                    frame_buffer@,
                    x,
                    r2,
                ) == if x < i + 1 {
                    self.triangle_cell(*uniform, *v1, *v2, *v3, before, width as int, x, r2)
                } else {
                    before[r2][x]
                } by {
                    if x == i && !(height - 1 - r2 < j) {
                        assert(!bounds.holds(x, height - 1 - r2));
                        assert(!tri.contains(x, height - 1 - r2));
                    }
                }
            }
            i = i + 1;
        }
        proof {
            let after = self.triangle_grid(*uniform, *v1, *v2, *v3, before, width as int);
            assert forall|row: int| 0 <= row < height implies #[trigger] frame_buffer@[row]
                =~= after[row] by {
                assert(frame_buffer@[row].len() == width);
                assert forall|x: int| 0 <= x < width implies frame_buffer@[row][x]
                    == after[row][x] by {
                    assert(cell_at(frame_buffer@, x, row) == frame_buffer@[row][x]);
                    if !(x < i) {
                        assert(!bounds.holds(x, height - 1 - row));
                        assert(!tri.contains(x, height - 1 - row));
                    }
                }
            }
            assert(frame_buffer@ =~= after);
        }
        Ok(())
    }

    /// Renders the triangles of an index list, three indices each, in
    /// order. The first failure ends the call: what was drawn before it
    /// stays, nothing after it is drawn.
    fn render_triangles(
        &self,
        uniform: &UniformAttributes,
        vertices: &[VertexAttributes],
        indices: &[usize],
        frame_buffer: &mut FrameBuffer,
    ) -> (r: Result<(), RasterError>)
        ensures
            r == as_result(
                self.triangles_outcome(
                    *uniform,
                    vertices@,
                    indices@,
                    old(frame_buffer)@,
                    old(frame_buffer).spec_width() as int,
                    indices@.len() / 3,
                ).0,
            ),
            final(frame_buffer)@ == self.triangles_outcome(
                *uniform,
                vertices@,
                indices@,
                old(frame_buffer)@,
                old(frame_buffer).spec_width() as int,
                indices@.len() / 3,
            ).1,
    {
        let count = indices.len();
        let n = count / 3;
        let ghost start = frame_buffer@;
        let ghost width = frame_buffer.spec_width() as int;
        let mut k: usize = 0;
        while k < n
            invariant
                frame_buffer.wf(),
                start == old(frame_buffer)@,
                width == old(frame_buffer).spec_width(),
                count == indices@.len(),
                frame_buffer.spec_width() == width,
                frame_buffer.spec_height() == start.len(),
                n == indices@.len() / 3,
                0 <= k <= n,
                self.triangles_outcome(*uniform, vertices@, indices@, start, width, k as nat) == (
                    None::<RasterError>,
                    frame_buffer@,
                ),
            decreases n - k,
        {
            let i1 = indices[3 * k];
            let i2 = indices[3 * k + 1];
            let i3 = indices[3 * k + 2];
            if i1 >= vertices.len() || i2 >= vertices.len() || i3 >= vertices.len() {
                proof {
                    self.lemma_triangles_error_stays(
                        *uniform,
                        vertices@,
                        indices@,
                        start,
                        width,
                        (k + 1) as nat,
                        n as nat,
                    );
                }
                return Err(RasterError::IndexOutOfRange);
            }
            let outcome = self.render_triangle(
                uniform,
                &vertices[i1],
                &vertices[i2],
                &vertices[i3],
                frame_buffer,
            );
            if let Err(e) = outcome {
                proof {
                    self.lemma_triangles_error_stays(
                        *uniform,
                        vertices@,
                        indices@,
                        start,
                        width,
                        (k + 1) as nat,
                        n as nat,
                    );
                }
                return Err(e);
            }
            k = k + 1;
        }
        Ok(())
    }

    /// Rasterizes one line: every pixel whose centre is closer to the
    /// segment than `line_thickness` is shaded and blended into its cell. A
    /// line of length zero is a disc around its one point.
    fn render_line(
        &self,
        uniform: &UniformAttributes,
        v1: &VertexAttributes,
        v2: &VertexAttributes,
        line_thickness: i32,
        frame_buffer: &mut FrameBuffer,
    ) -> (r: Result<(), RasterError>)
        ensures
            r == as_result(line_error(*v1, *v2)),
            r is Err ==> final(frame_buffer)@ == old(frame_buffer)@,
            r is Ok ==> final(frame_buffer)@ == self.line_grid(
                *uniform,
                *v1,
                *v2,
                line_thickness as int,
                old(frame_buffer)@,
                old(frame_buffer).spec_width() as int,
            ),
    {
        let width = frame_buffer.width();
        let height = frame_buffer.height();
        let a = match project_vertex(v1, width, height) {
            Some(p) => p,
            None => {
                return Err(RasterError::ShaderStageFailure);
            },
        };
        let b = match project_vertex(v2, width, height) {
            Some(p) => p,
            None => {
                return Err(RasterError::ShaderStageFailure);
            },
        };
        let line = ScreenLine { a, b };
        let length = line.length();
        let bounds = line.bounding_box(line_thickness, width, height);
        let ghost before = frame_buffer@;
        let ghost thickness = line_thickness as int;
        let mut i = bounds.x_start;
        while i < bounds.x_end
            invariant
                frame_buffer.wf(),
                frame_buffer.spec_width() == width,
                frame_buffer.spec_height() == height,
                before.len() == height,
                rectangular(before, width as int),
                line == screen_line(*v1, *v2, width as int, height as int),
                line.on_screen(),
                length == line.length_squared(),
                thickness == line_thickness,
                projectable(*v1),
                projectable(*v2),
                bounds.x_end <= width,
                bounds.y_end <= height,
                bounds.x_start <= i,
                forall|x: int, y: int|
                    0 <= x < width && 0 <= y < height && #[trigger] line.covers(x, y, thickness)
                        ==> bounds.holds(x, y),
                forall|x: int, row: int|
                    0 <= x < width && 0 <= row < height ==> #[trigger] cell_at(
                        frame_buffer@,
                        x,
                        row,
                    ) == if x < i {
                        self.line_cell(*uniform, *v1, *v2, thickness, before, width as int, x, row)
                    } else {
                        before[row][x]
                    },
            decreases bounds.x_end - i,
        {
            let mut j = bounds.y_start;
            while j < bounds.y_end
                invariant
                    frame_buffer.wf(),
                    frame_buffer.spec_width() == width,
                    frame_buffer.spec_height() == height,
                    before.len() == height,
                    rectangular(before, width as int),
                    line == screen_line(*v1, *v2, width as int, height as int),
                    line.on_screen(),
                    length == line.length_squared(),
                    thickness == line_thickness,
                    projectable(*v1),
                    projectable(*v2),
                    bounds.x_end <= width,
                    bounds.y_end <= height,
                    bounds.x_start <= i < bounds.x_end,
                    bounds.y_start <= j,
                    forall|x: int, y: int|
                        0 <= x < width && 0 <= y < height && #[trigger] line.covers(
                            x,
                            y,
                            thickness,
                        ) ==> bounds.holds(x, y),
                    forall|x: int, row: int|
                        0 <= x < width && 0 <= row < height ==> #[trigger] cell_at(
                            frame_buffer@,
                            x,
                            row,
                        ) == if x < i || (x == i && height - 1 - row < j) {
                            self.line_cell(
                                *uniform,
                                *v1,
                                *v2,
                                thickness,
                                before,
                                width as int,
                                x,
                                row,
                            )
                        } else {
                            before[row][x]
                        },
                decreases bounds.y_end - j,
            {
                let row = height - 1 - j;
                let ghost grid = frame_buffer@;
                assert(cell_at(grid, i as int, row as int) == before[row as int][i as int]);
                if let Some(k) = line.weights_at(i, j, line_thickness, length) {
                    proof {
                        lemma_projectable_interpolable(*v1, *v2, *v1, k);
                    }
                    if let Some(va) = VertexAttributes::interpolate(
                        *v1,
                        *v2,
                        *v1,
                        k.alpha,
                        k.beta,
                        k.gamma,
                    ) {
                        self.shade_and_blend(uniform, va, i, row, frame_buffer);
                    }
                }
                proof {
                    assert forall|x: int, r2: int|
                        0 <= x < width && 0 <= r2 < height implies #[trigger] cell_at(
                        frame_buffer@,
                        x,
                        r2,
                    ) == if x < i || (x == i && height - 1 - r2 < j + 1) {
                        self.line_cell(*uniform, *v1, *v2, thickness, before, width as int, x, r2)
                    } else {
                        before[r2][x]
                    } by {
                        assert(grid[r2].len() == width);
                        if x == i && r2 == row {
                        } else {
                            assert(cell_at(frame_buffer@, x, r2) == cell_at(grid, x, r2));
                            let old_cell = if x < i || (x == i && height - 1 - r2 < j) {
                                self.line_cell(
                                    *uniform,
                                    *v1,
                                    *v2,
                                    thickness,
                                    before,
                                    width as int,
                                    x,
                                    r2,
                                )
                            } else {
                                before[r2][x]
                            };
                            assert(cell_at(grid, x, r2) == old_cell);
                        }
                    }
                }
                j = j + 1;
            }
            proof {
                assert forall|x: int, r2: int|
                    0 <= x < width && 0 <= r2 < height implies #[trigger] cell_at(
                    frame_buffer@,
                    x,
                    r2,
                ) == if x < i + 1 {
                    self.line_cell(*uniform, *v1, *v2, thickness, before, width as int, x, r2)
                } else {
                    before[r2][x]
                } by {
                    if x == i && !(height - 1 - r2 < j) {
                        assert(!bounds.holds(x, height - 1 - r2));
                        assert(!line.covers(x, height - 1 - r2, thickness));
                    }
                }
            }
            i = i + 1;
        }
        proof {
            let after = self.line_grid(*uniform, *v1, *v2, thickness, before, width as int);
            assert forall|row: int| 0 <= row < height implies #[trigger] frame_buffer@[row]
                =~= after[row] by {
                assert(frame_buffer@[row].len() == width);
                assert forall|x: int| 0 <= x < width implies frame_buffer@[row][x]
                    == after[row][x] by {
                    assert(cell_at(frame_buffer@, x, row) == frame_buffer@[row][x]);
                    if !(x < i) {
                        assert(!bounds.holds(x, height - 1 - row));
                        assert(!line.covers(x, height - 1 - row, thickness));
                    }
                }
            }
            assert(frame_buffer@ =~= after);
        }
        Ok(())
    }

    /// Renders the lines of an index list, two indices each, in order. The
    /// first failure ends the call.
    fn render_lines(
        &self,
        uniform: &UniformAttributes,
        vertices: &[VertexAttributes],
        indices: &[usize],
        line_thickness: i32,
        frame_buffer: &mut FrameBuffer,
    ) -> (r: Result<(), RasterError>)
        ensures
            r == as_result(
                self.lines_outcome(
                    *uniform,
                    vertices@,
                    indices@,
                    line_thickness as int,
                    old(frame_buffer)@,
                    old(frame_buffer).spec_width() as int,
                    indices@.len() / 2,
                ).0,
            ),
            final(frame_buffer)@ == self.lines_outcome(
                *uniform,
                vertices@,
                indices@,
                line_thickness as int,
                old(frame_buffer)@,
                old(frame_buffer).spec_width() as int,
                indices@.len() / 2,
            ).1,
    {
        let count = indices.len();
        let n = count / 2;
        let ghost start = frame_buffer@;
        let ghost width = frame_buffer.spec_width() as int;
        let ghost thickness = line_thickness as int;
        let mut k: usize = 0;
        while k < n
            invariant
                frame_buffer.wf(),
                start == old(frame_buffer)@,
                width == old(frame_buffer).spec_width(),
                count == indices@.len(),
                frame_buffer.spec_width() == width,
                frame_buffer.spec_height() == start.len(),
                n == indices@.len() / 2,
                thickness == line_thickness,
                0 <= k <= n,
                self.lines_outcome(
                    *uniform,
                    vertices@,
                    indices@,
                    thickness,
                    start,
                    width,
                    k as nat,
                ) == (None::<RasterError>, frame_buffer@),
            decreases n - k,
        {
            let i1 = indices[2 * k];
            let i2 = indices[2 * k + 1];
            if i1 >= vertices.len() || i2 >= vertices.len() {
                proof {
                    self.lemma_lines_error_stays(
                        *uniform,
                        vertices@,
                        indices@,
                        thickness,
                        start,
                        width,
                        (k + 1) as nat,
                        n as nat,
                    );
                }
                return Err(RasterError::IndexOutOfRange);
            }
            let outcome = self.render_line(
                uniform,
                &vertices[i1],
                &vertices[i2],
                line_thickness,
                frame_buffer,
            );
            if let Err(e) = outcome {
                proof {
                    self.lemma_lines_error_stays(
                        *uniform,
                        vertices@,
                        indices@,
                        thickness,
                        start,
                        width,
                        (k + 1) as nat,
                        n as nat,
                    );
                }
                return Err(e);
            }
            k = k + 1;
        }
        Ok(())
    }

    /// Renders an index list as triangles or as lines of the default
    /// thickness.
    fn render(
        &self,
        uniform: &UniformAttributes,
        vertices: &[VertexAttributes],
        indices: &[usize],
        frame_buffer: &mut FrameBuffer,
        primitive_type: PrimitiveType,
    ) -> (r: Result<(), RasterError>)
        ensures
            r == as_result(
                self.render_outcome(
                    *uniform,
                    vertices@,
                    indices@,
                    old(frame_buffer)@,
                    old(frame_buffer).spec_width() as int,
                    primitive_type,
                ).0,
            ),
            final(frame_buffer)@ == self.render_outcome(
                *uniform,
                vertices@,
                indices@,
                old(frame_buffer)@,
                old(frame_buffer).spec_width() as int,
                primitive_type,
            ).1,
    {
        match primitive_type {
            PrimitiveType::Triangle => self.render_triangles(
                uniform,
                vertices,
                indices,
                frame_buffer,
            ),
            PrimitiveType::Line => self.render_lines(
                uniform,
                vertices,
                indices,
                LINE_THICKNESS,
                frame_buffer,
            ),
        }
    }
}

} // verus!
