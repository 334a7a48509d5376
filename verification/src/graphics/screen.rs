//! Screen-space geometry: the projection of vertices into pixel space, and
//! the coverage of pixels by triangles and lines.

use vstd::prelude::*;
use crate::graphics::attributes::{
    divide_component, VertexAttributes, Weights, MAX_DIMENSION,
};
use crate::graphics::coverage::{
    lemma_contained_in_box, lemma_covered_in_box, lemma_edge_bound, lemma_partial_step,
    lemma_square_not_negative, lemma_weights_in_range,
};
use crate::graphics::fixed::{
    clamp, div_floor, floor_div, lemma_floor_div_bounds, lemma_floor_div_magnitude,
    lemma_mul_bounded, HALF, ONE,
};

verus! {

/// The largest magnitude of a coordinate after the perspective division
/// that the rasterizer works with: 8192.
pub const NDC_LIMIT: i64 = 0x2000_0000;

/// A point in pixel space, in units of 1/65536 of a pixel.
#[derive(Clone, Copy, Debug, PartialEq, Eq, Structural)]
pub struct ScreenPoint {
    pub x: i64,
    pub y: i64,
}

/// A triangle in pixel space.
#[derive(Clone, Copy, Debug, PartialEq, Eq, Structural)]
pub struct ScreenTriangle {
    pub a: ScreenPoint,
    pub b: ScreenPoint,
    pub c: ScreenPoint,
}

/// A line segment in pixel space.
#[derive(Clone, Copy, Debug, PartialEq, Eq, Structural)]
pub struct ScreenLine {
    pub a: ScreenPoint,
    pub b: ScreenPoint,
}

/// Whether a coordinate lies within the limit.
pub open spec fn within_limit(c: int) -> bool {
    -NDC_LIMIT <= c <= NDC_LIMIT
}

/// Whether the vertex can be projected: its `w` is not zero and, after the
/// division by `w`, no coordinate exceeds `NDC_LIMIT` in magnitude.
pub open spec fn projectable(v: VertexAttributes) -> bool {
    &&& v.position.w != 0
    &&& within_limit(v.ndc_x())
    &&& within_limit(v.ndc_y())
    &&& within_limit(v.ndc_z())
}

/// Maps a coordinate from `[-1, 1]` onto `[0, dimension]`.
pub open spec fn to_pixels(ndc: int, dimension: int) -> int {
    floor_div((ndc + ONE) * dimension, 2)
}

/// The place of a vertex in a buffer of the given size.
pub open spec fn project(v: VertexAttributes, width: int, height: int) -> ScreenPoint {
    ScreenPoint { x: to_pixels(v.ndc_x(), width) as i64, y: to_pixels(v.ndc_y(), height) as i64 }
}

/// The coordinate of the centre of pixel `i`.
pub open spec fn center(i: int) -> int {
    i * ONE + HALF
}

/// Twice the signed area of the triangle `a`, `b`, `p`.
pub open spec fn edge(a: ScreenPoint, b: ScreenPoint, px: int, py: int) -> int {
    (b.x - a.x) * (py - a.y) - (b.y - a.y) * (px - a.x)
}

/// The smaller of two numbers.
pub open spec fn min2(a: int, b: int) -> int {
    if a <= b {
        a
    } else {
        b
    }
}

/// The larger of two numbers.
pub open spec fn max2(a: int, b: int) -> int {
    if a >= b {
        a
    } else {
        b
    }
}

/// Whether pixel `i` ends after the coordinate `low`.
pub open spec fn ends_after(low: int, i: int) -> bool {
    low < (i + 1) * ONE
}

/// Whether pixel `i` begins at or before the coordinate `high`.
pub open spec fn begins_by(high: int, i: int) -> bool {
    i * ONE <= high
}

/// Whether pixel `i` lies in the span of pixels that the interval from
/// `low` to `high` touches.
pub open spec fn spans(low: int, high: int, i: int) -> bool {
    ends_after(low, i) && begins_by(high, i)
}

/// Whether a point is one that `project` gives for a buffer no larger than
/// `MAX_DIMENSION`.
pub open spec fn on_screen(p: ScreenPoint) -> bool {
    -0x800_0000_0000 <= p.x <= 0x800_0000_0000 && -0x800_0000_0000 <= p.y <= 0x800_0000_0000
}

impl ScreenTriangle {
    /// Twice the signed area of the triangle.
    pub open spec fn doubled_area(self) -> int {
        edge(self.a, self.b, self.c.x as int, self.c.y as int)
    }

    /// Twice the signed area of the triangle that the centre of pixel
    /// `(i, j)` forms with the side opposite `a`.
    pub open spec fn area_a(self, i: int, j: int) -> int {
        edge(self.b, self.c, center(i), center(j))
    }

    /// The same for the side opposite `b`.
    pub open spec fn area_b(self, i: int, j: int) -> int {
        edge(self.c, self.a, center(i), center(j))
    }

    /// The same for the side opposite `c`.
    pub open spec fn area_c(self, i: int, j: int) -> int {
        edge(self.a, self.b, center(i), center(j))
    }

    /// Whether the centre of pixel `(i, j)` has three barycentric weights
    /// that are all at least zero. A centre on an edge counts as inside, for
    /// both triangles that share the edge.
    pub open spec fn contains(self, i: int, j: int) -> bool {
        if self.doubled_area() > 0 {
            self.area_a(i, j) >= 0 && self.area_b(i, j) >= 0 && self.area_c(i, j) >= 0
        } else {
            self.area_a(i, j) <= 0 && self.area_b(i, j) <= 0 && self.area_c(i, j) <= 0
        }
    }

    /// The barycentric weights of the centre of pixel `(i, j)`.
    pub open spec fn weights(self, i: int, j: int) -> Weights {
        Weights {
            alpha: floor_div(self.area_a(i, j) * ONE, self.doubled_area()) as i32,
            beta: floor_div(self.area_b(i, j) * ONE, self.doubled_area()) as i32,
            gamma: floor_div(self.area_c(i, j) * ONE, self.doubled_area()) as i32,
        }
    }

    /// Whether pixel `(i, j)` lies in the bounding box of the triangle.
    pub open spec fn in_box(self, i: int, j: int) -> bool {
        &&& spans(
            min2(min2(self.a.x as int, self.b.x as int), self.c.x as int),
            max2(max2(self.a.x as int, self.b.x as int), self.c.x as int),
            i,
        )
        &&& spans(
            min2(min2(self.a.y as int, self.b.y as int), self.c.y as int),
            max2(max2(self.a.y as int, self.b.y as int), self.c.y as int),
            j,
        )
    }

    /// Whether the three corners are points that `project` gives.
    pub open spec fn on_screen(self) -> bool {
        on_screen(self.a) && on_screen(self.b) && on_screen(self.c)
    }
}

impl ScreenLine {
    /// The squared length of the segment.
    pub open spec fn length_squared(self) -> int {
        (self.a.x - self.b.x) * (self.a.x - self.b.x) + (self.a.y - self.b.y) * (self.a.y
            - self.b.y)
    }

    /// The scalar product of the segment with the vector from its start to
    /// the centre of pixel `(i, j)`.
    pub open spec fn along(self, i: int, j: int) -> int {
        (center(i) - self.a.x) * (self.b.x - self.a.x) + (center(j) - self.a.y) * (self.b.y
            - self.a.y)
    }

    /// Where on the segment the point nearest to the centre of pixel
    /// `(i, j)` lies: 0 at the start, 1 at the end. A segment of length
    /// zero has every point at 0.
    pub open spec fn parameter(self, i: int, j: int) -> int {
        if self.length_squared() == 0 {
            0
        } else {
            clamp(floor_div(self.along(i, j) * ONE, self.length_squared()), 0, ONE as int)
        }
    }

    /// The x coordinate of the point of the segment nearest to the centre of
    /// pixel `(i, j)`.
    pub open spec fn nearest_x(self, i: int, j: int) -> int {
        self.a.x + floor_div(self.parameter(i, j) * (self.b.x - self.a.x), ONE as int)
    }

    /// The y coordinate of that point.
    pub open spec fn nearest_y(self, i: int, j: int) -> int {
        self.a.y + floor_div(self.parameter(i, j) * (self.b.y - self.a.y), ONE as int)
    }

    /// The squared distance from the centre of pixel `(i, j)` to the
    /// segment.
    pub open spec fn distance_squared(self, i: int, j: int) -> int {
        (center(i) - self.nearest_x(i, j)) * (center(i) - self.nearest_x(i, j)) + (center(j)
            - self.nearest_y(i, j)) * (center(j) - self.nearest_y(i, j))
    }

    /// Whether the centre of pixel `(i, j)` is closer to the segment than
    /// `thickness`.
    pub open spec fn covers(self, i: int, j: int, thickness: int) -> bool {
        thickness > 0 && self.distance_squared(i, j) < thickness * thickness
    }

    /// The weights of the two ends at the point nearest to the centre of
    /// pixel `(i, j)`.
    pub open spec fn weights(self, i: int, j: int) -> Weights {
        Weights {
            alpha: (ONE - self.parameter(i, j)) as i32,
            beta: self.parameter(i, j) as i32,
            gamma: 0,
        }
    }

    /// Whether pixel `(i, j)` lies in the bounding box of the segment,
    /// widened by `thickness` on every side.
    pub open spec fn in_box(self, i: int, j: int, thickness: int) -> bool {
        &&& spans(
            min2(self.a.x as int, self.b.x as int) - thickness,
            max2(self.a.x as int, self.b.x as int) + thickness,
            i,
        )
        &&& spans(
            min2(self.a.y as int, self.b.y as int) - thickness,
            max2(self.a.y as int, self.b.y as int) + thickness,
            j,
        )
    }

    /// Whether both ends are points that `project` gives.
    pub open spec fn on_screen(self) -> bool {
        on_screen(self.a) && on_screen(self.b)
    }
}

/// The triangle that three vertices form in a buffer of the given size.
pub open spec fn screen_triangle(
    v1: VertexAttributes,
    v2: VertexAttributes,
    v3: VertexAttributes,
    width: int,
    height: int,
) -> ScreenTriangle {
    ScreenTriangle {
        a: project(v1, width, height),
        b: project(v2, width, height),
        c: project(v3, width, height),
    }
}

/// The segment that two vertices form in a buffer of the given size.
pub open spec fn screen_line(
    v1: VertexAttributes,
    v2: VertexAttributes,
    width: int,
    height: int,
) -> ScreenLine {
    ScreenLine { a: project(v1, width, height), b: project(v2, width, height) }
}

/// What a triangle hands to the fragment stage at pixel `(i, j)`, counted
/// from the bottom left: the interpolated vertex, if the triangle contains
/// the centre of the pixel and the interpolated depth lies in `[-1, 1]`.
pub open spec fn triangle_sample(
    v1: VertexAttributes,
    v2: VertexAttributes,
    v3: VertexAttributes,
    width: int,
    height: int,
    i: int,
    j: int,
) -> Option<VertexAttributes> {
    let t = screen_triangle(v1, v2, v3, width, height);
    let va = VertexAttributes::interpolated(v1, v2, v3, t.weights(i, j));
    if t.contains(i, j) && -ONE <= va.position.z <= ONE {
        Some(va)
    } else {
        None
    }
}

/// What a line hands to the fragment stage at pixel `(i, j)`, counted from
/// the bottom left: the vertex interpolated between the two ends, if the
/// centre of the pixel is closer to the segment than `thickness`.
pub open spec fn line_sample(
    v1: VertexAttributes,
    v2: VertexAttributes,
    thickness: int,
    width: int,
    height: int,
    i: int,
    j: int,
) -> Option<VertexAttributes> {
    let l = screen_line(v1, v2, width, height);
    if l.covers(i, j, thickness) {
        Some(VertexAttributes::interpolated(v1, v2, v1, l.weights(i, j)))
    } else {
        None
    }
}

/// Maps a coordinate from `[-1, 1]` onto `[0, dimension]`, or returns `None`
/// where the coordinate exceeds `NDC_LIMIT`.
fn to_pixel_space(ndc: i128, dimension: usize) -> (r: Option<i64>)
    requires
        dimension <= MAX_DIMENSION,
        -0x8000_0000_0000 <= ndc <= 0x8000_0000_0000,
    ensures
        r is Some <==> within_limit(ndc as int),
        r is Some ==> r->Some_0 == to_pixels(ndc as int, dimension as int) && -0x800_0000_0000
            <= r->Some_0 <= 0x800_0000_0000,
{
    if ndc < -0x2000_0000 || ndc > 0x2000_0000 {
        return None;
    }
    proof {
        lemma_mul_bounded(ndc + ONE, dimension as int, 0x2001_0000, 0x4000);
        lemma_floor_div_magnitude((ndc + ONE) * dimension, 2, 0x2001_0000int * 0x4000int);
    }
    let scaled: i128 = (ndc + 65536) * (dimension as i128);
    Some(div_floor(scaled, 2) as i64)
}

/// Projects a vertex into a buffer of the given size, or returns `None`
/// where the vertex is not projectable.
pub fn project_vertex(v: &VertexAttributes, width: usize, height: usize) -> (r: Option<
    ScreenPoint,
>)
    requires
        width <= MAX_DIMENSION,
        height <= MAX_DIMENSION,
    ensures
        r is Some <==> projectable(*v),
        r is Some ==> r->Some_0 == project(*v, width as int, height as int) && on_screen(
            r->Some_0,
        ),
{
    if v.position.w == 0 {
        return None;
    }
    let z = divide_component(v.position.z, v.position.w);
    if z < -0x2000_0000 || z > 0x2000_0000 {
        return None;
    }
    let x = to_pixel_space(divide_component(v.position.x, v.position.w), width);
    let y = to_pixel_space(divide_component(v.position.y, v.position.w), height);
    match (x, y) {
        (Some(x), Some(y)) => Some(ScreenPoint { x, y }),
        _ => None,
    }
}

/// Computes twice the signed area of the triangle `a`, `b`, `(px, py)`.
fn edge_function(a: &ScreenPoint, b: &ScreenPoint, px: i64, py: i64) -> (r: i128)
    requires
        on_screen(*a),
        on_screen(*b),
        -0x800_0000_0000 <= px <= 0x800_0000_0000,
        -0x800_0000_0000 <= py <= 0x800_0000_0000,
    ensures
        r == edge(*a, *b, px as int, py as int),
        -0x200_0000_0000_0000_0000_0000 <= r <= 0x200_0000_0000_0000_0000_0000,
{
    proof {
        lemma_edge_bound(*a, *b, px as int, py as int);
        lemma_mul_bounded(b.x - a.x, py - a.y, 0x1000_0000_0000, 0x1000_0000_0000);
        lemma_mul_bounded(b.y - a.y, px - a.x, 0x1000_0000_0000, 0x1000_0000_0000);
    }
    let ux: i128 = (b.x - a.x) as i128;
    let uy: i128 = (b.y - a.y) as i128;
    let vx: i128 = (px - a.x) as i128;
    let vy: i128 = (py - a.y) as i128;
    ux * vy - uy * vx
}

/// The coordinate of the centre of pixel `i`.
fn pixel_center(i: usize) -> (r: i64)
    requires
        i < MAX_DIMENSION,
    ensures
        r == center(i as int),
        0 <= r <= 0x4000_0000,
{
    (i as i64) * 65536 + 32768
}

/// The first pixel at or after which `spans(low, _, i)` holds, limited to
/// `[0, dimension]`.
fn first_pixel(low: i128, dimension: usize) -> (r: usize)
    requires
        dimension <= MAX_DIMENSION,
        -0x1000_0000_0000 <= low <= 0x1000_0000_0000,
    ensures
        r <= dimension,
        forall|i: int| 0 <= i < dimension ==> (r <= i <==> #[trigger] ends_after(low as int, i)),
{
    let q: i128 = div_floor(low, 65536);
    proof {
        lemma_floor_div_bounds(low as int, ONE as int);
    }
    if q < 0 {
        0
    } else if q >= dimension as i128 {
        dimension
    } else {
        q as usize
    }
}

/// One past the last pixel for which `spans(_, high, i)` holds, limited to
/// `[0, dimension]`.
fn end_pixel(high: i128, dimension: usize) -> (r: usize)
    requires
        dimension <= MAX_DIMENSION,
        -0x1000_0000_0000 <= high <= 0x1000_0000_0000,
    ensures
        r <= dimension,
        forall|i: int| 0 <= i < dimension ==> (i < r <==> #[trigger] begins_by(high as int, i)),
{
    let q: i128 = div_floor(high, 65536);
    proof {
        lemma_floor_div_bounds(high as int, ONE as int);
    }
    if q < 0 {
        0
    } else if q >= dimension as i128 {
        dimension
    } else {
        (q + 1) as usize
    }
}

fn min_of(a: i64, b: i64) -> (r: i64)
    ensures
        r == min2(a as int, b as int),
{
    if a <= b {
        a
    } else {
        b
    }
}

fn max_of(a: i64, b: i64) -> (r: i64)
    ensures
        r == max2(a as int, b as int),
{
    if a >= b {
        a
    } else {
        b
    }
}

/// A half-open range of pixel columns and one of pixel rows.
#[derive(Clone, Copy, Debug, PartialEq, Eq, Structural)]
pub struct PixelBox {
    pub x_start: usize,
    pub x_end: usize,
    pub y_start: usize,
    pub y_end: usize,
}

impl PixelBox {
    /// Whether pixel `(i, j)` lies in the box.
    pub open spec fn holds(self, i: int, j: int) -> bool {
        self.x_start <= i < self.x_end && self.y_start <= j < self.y_end
    }
}

impl ScreenTriangle {
    /// Computes twice the signed area.
    pub fn area(&self) -> (r: i128)
        requires
            self.on_screen(),
        ensures
            r == self.doubled_area(),
    {
        edge_function(&self.a, &self.b, self.c.x, self.c.y)
    }

    /// The pixels of the buffer that lie in the bounding box. The box holds
    /// every pixel of the buffer that the triangle contains.
    pub fn bounding_box(&self, width: usize, height: usize) -> (r: PixelBox)
        requires
            self.on_screen(),
            self.doubled_area() != 0,
            width <= MAX_DIMENSION,
            height <= MAX_DIMENSION,
        ensures
            r.x_end <= width,
            r.y_end <= height,
            forall|i: int, j: int|
                0 <= i < width && 0 <= j < height ==> (r.holds(i, j) <==> #[trigger] self.in_box(
                    i,
                    j,
                )),
            forall|i: int, j: int|
                0 <= i < width && 0 <= j < height && #[trigger] self.contains(i, j) ==> r.holds(
                    i,
                    j,
                ),
    {
        proof {
            assert forall|i: int, j: int| #[trigger] self.contains(i, j) implies self.in_box(
                i,
                j,
            ) by {
                lemma_contained_in_box(*self, i, j);
            }
        }
        let x_start = first_pixel(min_of(min_of(self.a.x, self.b.x), self.c.x) as i128, width);
        let x_end = end_pixel(max_of(max_of(self.a.x, self.b.x), self.c.x) as i128, width);
        let y_start = first_pixel(min_of(min_of(self.a.y, self.b.y), self.c.y) as i128, height);
        let y_end = end_pixel(max_of(max_of(self.a.y, self.b.y), self.c.y) as i128, height);
        PixelBox { x_start, x_end, y_start, y_end }
    }

    /// The barycentric weights of the centre of pixel `(i, j)` if the
    /// triangle contains it.
    pub fn weights_at(&self, i: usize, j: usize, area: i128) -> (r: Option<Weights>)
        requires
            self.on_screen(),
            i < MAX_DIMENSION,
            j < MAX_DIMENSION,
            area == self.doubled_area(),
            area != 0,
        ensures
            r is Some <==> self.contains(i as int, j as int),
            r is Some ==> r->Some_0 == self.weights(i as int, j as int),
            r is Some ==> 0 <= r->Some_0.alpha <= ONE && 0 <= r->Some_0.beta <= ONE && 0
                <= r->Some_0.gamma <= ONE,
    {
        let px = pixel_center(i);
        let py = pixel_center(j);
        let ea = edge_function(&self.b, &self.c, px, py);
        let eb = edge_function(&self.c, &self.a, px, py);
        let ec = edge_function(&self.a, &self.b, px, py);
        let inside = if area > 0 {
            ea >= 0 && eb >= 0 && ec >= 0
        } else {
            ea <= 0 && eb <= 0 && ec <= 0
        };
        if !inside {
            return None;
        }
        proof {
            lemma_weights_in_range(*self, i as int, j as int);
            lemma_edge_bound(self.a, self.b, self.c.x as int, self.c.y as int);
        }
        let alpha = div_floor(ea * 65536, area);
        let beta = div_floor(eb * 65536, area);
        let gamma = div_floor(ec * 65536, area);
        Some(Weights { alpha: alpha as i32, beta: beta as i32, gamma: gamma as i32 })
    }
}

impl ScreenLine {
    /// Computes the squared length of the segment.
    pub fn length(&self) -> (r: i128)
        requires
            self.on_screen(),
        ensures
            r == self.length_squared(),
            0 <= r <= 0x200_0000_0000_0000_0000_0000,
    {
        proof {
            lemma_mul_bounded(
                self.a.x - self.b.x,
                self.a.x - self.b.x,
                0x1000_0000_0000,
                0x1000_0000_0000,
            );
            lemma_mul_bounded(
                self.a.y - self.b.y,
                self.a.y - self.b.y,
                0x1000_0000_0000,
                0x1000_0000_0000,
            );
            lemma_square_not_negative(self.a.x - self.b.x);
            lemma_square_not_negative(self.a.y - self.b.y);
        }
        let dx: i128 = (self.a.x - self.b.x) as i128;
        let dy: i128 = (self.a.y - self.b.y) as i128;
        dx * dx + dy * dy
    }

    /// The pixels of the buffer that lie in the widened bounding box.
    pub fn bounding_box(&self, thickness: i32, width: usize, height: usize) -> (r: PixelBox)
        requires
            self.on_screen(),
            width <= MAX_DIMENSION,
            height <= MAX_DIMENSION,
        ensures
            r.x_end <= width,
            r.y_end <= height,
            forall|i: int, j: int|
                0 <= i < width && 0 <= j < height ==> (r.holds(i, j) <==> #[trigger] self.in_box(
                    i,
                    j,
                    thickness as int,
                )),
            forall|i: int, j: int|
                0 <= i < width && 0 <= j < height && #[trigger] self.covers(
                    i,
                    j,
                    thickness as int,
                ) ==> r.holds(i, j),
    {
        proof {
            assert forall|i: int, j: int| #[trigger]
                self.covers(i, j, thickness as int) implies self.in_box(i, j, thickness as int) by {
                lemma_covered_in_box(*self, i, j, thickness as int);
            }
        }
        let t: i128 = thickness as i128;
        let x_start = first_pixel(min_of(self.a.x, self.b.x) as i128 - t, width);
        let x_end = end_pixel(max_of(self.a.x, self.b.x) as i128 + t, width);
        let y_start = first_pixel(min_of(self.a.y, self.b.y) as i128 - t, height);
        let y_end = end_pixel(max_of(self.a.y, self.b.y) as i128 + t, height);
        PixelBox { x_start, x_end, y_start, y_end }
    }

    /// Where on the segment the point nearest to the centre of pixel
    /// `(i, j)` lies.
    fn parameter_at(&self, px: i64, py: i64, length: i128) -> (t: i128)
        requires
            self.on_screen(),
            length == self.length_squared(),
            0 <= px <= 0x4000_0000,
            0 <= py <= 0x4000_0000,
        ensures
            0 <= t <= ONE,
            forall|i: int, j: int|
                px == center(i) && py == center(j) ==> t == #[trigger] self.parameter(i, j),
    {
        if length == 0 {
            return 0;
        }
        proof {
            lemma_mul_bounded(px - self.a.x, self.b.x - self.a.x, 0x1000_0000_0000, 0x1000_0000_0000);
            lemma_mul_bounded(py - self.a.y, self.b.y - self.a.y, 0x1000_0000_0000, 0x1000_0000_0000);
            lemma_square_not_negative(self.a.x - self.b.x);
            lemma_square_not_negative(self.a.y - self.b.y);
            lemma_mul_bounded(
                self.a.x - self.b.x,
                self.a.x - self.b.x,
                0x1000_0000_0000,
                0x1000_0000_0000,
            );
            lemma_mul_bounded(
                self.a.y - self.b.y,
                self.a.y - self.b.y,
                0x1000_0000_0000,
                0x1000_0000_0000,
            );
        }
        let dot: i128 = ((px - self.a.x) as i128) * ((self.b.x - self.a.x) as i128) + ((py
            - self.a.y) as i128) * ((self.b.y - self.a.y) as i128);
        let q: i128 = div_floor(dot * 65536, length);
        if q < 0 {
            0
        } else if q > 65536 {
            65536
        } else {
            q
        }
    }

    /// The weights of the two ends at pixel `(i, j)` if the line covers it.
    pub fn weights_at(&self, i: usize, j: usize, thickness: i32, length: i128) -> (r: Option<
        Weights,
    >)
        requires
            self.on_screen(),
            i < MAX_DIMENSION,
            j < MAX_DIMENSION,
            length == self.length_squared(),
        ensures
            r is Some <==> self.covers(i as int, j as int, thickness as int),
            r is Some ==> r->Some_0 == self.weights(i as int, j as int),
            r is Some ==> 0 <= r->Some_0.alpha <= ONE && 0 <= r->Some_0.beta <= ONE
                && r->Some_0.gamma == 0,
    {
        let px = pixel_center(i);
        let py = pixel_center(j);
        let t: i128 = self.parameter_at(px, py, length);
        assert(t == self.parameter(i as int, j as int));
        if thickness <= 0 {
            return None;
        }
        let ghost sx = floor_div(t * (self.b.x - self.a.x), ONE as int);
        let ghost sy = floor_div(t * (self.b.y - self.a.y), ONE as int);
        proof {
            lemma_mul_bounded(t as int, self.b.x - self.a.x, 0x1_0000, 0x1000_0000_0000);
            lemma_mul_bounded(t as int, self.b.y - self.a.y, 0x1_0000, 0x1000_0000_0000);
            lemma_floor_div_magnitude(
                t * (self.b.x - self.a.x),
                ONE as int,
                0x1_0000int * 0x1000_0000_0000int,
            );
            lemma_floor_div_magnitude(
                t * (self.b.y - self.a.y),
                ONE as int,
                0x1_0000int * 0x1000_0000_0000int,
            );
            lemma_partial_step(t as int, self.b.x - self.a.x);
            lemma_partial_step(t as int, self.b.y - self.a.y);
            lemma_mul_bounded(
                px - (self.a.x + sx),
                px - (self.a.x + sx),
                0x2000_0000_0000,
                0x2000_0000_0000,
            );
            lemma_mul_bounded(
                py - (self.a.y + sy),
                py - (self.a.y + sy),
                0x2000_0000_0000,
                0x2000_0000_0000,
            );
            lemma_mul_bounded(thickness as int, thickness as int, 0x8000_0000, 0x8000_0000);
        }
        let nx: i128 = self.a.x as i128 + div_floor(t * ((self.b.x - self.a.x) as i128), 65536);
        let ny: i128 = self.a.y as i128 + div_floor(t * ((self.b.y - self.a.y) as i128), 65536);
        let dx: i128 = px as i128 - nx;
        let dy: i128 = py as i128 - ny;
        let th: i128 = thickness as i128;
        if dx * dx + dy * dy < th * th {
            Some(Weights { alpha: (65536 - t) as i32, beta: t as i32, gamma: 0 })
        } else {
            None
        }
    }
}

} // verus!
