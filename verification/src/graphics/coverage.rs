//! Facts about the pixels that a triangle or a line covers: barycentric
//! weights, and why scanning the bounding box misses no pixel.

use vstd::prelude::*;
use crate::graphics::fixed::{floor_div, lemma_floor_div_bounds, lemma_mul_bounded, ONE};
use crate::graphics::attributes::{VertexAttributes, Weights};
use crate::graphics::screen::{
    center, edge, max2, min2, on_screen, projectable, ScreenLine, ScreenPoint, ScreenTriangle,
    NDC_LIMIT,
};

verus! {

/// The product of two differences, multiplied out.
proof fn lemma_product_of_differences(a: int, b: int, c: int, d: int)
    ensures
        (a - b) * (c - d) == a * c - a * d - b * c + b * d,
{
    assert((a - b) * (c - d) == a * c - a * d - b * c + b * d) by (nonlinear_arith);
}

/// The three areas that a point forms with the sides of a triangle add up to
/// the area of the triangle.
pub proof fn lemma_areas_add_up(t: ScreenTriangle, i: int, j: int)
    ensures
        t.area_a(i, j) + t.area_b(i, j) + t.area_c(i, j) == t.doubled_area(),
{
    let (ux, uy) = (t.b.x - t.a.x, t.b.y - t.a.y);
    let (vx, vy) = (t.c.x - t.a.x, t.c.y - t.a.y);
    let (qx, qy) = (center(i) - t.a.x, center(j) - t.a.y);
    assert(t.doubled_area() == ux * vy - uy * vx);
    assert(t.area_c(i, j) == ux * qy - uy * qx);
    assert(t.area_b(i, j) == (0 - vx) * (qy - vy) - (0 - vy) * (qx - vx));
    assert(t.area_a(i, j) == (vx - ux) * (qy - uy) - (vy - uy) * (qx - ux));
    lemma_product_of_differences(0, vx, qy, vy);
    lemma_product_of_differences(0, vy, qx, vx);
    lemma_product_of_differences(vx, ux, qy, uy);
    lemma_product_of_differences(vy, uy, qx, ux);
    lemma_commutes(vx, vy);
    lemma_commutes(ux, uy);
    lemma_commutes(vx, qy);
    lemma_commutes(vy, qx);
    lemma_commutes(vx, uy);
    lemma_commutes(vy, ux);
    lemma_commutes(ux, qy);
    lemma_commutes(uy, qx);
}

/// Multiplication does not depend on the order of its factors.
proof fn lemma_commutes(a: int, b: int)
    ensures
        a * b == b * a,
        0 * a == 0,
        0 * b == 0,
{
    assert(a * b == b * a) by (nonlinear_arith);
}

/// A factor of one sign keeps or turns an inequality.
proof fn lemma_scaled_order(e: int, lo: int, x: int, hi: int)
    requires
        lo <= x <= hi,
    ensures
        e >= 0 ==> e * lo <= e * x <= e * hi,
        e <= 0 ==> e * lo >= e * x >= e * hi,
{
    assert(e >= 0 ==> e * lo <= e * x <= e * hi) by (nonlinear_arith)
        requires
            lo <= x <= hi,
    ;
    assert(e <= 0 ==> e * lo >= e * x >= e * hi) by (nonlinear_arith)
        requires
            lo <= x <= hi,
    ;
}

/// A non-zero factor can be cancelled from an inequality.
proof fn lemma_cancel(d: int, x: int, y: int)
    requires
        d > 0 && d * x <= d * y || d < 0 && d * x >= d * y,
    ensures
        x <= y,
{
    assert(x <= y) by (nonlinear_arith)
        requires
            d > 0 && d * x <= d * y || d < 0 && d * x >= d * y,
    ;
}

/// A point with weights `ea`, `eb`, `ec` of one sign is the weighted mean of
/// the three corners, so each coordinate lies between the smallest and the
/// largest of theirs.
pub proof fn lemma_mean_between(ea: int, eb: int, ec: int, d: int, a: int, b: int, c: int, p: int)
    requires
        d != 0,
        ea + eb + ec == d,
        d > 0 ==> ea >= 0 && eb >= 0 && ec >= 0,
        d < 0 ==> ea <= 0 && eb <= 0 && ec <= 0,
        d * p == ea * a + eb * b + ec * c,
    ensures
        min2(min2(a, b), c) <= p <= max2(max2(a, b), c),
{
    let lo = min2(min2(a, b), c);
    let hi = max2(max2(a, b), c);
    lemma_scaled_order(ea, lo, a, hi);
    lemma_scaled_order(eb, lo, b, hi);
    lemma_scaled_order(ec, lo, c, hi);
    vstd::arithmetic::mul::lemma_mul_is_distributive_add_other_way(lo, ea, eb);
    vstd::arithmetic::mul::lemma_mul_is_distributive_add_other_way(lo, ea + eb, ec);
    vstd::arithmetic::mul::lemma_mul_is_distributive_add_other_way(hi, ea, eb);
    vstd::arithmetic::mul::lemma_mul_is_distributive_add_other_way(hi, ea + eb, ec);
    lemma_cancel(d, lo, p);
    lemma_cancel(d, p, hi);
}

/// Three factors can be multiplied in any order.
proof fn lemma_three_factors(a: int, b: int, c: int)
    ensures
        (a * b) * c == (c * b) * a,
        (a * b) * c == (a * c) * b,
        (a * b) * c == (b * c) * a,
{
    vstd::arithmetic::mul::lemma_mul_is_associative(a, b, c);
    vstd::arithmetic::mul::lemma_mul_is_associative(c, b, a);
    vstd::arithmetic::mul::lemma_mul_is_associative(a, c, b);
    vstd::arithmetic::mul::lemma_mul_is_associative(b, c, a);
    vstd::arithmetic::mul::lemma_mul_is_commutative(b, c);
    vstd::arithmetic::mul::lemma_mul_is_commutative(a, b * c);
    vstd::arithmetic::mul::lemma_mul_is_commutative(a, c * b);
    vstd::arithmetic::mul::lemma_mul_is_commutative(c, b * a);
    vstd::arithmetic::mul::lemma_mul_is_commutative(a, b);
}

/// For plane vectors `u`, `v` and `q`, the cross product of `u` and `v`
/// times `q` is `q x v` times `u` plus `u x q` times `v` (one coordinate).
proof fn lemma_cross_expansion(ux: int, uy: int, vx: int, vy: int, qx: int, qy: int)
    ensures
        (ux * vy - uy * vx) * qx == (qx * vy - qy * vx) * ux + (ux * qy - uy * qx) * vx,
{
    vstd::arithmetic::mul::lemma_mul_is_distributive_sub_other_way(qx, ux * vy, uy * vx);
    vstd::arithmetic::mul::lemma_mul_is_distributive_sub_other_way(ux, qx * vy, qy * vx);
    vstd::arithmetic::mul::lemma_mul_is_distributive_sub_other_way(vx, ux * qy, uy * qx);
    lemma_three_factors(ux, vy, qx);
    lemma_three_factors(uy, vx, qx);
    lemma_three_factors(qy, vx, ux);
    lemma_commutes(ux, qy);
    lemma_commutes(qy, vx);
}

/// The same for the other coordinate.
proof fn lemma_cross_expansion_y(ux: int, uy: int, vx: int, vy: int, qx: int, qy: int)
    ensures
        (ux * vy - uy * vx) * qy == (qx * vy - qy * vx) * uy + (ux * qy - uy * qx) * vy,
{
    vstd::arithmetic::mul::lemma_mul_is_distributive_sub_other_way(qy, ux * vy, uy * vx);
    vstd::arithmetic::mul::lemma_mul_is_distributive_sub_other_way(uy, qx * vy, qy * vx);
    vstd::arithmetic::mul::lemma_mul_is_distributive_sub_other_way(vy, ux * qy, uy * qx);
    lemma_three_factors(ux, vy, qy);
    lemma_three_factors(uy, vx, qy);
    lemma_three_factors(qx, vy, uy);
    lemma_commutes(qx, uy);
}

/// The centre of a pixel is the mean of the corners weighted by the three
/// areas.
pub proof fn lemma_center_is_mean(t: ScreenTriangle, i: int, j: int)
    ensures
        t.doubled_area() * center(i) == t.area_a(i, j) * t.a.x + t.area_b(i, j) * t.b.x + t.area_c(
            i,
            j,
        ) * t.c.x,
        t.doubled_area() * center(j) == t.area_a(i, j) * t.a.y + t.area_b(i, j) * t.b.y + t.area_c(
            i,
            j,
        ) * t.c.y,
{
    let (ax, ay) = (t.a.x as int, t.a.y as int);
    let (ux, uy) = (t.b.x - t.a.x, t.b.y - t.a.y);
    let (vx, vy) = (t.c.x - t.a.x, t.c.y - t.a.y);
    let (qx, qy) = (center(i) - t.a.x, center(j) - t.a.y);
    let d = t.doubled_area();
    let ea = t.area_a(i, j);
    let eb = t.area_b(i, j);
    let ec = t.area_c(i, j);
    lemma_areas_add_up(t, i, j);
    lemma_cross_expansion(ux, uy, vx, vy, qx, qy);
    lemma_cross_expansion_y(ux, uy, vx, vy, qx, qy);
    assert(d == ux * vy - uy * vx);
    assert(ec == ux * qy - uy * qx);
    assert(eb == (0 - vx) * (qy - vy) - (0 - vy) * (qx - vx));
    lemma_product_of_differences(0, vx, qy, vy);
    lemma_product_of_differences(0, vy, qx, vx);
    lemma_commutes(vx, vy);
    lemma_commutes(vx, qy);
    lemma_commutes(vy, qx);
    assert(eb == qx * vy - qy * vx);
    lemma_shifted_mean(ea, eb, ec, d, ax, ux, vx, qx);
    lemma_shifted_mean(ea, eb, ec, d, ay, uy, vy, qy);
}

/// Moves the origin of a weighted mean: from `d * q == eb * u + ec * v` to
/// the same statement about the points `a`, `a + u`, `a + v` and `a + q`.
proof fn lemma_shifted_mean(ea: int, eb: int, ec: int, d: int, a: int, u: int, v: int, q: int)
    requires
        d * q == eb * u + ec * v,
        ea + eb + ec == d,
    ensures
        d * (a + q) == ea * a + eb * (a + u) + ec * (a + v),
{
    vstd::arithmetic::mul::lemma_mul_is_distributive_add(d, a, q);
    vstd::arithmetic::mul::lemma_mul_is_distributive_add(eb, a, u);
    vstd::arithmetic::mul::lemma_mul_is_distributive_add(ec, a, v);
    vstd::arithmetic::mul::lemma_mul_is_distributive_add_other_way(a, ea, eb);
    vstd::arithmetic::mul::lemma_mul_is_distributive_add_other_way(a, ea + eb, ec);
}

/// A pixel whose centre the triangle contains lies in the bounding box of
/// the triangle: scanning the box alone misses no pixel.
pub proof fn lemma_contained_in_box(t: ScreenTriangle, i: int, j: int)
    requires
        t.doubled_area() != 0,
        t.contains(i, j),
    ensures
        t.in_box(i, j),
{
    lemma_areas_add_up(t, i, j);
    lemma_center_is_mean(t, i, j);
    lemma_mean_between(
        t.area_a(i, j),
        t.area_b(i, j),
        t.area_c(i, j),
        t.doubled_area(),
        t.a.x as int,
        t.b.x as int,
        t.c.x as int,
        center(i),
    );
    lemma_mean_between(
        t.area_a(i, j),
        t.area_b(i, j),
        t.area_c(i, j),
        t.doubled_area(),
        t.a.y as int,
        t.b.y as int,
        t.c.y as int,
        center(j),
    );
}

/// A share `e` of a whole `d` of the same sign gives a weight in `[0, 1]`.
pub proof fn lemma_weight_range(e: int, d: int)
    requires
        d > 0 && 0 <= e <= d || d < 0 && d <= e <= 0,
    ensures
        0 <= floor_div(e * ONE, d) <= ONE,
{
    lemma_floor_div_bounds(e * ONE, d);
    let q = floor_div(e * ONE, d);
    if d > 0 {
        assert(0 <= q <= ONE) by (nonlinear_arith)
            requires
                d > 0,
                0 <= e <= d,
                q * d <= e * ONE < q * d + d,
        ;
    } else {
        assert(0 <= q <= ONE) by (nonlinear_arith)
            requires
                d < 0,
                d <= e <= 0,
                q * d >= e * ONE > q * d + d,
        ;
    }
}

/// Inside a triangle the three weights lie in `[0, 1]`.
pub proof fn lemma_weights_in_range(t: ScreenTriangle, i: int, j: int)
    requires
        t.doubled_area() != 0,
        t.contains(i, j),
    ensures
        0 <= floor_div(t.area_a(i, j) * ONE, t.doubled_area()) <= ONE,
        0 <= floor_div(t.area_b(i, j) * ONE, t.doubled_area()) <= ONE,
        0 <= floor_div(t.area_c(i, j) * ONE, t.doubled_area()) <= ONE,
{
    lemma_areas_add_up(t, i, j);
    lemma_weight_range(t.area_a(i, j), t.doubled_area());
    lemma_weight_range(t.area_b(i, j), t.doubled_area());
    lemma_weight_range(t.area_c(i, j), t.doubled_area());
}

/// The area of a triangle whose corners are at most `2^44` apart in each
/// coordinate is below `2^89` in magnitude.
pub proof fn lemma_edge_bound(a: ScreenPoint, b: ScreenPoint, px: int, py: int)
    requires
        on_screen(a),
        on_screen(b),
        -0x800_0000_0000 <= px <= 0x800_0000_0000,
        -0x800_0000_0000 <= py <= 0x800_0000_0000,
    ensures
        -0x200_0000_0000_0000_0000_0000 <= edge(a, b, px, py) <= 0x200_0000_0000_0000_0000_0000,
{
    lemma_mul_bounded(b.x - a.x, py - a.y, 0x1000_0000_0000, 0x1000_0000_0000);
    lemma_mul_bounded(b.y - a.y, px - a.x, 0x1000_0000_0000, 0x1000_0000_0000);
}

/// A square is not negative.
pub proof fn lemma_square_not_negative(x: int)
    ensures
        x * x >= 0,
{
    assert(x * x >= 0) by (nonlinear_arith);
}

/// A part `t` in `[0, 1]` of a step `d` lies between zero and the step.
pub proof fn lemma_partial_step(t: int, d: int)
    requires
        0 <= t <= ONE,
    ensures
        d >= 0 ==> 0 <= floor_div(t * d, ONE as int) <= d,
        d <= 0 ==> d <= floor_div(t * d, ONE as int) <= 0,
{
    lemma_floor_div_bounds(t * d, ONE as int);
    let q = floor_div(t * d, ONE as int);
    assert(d >= 0 ==> 0 <= t * d <= ONE * d) by (nonlinear_arith)
        requires
            0 <= t <= ONE,
    ;
    assert(d <= 0 ==> ONE * d <= t * d <= 0) by (nonlinear_arith)
        requires
            0 <= t <= ONE,
    ;
}

/// A number whose square is below the square of a positive bound is below
/// the bound in magnitude.
proof fn lemma_root_order(x: int, rest: int, bound: int)
    requires
        bound > 0,
        rest >= 0,
        x * x + rest < bound * bound,
    ensures
        -bound < x < bound,
{
    assert(-bound < x < bound) by (nonlinear_arith)
        requires
            bound > 0,
            rest >= 0,
            x * x + rest < bound * bound,
    ;
}

/// The nearest point of a segment lies between its two ends.
pub proof fn lemma_nearest_between(l: ScreenLine, i: int, j: int)
    ensures
        0 <= l.parameter(i, j) <= ONE,
        min2(l.a.x as int, l.b.x as int) <= l.nearest_x(i, j) <= max2(l.a.x as int, l.b.x as int),
        min2(l.a.y as int, l.b.y as int) <= l.nearest_y(i, j) <= max2(l.a.y as int, l.b.y as int),
{
    lemma_partial_step(l.parameter(i, j), l.b.x - l.a.x);
    lemma_partial_step(l.parameter(i, j), l.b.y - l.a.y);
}

/// A pixel that a line covers lies in the widened bounding box of the line:
/// scanning the box alone misses no pixel.
pub proof fn lemma_covered_in_box(l: ScreenLine, i: int, j: int, thickness: int)
    requires
        l.covers(i, j, thickness),
    ensures
        l.in_box(i, j, thickness),
{
    lemma_nearest_between(l, i, j);
    let dx = center(i) - l.nearest_x(i, j);
    let dy = center(j) - l.nearest_y(i, j);
    lemma_square_not_negative(dx);
    lemma_square_not_negative(dy);
    lemma_root_order(dx, dy * dy, thickness);
    lemma_root_order(dy, dx * dx, thickness);
}

/// The weighted sum of three coordinates within the limit, with weights in
/// `[0, 1]`, is at most three times the limit in magnitude.
pub proof fn lemma_mix_within(k: Weights, a: int, b: int, c: int)
    requires
        0 <= k.alpha <= ONE,
        0 <= k.beta <= ONE,
        0 <= k.gamma <= ONE,
        -NDC_LIMIT <= a <= NDC_LIMIT,
        -NDC_LIMIT <= b <= NDC_LIMIT,
        -NDC_LIMIT <= c <= NDC_LIMIT,
    ensures
        -3 * NDC_LIMIT <= k.mix(a, b, c) <= 3 * NDC_LIMIT,
{
    lemma_mul_bounded(k.alpha as int, a, ONE as int, NDC_LIMIT as int);
    lemma_mul_bounded(k.beta as int, b, ONE as int, NDC_LIMIT as int);
    lemma_mul_bounded(k.gamma as int, c, ONE as int, NDC_LIMIT as int);
    lemma_floor_div_bounds(k.alpha * a + k.beta * b + k.gamma * c, ONE as int);
}

/// Three projectable vertices can be interpolated with any weights in
/// `[0, 1]`.
pub proof fn lemma_projectable_interpolable(
    a: VertexAttributes,
    b: VertexAttributes,
    c: VertexAttributes,
    k: Weights,
)
    requires
        projectable(a),
        projectable(b),
        projectable(c),
        0 <= k.alpha <= ONE,
        0 <= k.beta <= ONE,
        0 <= k.gamma <= ONE,
    ensures
        VertexAttributes::interpolable(a, b, c, k),
{
    lemma_mix_within(k, a.ndc_x(), b.ndc_x(), c.ndc_x());
    lemma_mix_within(k, a.ndc_y(), b.ndc_y(), c.ndc_y());
    lemma_mix_within(k, a.ndc_z(), b.ndc_z(), c.ndc_z());
}

} // verus!
