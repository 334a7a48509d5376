//! Small vectors and 4x4 matrices over fixed-point scalars.

use vstd::prelude::*;
use crate::graphics::fixed::{
    add_scalars, difference, div_floor, floor_div, int_sqrt, isqrt, lemma_isqrt_bounds,
    lemma_mul_bounded, multiply, product, saturate, saturate_i32, subtract, sum, ONE,
};

verus! {

/// A pair of scalars, used for texture coordinates.
#[derive(Clone, Copy, Debug, PartialEq, Eq, Structural)]
pub struct Vec2 {
    pub x: i32,
    pub y: i32,
}

/// A triple of scalars: a point, a direction or a colour.
#[derive(Clone, Copy, Debug, PartialEq, Eq, Structural)]
pub struct Vec3 {
    pub x: i32,
    pub y: i32,
    pub z: i32,
}

/// A homogeneous point, or a colour with alpha.
#[derive(Clone, Copy, Debug, PartialEq, Eq, Structural)]
pub struct Vec4 {
    pub x: i32,
    pub y: i32,
    pub z: i32,
    pub w: i32,
}

/// A 4x4 matrix held by its four columns.
#[derive(Clone, Copy, Debug, PartialEq, Eq, Structural)]
pub struct Mat4 {
    pub x_axis: Vec4,
    pub y_axis: Vec4,
    pub z_axis: Vec4,
    pub w_axis: Vec4,
}

/// The fixed-point product of a matrix row with a vector, before it is
/// limited to the scalar range.
pub open spec fn row_product(a: Vec4, v: Vec4) -> int {
    floor_div(a.x * v.x + a.y * v.y + a.z * v.z + a.w * v.w, ONE as int)
}

/// The squared length of the vector with the given components.
pub open spec fn norm_squared(x: int, y: int, z: int) -> nat {
    (x * x + y * y + z * z) as nat
}

/// One component of the vector `(x, y, z)` scaled to unit length; the zero
/// vector stays zero.
pub open spec fn unit_component(c: int, x: int, y: int, z: int) -> int {
    let len = isqrt(norm_squared(x, y, z));
    if len == 0 {
        0
    } else {
        floor_div(c * ONE, len as int)
    }
}

/// A component of a vector is no longer than the vector, so a unit component
/// lies between minus one and one.
pub proof fn lemma_unit_component_range(c: int, x: int, y: int, z: int)
    requires
        c == x || c == y || c == z,
    ensures
        -ONE <= unit_component(c, x, y, z) <= ONE,
{
    let n = norm_squared(x, y, z);
    let len = isqrt(n) as int;
    lemma_isqrt_bounds(n);
    assert(x * x >= 0 && y * y >= 0 && z * z >= 0) by (nonlinear_arith);
    if len != 0 {
        assert(c * c <= n) by (nonlinear_arith)
            requires
                c == x || c == y || c == z,
                n == x * x + y * y + z * z,
        ;
        assert(-len <= c <= len) by (nonlinear_arith)
            requires
                c * c <= n,
                n < (len + 1) * (len + 1),
                len >= 0,
        ;
        let q = floor_div(c * ONE, len);
        crate::graphics::fixed::lemma_floor_div_bounds(c * ONE, len);
        assert(-ONE <= q <= ONE) by (nonlinear_arith)
            requires
                len > 0,
                -len <= c <= len,
                q * len <= c * ONE < q * len + len,
        ;
    }
}

impl Vec2 {
    pub fn new(x: i32, y: i32) -> (r: Self)
        ensures
            r == (Vec2 { x, y }),
    {
        Vec2 { x, y }
    }
}

impl Vec3 {
    /// The vector whose components are all zero.
    pub open spec fn zero() -> Vec3 {
        Vec3 { x: 0, y: 0, z: 0 }
    }

    /// This vector scaled to unit length.
    pub open spec fn unit(self) -> Vec3 {
        Vec3 {
            x: unit_component(self.x as int, self.x as int, self.y as int, self.z as int) as i32,
            y: unit_component(self.y as int, self.x as int, self.y as int, self.z as int) as i32,
            z: unit_component(self.z as int, self.x as int, self.y as int, self.z as int) as i32,
        }
    }

    /// The sum of two vectors, component by component.
    pub open spec fn plus_spec(self, other: Vec3) -> Vec3 {
        Vec3 {
            x: sum(self.x as int, other.x as int) as i32,
            y: sum(self.y as int, other.y as int) as i32,
            z: sum(self.z as int, other.z as int) as i32,
        }
    }

    /// The difference of two vectors, component by component.
    pub open spec fn minus_spec(self, other: Vec3) -> Vec3 {
        Vec3 {
            x: difference(self.x as int, other.x as int) as i32,
            y: difference(self.y as int, other.y as int) as i32,
            z: difference(self.z as int, other.z as int) as i32,
        }
    }

    /// The product of two vectors, component by component.
    pub open spec fn times_spec(self, other: Vec3) -> Vec3 {
        Vec3 {
            x: product(self.x as int, other.x as int) as i32,
            y: product(self.y as int, other.y as int) as i32,
            z: product(self.z as int, other.z as int) as i32,
        }
    }

    /// The vector with every component multiplied by `k`.
    pub open spec fn scaled_spec(self, k: i32) -> Vec3 {
        Vec3 {
            x: product(self.x as int, k as int) as i32,
            y: product(self.y as int, k as int) as i32,
            z: product(self.z as int, k as int) as i32,
        }
    }

    /// The scalar product of two vectors.
    pub open spec fn dot_spec(self, other: Vec3) -> int {
        saturate(
            floor_div(self.x * other.x + self.y * other.y + self.z * other.z, ONE as int),
        )
    }

    pub fn new(x: i32, y: i32, z: i32) -> (r: Self)
        ensures
            r == (Vec3 { x, y, z }),
    {
        Vec3 { x, y, z }
    }

    /// Adds two vectors.
    pub fn plus(self, other: Vec3) -> (r: Vec3)
        ensures
            r == self.plus_spec(other),
    {
        Vec3 {
            x: add_scalars(self.x, other.x),
            y: add_scalars(self.y, other.y),
            z: add_scalars(self.z, other.z),
        }
    }

    /// Subtracts `other` from this vector.
    pub fn minus(self, other: Vec3) -> (r: Vec3)
        ensures
            r == self.minus_spec(other),
    {
        Vec3 {
            x: subtract(self.x, other.x),
            y: subtract(self.y, other.y),
            z: subtract(self.z, other.z),
        }
    }

    /// Multiplies two vectors component by component.
    pub fn times(self, other: Vec3) -> (r: Vec3)
        ensures
            r == self.times_spec(other),
    {
        Vec3 {
            x: multiply(self.x, other.x),
            y: multiply(self.y, other.y),
            z: multiply(self.z, other.z),
        }
    }

    /// Multiplies every component by `k`.
    pub fn scaled(self, k: i32) -> (r: Vec3)
        ensures
            r == self.scaled_spec(k),
    {
        Vec3 { x: multiply(self.x, k), y: multiply(self.y, k), z: multiply(self.z, k) }
    }

    /// Computes the scalar product of two vectors.
    pub fn dot(self, other: Vec3) -> (r: i32)
        ensures
            r == self.dot_spec(other),
    {
        proof {
            lemma_mul_bounded(self.x as int, other.x as int, 0x8000_0000, 0x8000_0000);
            lemma_mul_bounded(self.y as int, other.y as int, 0x8000_0000, 0x8000_0000);
            lemma_mul_bounded(self.z as int, other.z as int, 0x8000_0000, 0x8000_0000);
        }
        let total: i128 = (self.x as i128) * (other.x as i128) + (self.y as i128) * (
        other.y as i128) + (self.z as i128) * (other.z as i128);
        saturate_i32(div_floor(total, 65536))
    }

    /// Appends a fourth component.
    pub fn extend(self, w: i32) -> (r: Vec4)
        ensures
            r == (Vec4 { x: self.x, y: self.y, z: self.z, w }),
    {
        Vec4 { x: self.x, y: self.y, z: self.z, w }
    }

    /// Scales the vector to unit length; the zero vector stays zero.
    pub fn normalize(self) -> (r: Vec3)
        ensures
            r == self.unit(),
    {
        let (x, y, z) = unit_components(self.x as i128, self.y as i128, self.z as i128);
        Vec3 { x, y, z }
    }
}

/// Scales the vector `(x, y, z)` to unit length.
pub(crate) fn unit_components(x: i128, y: i128, z: i128) -> (r: (i32, i32, i32))
    requires
        -0x1_0000_0000_0000 <= x <= 0x1_0000_0000_0000,
        -0x1_0000_0000_0000 <= y <= 0x1_0000_0000_0000,
        -0x1_0000_0000_0000 <= z <= 0x1_0000_0000_0000,
    ensures
        r.0 == unit_component(x as int, x as int, y as int, z as int),
        r.1 == unit_component(y as int, x as int, y as int, z as int),
        r.2 == unit_component(z as int, x as int, y as int, z as int),
{
    proof {
        lemma_mul_bounded(x as int, x as int, 0x1_0000_0000_0000, 0x1_0000_0000_0000);
        lemma_mul_bounded(y as int, y as int, 0x1_0000_0000_0000, 0x1_0000_0000_0000);
        lemma_mul_bounded(z as int, z as int, 0x1_0000_0000_0000, 0x1_0000_0000_0000);
        assert(x * x >= 0 && y * y >= 0 && z * z >= 0) by (nonlinear_arith);
        lemma_unit_component_range(x as int, x as int, y as int, z as int);
        lemma_unit_component_range(y as int, x as int, y as int, z as int);
        lemma_unit_component_range(z as int, x as int, y as int, z as int);
    }
    let n: i128 = x * x + y * y + z * z;
    let len: u128 = int_sqrt(n as u128);
    if len == 0 {
        (0, 0, 0)
    } else {
        let l: i128 = len as i128;
        let ux: i128 = div_floor(x * 65536, l);
        let uy: i128 = div_floor(y * 65536, l);
        let uz: i128 = div_floor(z * 65536, l);
        (ux as i32, uy as i32, uz as i32)
    }
}

impl Vec4 {
    pub fn new(x: i32, y: i32, z: i32, w: i32) -> (r: Self)
        ensures
            r == (Vec4 { x, y, z, w }),
    {
        Vec4 { x, y, z, w }
    }

    /// Drops the fourth component.
    pub fn truncate(self) -> (r: Vec3)
        ensures
            r == (Vec3 { x: self.x, y: self.y, z: self.z }),
    {
        Vec3 { x: self.x, y: self.y, z: self.z }
    }
}

impl Mat4 {
    /// The identity matrix.
    pub open spec fn identity_spec() -> Mat4 {
        Mat4 {
            x_axis: Vec4 { x: ONE, y: 0, z: 0, w: 0 },
            y_axis: Vec4 { x: 0, y: ONE, z: 0, w: 0 },
            z_axis: Vec4 { x: 0, y: 0, z: ONE, w: 0 },
            w_axis: Vec4 { x: 0, y: 0, z: 0, w: ONE },
        }
    }

    /// The matrix applied to `v`, each component limited to the scalar range.
    pub open spec fn apply(self, v: Vec4) -> Vec4 {
        Vec4 {
            x: saturate(
                row_product(
                    Vec4 { x: self.x_axis.x, y: self.y_axis.x, z: self.z_axis.x, w: self.w_axis.x },
                    v,
                ),
            ) as i32,
            y: saturate(
                row_product(
                    Vec4 { x: self.x_axis.y, y: self.y_axis.y, z: self.z_axis.y, w: self.w_axis.y },
                    v,
                ),
            ) as i32,
            z: saturate(
                row_product(
                    Vec4 { x: self.x_axis.z, y: self.y_axis.z, z: self.z_axis.z, w: self.w_axis.z },
                    v,
                ),
            ) as i32,
            w: saturate(
                row_product(
                    Vec4 { x: self.x_axis.w, y: self.y_axis.w, z: self.z_axis.w, w: self.w_axis.w },
                    v,
                ),
            ) as i32,
        }
    }

    pub fn identity() -> (r: Mat4)
        ensures
            r == Mat4::identity_spec(),
    {
        Mat4 {
            x_axis: Vec4 { x: ONE, y: 0, z: 0, w: 0 },
            y_axis: Vec4 { x: 0, y: ONE, z: 0, w: 0 },
            z_axis: Vec4 { x: 0, y: 0, z: ONE, w: 0 },
            w_axis: Vec4 { x: 0, y: 0, z: 0, w: ONE },
        }
    }

    /// Multiplies the matrix with a column vector.
    pub fn mul_vec4(&self, v: Vec4) -> (r: Vec4)
        ensures
            r == self.apply(v),
    {
        Vec4 {
            x: row_times(self.x_axis.x, self.y_axis.x, self.z_axis.x, self.w_axis.x, v),
            y: row_times(self.x_axis.y, self.y_axis.y, self.z_axis.y, self.w_axis.y, v),
            z: row_times(self.x_axis.z, self.y_axis.z, self.z_axis.z, self.w_axis.z, v),
            w: row_times(self.x_axis.w, self.y_axis.w, self.z_axis.w, self.w_axis.w, v),
        }
    }
}

fn row_times(a: i32, b: i32, c: i32, d: i32, v: Vec4) -> (r: i32)
    ensures
        r == saturate(row_product(Vec4 { x: a, y: b, z: c, w: d }, v)),
{
    proof {
        lemma_mul_bounded(a as int, v.x as int, 0x8000_0000, 0x8000_0000);
        lemma_mul_bounded(b as int, v.y as int, 0x8000_0000, 0x8000_0000);
        lemma_mul_bounded(c as int, v.z as int, 0x8000_0000, 0x8000_0000);
        lemma_mul_bounded(d as int, v.w as int, 0x8000_0000, 0x8000_0000);
    }
    let sum: i128 = (a as i128) * (v.x as i128) + (b as i128) * (v.y as i128) + (c as i128) * (
    v.z as i128) + (d as i128) * (v.w as i128);
    saturate_i32(div_floor(sum, 65536))
}

} // verus!
