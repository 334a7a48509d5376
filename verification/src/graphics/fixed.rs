//! Fixed-point scalars: a real number `x` is held as the integer
//! `floor(x * 65536)`. Every quotient in this crate rounds towards minus
//! infinity.

use vstd::prelude::*;

verus! {

/// The fixed-point representation of 1.
pub const ONE: i32 = 65536;

/// The fixed-point representation of one half.
pub const HALF: i32 = 32768;

/// The quotient of `a` by `b`, rounded towards minus infinity.
pub open spec fn floor_div(a: int, b: int) -> int {
    if b > 0 {
        a / b
    } else {
        (-a) / (-b)
    }
}

/// `x` limited to the closed interval from `lo` to `hi`.
pub open spec fn clamp(x: int, lo: int, hi: int) -> int {
    if x < lo {
        lo
    } else if x > hi {
        hi
    } else {
        x
    }
}

/// `x` limited to the range of a 32-bit scalar.
pub open spec fn saturate(x: int) -> int {
    clamp(x, i32::MIN as int, i32::MAX as int)
}

/// Whether `x` can be held in a 32-bit scalar.
pub open spec fn fits(x: int) -> bool {
    i32::MIN <= x <= i32::MAX
}

/// The fixed-point product of two scalars, limited to the scalar range.
pub open spec fn product(a: int, b: int) -> int {
    saturate(floor_div(a * b, ONE as int))
}

/// The fixed-point quotient of two scalars, limited to the scalar range.
pub open spec fn quotient(a: int, b: int) -> int {
    saturate(floor_div(a * ONE, b))
}

/// The negation of a scalar, limited to the scalar range.
pub open spec fn negation(a: int) -> int {
    saturate(-a)
}

/// The sum of two scalars, limited to the scalar range.
pub open spec fn sum(a: int, b: int) -> int {
    saturate(a + b)
}

/// The difference of two scalars, limited to the scalar range.
pub open spec fn difference(a: int, b: int) -> int {
    saturate(a - b)
}

/// The largest `r` with `r * r <= n`.
pub open spec fn isqrt(n: nat) -> nat
    decreases n,
{
    if n == 0 {
        0
    } else {
        let r = isqrt((n - 1) as nat);
        if (r + 1) * (r + 1) <= n {
            r + 1
        } else {
            r
        }
    }
}

/// The floor quotient is the one integer `q` with `q * b <= a < (q + 1) * b`
/// for a positive divisor, and with the inequalities turned for a negative one.
pub proof fn lemma_floor_div_bounds(a: int, b: int)
    requires
        b != 0,
    ensures
        b > 0 ==> floor_div(a, b) * b <= a < floor_div(a, b) * b + b,
        b < 0 ==> floor_div(a, b) * b >= a > floor_div(a, b) * b + b,
{
    if b > 0 {
        assert((a / b) * b <= a < (a / b) * b + b) by (nonlinear_arith)
            requires
                b > 0,
        ;
    } else {
        let n = -a;
        let d = -b;
        assert((n / d) * d <= n < (n / d) * d + d) by (nonlinear_arith)
            requires
                d > 0,
        ;
        assert((n / d) * b == -((n / d) * d)) by (nonlinear_arith)
            requires
                b == -d,
        ;
    }
}

/// Any `q` that meets the bounds of the floor quotient is the floor quotient.
pub proof fn lemma_floor_div_unique(a: int, b: int, q: int)
    requires
        b > 0,
        q * b <= a < q * b + b,
    ensures
        q == floor_div(a, b),
{
    lemma_floor_div_bounds(a, b);
    let f = floor_div(a, b);
    assert(q == f) by (nonlinear_arith)
        requires
            b > 0,
            q * b <= a < q * b + b,
            f * b <= a < f * b + b,
    ;
}

/// A floor quotient is no larger in magnitude than its dividend.
pub proof fn lemma_floor_div_magnitude(a: int, b: int, m: int)
    requires
        b != 0,
        -m <= a <= m,
    ensures
        -m <= floor_div(a, b) <= m,
{
    lemma_floor_div_bounds(a, b);
    let q = floor_div(a, b);
    if b > 0 {
        assert(-m <= q <= m) by (nonlinear_arith)
            requires
                b > 0,
                q * b <= a < q * b + b,
                -m <= a <= m,
        ;
    } else {
        assert(-m <= q <= m) by (nonlinear_arith)
            requires
                b < 0,
                q * b >= a > q * b + b,
                -m <= a <= m,
        ;
    }
}

/// The square root of `n` lies between consecutive squares.
pub proof fn lemma_isqrt_bounds(n: nat)
    ensures
        isqrt(n) * isqrt(n) <= n < (isqrt(n) + 1) * (isqrt(n) + 1),
    decreases n,
{
    if n > 0 {
        lemma_isqrt_bounds((n - 1) as nat);
        let r = isqrt((n - 1) as nat);
        let s = isqrt(n);
        if (r + 1) * (r + 1) <= n {
            assert(s == r + 1);
            assert(s * s <= n < (s + 1) * (s + 1)) by (nonlinear_arith)
                requires
                    s == r + 1,
                    (r + 1) * (r + 1) <= n,
                    n - 1 < (r + 1) * (r + 1),
            ;
        } else {
            assert(s == r);
            assert(s * s <= n < (s + 1) * (s + 1)) by (nonlinear_arith)
                requires
                    s == r,
                    r * r <= n - 1,
                    n < (r + 1) * (r + 1),
            ;
        }
    } else {
        let s = isqrt(n);
        assert(s == 0);
        assert(s * s <= n < (s + 1) * (s + 1)) by (nonlinear_arith)
            requires
                s == 0,
                n == 0,
        ;
    }
}

/// Only one number lies between the consecutive squares around `n`.
pub proof fn lemma_isqrt_unique(n: nat, r: nat)
    requires
        r * r <= n < (r + 1) * (r + 1),
    ensures
        r == isqrt(n),
{
    lemma_isqrt_bounds(n);
    let s = isqrt(n);
    assert(r == s) by (nonlinear_arith)
        requires
            r * r <= n < (r + 1) * (r + 1),
            s * s <= n < (s + 1) * (s + 1),
    ;
}

/// The product of two bounded numbers is bounded by the product of the bounds.
pub proof fn lemma_mul_bounded(a: int, b: int, ma: int, mb: int)
    requires
        -ma <= a <= ma,
        -mb <= b <= mb,
    ensures
        -(ma * mb) <= a * b <= ma * mb,
{
    assert(-(ma * mb) <= a * b <= ma * mb) by (nonlinear_arith)
        requires
            -ma <= a <= ma,
            -mb <= b <= mb,
    ;
}

/// Divides `a` by `b`, rounding towards minus infinity.
pub fn div_floor(a: i128, b: i128) -> (q: i128)
    requires
        b != 0,
        a > i128::MIN,
        b > i128::MIN,
    ensures
        q == floor_div(a as int, b as int),
{
    let (n, d): (i128, i128) = if b > 0 {
        (a, b)
    } else {
        (-a, -b)
    };
    if n >= 0 {
        n / d
    } else {
        let m: i128 = -n;
        let q: i128 = (m - 1) / d;
        assert(n as int / d as int == -(q as int) - 1) by (nonlinear_arith)
            requires
                n < 0,
                d > 0,
                m == -n,
                q == (m - 1) / (d as int),
        ;
        -q - 1
    }
}

/// Limits `x` to the range of a 32-bit scalar.
pub fn saturate_i32(x: i128) -> (r: i32)
    ensures
        r == saturate(x as int),
{
    if x < -2147483648 {
        -2147483648
    } else if x > 2147483647 {
        2147483647
    } else {
        x as i32
    }
}

/// Multiplies two scalars.
pub fn multiply(a: i32, b: i32) -> (r: i32)
    ensures
        r == product(a as int, b as int),
{
    proof {
        lemma_mul_bounded(a as int, b as int, 0x8000_0000, 0x8000_0000);
    }
    saturate_i32(div_floor((a as i128) * (b as i128), 65536))
}

/// Divides a scalar by a non-zero scalar.
pub fn divide(a: i32, b: i32) -> (r: i32)
    requires
        b != 0,
    ensures
        r == quotient(a as int, b as int),
{
    saturate_i32(div_floor((a as i128) * 65536, b as i128))
}

/// Negates a scalar.
pub fn negate(a: i32) -> (r: i32)
    ensures
        r == negation(a as int),
{
    saturate_i32(-(a as i128))
}

/// Adds two scalars.
pub fn add_scalars(a: i32, b: i32) -> (r: i32)
    ensures
        r == sum(a as int, b as int),
{
    saturate_i32(a as i128 + b as i128)
}

/// Subtracts a scalar from another.
pub fn subtract(a: i32, b: i32) -> (r: i32)
    ensures
        r == difference(a as int, b as int),
{
    saturate_i32(a as i128 - b as i128)
}

/// Computes the integer square root by bisection.
pub fn int_sqrt(n: u128) -> (r: u128)
    ensures
        r == isqrt(n as nat),
        r < 0x1_0000_0000_0000_0000,
{
    let mut lo: u128 = 0;
    let mut hi: u128 = 0x1_0000_0000_0000_0000;
    assert(n < hi * hi) by (nonlinear_arith)
        requires
            hi == 0x1_0000_0000_0000_0000,
            n <= u128::MAX,
    ;
    while hi - lo > 1
        invariant
            lo < hi <= 0x1_0000_0000_0000_0000,
            lo * lo <= n < hi * hi,
        decreases hi - lo,
    {
        let mid: u128 = lo + (hi - lo) / 2;
        let quot: u128 = n / mid;
        assert((mid <= quot) <==> (mid * mid <= n)) by (nonlinear_arith)
            requires
                mid > 0,
                quot == n as int / mid as int,
        ;
        if mid <= quot {
            lo = mid;
        } else {
            hi = mid;
        }
    }
    proof {
        lemma_isqrt_unique(n as nat, lo as nat);
    }
    lo
}

} // verus!
