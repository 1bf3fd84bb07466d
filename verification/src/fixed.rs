//! Fixed-point arithmetic shared by the whole simulation.
//!
//! Every length, speed, angle and factor is an integer count of thousandths:
//! `1000` is one block edge, one block per second, one radian or the factor
//! one, depending on the quantity. Durations are whole milliseconds, so the
//! same scaling turns a rate and a duration into a change.

use vstd::prelude::*;

verus! {

/// Fixed-point steps in one whole unit.
pub const UNIT: i64 = 1000;

/// A point or a direction in world space, each component in thousandths.
#[derive(Clone, Copy, Debug, PartialEq, Eq, Structural)]
pub struct Vec3 {
    pub x: i64,
    pub y: i64,
    pub z: i64,
}

/// Quotient rounded towards zero, for a positive divisor.
pub open spec fn trunc_div(a: int, d: int) -> int {
    if a >= 0 {
        a / d
    } else {
        -((-a) / d)
    }
}

/// The product of two fixed-point numbers, rounded towards zero.
pub open spec fn scaled(a: int, b: int) -> int {
    trunc_div(a * b, UNIT as int)
}

/// The whole unit (block coordinate) that contains the coordinate `c`.
pub open spec fn floor_units(c: int) -> int {
    c / (UNIT as int)
}

/// The least number of whole units that cover the length `len`.
pub open spec fn ceil_units(len: int) -> int {
    (len + UNIT - 1) / (UNIT as int)
}

/// `r` is the integer square root of `n`, rounded down.
pub open spec fn is_floor_sqrt(n: int, r: int) -> bool {
    0 <= r && r * r <= n && n < (r + 1) * (r + 1)
}

/// The integer square root of `n`, rounded down (for `n >= 0`).
pub open spec fn floor_sqrt(n: int) -> int {
    choose|r: int| is_floor_sqrt(n, r)
}

/// The squared Euclidean length of `v`.
pub open spec fn length_sq(v: Vec3) -> int {
    v.x * v.x + v.y * v.y + v.z * v.z
}

/// The Euclidean length of `v`, rounded down.
pub open spec fn length(v: Vec3) -> int {
    floor_sqrt(length_sq(v))
}

/// `v` rescaled to length one (a thousand steps), each component rounded
/// towards zero; the zero vector stays as it is.
pub open spec fn normalized(v: Vec3) -> Vec3 {
    let len = length(v);
    if len == 0 {
        v
    } else {
        Vec3 {
            x: trunc_div(v.x * UNIT, len) as i64,
            y: trunc_div(v.y * UNIT, len) as i64,
            z: trunc_div(v.z * UNIT, len) as i64,
        }
    }
}

/// The cross product of `a` and `b`, without the rescaling that a product
/// of two fixed-point numbers would need: only its direction is used.
pub open spec fn cross_product(a: Vec3, b: Vec3) -> Vec3 {
    Vec3 {
        x: (a.y * b.z - a.z * b.y) as i64,
        y: (a.z * b.x - a.x * b.z) as i64,
        z: (a.x * b.y - a.y * b.x) as i64,
    }
}

/// Whether every component of `v` lies within one unit of zero.
pub open spec fn within_unit_cube(v: Vec3) -> bool {
    &&& -UNIT <= v.x <= UNIT
    &&& -UNIT <= v.y <= UNIT
    &&& -UNIT <= v.z <= UNIT
}

/// No two integers are the rounded-down square root of the same number.
pub proof fn lemma_floor_sqrt_unique(n: int, r1: int, r2: int)
    requires
        is_floor_sqrt(n, r1),
        is_floor_sqrt(n, r2),
    ensures
        r1 == r2,
{
    if r1 < r2 {
        assert((r1 + 1) * (r1 + 1) <= r2 * r2) by (nonlinear_arith)
            requires
                0 <= r1,
                r1 + 1 <= r2,
        ;
    } else if r2 < r1 {
        assert((r2 + 1) * (r2 + 1) <= r1 * r1) by (nonlinear_arith)
            requires
                0 <= r2,
                r2 + 1 <= r1,
        ;
    }
}

/// Any integer that squares to at most `n` and whose successor squares to
/// more than `n` is `floor_sqrt(n)`.
pub proof fn lemma_floor_sqrt_is(n: int, r: int)
    requires
        is_floor_sqrt(n, r),
    ensures
        floor_sqrt(n) == r,
{
    lemma_floor_sqrt_unique(n, r, floor_sqrt(n));
}

/// A component is never longer than the whole vector, so a normalized
/// vector stays inside the unit cube.
pub proof fn lemma_component_bounded(c: int, n: int, len: int)
    requires
        is_floor_sqrt(n, len),
        c * c <= n,
    ensures
        -len <= c <= len,
{
    if c > len {
        assert((len + 1) * (len + 1) <= c * c) by (nonlinear_arith)
            requires
                0 <= len,
                len + 1 <= c,
        ;
    } else if c < -len {
        assert((len + 1) * (len + 1) <= c * c) by (nonlinear_arith)
            requires
                0 <= len,
                c <= -(len + 1),
        ;
    }
}

/// Rescaling a component that is no longer than `len` by `UNIT / len`
/// gives at most one unit.
pub proof fn lemma_rescaled_bounded(c: int, len: int)
    requires
        0 < len,
        -len <= c <= len,
    ensures
        -UNIT <= trunc_div(c * UNIT, len) <= UNIT,
{
    if c >= 0 {
        assert(0 <= c * UNIT <= len * UNIT) by (nonlinear_arith)
            requires
                0 <= c <= len,
        ;
        vstd::arithmetic::div_mod::lemma_div_is_ordered(c * UNIT, len * UNIT, len);
        vstd::arithmetic::div_mod::lemma_div_is_ordered(0, c * UNIT, len);
        vstd::arithmetic::div_mod::lemma_div_multiples_vanish(UNIT as int, len);
        assert(len * UNIT == UNIT * len) by (nonlinear_arith);
    } else {
        assert(0 <= -(c * UNIT) <= len * UNIT) by (nonlinear_arith)
            requires
                -len <= c < 0,
        ;
        vstd::arithmetic::div_mod::lemma_div_is_ordered(-(c * UNIT), len * UNIT, len);
        vstd::arithmetic::div_mod::lemma_div_is_ordered(0, -(c * UNIT), len);
        vstd::arithmetic::div_mod::lemma_div_multiples_vanish(UNIT as int, len);
        assert(len * UNIT == UNIT * len) by (nonlinear_arith);
    }
}

impl Vec3 {
    /// The vector with the given components.
    pub fn new(x: i64, y: i64, z: i64) -> (v: Vec3)
        ensures
            v == (Vec3 { x, y, z }),
    {
        Vec3 { x, y, z }
    }

    /// The origin.
    pub fn zero() -> (v: Vec3)
        ensures
            v == (Vec3 { x: 0, y: 0, z: 0 }),
    {
        Vec3 { x: 0, y: 0, z: 0 }
    }

    /// Component-wise sum, or `None` when a component leaves the range of
    /// the coordinates.
    pub fn checked_add(self, d: Vec3) -> (r: Option<Vec3>)
        ensures
            r == sum_in_range(self, d),
    {
        match (self.x.checked_add(d.x), self.y.checked_add(d.y), self.z.checked_add(d.z)) {
            (Some(x), Some(y), Some(z)) => Some(Vec3 { x, y, z }),
            _ => None,
        }
    }
}

/// Whether `c` can be stored in a coordinate.
pub open spec fn fits_coord(c: int) -> bool {
    i64::MIN <= c <= i64::MAX
}

/// The component-wise sum of `a` and `d` where every component can be
/// stored, and `None` otherwise.
pub open spec fn sum_in_range(a: Vec3, d: Vec3) -> Option<Vec3> {
    if fits_coord(a.x + d.x) && fits_coord(a.y + d.y) && fits_coord(a.z + d.z) {
        Some(Vec3 { x: (a.x + d.x) as i64, y: (a.y + d.y) as i64, z: (a.z + d.z) as i64 })
    } else {
        None
    }
}

/// The scaled product `a * b / 1000` where it can be stored.
pub open spec fn scaled_in_range(a: int, b: int) -> Option<i64> {
    if fits_coord(scaled(a, b)) {
        Some(scaled(a, b) as i64)
    } else {
        None
    }
}

/// The block coordinate that contains `c`: the quotient by a thousand,
/// rounded down also for negative coordinates.
pub fn block_coord(c: i64) -> (b: i64)
    ensures
        b == floor_units(c as int),
{
    if c >= 0 {
        c / UNIT
    } else {
        let below: i64 = -(c + 1);
        -(below / UNIT) - 1
    }
}

/// The number of whole blocks needed to cover `len`.
pub fn blocks_to_cover(len: u32) -> (n: u32)
    ensures
        n == ceil_units(len as int),
{
    let whole: u32 = len / 1000;
    if len % 1000 == 0 {
        whole
    } else {
        whole + 1
    }
}

/// Multiplies two fixed-point numbers, rounding towards zero; `None` when
/// the product cannot be stored.
pub fn scale(a: i64, b: i64) -> (r: Option<i64>)
    ensures
        r == scaled_in_range(a as int, b as int),
{
    let x: i128 = a as i128;
    let y: i128 = b as i128;
    assert(-0x4000_0000_0000_0000_0000_0000_0000_0000 <= x * y
        <= 0x4000_0000_0000_0000_0000_0000_0000_0000) by (nonlinear_arith)
        requires
            -0x8000_0000_0000_0000 <= x <= 0x7fff_ffff_ffff_ffff,
            -0x8000_0000_0000_0000 <= y <= 0x7fff_ffff_ffff_ffff,
    ;
    let q: i128 = (x * y) / 1000;
    if q < i64::MIN as i128 || q > i64::MAX as i128 {
        None
    } else {
        Some(q as i64)
    }
}

/// The integer square root of `n`, rounded down.
pub fn isqrt(n: u128) -> (r: u64)
    ensures
        is_floor_sqrt(n as int, r as int),
        r == floor_sqrt(n as int),
{
    let mut lo: u128 = 0;
    let mut hi: u128 = 0x1_0000_0000_0000_0000;
    assert(hi * hi > n) by (nonlinear_arith)
        requires
            hi == 0x1_0000_0000_0000_0000,
            n <= 0xffff_ffff_ffff_ffff_ffff_ffff_ffff_ffff,
    ;
    while hi - lo > 1
        invariant
            lo < hi <= 0x1_0000_0000_0000_0000,
            lo * lo <= n,
            n < hi * hi,
        decreases hi - lo,
    {
        let mid: u128 = lo + (hi - lo) / 2;
        assert(mid * mid <= 0xffff_ffff_ffff_ffff * 0xffff_ffff_ffff_ffff) by (nonlinear_arith)
            requires
                0 <= mid <= 0xffff_ffff_ffff_ffff,
        ;
        if mid * mid <= n {
            lo = mid;
        } else {
            hi = mid;
        }
    }
    proof {
        lemma_floor_sqrt_is(n as int, lo as int);
    }
    lo as u64
}

/// Rescales `v` to length one. The zero vector is returned unchanged.
pub fn normalize(v: Vec3) -> (u: Vec3)
    ensures
        u == normalized(v),
        within_unit_cube(u),
{
    let x: i128 = v.x as i128;
    let y: i128 = v.y as i128;
    let z: i128 = v.z as i128;
    proof {
        lemma_square_bounded(x as int);
        lemma_square_bounded(y as int);
        lemma_square_bounded(z as int);
    }
    let n: u128 = (x * x) as u128 + (y * y) as u128 + (z * z) as u128;
    let len: u64 = isqrt(n);
    assert(n == length_sq(v));
    if len == 0 {
        assert(n < 1) by {
            assert((len + 1) * (len + 1) == 1) by (nonlinear_arith)
                requires
                    len == 0,
            ;
        }
        assert(v.x == 0 && v.y == 0 && v.z == 0) by (nonlinear_arith)
            requires
                v.x * v.x + v.y * v.y + v.z * v.z < 1,
        ;
        v
    } else {
        proof {
            assert(x * x <= n && y * y <= n && z * z <= n) by (nonlinear_arith)
                requires
                    n == x * x + y * y + z * z,
            ;
            lemma_component_bounded(x as int, n as int, len as int);
            lemma_component_bounded(y as int, n as int, len as int);
            lemma_component_bounded(z as int, n as int, len as int);
            lemma_rescaled_bounded(x as int, len as int);
            lemma_rescaled_bounded(y as int, len as int);
            lemma_rescaled_bounded(z as int, len as int);
        }
        let l: i128 = len as i128;
        Vec3 {
            x: ((x * 1000) / l) as i64,
            y: ((y * 1000) / l) as i64,
            z: ((z * 1000) / l) as i64,
        }
    }
}

/// The cross product of two vectors inside the unit cube.
///
/// Calls `cgmath::Vector3::cross` on integer vectors. That function
/// computes `(a.y * b.z - a.z * b.y, a.z * b.x - a.x * b.z,
/// a.x * b.y - a.y * b.x)` in the arithmetic of the components; inside the
/// unit cube no product and no difference leaves the range of `i64`, so the
/// result is the exact cross product. The body is not verified: the
/// contract is what `cgmath` is taken to do.
#[verifier::external_body]
pub(crate) fn cross(a: Vec3, b: Vec3) -> (c: Vec3)
    requires
        within_unit_cube(a),
        within_unit_cube(b),
    ensures
        c == cross_product(a, b),
{
    let c = cgmath::Vector3::new(a.x, a.y, a.z).cross(cgmath::Vector3::new(b.x, b.y, b.z));
    Vec3 { x: c.x, y: c.y, z: c.z }
}

/// The square of a coordinate fits well inside 128 bits.
proof fn lemma_square_bounded(c: int)
    requires
        -0x8000_0000_0000_0000 <= c <= 0x7fff_ffff_ffff_ffff,
    ensures
        0 <= c * c <= 0x4000_0000_0000_0000_0000_0000_0000_0000,
{
    assert(0 <= c * c <= 0x4000_0000_0000_0000_0000_0000_0000_0000) by (nonlinear_arith)
        requires
            -0x8000_0000_0000_0000 <= c <= 0x7fff_ffff_ffff_ffff,
    ;
}

} // verus!
