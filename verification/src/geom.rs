//! Fixed-point 2D geometry.
//!
//! Every coordinate, length and velocity in the simulation is an `i64`
//! counting milli-units: one spatial unit is `SCALE` (1000) milli-units.
//! Direction vectors are scaled so that a unit vector has length about
//! `SCALE`.

use vstd::prelude::*;

verus! {

/// Number of milli-units in one spatial unit.
pub const SCALE: i64 = 1000;

/// Largest magnitude a coordinate of a simulation entity may take.
pub const COORD_LIMIT: i64 = 2000000;

/// Largest magnitude accepted by the geometry helpers; generous enough
/// for any difference of two in-range coordinates.
pub const GEOM_LIMIT: i64 = 10000000;

/// A 2D point or vector in milli-units.
#[derive(Clone, Copy, PartialEq, Eq, Structural, Debug)]
pub struct Vec2M {
    pub x: i64,
    pub y: i64,
}

/// What `clamp_i64` returns.
pub open spec fn spec_clamp_i64(v: int, lo: int, hi: int) -> int {
    if v < lo {
        lo
    } else if v > hi {
        hi
    } else {
        v
    }
}

/// Clamp `v` into the inclusive range `[lo, hi]`.
pub fn clamp_i64(v: i64, lo: i64, hi: i64) -> (r: i64)
    requires
        lo <= hi,
    ensures
        r == spec_clamp_i64(v as int, lo as int, hi as int),
        lo <= r <= hi,
{
    if v < lo {
        lo
    } else if v > hi {
        hi
    } else {
        v
    }
}

/// Division truncating toward zero, for a positive divisor.  In
/// specifications `/` on `int` is Euclidean division; the executable
/// code divides magnitudes, so its result is pinned by this function.
pub open spec fn spec_div_trunc(a: int, b: int) -> int
    recommends
        b > 0,
{
    if a >= 0 {
        a / b
    } else {
        -((-a) / b)
    }
}

/// Divide truncating toward zero.
pub fn div_trunc(a: i64, b: i64) -> (r: i64)
    requires
        b > 0,
        a > i64::MIN,
    ensures
        r == spec_div_trunc(a as int, b as int),
{
    if a >= 0 {
        let q: u64 = (a as u64) / (b as u64);
        q as i64
    } else {
        let q: u64 = ((-a) as u64) / (b as u64);
        proof {
            assert((-a) as u64 as int == -(a as int));
            assert(q <= (-a) as u64) by {
                vstd::arithmetic::div_mod::lemma_div_nonincreasing((-a) as u64 as int, b as int);
            }
        }
        -(q as i64)
    }
}

/// The magnitude of a truncating quotient is bounded by `c` whenever
/// the numerator is at most `c * b` in magnitude.
pub proof fn lemma_div_trunc_bound(a: int, b: int, c: int)
    requires
        b > 0,
        c >= 0,
        -(c * b) <= a <= c * b,
    ensures
        -c <= spec_div_trunc(a, b) <= c,
{
    if a >= 0 {
        assert(a / b <= c) by (nonlinear_arith)
            requires b > 0, c >= 0, a <= c * b, a >= 0;
        assert(a / b >= 0) by (nonlinear_arith)
            requires b > 0, a >= 0;
    } else {
        assert((-a) / b <= c) by (nonlinear_arith)
            requires b > 0, c >= 0, -a <= c * b, -a > 0;
        assert((-a) / b >= 0) by (nonlinear_arith)
            requires b > 0, -a > 0;
    }
}

/// The integer square root: the largest `r` with `r * r <= n`.
pub open spec fn spec_isqrt(n: int) -> int
    decreases n,
{
    if n <= 0 {
        0
    } else {
        let p = spec_isqrt(n - 1);
        if (p + 1) * (p + 1) <= n {
            p + 1
        } else {
            p
        }
    }
}

/// `spec_isqrt(n)` is nonnegative and brackets `n` between consecutive
/// squares.
pub proof fn lemma_isqrt_bounds(n: int)
    requires
        n >= 0,
    ensures
        spec_isqrt(n) >= 0,
        spec_isqrt(n) * spec_isqrt(n) <= n,
        n < (spec_isqrt(n) + 1) * (spec_isqrt(n) + 1),
    decreases n,
{
    if n > 0 {
        lemma_isqrt_bounds(n - 1);
        let p = spec_isqrt(n - 1);
        if (p + 1) * (p + 1) <= n {
            assert(spec_isqrt(n) == p + 1);
            assert((p + 2) * (p + 2) > n) by (nonlinear_arith)
                requires n <= (p + 1) * (p + 1) + 1, (p + 1) * (p + 1) <= n, p >= 0;
        } else {
            assert(spec_isqrt(n) == p);
        }
    }
}

/// Only one nonnegative value brackets `n` between consecutive squares.
pub proof fn lemma_isqrt_unique(n: int, r: int)
    requires
        r >= 0,
        r * r <= n,
        n < (r + 1) * (r + 1),
    ensures
        r == spec_isqrt(n),
{
    let s = spec_isqrt(n);
    lemma_isqrt_bounds(n);
    assert(!(r < s)) by (nonlinear_arith)
        requires r >= 0, s >= 0, r * r <= n, n < (r + 1) * (r + 1), s * s <= n,
            n < (s + 1) * (s + 1);
    assert(!(s < r)) by (nonlinear_arith)
        requires r >= 0, s >= 0, r * r <= n, n < (r + 1) * (r + 1), s * s <= n,
            n < (s + 1) * (s + 1);
}

/// The integer square root is monotone.
pub proof fn lemma_isqrt_le(m: int, n: int)
    requires
        0 <= m <= n,
    ensures
        spec_isqrt(m) <= spec_isqrt(n),
{
    lemma_isqrt_bounds(m);
    lemma_isqrt_bounds(n);
    let a = spec_isqrt(m);
    let b = spec_isqrt(n);
    assert(!(b < a)) by (nonlinear_arith)
        requires a >= 0, b >= 0, a * a <= m, m <= n, n < (b + 1) * (b + 1);
}

/// The square root of a perfect square is its (nonnegative) root.
pub proof fn lemma_isqrt_square(x: int)
    requires
        x >= 0,
    ensures
        spec_isqrt(x * x) == x,
{
    assert(x * x >= 0 && x * x < (x + 1) * (x + 1)) by (nonlinear_arith)
        requires x >= 0;
    lemma_isqrt_unique(x * x, x);
}

/// Compute the integer square root by binary search.
pub fn isqrt_u64(a: u64) -> (r: u64)
    ensures
        r == spec_isqrt(a as int),
        r * r <= a,
        a < (r + 1) * (r + 1),
{
    let mut lo: u64 = 0;
    let mut hi: u64 = 4294967296;
    proof {
        assert((4294967296int) * 4294967296 > a as int) by (nonlinear_arith)
            requires a <= u64::MAX;
    }
    while lo + 1 < hi
        invariant
            lo < hi <= 4294967296,
            lo * lo <= a,
            a < hi * hi,
        decreases hi - lo,
    {
        let mid: u64 = lo + (hi - lo) / 2;
        proof {
            assert(mid as int * mid as int <= 4294967296int * 4294967296int)
                by (nonlinear_arith)
                requires 0 <= mid as int <= 4294967296int;
        }
        if (mid as u128) * (mid as u128) <= a as u128 {
            lo = mid;
        } else {
            hi = mid;
        }
    }
    proof {
        lemma_isqrt_unique(a as int, lo as int);
    }
    lo
}

/// The squared length of a vector.
pub open spec fn spec_len_sq(v: Vec2M) -> int {
    v.x * v.x + v.y * v.y
}

/// The (rounded-down) length of a vector, in milli-units.
pub open spec fn spec_length(v: Vec2M) -> int {
    spec_isqrt(spec_len_sq(v))
}

/// Whether both coordinates are at most `b` in magnitude.
pub open spec fn in_box(v: Vec2M, b: int) -> bool {
    -b <= v.x <= b && -b <= v.y <= b
}

/// The squared length, exactly.
pub fn len_sq(v: Vec2M) -> (r: i64)
    requires
        in_box(v, GEOM_LIMIT as int),
    ensures
        r == spec_len_sq(v),
        r >= 0,
{
    proof {
        assert(v.x * v.x <= GEOM_LIMIT * GEOM_LIMIT && v.x * v.x >= 0) by (nonlinear_arith)
            requires -GEOM_LIMIT <= v.x <= GEOM_LIMIT;
        assert(v.y * v.y <= GEOM_LIMIT * GEOM_LIMIT && v.y * v.y >= 0) by (nonlinear_arith)
            requires -GEOM_LIMIT <= v.y <= GEOM_LIMIT;
    }
    v.x * v.x + v.y * v.y
}

/// A coordinate never exceeds the vector's length.
pub proof fn lemma_coord_le_length(v: Vec2M)
    ensures
        spec_length(v) >= (if v.x >= 0 { v.x as int } else { -(v.x as int) }),
        spec_length(v) >= (if v.y >= 0 { v.y as int } else { -(v.y as int) }),
        spec_length(v) >= 0,
{
    let ax = if v.x >= 0 { v.x as int } else { -(v.x as int) };
    let ay = if v.y >= 0 { v.y as int } else { -(v.y as int) };
    assert(ax * ax == v.x * v.x && ay * ay == v.y * v.y) by (nonlinear_arith)
        requires
            ax == v.x || ax == -(v.x as int),
            ay == v.y || ay == -(v.y as int);
    assert(v.x * v.x >= 0 && v.y * v.y >= 0) by (nonlinear_arith);
    lemma_isqrt_square(ax);
    lemma_isqrt_square(ay);
    lemma_isqrt_le(ax * ax, spec_len_sq(v));
    lemma_isqrt_le(ay * ay, spec_len_sq(v));
}

/// The length of a vector, in milli-units.
pub fn length(v: Vec2M) -> (r: i64)
    requires
        in_box(v, GEOM_LIMIT as int),
    ensures
        r == spec_length(v),
        0 <= r <= 2 * GEOM_LIMIT,
{
    let s = len_sq(v);
    let r = isqrt_u64(s as u64);
    proof {
        let b = 2 * GEOM_LIMIT as int;
        assert(spec_len_sq(v) < (b + 1) * (b + 1)) by (nonlinear_arith)
            requires
                -GEOM_LIMIT <= v.x <= GEOM_LIMIT,
                -GEOM_LIMIT <= v.y <= GEOM_LIMIT,
                b == 2 * GEOM_LIMIT as int;
        lemma_isqrt_bounds(spec_len_sq(v));
        assert(!(spec_isqrt(spec_len_sq(v)) > b)) by (nonlinear_arith)
            requires
                spec_isqrt(spec_len_sq(v)) >= 0,
                spec_isqrt(spec_len_sq(v)) * spec_isqrt(spec_len_sq(v)) <= spec_len_sq(v),
                spec_len_sq(v) < (b + 1) * (b + 1),
                b >= 0;
    }
    r as i64
}

/// What `normalize_milli` returns: the direction of `v` scaled so that
/// its length is about `SCALE`; the zero vector stays zero.
pub open spec fn spec_normalize(v: Vec2M) -> Vec2M {
    if v.x == 0 && v.y == 0 {
        Vec2M { x: 0, y: 0 }
    } else {
        Vec2M {
            x: spec_div_trunc(v.x * SCALE, spec_length(v)) as i64,
            y: spec_div_trunc(v.y * SCALE, spec_length(v)) as i64,
        }
    }
}

/// A normalized vector has coordinates within `[-SCALE, SCALE]`.
pub proof fn lemma_normalize_in_unit_box(v: Vec2M)
    ensures
        in_box(spec_normalize(v), SCALE as int),
{
    if !(v.x == 0 && v.y == 0) {
        let len = spec_length(v);
        lemma_coord_le_length(v);
        lemma_length_pos(v);
        assert(-(SCALE * len) <= v.x * SCALE <= SCALE * len) by (nonlinear_arith)
            requires len > 0, -len <= v.x <= len;
        assert(-(SCALE * len) <= v.y * SCALE <= SCALE * len) by (nonlinear_arith)
            requires len > 0, -len <= v.y <= len;
        lemma_div_trunc_bound(v.x * SCALE, len, SCALE as int);
        lemma_div_trunc_bound(v.y * SCALE, len, SCALE as int);
    }
}

/// A nonzero vector has positive length.
pub proof fn lemma_length_pos(v: Vec2M)
    requires
        !(v.x == 0 && v.y == 0),
    ensures
        spec_length(v) >= 1,
{
    assert(spec_len_sq(v) >= 1) by (nonlinear_arith)
        requires !(v.x == 0 && v.y == 0);
    lemma_isqrt_bounds(spec_len_sq(v));
    let s = spec_isqrt(spec_len_sq(v));
    assert(s >= 1) by (nonlinear_arith)
        requires s >= 0, spec_len_sq(v) < (s + 1) * (s + 1), spec_len_sq(v) >= 1;
}

/// Scale `v` to a direction vector of length about `SCALE`; the zero
/// vector stays zero.
pub fn normalize_milli(v: Vec2M) -> (r: Vec2M)
    requires
        in_box(v, GEOM_LIMIT as int),
    ensures
        r == spec_normalize(v),
        in_box(r, SCALE as int),
{
    proof {
        lemma_normalize_in_unit_box(v);
    }
    if v.x == 0 && v.y == 0 {
        Vec2M { x: 0, y: 0 }
    } else {
        proof {
            lemma_length_pos(v);
        }
        let len = length(v);
        Vec2M { x: div_trunc(v.x * SCALE, len), y: div_trunc(v.y * SCALE, len) }
    }
}

/// What `rotate_quarter` returns: `v` rotated by 90 degrees,
/// counter-clockwise when `sign` is `1` and clockwise when it is `-1`.
pub open spec fn spec_rotate_quarter(v: Vec2M, sign: i64) -> Vec2M {
    if sign == 1 {
        Vec2M { x: (-v.y) as i64, y: v.x }
    } else {
        Vec2M { x: v.y, y: (-v.x) as i64 }
    }
}

/// Rotate `v` by a quarter turn; the turn's sense is given by `sign`.
pub fn rotate_quarter(v: Vec2M, sign: i64) -> (r: Vec2M)
    requires
        sign == 1 || sign == -1,
        v.x > i64::MIN,
        v.y > i64::MIN,
    ensures
        r == spec_rotate_quarter(v, sign),
{
    if sign == 1 {
        Vec2M { x: -v.y, y: v.x }
    } else {
        Vec2M { x: v.y, y: -v.x }
    }
}

/// What `rotate_milli` returns: `v` rotated by the angle whose cosine
/// and sine are `c / SCALE` and `s / SCALE`.
pub open spec fn spec_rotate_milli(v: Vec2M, c: int, s: int) -> Vec2M {
    Vec2M {
        x: spec_div_trunc(v.x * c - v.y * s, SCALE as int) as i64,
        y: spec_div_trunc(v.x * s + v.y * c, SCALE as int) as i64,
    }
}

/// Rotate `v` by an angle given through its milli-scaled cosine and sine.
pub fn rotate_milli(v: Vec2M, c: i64, s: i64) -> (r: Vec2M)
    requires
        in_box(v, GEOM_LIMIT as int),
        -SCALE <= c <= SCALE,
        -SCALE <= s <= SCALE,
    ensures
        r == spec_rotate_milli(v, c as int, s as int),
        in_box(r, 2 * GEOM_LIMIT as int),
{
    proof {
        let g = GEOM_LIMIT as int;
        let sc = SCALE as int;
        assert(-(g * sc) <= v.x * c <= g * sc) by (nonlinear_arith)
            requires -g <= v.x <= g, -sc <= c <= sc;
        assert(-(g * sc) <= v.y * s <= g * sc) by (nonlinear_arith)
            requires -g <= v.y <= g, -sc <= s <= sc;
        assert(-(g * sc) <= v.x * s <= g * sc) by (nonlinear_arith)
            requires -g <= v.x <= g, -sc <= s <= sc;
        assert(-(g * sc) <= v.y * c <= g * sc) by (nonlinear_arith)
            requires -g <= v.y <= g, -sc <= c <= sc;
        lemma_div_trunc_bound(v.x * c - v.y * s, sc, 2 * g);
        lemma_div_trunc_bound(v.x * s + v.y * c, sc, 2 * g);
        assert((2 * g) * sc == 2 * (g * sc)) by (nonlinear_arith);
    }
    let rx = div_trunc(v.x * c - v.y * s, SCALE);
    let ry = div_trunc(v.x * s + v.y * c, SCALE);
    Vec2M { x: rx, y: ry }
}

/// What `scale_div` returns: `v * num / den`, truncating toward zero.
pub open spec fn spec_scale_div(v: Vec2M, num: int, den: int) -> Vec2M {
    Vec2M {
        x: spec_div_trunc(v.x * num, den) as i64,
        y: spec_div_trunc(v.y * num, den) as i64,
    }
}

/// Multiply by `num` and divide by `den`, truncating toward zero.
pub fn scale_div(v: Vec2M, num: i64, den: i64) -> (r: Vec2M)
    requires
        in_box(v, GEOM_LIMIT as int),
        0 <= num <= 20000000,
        0 < den <= 20000000,
    ensures
        r == spec_scale_div(v, num as int, den as int),
{
    proof {
        let g = GEOM_LIMIT as int;
        assert(-(g * num) <= v.x * num <= g * num && g * num <= g * 20000000)
            by (nonlinear_arith)
            requires -g <= v.x <= g, 0 <= num <= 20000000, g > 0;
        assert(-(g * num) <= v.y * num <= g * num && g * num <= g * 20000000)
            by (nonlinear_arith)
            requires -g <= v.y <= g, 0 <= num <= 20000000, g > 0;
    }
    Vec2M { x: div_trunc(v.x * num, den), y: div_trunc(v.y * num, den) }
}

/// What `clamp_length` returns: `v` rescaled so that its length lies
/// within `[min, max]`; the zero vector stays zero.
pub open spec fn spec_clamp_length(v: Vec2M, min: int, max: int) -> Vec2M {
    let len = spec_length(v);
    if len == 0 {
        v
    } else if len < min {
        spec_scale_div(v, min, len)
    } else if len > max {
        spec_scale_div(v, max, len)
    } else {
        v
    }
}

/// Rescale `v` so that its length lies within `[min, max]`; the zero
/// vector stays zero.  The result's coordinates are within
/// `[-max, max]`.
pub fn clamp_length(v: Vec2M, min: i64, max: i64) -> (r: Vec2M)
    requires
        in_box(v, GEOM_LIMIT as int),
        0 <= min <= max <= 1000000,
    ensures
        r == spec_clamp_length(v, min as int, max as int),
        in_box(r, max as int),
{
    let len = length(v);
    proof {
        lemma_coord_le_length(v);
    }
    if len == 0 {
        proof {
            if !(v.x == 0 && v.y == 0) {
                lemma_length_pos(v);
            }
        }
        v
    } else if len < min {
        proof {
            assert(-(min * len) <= v.x * min <= min * len) by (nonlinear_arith)
                requires len > 0, min > 0, -len <= v.x <= len;
            assert(-(min * len) <= v.y * min <= min * len) by (nonlinear_arith)
                requires len > 0, min > 0, -len <= v.y <= len;
            lemma_div_trunc_bound(v.x * min, len as int, min as int);
            lemma_div_trunc_bound(v.y * min, len as int, min as int);
        }
        scale_div(v, min, len)
    } else if len > max {
        proof {
            assert(-(max * len) <= v.x * max <= max * len) by (nonlinear_arith)
                requires len > 0, max >= 0, -len <= v.x <= len;
            assert(-(max * len) <= v.y * max <= max * len) by (nonlinear_arith)
                requires len > 0, max >= 0, -len <= v.y <= len;
            lemma_div_trunc_bound(v.x * max, len as int, max as int);
            lemma_div_trunc_bound(v.y * max, len as int, max as int);
        }
        scale_div(v, max, len)
    } else {
        v
    }
}

/// A vector inside a coordinate box has its length bounded by the
/// box's diagonal (coarsely: `3 b / 2`).
pub proof fn lemma_length_box_bound(v: Vec2M, b: int)
    requires
        0 <= b,
        in_box(v, b),
    ensures
        0 <= spec_length(v),
        spec_length(v) <= b + b / 2 + 1,
{
    let c = b + b / 2 + 1;
    assert(0 <= spec_len_sq(v) <= 2 * (b * b)) by (nonlinear_arith)
        requires -b <= v.x <= b, -b <= v.y <= b;
    lemma_isqrt_bounds(spec_len_sq(v));
    let s = spec_isqrt(spec_len_sq(v));
    assert(c * c > 2 * (b * b)) by (nonlinear_arith)
        requires c == b + b / 2 + 1, b >= 0, 2 * (b / 2) >= b - 1, b / 2 >= 0;
    assert(!(s > c)) by (nonlinear_arith)
        requires
            s >= 0,
            s * s <= spec_len_sq(v),
            spec_len_sq(v) <= 2 * (b * b),
            c >= 0,
            c * c > 2 * (b * b);
}

/// Scaling a milli-unit direction by `s / SCALE` keeps each coordinate
/// within `s`.
pub proof fn lemma_scale_unit_bound(u: Vec2M, s: int)
    requires
        in_box(u, SCALE as int),
        0 <= s <= 20000000,
    ensures
        in_box(spec_scale_div(u, s, SCALE as int), s),
{
    assert(-(s * 1000) <= u.x * s <= s * 1000) by (nonlinear_arith)
        requires -1000 <= u.x <= 1000, s >= 0;
    assert(-(s * 1000) <= u.y * s <= s * 1000) by (nonlinear_arith)
        requires -1000 <= u.y <= 1000, s >= 0;
    lemma_div_trunc_bound(u.x * s, 1000, s);
    lemma_div_trunc_bound(u.y * s, 1000, s);
}

/// What `round_to_unit` returns: the nearest multiple of `SCALE`,
/// halves rounding away from zero.
pub open spec fn spec_round_to_unit(x: int) -> int {
    if x >= 0 {
        ((x + SCALE / 2) / (SCALE as int)) * (SCALE as int)
    } else {
        -(((-x + SCALE / 2) / (SCALE as int)) * (SCALE as int))
    }
}

/// Round a coordinate to the nearest whole unit (a multiple of
/// `SCALE`), halves rounding away from zero; this is the presentation
/// position, never the authoritative one.
pub fn round_to_unit(x: i64) -> (r: i64)
    requires
        -GEOM_LIMIT <= x <= GEOM_LIMIT,
    ensures
        r == spec_round_to_unit(x as int),
        x - SCALE / 2 <= r <= x + SCALE / 2,
{
    proof {
        let sc = SCALE as int;
        if x >= 0 {
            let q = (x + sc / 2) / sc;
            assert(q * sc <= x + sc / 2 && x + sc / 2 < (q + 1) * sc) by (nonlinear_arith)
                requires q == (x + sc / 2) / sc, x + sc / 2 >= 0, sc == 1000;
        } else {
            let q = (-x + sc / 2) / sc;
            assert(q * sc <= -x + sc / 2 && -x + sc / 2 < (q + 1) * sc) by (nonlinear_arith)
                requires q == (-x + sc / 2) / sc, -x + sc / 2 >= 0, sc == 1000;
        }
    }
    if x >= 0 {
        ((x + 500) / 1000) * 1000
    } else {
        -(((-x + 500) / 1000) * 1000)
    }
}

/// Round both coordinates of a point to whole units.
pub fn round_point(v: Vec2M) -> (r: Vec2M)
    requires
        in_box(v, GEOM_LIMIT as int),
    ensures
        r.x == spec_round_to_unit(v.x as int),
        r.y == spec_round_to_unit(v.y as int),
        v.x - SCALE / 2 <= r.x <= v.x + SCALE / 2,
        v.y - SCALE / 2 <= r.y <= v.y + SCALE / 2,
{
    Vec2M { x: round_to_unit(v.x), y: round_to_unit(v.y) }
}

} // verus!
