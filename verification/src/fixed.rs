//! Fixed-point scalar arithmetic: integer square root, sine and cosine over
//! milli-degrees, and clamping. One spatial unit is `SCALE` milli-units; a
//! trigonometric result of `SCALE` stands for 1.0.

use vstd::prelude::*;

verus! {

/// Milli-units per world unit; also the fixed-point scale of unit vectors,
/// quaternion components and trigonometric values.
pub const SCALE: i64 = 1000;

/// Largest coordinate magnitude the library stores; position updates saturate
/// here so that squared distances always fit in an `i128`.
pub const COORD_MAX: i64 = 1_000_000_000_000_000;

/// Floor of the square root of a non-negative integer.
pub open spec fn sqrt_floor(n: int) -> int
    decreases n,
{
    if n < 1 {
        0
    } else {
        let r = sqrt_floor(n - 1);
        if (r + 1) * (r + 1) <= n {
            r + 1
        } else {
            r
        }
    }
}

/// `sqrt_floor(n)` is the unique non-negative integer whose square is at most
/// `n` while the next square exceeds `n`.
pub proof fn lemma_sqrt_floor_bounds(n: int)
    requires
        n >= 0,
    ensures
        sqrt_floor(n) >= 0,
        sqrt_floor(n) * sqrt_floor(n) <= n,
        (sqrt_floor(n) + 1) * (sqrt_floor(n) + 1) > n,
    decreases n,
{
    if n >= 1 {
        lemma_sqrt_floor_bounds(n - 1);
        let r = sqrt_floor(n - 1);
        if (r + 1) * (r + 1) <= n {
            assert((r + 2) * (r + 2) > n) by (nonlinear_arith)
                requires
                    r >= 0,
                    (r + 1) * (r + 1) > n - 1,
            ;
        }
    }
}

/// Any `r` with `r * r <= n < (r + 1) * (r + 1)` equals `sqrt_floor(n)`.
pub proof fn lemma_sqrt_floor_unique(n: int, r: int)
    requires
        n >= 0,
        r >= 0,
        r * r <= n,
        (r + 1) * (r + 1) > n,
    ensures
        r == sqrt_floor(n),
{
    lemma_sqrt_floor_bounds(n);
    let s = sqrt_floor(n);
    assert(r == s) by (nonlinear_arith)
        requires
            r >= 0,
            s >= 0,
            r * r <= n,
            (r + 1) * (r + 1) > n,
            s * s <= n,
            (s + 1) * (s + 1) > n,
    ;
}

/// Integer square root by bisection.
pub fn isqrt(n: u128) -> (r: u64)
    ensures
        r == sqrt_floor(n as int),
{
    let mut lo: u64 = 0;
    let mut hi: u64 = u64::MAX;
    while lo < hi
        invariant
            lo as int * lo as int <= n as int,
            (hi as int + 1) * (hi as int + 1) > n as int,
            lo <= hi,
        decreases hi - lo,
    {
        let mid: u64 = lo + (hi - lo) / 2 + 1;
        proof {
            assert(mid as int * mid as int <= u128::MAX as int) by (nonlinear_arith)
                requires
                    mid <= u64::MAX,
            ;
        }
        let sq: u128 = (mid as u128) * (mid as u128);
        if sq <= n {
            lo = mid;
        } else {
            hi = mid - 1;
        }
    }
    proof {
        lemma_sqrt_floor_unique(n as int, lo as int);
    }
    lo
}

/// `x` confined to `[lo, hi]`.
pub open spec fn clamp_spec(x: int, lo: int, hi: int) -> int {
    if x < lo {
        lo
    } else if x > hi {
        hi
    } else {
        x
    }
}

pub fn clamp_i64(x: i64, lo: i64, hi: i64) -> (r: i64)
    requires
        lo <= hi,
    ensures
        r == clamp_spec(x as int, lo as int, hi as int),
{
    if x < lo {
        lo
    } else if x > hi {
        hi
    } else {
        x
    }
}

/// Division truncating toward zero, for a positive divisor.
pub open spec fn tdiv(a: int, b: int) -> int {
    if a >= 0 {
        a / b
    } else {
        -((-a) / b)
    }
}

/// `t / d` truncated toward zero and confined to `[-COORD_MAX, COORD_MAX]`.
pub fn tdiv_clamp(t: i128, d: i64) -> (r: i64)
    requires
        1 <= d,
    ensures
        r == clamp_spec(tdiv(t as int, d as int), -COORD_MAX as int, COORD_MAX as int),
{
    let mag: u128 = if t < 0 {
        ((-(t + 1)) as u128) + 1
    } else {
        t as u128
    };
    let q: u128 = mag / (d as u128);
    if t < 0 {
        if q > COORD_MAX as u128 {
            -COORD_MAX
        } else {
            -(q as i64)
        }
    } else {
        if q > COORD_MAX as u128 {
            COORD_MAX
        } else {
            q as i64
        }
    }
}

/// `x * m / d` truncated toward zero and confined to `[-COORD_MAX, COORD_MAX]`.
pub fn mul_div_clamp(x: i64, m: i64, d: i64) -> (r: i64)
    requires
        1 <= d,
    ensures
        r == clamp_spec(
            tdiv(x as int * m as int, d as int),
            -COORD_MAX as int,
            COORD_MAX as int,
        ),
{
    proof {
        assert(i128::MIN <= x as int * m as int <= i128::MAX) by (nonlinear_arith)
            requires
                i64::MIN <= x <= i64::MAX,
                i64::MIN <= m <= i64::MAX,
        ;
    }
    tdiv_clamp((x as i128) * (m as i128), d)
}

/// Dividing by one changes nothing.
pub proof fn lemma_tdiv_one(a: int)
    by (nonlinear_arith)
    ensures
        tdiv(a, 1) == a,
{
}

/// Scaling up and dividing by the same positive factor cancels.
pub proof fn lemma_tdiv_cancel(a: int, d: int)
    by (nonlinear_arith)
    requires
        d >= 1,
    ensures
        tdiv(a * d, d) == a,
{
}

/// A non-negative value shrinks under division by a positive divisor.
pub proof fn lemma_div_bound(a: int, b: int)
    by (nonlinear_arith)
    requires
        a >= 0,
        b >= 1,
    ensures
        0 <= a / b <= a,
{
}

/// Bhaskara's sine approximation on `[0, 180000]` milli-degrees, scaled so
/// that 1.0 is `SCALE`.
pub open spec fn sin_half_turn(x: int) -> int {
    4000 * x * (180000 - x) / (40500000000 - x * (180000 - x))
}

/// Sine over one full turn `[0, 360000)` of milli-degrees.
pub open spec fn sin_turn(x: int) -> int {
    if x <= 180000 {
        sin_half_turn(x)
    } else {
        -sin_half_turn(x - 180000)
    }
}

/// An angle within `[-720000, 720000]` brought into `[0, 360000)`.
pub open spec fn norm_mdeg(x: int) -> int {
    let y = if x < 0 {
        x + 720000
    } else {
        x
    };
    if y >= 360000 {
        y - 360000
    } else {
        y
    }
}

/// Sine of an angle in milli-degrees, in `[-SCALE, SCALE]`.
pub open spec fn sin_mdeg_spec(x: int) -> int {
    sin_turn(norm_mdeg(x))
}

/// Cosine of an angle in milli-degrees, in `[-SCALE, SCALE]`.
pub open spec fn cos_mdeg_spec(x: int) -> int {
    sin_mdeg_spec(x + 90000)
}

/// The sine approximation never leaves `[-SCALE, SCALE]`.
pub proof fn lemma_sin_half_turn_bounds(x: int)
    requires
        0 <= x <= 180000,
    ensures
        0 <= sin_half_turn(x) <= 1000,
{
    let p = x * (180000 - x);
    assert(0 <= p <= 8100000000) by (nonlinear_arith)
        requires
            0 <= x <= 180000,
            p == x * (180000 - x),
    ;
    assert(4000 * x * (180000 - x) == 4000 * p) by (nonlinear_arith)
        requires
            p == x * (180000 - x),
    ;
    assert(4000 * p / (40500000000 - p) <= 1000) by (nonlinear_arith)
        requires
            0 <= p <= 8100000000,
    ;
    assert(4000 * p / (40500000000 - p) >= 0) by (nonlinear_arith)
        requires
            0 <= p <= 8100000000,
    ;
}

pub proof fn lemma_sin_bounds(x: int)
    requires
        -720000 <= x <= 720000,
    ensures
        -1000 <= sin_mdeg_spec(x) <= 1000,
{
    let y = norm_mdeg(x);
    if y <= 180000 {
        lemma_sin_half_turn_bounds(y);
    } else {
        lemma_sin_half_turn_bounds(y - 180000);
    }
}

/// Sine in milli-degrees.
pub fn sin_mdeg(x: i64) -> (r: i64)
    requires
        -720000 <= x <= 720000,
    ensures
        r == sin_mdeg_spec(x as int),
        -1000 <= r <= 1000,
{
    let y0: i64 = if x < 0 {
        x + 720000
    } else {
        x
    };
    let y: i64 = if y0 >= 360000 {
        y0 - 360000
    } else {
        y0
    };
    if y <= 180000 {
        proof {
            assert(0 <= y as int * (180000 - y as int) <= 8100000000) by (nonlinear_arith)
                requires
                    0 <= y <= 180000,
            ;
        }
        let p: i64 = y * (180000 - y);
        proof {
            assert(4000 * (y as int) * (180000 - y as int) == 4000 * (p as int)) by (nonlinear_arith)
                requires
                    p == y as int * (180000 - y as int),
            ;
            lemma_sin_half_turn_bounds(y as int);
        }
        (4000 * p) / (40500000000 - p)
    } else {
        let z: i64 = y - 180000;
        proof {
            assert(0 <= z as int * (180000 - z as int) <= 8100000000) by (nonlinear_arith)
                requires
                    0 <= z <= 180000,
            ;
        }
        let p: i64 = z * (180000 - z);
        proof {
            assert(4000 * (z as int) * (180000 - z as int) == 4000 * (p as int)) by (nonlinear_arith)
                requires
                    p == z as int * (180000 - z as int),
            ;
            lemma_sin_half_turn_bounds(z as int);
        }
        -((4000 * p) / (40500000000 - p))
    }
}

/// Cosine in milli-degrees.
pub fn cos_mdeg(x: i64) -> (r: i64)
    requires
        -630000 <= x <= 630000,
    ensures
        r == cos_mdeg_spec(x as int),
        -1000 <= r <= 1000,
{
    sin_mdeg(x + 90000)
}

} // verus!
