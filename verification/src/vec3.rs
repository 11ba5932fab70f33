//! Three-component fixed-point vectors in milli-units.

use vstd::prelude::*;
use crate::fixed::{
    clamp_spec, mul_div_clamp, sqrt_floor, tdiv, tdiv_clamp, isqrt, lemma_sqrt_floor_bounds,
    COORD_MAX,
};

verus! {

/// A point or direction; components are milli-units, so a unit vector has
/// squared length about `1000 * 1000`.
#[derive(Clone, Copy, PartialEq, Eq, Structural, Debug)]
pub struct Vec3 {
    pub x: i64,
    pub y: i64,
    pub z: i64,
}

/// Every component within `[-b, b]`.
pub open spec fn in_range(v: Vec3, b: int) -> bool {
    &&& -b <= v.x <= b
    &&& -b <= v.y <= b
    &&& -b <= v.z <= b
}

/// Every coordinate the library stores satisfies this.
pub open spec fn in_coord_range(v: Vec3) -> bool {
    in_range(v, COORD_MAX as int)
}

pub open spec fn dot_spec(a: Vec3, b: Vec3) -> int {
    a.x * b.x + a.y * b.y + a.z * b.z
}

pub open spec fn norm2_spec(v: Vec3) -> int {
    dot_spec(v, v)
}

pub open spec fn dist2_spec(a: Vec3, b: Vec3) -> int {
    (a.x - b.x) * (a.x - b.x) + (a.y - b.y) * (a.y - b.y) + (a.z - b.z) * (a.z - b.z)
}

/// Length in milli-units, rounded down.
pub open spec fn norm_spec(v: Vec3) -> int {
    sqrt_floor(norm2_spec(v))
}

/// Component-wise saturating sum.
pub open spec fn add_spec(a: Vec3, b: Vec3) -> Vec3 {
    Vec3 {
        x: clamp_spec(a.x + b.x, -COORD_MAX as int, COORD_MAX as int) as i64,
        y: clamp_spec(a.y + b.y, -COORD_MAX as int, COORD_MAX as int) as i64,
        z: clamp_spec(a.z + b.z, -COORD_MAX as int, COORD_MAX as int) as i64,
    }
}

/// Component-wise saturating difference.
pub open spec fn sub_spec(a: Vec3, b: Vec3) -> Vec3 {
    Vec3 {
        x: clamp_spec(a.x - b.x, -COORD_MAX as int, COORD_MAX as int) as i64,
        y: clamp_spec(a.y - b.y, -COORD_MAX as int, COORD_MAX as int) as i64,
        z: clamp_spec(a.z - b.z, -COORD_MAX as int, COORD_MAX as int) as i64,
    }
}

/// `v * m / d`, component-wise, truncated and saturated.
pub open spec fn scale_spec(v: Vec3, m: int, d: int) -> Vec3 {
    Vec3 {
        x: clamp_spec(tdiv(v.x * m, d), -COORD_MAX as int, COORD_MAX as int) as i64,
        y: clamp_spec(tdiv(v.y * m, d), -COORD_MAX as int, COORD_MAX as int) as i64,
        z: clamp_spec(tdiv(v.z * m, d), -COORD_MAX as int, COORD_MAX as int) as i64,
    }
}

/// Cross product of two milli-scaled vectors, divided by 1000 so the result
/// is milli-scaled again.
pub open spec fn cross_spec(a: Vec3, b: Vec3) -> Vec3 {
    Vec3 {
        x: clamp_spec(tdiv(a.y * b.z - a.z * b.y, 1000), -COORD_MAX as int, COORD_MAX as int)
            as i64,
        y: clamp_spec(tdiv(a.z * b.x - a.x * b.z, 1000), -COORD_MAX as int, COORD_MAX as int)
            as i64,
        z: clamp_spec(tdiv(a.x * b.y - a.y * b.x, 1000), -COORD_MAX as int, COORD_MAX as int)
            as i64,
    }
}

/// The vector scaled to length about 1000, or zero if it has no length.
pub open spec fn normalize_spec(v: Vec3) -> Vec3 {
    let n = norm_spec(v);
    if n == 0 {
        Vec3 { x: 0, y: 0, z: 0 }
    } else {
        scale_spec(v, 1000, n)
    }
}

impl Vec3 {
    pub fn new(x: i64, y: i64, z: i64) -> (r: Vec3)
        ensures
            r == (Vec3 { x, y, z }),
    {
        Vec3 { x, y, z }
    }

    pub fn zero() -> (r: Vec3)
        ensures
            r == (Vec3 { x: 0, y: 0, z: 0 }),
    {
        Vec3 { x: 0, y: 0, z: 0 }
    }

    pub fn add(self, o: Vec3) -> (r: Vec3)
        requires
            in_coord_range(self),
            in_coord_range(o),
        ensures
            r == add_spec(self, o),
            in_coord_range(r),
    {
        Vec3 {
            x: crate::fixed::clamp_i64(self.x + o.x, -COORD_MAX, COORD_MAX),
            y: crate::fixed::clamp_i64(self.y + o.y, -COORD_MAX, COORD_MAX),
            z: crate::fixed::clamp_i64(self.z + o.z, -COORD_MAX, COORD_MAX),
        }
    }

    pub fn sub(self, o: Vec3) -> (r: Vec3)
        requires
            in_coord_range(self),
            in_coord_range(o),
        ensures
            r == sub_spec(self, o),
            in_coord_range(r),
    {
        Vec3 {
            x: crate::fixed::clamp_i64(self.x - o.x, -COORD_MAX, COORD_MAX),
            y: crate::fixed::clamp_i64(self.y - o.y, -COORD_MAX, COORD_MAX),
            z: crate::fixed::clamp_i64(self.z - o.z, -COORD_MAX, COORD_MAX),
        }
    }

    /// Multiply by `m` and divide by `d`, component-wise.
    pub fn scale(self, m: i64, d: i64) -> (r: Vec3)
        requires
            1 <= d,
        ensures
            r == scale_spec(self, m as int, d as int),
            in_coord_range(r),
    {
        Vec3 {
            x: mul_div_clamp(self.x, m, d),
            y: mul_div_clamp(self.y, m, d),
            z: mul_div_clamp(self.z, m, d),
        }
    }

    pub fn neg(self) -> (r: Vec3)
        requires
            in_coord_range(self),
        ensures
            r.x == -self.x && r.y == -self.y && r.z == -self.z,
            in_coord_range(r),
    {
        Vec3 { x: -self.x, y: -self.y, z: -self.z }
    }

    pub fn dot(self, o: Vec3) -> (r: i128)
        requires
            in_coord_range(self),
            in_coord_range(o),
        ensures
            r == dot_spec(self, o),
    {
        proof {
            lemma_prod_bound(self.x as int, o.x as int);
            lemma_prod_bound(self.y as int, o.y as int);
            lemma_prod_bound(self.z as int, o.z as int);
        }
        (self.x as i128) * (o.x as i128) + (self.y as i128) * (o.y as i128) + (self.z as i128)
            * (o.z as i128)
    }

    pub fn norm2(self) -> (r: i128)
        requires
            in_coord_range(self),
        ensures
            r == norm2_spec(self),
            r >= 0,
    {
        let r = self.dot(self);
        proof {
            lemma_norm2_nonneg(self);
        }
        r
    }

    pub fn dist2(self, o: Vec3) -> (r: i128)
        requires
            in_coord_range(self),
            in_coord_range(o),
        ensures
            r == dist2_spec(self, o),
            r >= 0,
    {
        let dx: i128 = self.x as i128 - o.x as i128;
        let dy: i128 = self.y as i128 - o.y as i128;
        let dz: i128 = self.z as i128 - o.z as i128;
        proof {
            lemma_square_bound(dx as int);
            lemma_square_bound(dy as int);
            lemma_square_bound(dz as int);
        }
        dx * dx + dy * dy + dz * dz
    }

    /// Length in milli-units, rounded down.
    pub fn norm(self) -> (r: i64)
        requires
            in_coord_range(self),
        ensures
            r == norm_spec(self),
            r >= 0,
    {
        let n2 = self.norm2();
        let r = isqrt(n2 as u128);
        proof {
            lemma_norm2_bound(self);
            lemma_sqrt_floor_bounds(n2 as int);
            assert(sqrt_floor(n2 as int) * sqrt_floor(n2 as int) <= n2 as int);
            assert(r as int <= 4000000000000000) by (nonlinear_arith)
                requires
                    r as int * r as int <= n2 as int,
                    n2 as int <= 3 * (COORD_MAX as int * COORD_MAX as int),
                    r >= 0,
            ;
        }
        r as i64
    }

    pub fn cross(self, o: Vec3) -> (r: Vec3)
        requires
            in_coord_range(self),
            in_coord_range(o),
        ensures
            r == cross_spec(self, o),
            in_coord_range(r),
    {
        proof {
            lemma_prod_bound(self.y as int, o.z as int);
            lemma_prod_bound(self.z as int, o.y as int);
            lemma_prod_bound(self.z as int, o.x as int);
            lemma_prod_bound(self.x as int, o.z as int);
            lemma_prod_bound(self.x as int, o.y as int);
            lemma_prod_bound(self.y as int, o.x as int);
        }
        Vec3 {
            x: tdiv_clamp(
                (self.y as i128) * (o.z as i128) - (self.z as i128) * (o.y as i128),
                1000,
            ),
            y: tdiv_clamp(
                (self.z as i128) * (o.x as i128) - (self.x as i128) * (o.z as i128),
                1000,
            ),
            z: tdiv_clamp(
                (self.x as i128) * (o.y as i128) - (self.y as i128) * (o.x as i128),
                1000,
            ),
        }
    }

    /// Scale to length about 1000; the zero vector stays zero.
    pub fn normalize(self) -> (r: Vec3)
        requires
            in_coord_range(self),
        ensures
            r == normalize_spec(self),
            in_range(r, 1000),
    {
        let n = self.norm();
        if n == 0 {
            Vec3 { x: 0, y: 0, z: 0 }
        } else {
            proof {
                lemma_sqrt_floor_bounds(norm2_spec(self));
                lemma_component_le_norm(self);
            }
            let r = self.scale(1000, n);
            proof {
                lemma_unit_component(self.x as int, n as int);
                lemma_unit_component(self.y as int, n as int);
                lemma_unit_component(self.z as int, n as int);
            }
            r
        }
    }
}

/// The square of a bounded value is non-negative and bounded.
proof fn lemma_square_bound(a: int)
    by (nonlinear_arith)
    requires
        -2 * COORD_MAX as int <= a <= 2 * COORD_MAX as int,
    ensures
        0 <= a * a <= 4 * (COORD_MAX as int * COORD_MAX as int),
{
}

/// The squared length of a stored vector fits well inside an `i128`.
proof fn lemma_norm2_bound(v: Vec3)
    by (nonlinear_arith)
    requires
        in_coord_range(v),
    ensures
        norm2_spec(v) <= 3 * (COORD_MAX as int * COORD_MAX as int),
{
}

/// Product of two coordinates stays within an `i128`.
proof fn lemma_prod_bound(a: int, b: int)
    by (nonlinear_arith)
    requires
        -COORD_MAX as int <= a <= COORD_MAX as int,
        -COORD_MAX as int <= b <= COORD_MAX as int,
    ensures
        -(COORD_MAX as int * COORD_MAX as int) <= a * b <= COORD_MAX as int * COORD_MAX as int,
{
}

pub proof fn lemma_norm2_nonneg(v: Vec3)
    by (nonlinear_arith)
    ensures
        norm2_spec(v) >= 0,
        v.x * v.x >= 0,
        v.y * v.y >= 0,
        v.z * v.z >= 0,
{
}

/// Each component of a vector is at most the (floored) length in magnitude.
proof fn lemma_component_le_norm(v: Vec3)
    requires
        norm_spec(v) >= 1,
        norm_spec(v) * norm_spec(v) <= norm2_spec(v),
        (norm_spec(v) + 1) * (norm_spec(v) + 1) > norm2_spec(v),
    ensures
        -norm_spec(v) <= v.x <= norm_spec(v),
        -norm_spec(v) <= v.y <= norm_spec(v),
        -norm_spec(v) <= v.z <= norm_spec(v),
{
    let n = norm_spec(v);
    lemma_norm2_nonneg(v);
    assert(-n <= v.x <= n && -n <= v.y <= n && -n <= v.z <= n) by (nonlinear_arith)
        requires
            n >= 1,
            (n + 1) * (n + 1) > v.x * v.x + v.y * v.y + v.z * v.z,
            v.x * v.x >= 0,
            v.y * v.y >= 0,
            v.z * v.z >= 0,
    ;
}

/// A component no larger than the length maps into `[-1000, 1000]` when the
/// vector is normalized.
proof fn lemma_unit_component(a: int, n: int)
    requires
        n >= 1,
        -n <= a <= n,
    ensures
        -1000 <= clamp_spec(tdiv(a * 1000, n), -COORD_MAX as int, COORD_MAX as int) <= 1000,
{
    assert(-1000 <= tdiv(a * 1000, n) <= 1000) by (nonlinear_arith)
        requires
            n >= 1,
            -n <= a <= n,
    ;
}

/// Squared distance does not depend on the order of its arguments.
pub proof fn lemma_dist2_symmetric(a: Vec3, b: Vec3)
    by (nonlinear_arith)
    ensures
        dist2_spec(a, b) == dist2_spec(b, a),
{
}

} // verus!
