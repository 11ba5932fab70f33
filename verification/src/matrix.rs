//! Fixed-point homogeneous vectors and 4x4 matrices, as far as HUD projection
//! needs them.

use vstd::prelude::*;
use crate::fixed::{clamp_spec, tdiv, tdiv_clamp, COORD_MAX};

verus! {

#[derive(Clone, Copy, PartialEq, Eq, Structural, Debug)]
pub struct Vec4 {
    pub x: i64,
    pub y: i64,
    pub z: i64,
    pub w: i64,
}

pub open spec fn vec4_in_coord_range(v: Vec4) -> bool {
    &&& -COORD_MAX as int <= v.x <= COORD_MAX as int
    &&& -COORD_MAX as int <= v.y <= COORD_MAX as int
    &&& -COORD_MAX as int <= v.z <= COORD_MAX as int
    &&& -COORD_MAX as int <= v.w <= COORD_MAX as int
}

/// A matrix of four rows; entries are milli-scaled.
#[derive(Clone, Copy, PartialEq, Eq, Structural, Debug)]
pub struct Mat4 {
    pub r0: Vec4,
    pub r1: Vec4,
    pub r2: Vec4,
    pub r3: Vec4,
}

pub open spec fn mat4_in_coord_range(m: Mat4) -> bool {
    &&& vec4_in_coord_range(m.r0)
    &&& vec4_in_coord_range(m.r1)
    &&& vec4_in_coord_range(m.r2)
    &&& vec4_in_coord_range(m.r3)
}

/// Milli-scaled dot product of a matrix row with a vector.
pub open spec fn row_dot_spec(r: Vec4, v: Vec4) -> int {
    clamp_spec(
        tdiv(r.x * v.x + r.y * v.y + r.z * v.z + r.w * v.w, 1000),
        -COORD_MAX as int,
        COORD_MAX as int,
    )
}

pub open spec fn mul_vec_spec(m: Mat4, v: Vec4) -> Vec4 {
    Vec4 {
        x: row_dot_spec(m.r0, v) as i64,
        y: row_dot_spec(m.r1, v) as i64,
        z: row_dot_spec(m.r2, v) as i64,
        w: row_dot_spec(m.r3, v) as i64,
    }
}

fn row_dot(r: Vec4, v: Vec4) -> (o: i64)
    requires
        vec4_in_coord_range(r),
        vec4_in_coord_range(v),
    ensures
        o == row_dot_spec(r, v),
        -COORD_MAX <= o <= COORD_MAX,
{
    proof {
        lemma_entry_prod(r.x as int, v.x as int);
        lemma_entry_prod(r.y as int, v.y as int);
        lemma_entry_prod(r.z as int, v.z as int);
        lemma_entry_prod(r.w as int, v.w as int);
    }
    tdiv_clamp(
        (r.x as i128) * (v.x as i128) + (r.y as i128) * (v.y as i128) + (r.z as i128) * (v.z
            as i128) + (r.w as i128) * (v.w as i128),
        1000,
    )
}

impl Mat4 {
    pub fn mul_vec(&self, v: Vec4) -> (r: Vec4)
        requires
            mat4_in_coord_range(*self),
            vec4_in_coord_range(v),
        ensures
            r == mul_vec_spec(*self, v),
            vec4_in_coord_range(r),
    {
        Vec4 {
            x: row_dot(self.r0, v),
            y: row_dot(self.r1, v),
            z: row_dot(self.r2, v),
            w: row_dot(self.r3, v),
        }
    }
}

proof fn lemma_entry_prod(a: int, b: int)
    by (nonlinear_arith)
    requires
        -COORD_MAX as int <= a <= COORD_MAX as int,
        -COORD_MAX as int <= b <= COORD_MAX as int,
    ensures
        -(COORD_MAX as int * COORD_MAX as int) <= a * b <= COORD_MAX as int * COORD_MAX as int,
{
}

} // verus!
