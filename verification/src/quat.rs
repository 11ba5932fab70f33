//! Fixed-point quaternions for orientations. Components are milli-scaled: the
//! identity rotation is `(1000, 0, 0, 0)`.

use vstd::prelude::*;
use crate::fixed::{
    clamp_spec, cos_mdeg, cos_mdeg_spec, isqrt, lemma_sqrt_floor_bounds, mul_div_clamp, sin_mdeg,
    sin_mdeg_spec, sqrt_floor, tdiv, tdiv_clamp, COORD_MAX,
};
use crate::vec3::{cross_spec, dot_spec, in_coord_range, in_range, scale_spec, Vec3};

verus! {

#[derive(Clone, Copy, PartialEq, Eq, Structural, Debug)]
pub struct Quat {
    pub w: i64,
    pub x: i64,
    pub y: i64,
    pub z: i64,
}

pub open spec fn quat_in_coord_range(q: Quat) -> bool {
    &&& -COORD_MAX as int <= q.w <= COORD_MAX as int
    &&& -COORD_MAX as int <= q.x <= COORD_MAX as int
    &&& -COORD_MAX as int <= q.y <= COORD_MAX as int
    &&& -COORD_MAX as int <= q.z <= COORD_MAX as int
}

/// Saturating milli-scaled quotient used by every quaternion operation.
pub open spec fn qc(t: int) -> int {
    clamp_spec(tdiv(t, 1000), -COORD_MAX as int, COORD_MAX as int)
}

/// Hamilton product, milli-scaled.
pub open spec fn mul_spec(a: Quat, b: Quat) -> Quat {
    Quat {
        w: qc(a.w * b.w - a.x * b.x - a.y * b.y - a.z * b.z) as i64,
        x: qc(a.w * b.x + a.x * b.w + a.y * b.z - a.z * b.y) as i64,
        y: qc(a.w * b.y - a.x * b.z + a.y * b.w + a.z * b.x) as i64,
        z: qc(a.w * b.z + a.x * b.y - a.y * b.x + a.z * b.w) as i64,
    }
}

pub open spec fn vector_part(q: Quat) -> Vec3 {
    Vec3 { x: q.x, y: q.y, z: q.z }
}

/// Rotation of a vector by a (unit) quaternion:
/// `v + w * t / 1000 + qv x t` where `t = 2 * (qv x v)`.
pub open spec fn rotate_spec(q: Quat, v: Vec3) -> Vec3 {
    let qv = vector_part(q);
    let t = scale_spec(cross_spec(qv, v), 2, 1);
    crate::vec3::add_spec(
        crate::vec3::add_spec(v, scale_spec(t, q.w as int, 1000)),
        cross_spec(qv, t),
    )
}

pub open spec fn norm2_spec(q: Quat) -> int {
    q.w * q.w + q.x * q.x + q.y * q.y + q.z * q.z
}

/// Scaled back to length about 1000; a zero quaternion becomes the identity.
pub open spec fn normalize_spec(q: Quat) -> Quat {
    let n = sqrt_floor(norm2_spec(q));
    if n == 0 {
        Quat { w: 1000, x: 0, y: 0, z: 0 }
    } else {
        Quat {
            w: clamp_spec(tdiv(q.w * 1000, n), -COORD_MAX as int, COORD_MAX as int) as i64,
            x: clamp_spec(tdiv(q.x * 1000, n), -COORD_MAX as int, COORD_MAX as int) as i64,
            y: clamp_spec(tdiv(q.y * 1000, n), -COORD_MAX as int, COORD_MAX as int) as i64,
            z: clamp_spec(tdiv(q.z * 1000, n), -COORD_MAX as int, COORD_MAX as int) as i64,
        }
    }
}

/// The rotation of `angle` milli-degrees about `axis` (a unit vector).
pub open spec fn from_axis_angle_spec(axis: Vec3, angle: int) -> Quat {
    let half = tdiv(angle, 2);
    let s = sin_mdeg_spec(half);
    let c = cos_mdeg_spec(half);
    Quat {
        w: c as i64,
        x: clamp_spec(tdiv(axis.x * s, 1000), -COORD_MAX as int, COORD_MAX as int) as i64,
        y: clamp_spec(tdiv(axis.y * s, 1000), -COORD_MAX as int, COORD_MAX as int) as i64,
        z: clamp_spec(tdiv(axis.z * s, 1000), -COORD_MAX as int, COORD_MAX as int) as i64,
    }
}

/// The shortest-arc rotation taking unit vector `a` to unit vector `b`:
/// the normalized `(1000 + dot(a, b) / 1000, a x b)`, or a half turn about a
/// perpendicular axis when the vectors nearly oppose each other.
pub open spec fn from_arc_spec(a: Vec3, b: Vec3) -> Quat {
    let d = dot_spec(a, b);
    if d <= -999000 {
        let axis = crate::vec3::normalize_spec(perp_spec(a));
        Quat { w: 0, x: axis.x, y: axis.y, z: axis.z }
    } else {
        let v = cross_spec(a, b);
        normalize_spec(
            Quat {
                w: (1000 + tdiv(d, 1000)) as i64,
                x: v.x,
                y: v.y,
                z: v.z,
            },
        )
    }
}

/// Some vector perpendicular to `a`: its cross product with the x axis, or
/// with the y axis when `a` is parallel to x.
pub open spec fn perp_spec(a: Vec3) -> Vec3 {
    let c = cross_spec(a, Vec3 { x: 1000, y: 0, z: 0 });
    if crate::vec3::norm2_spec(c) > 0 {
        c
    } else {
        cross_spec(a, Vec3 { x: 0, y: 1000, z: 0 })
    }
}

impl Quat {
    pub fn identity() -> (r: Quat)
        ensures
            r == (Quat { w: 1000i64, x: 0i64, y: 0i64, z: 0i64 }),
    {
        Quat { w: 1000, x: 0, y: 0, z: 0 }
    }

    pub open spec fn vec_spec(self) -> Vec3 {
        vector_part(self)
    }

    fn vec(self) -> (r: Vec3)
        ensures
            r == vector_part(self),
    {
        Vec3 { x: self.x, y: self.y, z: self.z }
    }

    /// Hamilton product `self * o`.
    pub fn mul(self, o: Quat) -> (r: Quat)
        requires
            quat_in_coord_range(self),
            quat_in_coord_range(o),
        ensures
            r == mul_spec(self, o),
            quat_in_coord_range(r),
    {
        let aw = self.w as i128;
        let ax = self.x as i128;
        let ay = self.y as i128;
        let az = self.z as i128;
        let bw = o.w as i128;
        let bx = o.x as i128;
        let by = o.y as i128;
        let bz = o.z as i128;
        proof {
            lemma_qprod(self.w as int, o.w as int);
            lemma_qprod(self.w as int, o.x as int);
            lemma_qprod(self.w as int, o.y as int);
            lemma_qprod(self.w as int, o.z as int);
            lemma_qprod(self.x as int, o.w as int);
            lemma_qprod(self.x as int, o.x as int);
            lemma_qprod(self.x as int, o.y as int);
            lemma_qprod(self.x as int, o.z as int);
            lemma_qprod(self.y as int, o.w as int);
            lemma_qprod(self.y as int, o.x as int);
            lemma_qprod(self.y as int, o.y as int);
            lemma_qprod(self.y as int, o.z as int);
            lemma_qprod(self.z as int, o.w as int);
            lemma_qprod(self.z as int, o.x as int);
            lemma_qprod(self.z as int, o.y as int);
            lemma_qprod(self.z as int, o.z as int);
        }
        Quat {
            w: tdiv_clamp(aw * bw - ax * bx - ay * by - az * bz, 1000),
            x: tdiv_clamp(aw * bx + ax * bw + ay * bz - az * by, 1000),
            y: tdiv_clamp(aw * by - ax * bz + ay * bw + az * bx, 1000),
            z: tdiv_clamp(aw * bz + ax * by - ay * bx + az * bw, 1000),
        }
    }

    /// Apply the rotation to a vector.
    pub fn rotate(self, v: Vec3) -> (r: Vec3)
        requires
            quat_in_coord_range(self),
            in_coord_range(v),
        ensures
            r == rotate_spec(self, v),
            in_coord_range(r),
    {
        let qv = self.vec();
        let t = qv.cross(v).scale(2, 1);
        v.add(t.scale(self.w, 1000)).add(qv.cross(t))
    }

    pub fn norm2(self) -> (r: i128)
        requires
            quat_in_coord_range(self),
        ensures
            r == norm2_spec(self),
            r >= 0,
    {
        proof {
            lemma_quat_norm2_bounds(self);
        }
        (self.w as i128) * (self.w as i128) + (self.x as i128) * (self.x as i128) + (self.y
            as i128) * (self.y as i128) + (self.z as i128) * (self.z as i128)
    }

    /// Scale back to length about 1000; the zero quaternion becomes identity.
    pub fn normalize(self) -> (r: Quat)
        requires
            quat_in_coord_range(self),
        ensures
            r == normalize_spec(self),
            quat_in_coord_range(r),
    {
        let n2 = self.norm2();
        let n = isqrt(n2 as u128);
        proof {
            lemma_quat_norm2_bounds(self);
            lemma_sqrt_floor_bounds(n2 as int);
            assert(n as int <= 4000000000000000) by (nonlinear_arith)
                requires
                    n as int * n as int <= n2 as int,
                    n2 as int <= 4 * (COORD_MAX as int * COORD_MAX as int),
                    n >= 0,
            ;
        }
        if n == 0 {
            Quat { w: 1000, x: 0, y: 0, z: 0 }
        } else {
            Quat {
                w: mul_div_clamp(self.w, 1000, n as i64),
                x: mul_div_clamp(self.x, 1000, n as i64),
                y: mul_div_clamp(self.y, 1000, n as i64),
                z: mul_div_clamp(self.z, 1000, n as i64),
            }
        }
    }

    /// The rotation of `angle` milli-degrees about `axis` (a unit vector).
    pub fn from_axis_angle(axis: Vec3, angle: i64) -> (r: Quat)
        requires
            in_coord_range(axis),
            -720000 <= angle <= 720000,
        ensures
            r == from_axis_angle_spec(axis, angle as int),
            quat_in_coord_range(r),
    {
        let half: i64 = if angle >= 0 {
            angle / 2
        } else {
            -((-angle) / 2)
        };
        let s = sin_mdeg(half);
        let c = cos_mdeg(half);
        Quat {
            w: c,
            x: mul_div_clamp(axis.x, s, 1000),
            y: mul_div_clamp(axis.y, s, 1000),
            z: mul_div_clamp(axis.z, s, 1000),
        }
    }

    /// The shortest-arc rotation taking unit vector `a` to unit vector `b`.
    pub fn from_arc(a: Vec3, b: Vec3) -> (r: Quat)
        requires
            in_range(a, 1000),
            in_range(b, 1000),
        ensures
            r == from_arc_spec(a, b),
            quat_in_coord_range(r),
    {
        let d = a.dot(b);
        if d <= -999000 {
            let c = a.cross(Vec3 { x: 1000, y: 0, z: 0 });
            let axis = if c.norm2() > 0 {
                c.normalize()
            } else {
                a.cross(Vec3 { x: 0, y: 1000, z: 0 }).normalize()
            };
            Quat { w: 0, x: axis.x, y: axis.y, z: axis.z }
        } else {
            let v = a.cross(b);
            let w0: i64 = 1000 + tdiv_clamp(d, 1000);
            proof {
                assert(-3000000 <= d <= 3000000) by (nonlinear_arith)
                    requires
                        in_range(a, 1000),
                        in_range(b, 1000),
                        d == dot_spec(a, b),
                ;
                assert(tdiv(d as int, 1000) == clamp_spec(
                    tdiv(d as int, 1000),
                    -COORD_MAX as int,
                    COORD_MAX as int,
                ));
            }
            Quat { w: w0, x: v.x, y: v.y, z: v.z }.normalize()
        }
    }
}

/// One product of milli-scaled components stays within bounds.
proof fn lemma_qprod(a: int, b: int)
    by (nonlinear_arith)
    requires
        -COORD_MAX as int <= a <= COORD_MAX as int,
        -COORD_MAX as int <= b <= COORD_MAX as int,
    ensures
        -(COORD_MAX as int * COORD_MAX as int) <= a * b <= COORD_MAX as int * COORD_MAX as int,
{
}

#[verifier::rlimit(40)]
/// The identity quaternion is a left unit of the Hamilton product.
pub proof fn lemma_mul_identity_left(q: Quat)
    requires
        quat_in_coord_range(q),
    ensures
        mul_spec(Quat { w: 1000i64, x: 0i64, y: 0i64, z: 0i64 }, q) == q,
{
    crate::fixed::lemma_tdiv_cancel(q.w as int, 1000);
    crate::fixed::lemma_tdiv_cancel(q.x as int, 1000);
    crate::fixed::lemma_tdiv_cancel(q.y as int, 1000);
    crate::fixed::lemma_tdiv_cancel(q.z as int, 1000);
    assert(1000 * q.w == q.w * 1000 && 1000 * q.x == q.x * 1000 && 1000 * q.y == q.y * 1000 && 1000
        * q.z == q.z * 1000);
}

proof fn lemma_quat_norm2_bounds(q: Quat)
    by (nonlinear_arith)
    requires
        quat_in_coord_range(q),
    ensures
        0 <= norm2_spec(q) <= 4 * (COORD_MAX as int * COORD_MAX as int),
        q.w * q.w >= 0,
        q.x * q.x >= 0,
        q.y * q.y >= 0,
        q.z * q.z >= 0,
{
}

} // verus!
