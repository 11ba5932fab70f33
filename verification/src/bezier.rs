//! Quadratic Bezier curves over fixed-point vectors. Progress along a curve
//! is measured in millionths: `PROGRESS_SCALE` is the end of the nominal
//! parameter range.

use vstd::prelude::*;
use crate::fixed::{clamp_spec, tdiv, tdiv_clamp, COORD_MAX};
use crate::vec3::{add_spec, in_coord_range, norm_spec, scale_spec, sub_spec, Vec3};

verus! {

/// One million: Bezier progress 1.0.
pub const PROGRESS_SCALE: i64 = 1_000_000;

/// Progress saturates here (ten thousand times the nominal range), keeping
/// curve evaluation free of overflow however long re-planning is deferred.
pub const PROGRESS_MAX: i64 = 10_000_000_000;

#[derive(Clone, Copy, PartialEq, Eq, Structural, Debug)]
pub struct QuadraticBezier {
    pub start: Vec3,
    pub ctrl: Vec3,
    pub end: Vec3,
}

pub open spec fn bezier_in_range(b: QuadraticBezier) -> bool {
    &&& in_coord_range(b.start)
    &&& in_coord_range(b.ctrl)
    &&& in_coord_range(b.end)
}

/// One component of `((S-t)^2 * c0 + 2 * (S-t) * t * c1 + t^2 * c2) / S^2`,
/// truncated and saturated.
pub open spec fn eval_component(c0: int, c1: int, c2: int, t: int) -> int {
    let u = PROGRESS_SCALE - t;
    clamp_spec(
        tdiv(
            u * u * c0 + 2 * u * t * c1 + t * t * c2,
            PROGRESS_SCALE as int * PROGRESS_SCALE as int,
        ),
        -COORD_MAX as int,
        COORD_MAX as int,
    )
}

/// The curve point at progress `t` (millionths).
pub open spec fn eval_spec(b: QuadraticBezier, t: int) -> Vec3 {
    Vec3 {
        x: eval_component(b.start.x as int, b.ctrl.x as int, b.end.x as int, t) as i64,
        y: eval_component(b.start.y as int, b.ctrl.y as int, b.end.y as int, t) as i64,
        z: eval_component(b.start.z as int, b.ctrl.z as int, b.end.z as int, t) as i64,
    }
}

/// First-derivative coefficients: the velocity at progress `t` is
/// `v1 * t / S + v2`.
pub open spec fn v1_spec(b: QuadraticBezier) -> Vec3 {
    scale_spec(add_spec(sub_spec(b.start, scale_spec(b.ctrl, 2, 1)), b.end), 2, 1)
}

pub open spec fn v2_spec(b: QuadraticBezier) -> Vec3 {
    scale_spec(sub_spec(b.ctrl, b.start), 2, 1)
}

pub open spec fn velocity_at_spec(b: QuadraticBezier, t: int) -> Vec3 {
    add_spec(scale_spec(v1_spec(b), t, PROGRESS_SCALE as int), v2_spec(b))
}

/// The progress step for an elapsed time `dt` (microseconds): the base step
/// `t0` plus the time divided by the curve speed near `t0`, so that travel
/// speed along the curve is roughly constant in world units.
pub open spec fn step_spec(b: QuadraticBezier, t0: int, dt: int) -> int {
    let speed = norm_spec(velocity_at_spec(b, t0));
    let speed1 = if speed < 1 {
        1
    } else {
        speed
    };
    t0 + tdiv(dt * 1000, speed1)
}

/// Progress after one step, saturated at `PROGRESS_MAX`.
pub open spec fn advanced_progress_spec(b: QuadraticBezier, progress: int, t0: int, dt: int) -> int {
    let p = progress + step_spec(b, t0, dt);
    if p > PROGRESS_MAX as int {
        PROGRESS_MAX as int
    } else {
        p
    }
}

impl QuadraticBezier {
    pub fn from_points(start: Vec3, ctrl: Vec3, end: Vec3) -> (r: QuadraticBezier)
        ensures
            r == (QuadraticBezier { start, ctrl, end }),
    {
        QuadraticBezier { start, ctrl, end }
    }

    /// The curve point at progress `t` (millionths).
    pub fn evaluate(&self, t: i64) -> (r: Vec3)
        requires
            bezier_in_range(*self),
            0 <= t <= PROGRESS_MAX,
        ensures
            r == eval_spec(*self, t as int),
            in_coord_range(r),
    {
        Vec3 {
            x: eval_exec(self.start.x, self.ctrl.x, self.end.x, t),
            y: eval_exec(self.start.y, self.ctrl.y, self.end.y, t),
            z: eval_exec(self.start.z, self.ctrl.z, self.end.z, t),
        }
    }

    /// The velocity vector at progress `t`.
    pub fn velocity_at(&self, t: i64) -> (r: Vec3)
        requires
            bezier_in_range(*self),
            0 <= t <= PROGRESS_MAX,
        ensures
            r == velocity_at_spec(*self, t as int),
            in_coord_range(r),
    {
        let v1 = self.start.sub(self.ctrl.scale(2, 1)).add(self.end).scale(2, 1);
        let v2 = self.ctrl.sub(self.start).scale(2, 1);
        v1.scale(t, PROGRESS_SCALE).add(v2)
    }

    /// The progress step for elapsed time `dt` microseconds, from base step
    /// `t0`.
    pub fn step(&self, t0: i64, dt: i64) -> (r: i64)
        requires
            bezier_in_range(*self),
            0 <= t0 <= PROGRESS_SCALE,
            0 <= dt <= 10_000_000,
        ensures
            r == step_spec(*self, t0 as int, dt as int),
            0 <= r <= PROGRESS_SCALE as int + dt * 1000,
    {
        let v = self.velocity_at(t0);
        let speed = v.norm();
        let speed1: i64 = if speed < 1 {
            1
        } else {
            speed
        };
        proof {
            crate::fixed::lemma_div_bound(dt as int * 1000, speed1 as int);
            assert(dt as int * 1000 <= 10_000_000_000);
        }
        t0 + (dt * 1000) / speed1
    }
}

/// One evaluated, truncated, saturated curve component.
fn eval_exec(c0: i64, c1: i64, c2: i64, t: i64) -> (r: i64)
    requires
        -COORD_MAX <= c0 <= COORD_MAX,
        -COORD_MAX <= c1 <= COORD_MAX,
        -COORD_MAX <= c2 <= COORD_MAX,
        0 <= t <= PROGRESS_MAX,
    ensures
        r == eval_component(c0 as int, c1 as int, c2 as int, t as int),
        -COORD_MAX <= r <= COORD_MAX,
{
    let u: i128 = (PROGRESS_SCALE as i128) - (t as i128);
    let ti: i128 = t as i128;
    proof {
        lemma_eval_terms(c0 as int, c1 as int, c2 as int, t as int);
    }
    let sum: i128 = u * u * (c0 as i128) + 2 * u * ti * (c1 as i128) + ti * ti * (c2 as i128);
    tdiv_clamp(sum, PROGRESS_SCALE * PROGRESS_SCALE)
}

/// The three weighted terms of a curve component stay within an `i128`.
proof fn lemma_eval_terms(c0: int, c1: int, c2: int, t: int)
    by (nonlinear_arith)
    requires
        -COORD_MAX as int <= c0 <= COORD_MAX as int,
        -COORD_MAX as int <= c1 <= COORD_MAX as int,
        -COORD_MAX as int <= c2 <= COORD_MAX as int,
        0 <= t <= PROGRESS_MAX as int,
    ensures
        ({
            let u = PROGRESS_SCALE as int - t;
            &&& 0 <= u * u <= 100000000000000000000
            &&& -200000000000000000000 <= 2 * u * t <= 200000000000000000000
            &&& 0 <= t * t <= 100000000000000000000
            &&& -200000000000000000000000000000000000 <= u * u * c0
                <= 200000000000000000000000000000000000
            &&& -200000000000000000000000000000000000 <= 2 * u * t * c1
                <= 200000000000000000000000000000000000
            &&& -200000000000000000000000000000000000 <= t * t * c2
                <= 200000000000000000000000000000000000
        }),
{
}

} // verus!
