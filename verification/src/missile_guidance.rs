//! The guidance state of a missile: actively homing along a quadratic Bezier
//! path, or flying out a termination countdown after its target is gone.

use vstd::prelude::*;
use crate::bezier::QuadraticBezier;
use crate::missile::EnemyID;

verus! {

/// Number of ticks a missile without a target flies on before deletion.
pub const TERMINATION_TIME: u32 = 5000;

#[derive(Clone, Copy, PartialEq, Eq, Structural, Debug)]
pub struct GuidanceData {
    pub target_id: EnemyID,
    pub bezier: QuadraticBezier,
    /// Progress along the curve, in millionths.
    pub progress: i64,
}

/// A missile is in exactly one of these states; the `Terminating` timer
/// counts ticks down to removal.
#[derive(Clone, Copy, PartialEq, Eq, Structural, Debug)]
pub enum GuidanceStatus {
    Terminating(u32),
    Active(GuidanceData),
}

impl GuidanceStatus {
    /// The targetless state with a full countdown.
    pub fn none() -> (r: GuidanceStatus)
        ensures
            r == GuidanceStatus::Terminating(TERMINATION_TIME),
    {
        GuidanceStatus::Terminating(TERMINATION_TIME)
    }

    /// Active pursuit of `target_id` along `bezier`, starting at progress
    /// zero.
    pub fn new(target_id: EnemyID, bezier: QuadraticBezier) -> (r: GuidanceStatus)
        ensures
            r == GuidanceStatus::Active(GuidanceData { target_id, bezier, progress: 0i64 }),
    {
        GuidanceStatus::Active(GuidanceData { target_id, bezier, progress: 0 })
    }
}

} // verus!
