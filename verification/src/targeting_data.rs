//! A missile lock in progress or completed on one enemy.

use vstd::prelude::*;
use crate::missile::EnemyID;

verus! {

/// How long acquiring a lock takes: 4 seconds, in microseconds.
pub const LOCKING_TIME: i64 = 4_000_000;

/// The lock state: which enemy, and how much lock-acquisition time remains.
/// The lock is acquired once `left_until_lock` reaches zero or below.
#[derive(Clone, Copy, PartialEq, Eq, Structural, Debug)]
pub struct TargetingData {
    pub target_id: EnemyID,
    pub left_until_lock: i64,
}

impl TargetingData {
    /// A fresh lock attempt on `id`, with the full acquisition time ahead.
    pub fn new(id: EnemyID) -> (r: TargetingData)
        ensures
            r.target_id == id,
            r.left_until_lock == LOCKING_TIME,
    {
        TargetingData { target_id: id, left_until_lock: LOCKING_TIME }
    }
}

} // verus!
