//! Handles for the long-running one-of-a-kind sounds of a session.

use vstd::prelude::*;
use crate::audio::SoundID;

verus! {

/// The sound IDs of the cues that exist at most once at a time.
#[derive(Clone, Copy, PartialEq, Eq, Structural, Debug)]
pub struct SingleSounds {
    pub guns: SoundID,
    pub seeking: SoundID,
    pub locking: SoundID,
    pub locked: SoundID,
}

} // verus!
