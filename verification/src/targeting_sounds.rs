//! The one targeting cue playing at a time: seeking, locking or locked.

use vstd::prelude::*;
use crate::audio::{Audio, SoundEffect, SoundID};
use crate::id_gen::{IDGenerator, IDKind};

verus! {

/// The effects this cue slot may play.
pub open spec fn is_targeting_effect(e: SoundEffect) -> bool {
    e == SoundEffect::Seeking || e == SoundEffect::Locking || e == SoundEffect::Locked
}

/// Remembers the currently playing targeting cue (its sound ID and which
/// effect it is) so it can be replaced.
pub struct TargetingSounds {
    pub current: Option<SoundID>,
    pub current_effect: Option<SoundEffect>,
}

impl TargetingSounds {
    pub fn new() -> (r: TargetingSounds)
        ensures
            r.current is None,
            r.current_effect is None,
    {
        TargetingSounds { current: None, current_effect: None }
    }

    /// Silence the current cue, if any.
    pub fn stop(&mut self, audio: &Audio)
        ensures
            final(self).current is None,
            final(self).current_effect is None,
    {
        match self.current {
            Some(id) => {
                audio.stop(id);
                self.current = None;
                self.current_effect = None;
            }
            None => {
                self.current_effect = None;
            },
        }
    }

    /// Replace the current cue with a freshly issued looping `effect`.
    pub fn play(&mut self, effect: SoundEffect, audio: &Audio, id_gen: &mut IDGenerator)
        requires
            is_targeting_effect(effect),
            old(id_gen).can_issue(IDKind::Sound),
        ensures
            final(self).current == Some(old(id_gen).next_of(IDKind::Sound)),
            final(self).current_effect == Some(effect),
            final(id_gen).last_of(IDKind::Sound) == Some(old(id_gen).next_of(IDKind::Sound)),
            final(id_gen).last_of(IDKind::Enemy) == old(id_gen).last_of(IDKind::Enemy),
    {
        self.stop(audio);
        match effect {
            SoundEffect::Seeking => {
                let id = audio.play(SoundEffect::Seeking, true, id_gen);
                self.current = Some(id);
                self.current_effect = Some(SoundEffect::Seeking);
            }
            SoundEffect::Locking => {
                let id = audio.play(SoundEffect::Locking, true, id_gen);
                self.current = Some(id);
                self.current_effect = Some(SoundEffect::Locking);
            }
            SoundEffect::Locked => {
                let id = audio.play(SoundEffect::Locked, true, id_gen);
                self.current = Some(id);
                self.current_effect = Some(SoundEffect::Locked);
            }
            _ => vstd::pervasive::unreached(),
        }
    }
}

} // verus!
