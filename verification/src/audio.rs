//! The simulation's audio interface: fire-and-forget commands sent over a
//! channel to an audio worker that lives outside this crate. The simulation
//! never waits for the worker.

use vstd::prelude::*;
use crate::id_gen::{IDGenerator, IDKind};

verus! {

pub type SoundID = u32;

/// The sound effects the game triggers.
#[derive(Clone, Copy, PartialEq, Eq, Structural, Hash, Debug)]
pub enum SoundEffect {
    JetEngine,
    Beep,
    CockpitAmbient,
    Seeking,
    Locking,
    Locked,
    Guns,
    MissileLaunch,
}

/// Commands to the audio worker.
pub enum AudioMessage {
    Play(SoundID, &'static str, bool),
    Pause(SoundID),
    Stop(SoundID),
    Exit,
}

/// Commands to one playing sound inside the worker.
pub enum InternalMessage {
    Stop,
    Exit,
}

/// The asset file for each effect.
pub open spec fn path_of(effect: SoundEffect) -> Seq<char> {
    match effect {
        SoundEffect::JetEngine => "resources/sounds/jet_engine.mp3"@,
        SoundEffect::Beep => "resources/sounds/beep.mp3"@,
        SoundEffect::CockpitAmbient => "resources/sounds/cockpit_ambient.mp3"@,
        SoundEffect::Seeking => "resources/sounds/seeking.mp3"@,
        SoundEffect::Locking => "resources/sounds/locking.mp3"@,
        SoundEffect::Locked => "resources/sounds/locked.mp3"@,
        SoundEffect::Guns => "resources/sounds/guns.mp3"@,
        SoundEffect::MissileLaunch => "resources/sounds/missile_launch.mp3"@,
    }
}

pub fn sound_path(effect: SoundEffect) -> (r: &'static str)
    ensures
        r@ == path_of(effect),
{
    match effect {
        SoundEffect::JetEngine => "resources/sounds/jet_engine.mp3",
        SoundEffect::Beep => "resources/sounds/beep.mp3",
        SoundEffect::CockpitAmbient => "resources/sounds/cockpit_ambient.mp3",
        SoundEffect::Seeking => "resources/sounds/seeking.mp3",
        SoundEffect::Locking => "resources/sounds/locking.mp3",
        SoundEffect::Locked => "resources/sounds/locked.mp3",
        SoundEffect::Guns => "resources/sounds/guns.mp3",
        SoundEffect::MissileLaunch => "resources/sounds/missile_launch.mp3",
    }
}

#[verifier::external_type_specification]
#[verifier::external_body]
#[verifier::reject_recursive_types(T)]
pub struct ExSender<T>(std::sync::mpsc::Sender<T>);

/// Relies on `std::sync::mpsc::Sender::send`: hands the message to the
/// receiving end unless it has hung up; reports whether it was accepted.
/// The simulation ignores the outcome, as the command is fire-and-forget.
#[verifier::external_body]
fn send_message(sender: &std::sync::mpsc::Sender<AudioMessage>, msg: AudioMessage) -> (r: bool) {
    sender.send(msg).is_ok()
}

/// The sending half of the channel to the audio worker.
pub struct Audio {
    pub sender: std::sync::mpsc::Sender<AudioMessage>,
}

impl Audio {
    pub fn new(sender: std::sync::mpsc::Sender<AudioMessage>) -> (r: Audio)
        ensures
            r.sender == sender,
    {
        Audio { sender }
    }

    /// Ask the worker to play an effect, issuing a fresh sound ID for it.
    /// Whether the worker is still listening does not matter to the caller.
    pub fn play(&self, effect: SoundEffect, repeat: bool, id_gen: &mut IDGenerator) -> (id:
        SoundID)
        requires
            old(id_gen).can_issue(IDKind::Sound),
        ensures
            id == old(id_gen).next_of(IDKind::Sound),
            final(id_gen).last_of(IDKind::Sound) == Some(id),
            final(id_gen).last_of(IDKind::Enemy) == old(id_gen).last_of(IDKind::Enemy),
    {
        let id = id_gen.get_new_id_of(IDKind::Sound);
        let path = sound_path(effect);
        send_message(&self.sender, AudioMessage::Play(id, path, repeat));
        id
    }

    /// Ask the worker to pause a playing sound.
    pub fn pause(&self, id: SoundID) {
        send_message(&self.sender, AudioMessage::Pause(id));
    }

    /// Ask the worker to stop a playing sound.
    pub fn stop(&self, id: SoundID) {
        send_message(&self.sender, AudioMessage::Stop(id));
    }

    /// Tell the worker to shut down.
    pub fn exit_hook(&self) {
        send_message(&self.sender, AudioMessage::Exit);
    }
}

} // verus!
