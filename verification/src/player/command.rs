//! The commands that callers queue for the actor, and what the actor directs
//! the device to do for each.

use vstd::prelude::*;
use std::sync::mpsc::Sender;
use crate::ieee::{Double, Single};
use crate::player::actor::{Actor, ActorState};
use crate::player::state::{Mode, PlaybackState, PlayerError};

verus! {

/// One request to the actor. A command that has a result carries the sending
/// end of a channel made for that one reply.
pub enum AudioCommand {
    /// Load the file at the path and play it; the reply is the track's length
    /// in seconds.
    Play(String, Sender<Result<Double, PlayerError>>),
    Pause,
    Resume,
    Stop,
    SetVolume(Single),
    /// Seek to the offset in seconds; the reply says whether the device could.
    Seek(Single, Sender<Result<(), PlayerError>>),
    /// The reply is the current offset in seconds.
    GetPosition(Sender<Single>),
    GetState(Sender<PlaybackState>),
}

impl AudioCommand {
    /// The command of a `Play` of the file at `path`, answered on `reply`.
    pub fn play(path: String, reply: Sender<Result<Double, PlayerError>>) -> (command:
        AudioCommand)
        ensures
            command == AudioCommand::Play(path, reply),
    {
        AudioCommand::Play(path, reply)
    }

    pub fn pause() -> (command: AudioCommand)
        ensures
            command == AudioCommand::Pause,
    {
        AudioCommand::Pause
    }

    pub fn resume() -> (command: AudioCommand)
        ensures
            command == AudioCommand::Resume,
    {
        AudioCommand::Resume
    }

    pub fn stop() -> (command: AudioCommand)
        ensures
            command == AudioCommand::Stop,
    {
        AudioCommand::Stop
    }

    pub fn set_volume(level: Single) -> (command: AudioCommand)
        ensures
            command == AudioCommand::SetVolume(level),
    {
        AudioCommand::SetVolume(level)
    }

    /// The command of a `Seek` to `seconds`, answered on `reply`.
    pub fn seek(seconds: Single, reply: Sender<Result<(), PlayerError>>) -> (command:
        AudioCommand)
        ensures
            command == AudioCommand::Seek(seconds, reply),
    {
        AudioCommand::Seek(seconds, reply)
    }

    /// The query for the offset, answered on `reply`.
    pub fn get_position(reply: Sender<Single>) -> (command: AudioCommand)
        ensures
            command == AudioCommand::GetPosition(reply),
    {
        AudioCommand::GetPosition(reply)
    }

    /// The query for the snapshot, answered on `reply`.
    pub fn get_state(reply: Sender<PlaybackState>) -> (command: AudioCommand)
        ensures
            command == AudioCommand::GetState(reply),
    {
        AudioCommand::GetState(reply)
    }
}

/// What the actor's thread is to do after the machine has taken a command.
pub enum Directive {
    /// Nothing.
    Idle,
    /// Open and decode the file, hand the outcome to `Actor::finish_play`,
    /// install the track if the reply is `Ok`, and send the reply.
    Load(String, Sender<Result<Double, PlayerError>>),
    /// Pause the device.
    Pause,
    /// Let the device run.
    Resume,
    /// Drop the device's track.
    Stop,
    /// Set the device's volume to this level.
    SetVolume(Single),
    /// Seek the device to this offset, hand the outcome to
    /// `Actor::finish_seek`, and send the reply.
    Seek(Single, Sender<Result<(), PlayerError>>),
    /// Read the device's offset and send it.
    ReadPosition(Sender<Single>),
    /// Send this snapshot.
    ReplyState(PlaybackState, Sender<PlaybackState>),
    /// Send this reply to a seek that needed no device.
    ReplySeek(Result<(), PlayerError>, Sender<Result<(), PlayerError>>),
}

impl ActorState {
    /// The state after the machine has taken the command. A `Play` changes
    /// nothing yet: the state moves when its load has ended.
    pub open spec fn after(self, command: AudioCommand) -> ActorState {
        match command {
            AudioCommand::Play(_, _) => self,
            AudioCommand::Pause => self.paused(),
            AudioCommand::Resume => self.resumed(),
            AudioCommand::Stop => self.stopped(),
            AudioCommand::SetVolume(level) => self.with_volume(level),
            AudioCommand::Seek(_, _) => self.sought(),
            AudioCommand::GetPosition(_) => self,
            AudioCommand::GetState(_) => self,
        }
    }

    /// What the device is to do for the command, taken in this state.
    pub open spec fn directive_for(self, command: AudioCommand) -> Directive {
        match command {
            AudioCommand::Play(path, reply) => Directive::Load(path, reply),
            AudioCommand::Pause => if self.mode == Mode::Playing {
                Directive::Pause
            } else {
                Directive::Idle
            },
            AudioCommand::Resume => if self.mode == Mode::Paused {
                Directive::Resume
            } else {
                Directive::Idle
            },
            AudioCommand::Stop => Directive::Stop,
            AudioCommand::SetVolume(level) => Directive::SetVolume(level.clamp_unit_spec()),
            AudioCommand::Seek(seconds, reply) => if self.accepts_seek() {
                Directive::Seek(seconds.clamp_non_negative_spec(), reply)
            } else {
                Directive::ReplySeek(Ok(()), reply)
            },
            AudioCommand::GetPosition(reply) => Directive::ReadPosition(reply),
            AudioCommand::GetState(reply) => Directive::ReplyState(self.snapshot(), reply),
        }
    }
}

impl Actor {
    /// Takes one command: moves the state and says what the device is to do.
    pub fn handle(&mut self, command: AudioCommand) -> (directive: Directive)
        ensures
            final(self)@ == old(self)@.after(command),
            directive == old(self)@.directive_for(command),
    {
        match command {
            AudioCommand::Play(path, reply) => Directive::Load(path, reply),
            AudioCommand::Pause => {
                if self.pause() {
                    Directive::Pause
                } else {
                    Directive::Idle
                }
            },
            AudioCommand::Resume => {
                if self.resume() {
                    Directive::Resume
                } else {
                    Directive::Idle
                }
            },
            AudioCommand::Stop => {
                self.stop();
                Directive::Stop
            },
            AudioCommand::SetVolume(level) => Directive::SetVolume(self.set_volume(level)),
            AudioCommand::Seek(seconds, reply) => {
                match self.seek(seconds) {
                    Some(target) => Directive::Seek(target, reply),
                    None => Directive::ReplySeek(Ok(()), reply),
                }
            },
            AudioCommand::GetPosition(reply) => Directive::ReadPosition(reply),
            AudioCommand::GetState(reply) => Directive::ReplyState(self.snapshot(), reply),
        }
    }
}

} // verus!
