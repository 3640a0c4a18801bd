//! The call-style face of the engine. Each call queues one command; a call
//! that has a result waits for it on a channel of its own.
//!
//! What comes back on a channel is another thread's doing, so no call can
//! promise success. Each call hands what arrived to a reply rule, and the
//! rule's contract says what the caller gets for every value that can
//! arrive: a channel that closed empty is always the disconnection error,
//! and what did arrive is held to the form that an actor's replies have.

use vstd::prelude::*;
use std::sync::mpsc::{Receiver, Sender};
use crate::ieee::{Double, Single};
use crate::player::actor::{device_seek_reply, ActorState, LoadOutcome};
use crate::player::channel::{open_channel, send_over, wait_on};
use crate::player::command::AudioCommand;
use crate::player::state::{PlaybackState, PlayerError};

verus! {

/// What a caller of `Play` gets for what arrived on its reply channel: the
/// actor's reply, with a length that is no number of seconds from zero
/// upwards taken as "not known"; the disconnection error when the channel
/// closed empty.
pub open spec fn play_reply_spec(arrived: Option<Result<Double, PlayerError>>) -> Result<
    Double,
    PlayerError,
> {
    match arrived {
        Some(Ok(seconds)) => Ok(LoadOutcome::spec_length(Some(seconds))),
        Some(Err(error)) => Err(error),
        None => Err(PlayerError::ChannelDisconnected),
    }
}

/// What a caller of `Seek` gets: success where the actor replied so, a
/// refused seek where it replied with a failure, and the disconnection error
/// when the channel closed empty.
pub open spec fn seek_reply_spec(arrived: Option<Result<(), PlayerError>>) -> Result<
    (),
    PlayerError,
> {
    match arrived {
        Some(Ok(done)) => Ok(done),
        Some(Err(_)) => Err(PlayerError::SeekUnsupported),
        None => Err(PlayerError::ChannelDisconnected),
    }
}

/// What a caller of `GetPosition` gets: the offset that the actor replied,
/// or the disconnection error when the channel closed empty.
pub open spec fn position_reply_spec(arrived: Option<Single>) -> Result<Single, PlayerError> {
    match arrived {
        Some(seconds) => Ok(seconds),
        None => Err(PlayerError::ChannelDisconnected),
    }
}

/// What a caller of `GetState` gets: the snapshot that the actor replied,
/// its volume held to the unit interval, or the disconnection error when the
/// channel closed empty.
pub open spec fn state_reply_spec(arrived: Option<PlaybackState>) -> Result<
    PlaybackState,
    PlayerError,
> {
    match arrived {
        Some(state) => Ok(
            PlaybackState {
                is_paused: state.is_paused,
                is_empty: state.is_empty,
                volume: state.volume.clamp_unit_spec(),
            },
        ),
        None => Err(PlayerError::ChannelDisconnected),
    }
}

/// What an actor replies reaches the caller as it is: the reply rules change
/// no length that `finish_play` gives, no outcome that `finish_seek` gives
/// and no snapshot of a well-formed state.
pub proof fn lemma_actor_replies_pass_unchanged(
    state: ActorState,
    outcome: LoadOutcome,
    device_ok: bool,
    position: Single,
)
    requires
        state.well_formed(),
    ensures
        play_reply_spec(Some(outcome.reply())) == outcome.reply(),
        seek_reply_spec(Some(device_seek_reply(device_ok))) == device_seek_reply(device_ok),
        position_reply_spec(Some(position)) == Ok::<Single, PlayerError>(position),
        state_reply_spec(Some(state.snapshot())) == Ok::<PlaybackState, PlayerError>(
            state.snapshot(),
        ),
{
    Single::lemma_clamp_unit_fixes_interval(state.volume);
}

/// A handle on the engine. It can be shared among threads; all it holds is
/// the sending end of the command channel.
pub struct AudioPlayer {
    pub tx: Sender<AudioCommand>,
}

impl AudioPlayer {
    /// A handle that queues on the given channel.
    pub fn new(tx: Sender<AudioCommand>) -> (player: AudioPlayer)
        ensures
            player.tx == tx,
    {
        AudioPlayer { tx }
    }

    /// Opens the command channel: the handle for the callers and the
    /// receiving end for the actor's thread. A call that waits for a reply
    /// returns only once its command was taken from the receiving end or
    /// that end was dropped.
    pub fn connect() -> (ends: (AudioPlayer, Receiver<AudioCommand>)) {
        let (tx, rx) = open_channel::<AudioCommand>();
        (AudioPlayer { tx }, rx)
    }

    pub fn play_reply(arrived: Option<Result<Double, PlayerError>>) -> (reply: Result<
        Double,
        PlayerError,
    >)
        ensures
            reply == play_reply_spec(arrived),
            reply is Ok ==> reply->Ok_0.is_non_negative(),
    {
        match arrived {
            Some(Ok(seconds)) => Ok(LoadOutcome::length(Some(seconds))),
            Some(Err(error)) => Err(error),
            None => Err(PlayerError::ChannelDisconnected),
        }
    }

    pub fn seek_reply(arrived: Option<Result<(), PlayerError>>) -> (reply: Result<
        (),
        PlayerError,
    >)
        ensures
            reply == seek_reply_spec(arrived),
            reply is Err ==> reply->Err_0 == PlayerError::SeekUnsupported || reply->Err_0
                == PlayerError::ChannelDisconnected,
    {
        match arrived {
            Some(Ok(done)) => Ok(done),
            Some(Err(_)) => Err(PlayerError::SeekUnsupported),
            None => Err(PlayerError::ChannelDisconnected),
        }
    }

    pub fn position_reply(arrived: Option<Single>) -> (reply: Result<Single, PlayerError>)
        ensures
            reply == position_reply_spec(arrived),
            reply is Err ==> reply->Err_0 == PlayerError::ChannelDisconnected,
    {
        match arrived {
            Some(seconds) => Ok(seconds),
            None => Err(PlayerError::ChannelDisconnected),
        }
    }

    pub fn state_reply(arrived: Option<PlaybackState>) -> (reply: Result<
        PlaybackState,
        PlayerError,
    >)
        ensures
            reply == state_reply_spec(arrived),
            reply is Err ==> reply->Err_0 == PlayerError::ChannelDisconnected,
            reply is Ok ==> reply->Ok_0.volume.in_unit_interval(),
    {
        match arrived {
            Some(state) => Ok(
                PlaybackState {
                    is_paused: state.is_paused,
                    is_empty: state.is_empty,
                    volume: state.volume.clamp_unit(),
                },
            ),
            None => Err(PlayerError::ChannelDisconnected),
        }
    }

    /// Loads and plays the file. Waits for the actor's reply: the track's
    /// length in seconds, zero or more, or why the load failed. With the
    /// actor gone the call ends with `ChannelDisconnected`.
    pub fn play(&self, path: String) -> (reply: Result<Double, PlayerError>)
        ensures
            reply is Ok ==> reply->Ok_0.is_non_negative(),
    {
        let (reply_tx, reply_rx) = open_channel::<Result<Double, PlayerError>>();
        let _ = send_over(&self.tx, AudioCommand::play(path, reply_tx));
        Self::play_reply(wait_on(&reply_rx))
    }

    /// Queues a pause and returns at once.
    pub fn pause(&self) {
        let _ = send_over(&self.tx, AudioCommand::pause());
    }

    /// Queues a resume and returns at once.
    pub fn resume(&self) {
        let _ = send_over(&self.tx, AudioCommand::resume());
    }

    /// Queues a stop and returns at once.
    pub fn stop(&self) {
        let _ = send_over(&self.tx, AudioCommand::stop());
    }

    /// Queues a volume change and returns at once.
    pub fn set_volume(&self, volume: Single) {
        let _ = send_over(&self.tx, AudioCommand::set_volume(volume));
    }

    /// Seeks to the offset in seconds. Waits for the actor's reply, so a seek
    /// that the device refused is seen by the caller: the only errors are a
    /// refused seek and, with the actor gone, `ChannelDisconnected`.
    pub fn seek(&self, seconds: Single) -> (reply: Result<(), PlayerError>)
        ensures
            reply is Err ==> reply->Err_0 == PlayerError::SeekUnsupported || reply->Err_0
                == PlayerError::ChannelDisconnected,
    {
        let (reply_tx, reply_rx) = open_channel::<Result<(), PlayerError>>();
        let _ = send_over(&self.tx, AudioCommand::seek(seconds, reply_tx));
        Self::seek_reply(wait_on(&reply_rx))
    }

    /// The current offset in seconds. With the actor gone the call ends with
    /// `ChannelDisconnected`, its only error.
    pub fn get_position_secs(&self) -> (reply: Result<Single, PlayerError>)
        ensures
            reply is Err ==> reply->Err_0 == PlayerError::ChannelDisconnected,
    {
        let (reply_tx, reply_rx) = open_channel::<Single>();
        let _ = send_over(&self.tx, AudioCommand::get_position(reply_tx));
        Self::position_reply(wait_on(&reply_rx))
    }

    /// A snapshot of the engine, its volume in the unit interval. With the
    /// actor gone the call ends with `ChannelDisconnected`, its only error.
    pub fn get_playback_state(&self) -> (reply: Result<PlaybackState, PlayerError>)
        ensures
            reply is Err ==> reply->Err_0 == PlayerError::ChannelDisconnected,
            reply is Ok ==> reply->Ok_0.volume.in_unit_interval(),
    {
        let (reply_tx, reply_rx) = open_channel::<PlaybackState>();
        let _ = send_over(&self.tx, AudioCommand::get_state(reply_tx));
        Self::state_reply(wait_on(&reply_rx))
    }
}

} // verus!
