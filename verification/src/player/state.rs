//! What callers see of the engine: its state snapshot and its errors.

use vstd::prelude::*;
use vstd::string::*;
use crate::ieee::Single;

verus! {

/// The three states of the engine.
#[derive(Clone, Copy, Debug, PartialEq, Eq, Structural)]
pub enum Mode {
    /// No track is loaded.
    Empty,
    /// A track is loaded and running.
    Playing,
    /// A track is loaded and held.
    Paused,
}

/// A snapshot of the engine, made for one reply.
#[derive(Clone, Copy, Debug, PartialEq, Eq, Structural)]
pub struct PlaybackState {
    pub is_paused: bool,
    pub is_empty: bool,
    pub volume: Single,
}

/// Why an operation failed. None of these ends the engine.
#[derive(Clone, Copy, Debug, PartialEq, Eq, Structural)]
pub enum PlayerError {
    /// The file could not be opened.
    FileOpenError,
    /// The file was opened but holds no audio that can be decoded.
    DecodeError,
    /// The loaded track cannot be sought.
    SeekUnsupported,
    /// The engine's thread has ended; no reply will come.
    ChannelDisconnected,
}

impl PlayerError {
    /// The text shown to the user for this error.
    pub open spec fn message_spec(self) -> Seq<char> {
        match self {
            PlayerError::FileOpenError => "Failed to open file"@,
            PlayerError::DecodeError => "Decoder build failed"@,
            PlayerError::SeekUnsupported => "Seek failed"@,
            PlayerError::ChannelDisconnected => "Thread disconnected"@,
        }
    }

    pub fn message(&self) -> (text: String)
        ensures
            text@ == self.message_spec(),
    {
        match self {
            PlayerError::FileOpenError => String::from_str("Failed to open file"),
            PlayerError::DecodeError => String::from_str("Decoder build failed"),
            PlayerError::SeekUnsupported => String::from_str("Seek failed"),
            PlayerError::ChannelDisconnected => String::from_str("Thread disconnected"),
        }
    }
}

} // verus!
