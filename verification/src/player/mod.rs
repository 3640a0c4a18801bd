//! The playback engine: one actor owns the audio device and serves commands
//! that any number of callers send over a channel.

pub mod actor;
pub mod channel;
pub mod client;
pub mod command;
pub mod position;
pub mod state;
pub mod theorems;

pub use actor::{Actor, ActorState, LoadOutcome};
pub use client::AudioPlayer;
pub use command::{AudioCommand, Directive};
pub use position::{PositionEvent, PositionFilter};
pub use state::{Mode, PlaybackState, PlayerError};
