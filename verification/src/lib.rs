//! Playback engine of a desktop music player: the actor that owns the audio
//! device, the commands it serves, the generation-tagged position events it
//! broadcasts, and the catalog rules around it.

pub mod ieee;
pub mod player;
pub mod models;
pub mod text;
pub mod tags;
pub mod catalog;
