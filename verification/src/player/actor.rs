//! The state machine of the playback actor.
//!
//! The actor's thread owns the audio device. It hands each command to this
//! machine, does to the device what the machine directs, and reports back
//! what the device answered. The machine itself touches no device: it holds
//! the mode, the volume and the seek generation, and decides.

use vstd::prelude::*;
use crate::ieee::{Double, Single};
use crate::player::position::PositionEvent;
use crate::player::state::{Mode, PlaybackState, PlayerError};

verus! {

/// The actor's state as contracts speak of it.
pub struct ActorState {
    pub mode: Mode,
    pub volume: Single,
    pub generation: u32,
}

/// The generation after one more seek. The counter never goes down; at the
/// end of its range it stays.
pub open spec fn next_generation(generation: u32) -> u32 {
    if generation < u32::MAX {
        (generation + 1) as u32
    } else {
        generation
    }
}

impl ActorState {
    /// The state of a new actor: nothing loaded, full volume.
    pub open spec fn initial() -> ActorState {
        ActorState { mode: Mode::Empty, volume: Single::spec_one(), generation: 0 }
    }

    pub open spec fn well_formed(self) -> bool {
        self.volume.in_unit_interval()
    }

    pub open spec fn snapshot(self) -> PlaybackState {
        PlaybackState {
            is_paused: self.mode == Mode::Paused,
            is_empty: self.mode == Mode::Empty,
            volume: self.volume,
        }
    }

    /// After a track was decoded and installed.
    pub open spec fn loaded(self) -> ActorState {
        ActorState { mode: Mode::Playing, volume: self.volume, generation: 0 }
    }

    pub open spec fn paused(self) -> ActorState {
        if self.mode == Mode::Playing {
            ActorState { mode: Mode::Paused, ..self }
        } else {
            self
        }
    }

    pub open spec fn resumed(self) -> ActorState {
        if self.mode == Mode::Paused {
            ActorState { mode: Mode::Playing, ..self }
        } else {
            self
        }
    }

    pub open spec fn stopped(self) -> ActorState {
        ActorState { mode: Mode::Empty, ..self }
    }

    pub open spec fn with_volume(self, level: Single) -> ActorState {
        ActorState { volume: level.clamp_unit_spec(), ..self }
    }

    /// A seek is accepted while a track is loaded.
    pub open spec fn accepts_seek(self) -> bool {
        self.mode != Mode::Empty
    }

    pub open spec fn sought(self) -> ActorState {
        if self.accepts_seek() {
            ActorState { generation: next_generation(self.generation), ..self }
        } else {
            self
        }
    }

    /// After the load for a `Play` has ended: a decoded track is installed, a
    /// failed load leaves everything as it was.
    pub open spec fn after_load(self, outcome: LoadOutcome) -> ActorState {
        if outcome.is_ready() {
            self.loaded()
        } else {
            self
        }
    }

    /// After a tick on which the device did or did not hold a track.
    pub open spec fn ticked(self, installed: bool) -> ActorState {
        if self.mode == Mode::Playing && !installed {
            ActorState { mode: Mode::Empty, ..self }
        } else {
            self
        }
    }

    /// What a tick broadcasts: the position, tagged, while a track plays.
    pub open spec fn tick_event(self, installed: bool, position: Single) -> Option<
        PositionEvent,
    > {
        if self.mode == Mode::Playing && installed {
            Some(PositionEvent { position, generation: self.generation })
        } else {
            None
        }
    }
}

/// How opening and decoding a file ended.
#[derive(Clone, Copy, Debug, PartialEq, Eq, Structural)]
pub enum LoadOutcome {
    /// The track is decoded; its length in seconds, as far as the decoder told
    /// one.
    Ready(Option<Double>),
    /// The file could not be opened.
    OpenFailed,
    /// The file could not be decoded.
    DecodeFailed,
}

impl LoadOutcome {
    pub open spec fn is_ready(self) -> bool {
        self is Ready
    }

    /// The length that a caller is told: what the decoder told, if that is a
    /// number of seconds from zero upwards, and zero for "not known"
    /// otherwise.
    pub open spec fn spec_length(told: Option<Double>) -> Double {
        match told {
            Some(seconds) => if seconds.is_non_negative() {
                seconds
            } else {
                Double::spec_zero()
            },
            None => Double::spec_zero(),
        }
    }

    /// What the caller of `Play` is told: the length in seconds, zero where it
    /// is unknown, or the error.
    pub open spec fn reply(self) -> Result<Double, PlayerError> {
        match self {
            LoadOutcome::Ready(told) => Ok(Self::spec_length(told)),
            LoadOutcome::OpenFailed => Err(PlayerError::FileOpenError),
            LoadOutcome::DecodeFailed => Err(PlayerError::DecodeError),
        }
    }

    /// The length that a caller is told: what the decoder told, if that is a
    /// number of seconds from zero upwards, and zero for "not known"
    /// otherwise.
    #[verifier::when_used_as_spec(spec_length)]
    pub fn length(told: Option<Double>) -> (seconds: Double)
        ensures
            seconds == Self::spec_length(told),
            seconds.is_non_negative(),
    {
        match told {
            Some(seconds) => if seconds.is_non_negative() {
                seconds
            } else {
                Double::zero()
            },
            None => Double::zero(),
        }
    }
}

/// What the caller of `Seek` is told once the device has answered.
pub open spec fn device_seek_reply(device_ok: bool) -> Result<(), PlayerError> {
    if device_ok {
        Ok(())
    } else {
        Err(PlayerError::SeekUnsupported)
    }
}

/// The playback actor's own state.
pub struct Actor {
    mode: Mode,
    volume: Single,
    generation: u32,
}

impl View for Actor {
    type V = ActorState;

    closed spec fn view(&self) -> ActorState {
        ActorState { mode: self.mode, volume: self.volume, generation: self.generation }
    }
}

impl Actor {
    #[verifier::type_invariant]
    spec fn volume_in_range(self) -> bool {
        self.volume.in_unit_interval()
    }

    pub fn new() -> (actor: Actor)
        ensures
            actor@ == ActorState::initial(),
            actor@.well_formed(),
    {
        proof {
            Single::lemma_clamp_unit_fixes_interval(Single::spec_one());
            Single::lemma_clamp_unit_in_range(Single::spec_one());
            Single::spec_one().lemma_scaled_against_one();
        }
        Actor { mode: Mode::Empty, volume: Single::one(), generation: 0 }
    }

    pub fn mode(&self) -> (mode: Mode)
        ensures
            mode == self@.mode,
    {
        self.mode
    }

    pub fn volume(&self) -> (volume: Single)
        ensures
            volume == self@.volume,
            volume.in_unit_interval(),
    {
        proof {
            use_type_invariant(self);
        }
        self.volume
    }

    pub fn generation(&self) -> (generation: u32)
        ensures
            generation == self@.generation,
    {
        self.generation
    }

    /// The state as a caller of `GetState` sees it.
    pub fn snapshot(&self) -> (state: PlaybackState)
        ensures
            state == self@.snapshot(),
            state.volume.in_unit_interval(),
    {
        proof {
            use_type_invariant(self);
        }
        PlaybackState {
            is_paused: self.mode == Mode::Paused,
            is_empty: self.mode == Mode::Empty,
            volume: self.volume,
        }
    }

    /// Takes in how the load for a `Play` ended. A decoded track replaces the
    /// current one: the actor plays, and the generation starts at zero again.
    /// A failed load changes nothing. Returns the reply for the caller; the
    /// device installs the new track exactly when the reply is `Ok`.
    pub fn finish_play(&mut self, outcome: LoadOutcome) -> (reply: Result<Double, PlayerError>)
        ensures
            reply == outcome.reply(),
            reply is Ok <==> outcome.is_ready(),
            final(self)@ == old(self)@.after_load(outcome),
    {
        proof {
            use_type_invariant(&*self);
        }
        match outcome {
            LoadOutcome::Ready(length) => {
                self.mode = Mode::Playing;
                self.generation = 0;
                Ok(LoadOutcome::length(length))
            },
            LoadOutcome::OpenFailed => Err(PlayerError::FileOpenError),
            LoadOutcome::DecodeFailed => Err(PlayerError::DecodeError),
        }
    }

    /// Holds a playing track. Returns whether the device is to pause: not
    /// when the actor is already paused or empty.
    pub fn pause(&mut self) -> (changed: bool)
        ensures
            final(self)@ == old(self)@.paused(),
            changed == (old(self)@.mode == Mode::Playing),
    {
        proof {
            use_type_invariant(&*self);
        }
        if self.mode == Mode::Playing {
            self.mode = Mode::Paused;
            true
        } else {
            false
        }
    }

    /// Lets a paused track run again. Returns whether the device is to
    /// resume: not when the actor is already playing or empty.
    pub fn resume(&mut self) -> (changed: bool)
        ensures
            final(self)@ == old(self)@.resumed(),
            changed == (old(self)@.mode == Mode::Paused),
    {
        proof {
            use_type_invariant(&*self);
        }
        if self.mode == Mode::Paused {
            self.mode = Mode::Playing;
            true
        } else {
            false
        }
    }

    /// Drops the track, whatever the mode.
    pub fn stop(&mut self)
        ensures
            final(self)@ == old(self)@.stopped(),
    {
        proof {
            use_type_invariant(&*self);
        }
        self.mode = Mode::Empty;
    }

    /// Sets the volume to the level clamped to the unit interval, and returns
    /// it for the device. The mode does not change.
    pub fn set_volume(&mut self, level: Single) -> (applied: Single)
        ensures
            final(self)@ == old(self)@.with_volume(level),
            applied == level.clamp_unit_spec(),
            applied.in_unit_interval(),
    {
        let applied = level.clamp_unit();
        self.volume = applied;
        applied
    }

    /// Accepts a seek while a track is loaded: the generation goes up by one
    /// and the device is to seek to the returned target, the seconds clamped
    /// to zero or more. With no track loaded nothing changes and there is no
    /// target.
    pub fn seek(&mut self, seconds: Single) -> (target: Option<Single>)
        ensures
            final(self)@ == old(self)@.sought(),
            target == if old(self)@.accepts_seek() {
                Some(seconds.clamp_non_negative_spec())
            } else {
                None
            },
    {
        proof {
            use_type_invariant(&*self);
        }
        if self.mode == Mode::Empty {
            None
        } else {
            if self.generation < u32::MAX {
                self.generation = self.generation + 1;
            }
            Some(seconds.clamp_non_negative())
        }
    }

    /// The reply to a `Seek` once the device has answered: a seek that the
    /// device refused is reported, never dropped.
    pub fn finish_seek(device_ok: bool) -> (reply: Result<(), PlayerError>)
        ensures
            reply == device_seek_reply(device_ok),
    {
        if device_ok {
            Ok(())
        } else {
            Err(PlayerError::SeekUnsupported)
        }
    }

    /// One tick. `installed` says whether the device still holds a track and
    /// `position` is its offset in seconds. While a track plays, the position
    /// goes out tagged with the generation. A playing actor whose track has
    /// run out becomes empty.
    pub fn tick(&mut self, installed: bool, position: Single) -> (event: Option<PositionEvent>)
        ensures
            final(self)@ == old(self)@.ticked(installed),
            event == old(self)@.tick_event(installed, position),
    {
        proof {
            use_type_invariant(&*self);
        }
        if self.mode == Mode::Playing {
            if installed {
                Some(PositionEvent { position, generation: self.generation })
            } else {
                self.mode = Mode::Empty;
                None
            }
        } else {
            None
        }
    }
}

} // verus!
