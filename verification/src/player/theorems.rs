//! What holds of the engine whatever the commands: statements over the state
//! machine's transitions, each proved from their definitions.

use vstd::prelude::*;
use crate::ieee::{unit_scaled, Single};
use crate::player::actor::{next_generation, ActorState, LoadOutcome};
use crate::player::command::{AudioCommand, Directive};
use crate::player::position::{admits_spec, PositionEvent};
use crate::player::state::Mode;

verus! {

/// One thing that happens to the actor.
pub enum Event {
    /// A command was taken from the queue.
    Command(AudioCommand),
    /// The load for a `Play` has ended.
    Loaded(LoadOutcome),
    /// A tick has found the device with or without a track.
    Tick(bool),
}

/// The state after one event.
pub open spec fn step(state: ActorState, event: Event) -> ActorState {
    match event {
        Event::Command(command) => state.after(command),
        Event::Loaded(outcome) => state.after_load(outcome),
        Event::Tick(installed) => state.ticked(installed),
    }
}

/// The state after the events, taken in their order.
pub open spec fn run(state: ActorState, events: Seq<Event>) -> ActorState
    decreases events.len(),
{
    if events.len() == 0 {
        state
    } else {
        step(run(state, events.drop_last()), events.last())
    }
}

/// Whatever happens, in whatever order, the volume stays in the unit
/// interval.
pub proof fn lemma_volume_always_in_range(events: Seq<Event>)
    ensures
        run(ActorState::initial(), events).well_formed(),
    decreases events.len(),
{
    Single::spec_one().lemma_scaled_against_one();
    if events.len() > 0 {
        lemma_volume_always_in_range(events.drop_last());
        let before = run(ActorState::initial(), events.drop_last());
        match events.last() {
            Event::Command(command) => {
                lemma_transitions_keep_volume_in_range(
                    before,
                    command,
                    LoadOutcome::OpenFailed,
                    true,
                );
            },
            Event::Loaded(outcome) => {},
            Event::Tick(installed) => {},
        }
    }
}

/// As long as no new track is installed, the generation never falls,
/// whatever else happens.
pub proof fn lemma_generation_monotone(state: ActorState, events: Seq<Event>)
    requires
        forall|i: int|
            0 <= i < events.len() ==> !(#[trigger] events[i] is Loaded
                && events[i]->Loaded_0.is_ready()),
    ensures
        run(state, events).generation >= state.generation,
    decreases events.len(),
{
    if events.len() > 0 {
        let earlier = events.drop_last();
        assert forall|i: int| 0 <= i < earlier.len() implies !(#[trigger] earlier[i] is Loaded
            && earlier[i]->Loaded_0.is_ready()) by {
            assert(earlier[i] == events[i]);
        }
        lemma_generation_monotone(state, earlier);
        assert(events.last() == events[events.len() - 1]);
    }
}

/// The seeks accepted since the last track was installed, or, while none was
/// installed, the generation at the start and the seeks accepted since.
pub open spec fn seeks_since_load(state: ActorState, events: Seq<Event>) -> nat
    decreases events.len(),
{
    if events.len() == 0 {
        state.generation as nat
    } else {
        let earlier = events.drop_last();
        match events.last() {
            Event::Loaded(outcome) => if outcome.is_ready() {
                0
            } else {
                seeks_since_load(state, earlier)
            },
            Event::Command(AudioCommand::Seek(_, _)) => if run(state, earlier).accepts_seek() {
                seeks_since_load(state, earlier) + 1
            } else {
                seeks_since_load(state, earlier)
            },
            _ => seeks_since_load(state, earlier),
        }
    }
}

/// The generation counts the seeks: at every moment it is the number of
/// seeks accepted since the last track was installed, as far as the counter
/// reaches.
pub proof fn lemma_generation_counts_seeks(state: ActorState, events: Seq<Event>)
    ensures
        run(state, events).generation == if seeks_since_load(state, events) <= u32::MAX {
            seeks_since_load(state, events)
        } else {
            u32::MAX as nat
        },
    decreases events.len(),
{
    if events.len() > 0 {
        lemma_generation_counts_seeks(state, events.drop_last());
    }
}

/// The snapshot is empty exactly until a track is installed and again after
/// a stop or at the track's end: with nothing but pauses, resumes, volume
/// changes, seeks and queries, a loaded track stays loaded and an empty
/// actor stays empty.
pub proof fn lemma_only_play_and_stop_change_emptiness(state: ActorState, command: AudioCommand)
    requires
        !(command is Stop),
    ensures
        state.after(command).snapshot().is_empty == state.snapshot().is_empty,
{
}

/// After a volume change the snapshot shows the level clamped to the unit
/// interval: zero for a level below zero, one for a level above one, the
/// level itself between. Mode and generation are untouched.
pub proof fn lemma_set_volume_is_clamp(state: ActorState, level: Single)
    ensures
        state.with_volume(level).snapshot().volume == level.clamp_unit_spec(),
        state.with_volume(level).snapshot().volume.in_unit_interval(),
        level.is_finite() ==> state.with_volume(level).snapshot().volume.scaled() == if level.scaled()
            < 0 {
            0
        } else if level.scaled() > unit_scaled() {
            unit_scaled()
        } else {
            level.scaled()
        },
        state.with_volume(level).mode == state.mode,
        state.with_volume(level).generation == state.generation,
{
    Single::lemma_clamp_unit_in_range(level);
    if level.is_finite() {
        Single::lemma_clamp_unit_value(level);
    }
}

/// Every transition keeps the volume in the unit interval.
pub proof fn lemma_transitions_keep_volume_in_range(
    state: ActorState,
    command: AudioCommand,
    outcome: LoadOutcome,
    installed: bool,
)
    requires
        state.well_formed(),
    ensures
        ActorState::initial().well_formed(),
        state.after(command).well_formed(),
        state.after_load(outcome).well_formed(),
        state.ticked(installed).well_formed(),
{
    Single::spec_one().lemma_scaled_against_one();
    if let AudioCommand::SetVolume(level) = command {
        Single::lemma_clamp_unit_in_range(level);
    }
}

/// A load that succeeds is answered with a length of zero seconds or more,
/// and leaves a track playing: the snapshot is neither empty nor paused, and
/// the generation is zero.
pub proof fn lemma_successful_play_is_playing(state: ActorState, outcome: LoadOutcome)
    requires
        outcome.is_ready(),
    ensures
        outcome.reply() is Ok,
        outcome.reply()->Ok_0.is_non_negative(),
        !state.after_load(outcome).snapshot().is_empty,
        !state.after_load(outcome).snapshot().is_paused,
        state.after_load(outcome).generation == 0,
        state.after_load(outcome).volume == state.volume,
{
}

/// A load that fails is answered with an error and changes nothing: a track
/// that was playing plays on, with the same snapshot and generation.
pub proof fn lemma_failed_play_changes_nothing(state: ActorState, outcome: LoadOutcome)
    requires
        !outcome.is_ready(),
    ensures
        outcome.reply() is Err,
        state.after_load(outcome) == state,
        state.after_load(outcome).snapshot() == state.snapshot(),
{
}

/// After a stop the snapshot is empty, whatever the state was; the volume
/// stays.
pub proof fn lemma_stop_empties(state: ActorState)
    ensures
        state.stopped().snapshot().is_empty,
        state.stopped().snapshot().volume == state.volume,
{
}

/// A pause followed by a resume leaves the snapshot unpaused, and a playing
/// actor exactly as it was.
pub proof fn lemma_pause_then_resume(state: ActorState)
    ensures
        !state.paused().resumed().snapshot().is_paused,
        state.mode == Mode::Playing ==> state.paused().snapshot().is_paused,
        state.mode == Mode::Playing ==> state.paused().resumed() == state,
{
}

/// Pausing twice is pausing once, and so for resuming.
pub proof fn lemma_pause_and_resume_idempotent(state: ActorState)
    ensures
        state.paused().paused() == state.paused(),
        state.resumed().resumed() == state.resumed(),
{
}

/// While the actor is paused or empty, a tick broadcasts no position and
/// changes nothing.
pub proof fn lemma_no_broadcast_unless_playing(
    state: ActorState,
    installed: bool,
    position: Single,
)
    requires
        state.mode != Mode::Playing,
    ensures
        state.tick_event(installed, position) is None,
        state.ticked(installed) == state,
{
}

/// An event that a tick broadcasts carries the position it was given and the
/// generation of that moment.
pub proof fn lemma_broadcast_is_tagged(state: ActorState, position: Single)
    requires
        state.mode == Mode::Playing,
    ensures
        state.tick_event(true, position) == Some(
            PositionEvent { position, generation: state.generation },
        ),
        state.ticked(true) == state,
{
}

/// The queries are pure reads: neither changes the state, and the state
/// query is answered with the snapshot.
pub proof fn lemma_queries_change_nothing(state: ActorState, command: AudioCommand)
    requires
        command is GetPosition || command is GetState,
    ensures
        state.after(command) == state,
        command is GetState ==> state.directive_for(command) == Directive::ReplyState(
            state.snapshot(),
            command->GetState_0,
        ),
{
}

/// Only a `Play` that has loaded sets the generation back; every command
/// leaves it where it was or moves it up, and below the end of its range an
/// accepted seek moves it up by exactly one.
pub proof fn lemma_generation_never_falls(state: ActorState, command: AudioCommand)
    ensures
        state.after(command).generation >= state.generation,
        command is Seek && state.accepts_seek() && state.generation < u32::MAX ==> state.after(
            command,
        ).generation == state.generation + 1,
        !(command is Seek) ==> state.after(command).generation == state.generation,
        command is Seek && !state.accepts_seek() ==> state.after(command) == state,
{
}

/// A listener that counts seeks as the actor does drops what was read before
/// its most recent seek. Let the listener's count equal the actor's
/// generation. Once both have taken one more seek, an event tagged before
/// that seek is dropped, and an event tagged after it is kept.
pub proof fn lemma_stale_position_is_dropped(
    state: ActorState,
    listener: u32,
    stale: PositionEvent,
    fresh: PositionEvent,
)
    requires
        state.accepts_seek(),
        state.generation < u32::MAX,
        listener == state.generation,
        stale.generation <= state.generation,
        fresh.generation == state.sought().generation,
    ensures
        next_generation(listener) == state.sought().generation,
        !admits_spec(next_generation(listener), stale),
        admits_spec(next_generation(listener), fresh),
{
}

} // verus!
