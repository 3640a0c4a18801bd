//! Position events and the rule by which a listener drops stale ones.

use vstd::prelude::*;
use crate::ieee::Single;

verus! {

/// The playback offset in seconds, tagged with the generation in which it was
/// read.
#[derive(Clone, Copy, Debug, PartialEq, Eq, Structural)]
pub struct PositionEvent {
    pub position: Single,
    pub generation: u32,
}

/// A listener's side of the generation rule. The listener counts its own
/// seeks as the actor counts them, keeps the highest generation it has seen,
/// and drops every event read before its most recent seek or before an event
/// it has already taken.
pub struct PositionFilter {
    threshold: u32,
}

impl View for PositionFilter {
    type V = u32;

    /// The lowest generation that the listener still takes: that of its most
    /// recent seek, or the highest it has seen since.
    closed spec fn view(&self) -> u32 {
        self.threshold
    }
}

/// Whether a listener whose most recent seek has generation `threshold`
/// keeps the event.
pub open spec fn admits_spec(threshold: u32, event: PositionEvent) -> bool {
    event.generation >= threshold
}

impl PositionFilter {
    pub fn new() -> (filter: PositionFilter)
        ensures
            filter@ == 0,
    {
        PositionFilter { threshold: 0 }
    }

    pub fn threshold(&self) -> (threshold: u32)
        ensures
            threshold == self@,
    {
        self.threshold
    }

    /// The listener has started a new track: generations start at zero again.
    pub fn note_play(&mut self)
        ensures
            final(self)@ == 0,
    {
        self.threshold = 0;
    }

    /// The listener has sent a seek.
    pub fn note_seek(&mut self)
        ensures
            final(self)@ == crate::player::actor::next_generation(old(self)@),
    {
        if self.threshold < u32::MAX {
            self.threshold = self.threshold + 1;
        }
    }

    /// Whether to keep the event. One whose generation is lower than that of
    /// the listener's most recent seek is dropped.
    pub fn admits(&self, event: &PositionEvent) -> (keep: bool)
        ensures
            keep == admits_spec(self@, *event),
    {
        event.generation >= self.threshold
    }
}

impl PositionFilter {
    /// Takes in one event. A stale event is dropped and changes nothing. Any
    /// other gives its position, and its generation becomes the lowest that
    /// the listener still takes.
    pub fn observe(&mut self, event: &PositionEvent) -> (position: Option<crate::ieee::Single>)
        ensures
            position == if admits_spec(old(self)@, *event) {
                Some(event.position)
            } else {
                None
            },
            final(self)@ == if admits_spec(old(self)@, *event) {
                event.generation
            } else {
                old(self)@
            },
            final(self)@ >= old(self)@,
    {
        if event.generation >= self.threshold {
            self.threshold = event.generation;
            Some(event.position)
        } else {
            None
        }
    }
}

} // verus!
