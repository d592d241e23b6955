//! The reference handler: velocity-gated note-off over the most recent note.

use vstd::prelude::*;
use crate::dispatch::MidiHandler;

verus! {

/// One firing of the release action: the note silenced and how it was released.
#[derive(Clone, Copy, Debug, PartialEq, Eq)]
pub struct Release {
    pub channel: u8,
    pub note: u8,
    pub velocity: u8,
}

/// Tracks the most recent note and velocity, and releases a note only when it
/// is the one most recently sounded and is let go with at least as much force
/// as it was struck.
///
/// The release action records the released note in `last_release` and counts
/// it in `releases` (saturating; the count cannot fail or wrap).
#[derive(Clone, Copy, Debug, PartialEq, Eq)]
pub struct BasicMidiHandler {
    /// The note of the most recent note-on event.
    pub last_note: u8,
    /// The velocity of the most recent note-on event.
    pub last_velocity: u8,
    /// How many times the release action has fired.
    pub releases: u64,
    /// The most recent firing of the release action, if any.
    pub last_release: Option<Release>,
}

impl BasicMidiHandler {
    /// The zero baseline the handler starts from.
    pub fn new() -> (h: BasicMidiHandler)
        ensures
            h == (BasicMidiHandler {
                last_note: 0u8,
                last_velocity: 0u8,
                releases: 0u64,
                last_release: None::<Release>,
            }),
    {
        BasicMidiHandler { last_note: 0, last_velocity: 0, releases: 0, last_release: None }
    }

    /// True when an incoming note and velocity match `last_note` and reach
    /// at least `last_velocity`.
    pub open spec fn release_gate(self, note: u8, velocity: u8) -> bool {
        self.last_note == note && velocity >= self.last_velocity
    }
}

impl MidiHandler for BasicMidiHandler {
    /// A note-on unconditionally records the note and velocity.
    open spec fn note_on_spec(self, channel: u8, note: u8, velocity: u8) -> BasicMidiHandler {
        BasicMidiHandler { last_note: note, last_velocity: velocity, ..self }
    }

    /// When `release_gate` holds, a `Release` is recorded and counted;
    /// otherwise the handler is left untouched.
    open spec fn note_off_spec(self, channel: u8, note: u8, velocity: u8) -> BasicMidiHandler {
        if self.release_gate(note, velocity) {
            BasicMidiHandler {
                releases: if self.releases == u64::MAX { u64::MAX } else { (self.releases + 1) as u64 },
                last_release: Some(Release { channel, note, velocity }),
                ..self
            }
        } else {
            self
        }
    }

    fn handle_note_on(&mut self, channel: u8, note: u8, velocity: u8) {
        self.last_note = note;
        self.last_velocity = velocity;
    }

    fn handle_note_off(&mut self, channel: u8, note: u8, velocity: u8) {
        if self.last_note == note && velocity >= self.last_velocity {
            if self.releases < u64::MAX {
                self.releases = self.releases + 1;
            }
            self.last_release = Some(Release { channel, note, velocity });
        }
    }
}

} // verus!
