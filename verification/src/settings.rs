//! What the runner has switched on: the start of the timer, and a split for
//! each circuit and each event of the World Tour.

use vstd::prelude::*;
use crate::classify::{Track, TRACK_COUNT};
use crate::segment::{Segment, SEGMENT_COUNT};

verus! {

/// The switches of one session. They do not change while it lasts.
#[derive(Clone, Copy, Debug, PartialEq, Eq)]
pub struct Settings {
    /// Whether the timer is started when a run begins.
    pub start: bool,
    /// For each circuit, by its index, whether finishing a race on it splits.
    pub tracks: [bool; TRACK_COUNT],
    /// For each event, by its index, whether completing it splits.
    pub segments: [bool; SEGMENT_COUNT],
}

impl Settings {
    /// Whether finishing a race on a circuit splits.
    pub open spec fn spec_track_enabled(&self, track: Track) -> bool {
        self.tracks[track.spec_index()]
    }

    /// Whether completing an event of the World Tour splits.
    pub open spec fn spec_segment_enabled(&self, segment: Segment) -> bool {
        self.segments[segment.spec_index()]
    }

    /// The settings with every switch set to `enabled`.
    pub fn uniform(enabled: bool) -> (r: Settings)
        ensures
            r.start == enabled,
            forall|t: Track| r.spec_track_enabled(t) == enabled,
            forall|s: Segment| r.spec_segment_enabled(s) == enabled,
    {
        Settings { start: enabled, tracks: [enabled; TRACK_COUNT], segments: [enabled; SEGMENT_COUNT] }
    }

    /// Whether finishing a race on a circuit splits.
    #[verifier::when_used_as_spec(spec_track_enabled)]
    pub fn track_enabled(&self, track: Track) -> (r: bool)
        ensures
            r == self.spec_track_enabled(track),
    {
        self.tracks[track.index()]
    }

    /// Whether completing an event of the World Tour splits.
    #[verifier::when_used_as_spec(spec_segment_enabled)]
    pub fn segment_enabled(&self, segment: Segment) -> (r: bool)
        ensures
            r == self.spec_segment_enabled(segment),
    {
        self.segments[segment.index()]
    }

    /// Switches the split of one circuit.
    pub fn set_track(&mut self, track: Track, enabled: bool)
        ensures
            final(self).start == old(self).start,
            final(self).segments == old(self).segments,
            forall|t: Track|
                final(self).spec_track_enabled(t) == if t == track {
                    enabled
                } else {
                    old(self).spec_track_enabled(t)
                },
    {
        self.tracks[track.index()] = enabled;
    }

    /// Switches the split of one event.
    pub fn set_segment(&mut self, segment: Segment, enabled: bool)
        ensures
            final(self).start == old(self).start,
            final(self).tracks == old(self).tracks,
            forall|s: Segment|
                final(self).spec_segment_enabled(s) == if s == segment {
                    enabled
                } else {
                    old(self).spec_segment_enabled(s)
                },
    {
        self.segments[segment.index()] = enabled;
    }
}

} // verus!
