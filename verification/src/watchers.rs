//! Everything that is remembered from one tick to the next.

use vstd::prelude::*;
use crate::classify::{GameMode, Track};
use crate::game_time::GameTime;
use crate::pair::DebouncedValue;
use crate::segment::{Segment, SEGMENT_COUNT};

verus! {

/// The debounced samples of every watched quantity, and the in-game time
/// that has been added up from them.
#[derive(Clone, Copy, Debug, PartialEq, Eq)]
pub struct Watchers {
    /// Whether a run is being started.
    pub run_start: DebouncedValue<bool>,
    /// Whether the credits are rolling.
    pub end_credits: DebouncedValue<bool>,
    pub game_mode: DebouncedValue<GameMode>,
    /// The lap count of the race.
    pub required_laps: DebouncedValue<u8>,
    /// The time that the game gives as a finished race's result.
    pub total_race_time: DebouncedValue<GameTime>,
    pub race_completed: DebouncedValue<bool>,
    pub race_status: DebouncedValue<u8>,
    /// The game's running timer of the race.
    pub igt: DebouncedValue<GameTime>,
    pub event_type: DebouncedValue<u32>,
    pub track_id: DebouncedValue<Track>,
    /// The in-game time of everything that has been finished.
    pub total_igt: GameTime,
    /// The in-game time to show now.
    pub progress_igt: GameTime,
    /// For each event of the World Tour, by its index, its progress counter.
    pub stars: [DebouncedValue<u8>; SEGMENT_COUNT],
}

impl Watchers {
    /// Whether nothing has been sampled and no time added up.
    pub open spec fn is_fresh(self) -> bool {
        &&& self.run_start.pair is None
        &&& self.end_credits.pair is None
        &&& self.game_mode.pair is None
        &&& self.required_laps.pair is None
        &&& self.total_race_time.pair is None
        &&& self.race_completed.pair is None
        &&& self.race_status.pair is None
        &&& self.igt.pair is None
        &&& self.event_type.pair is None
        &&& self.track_id.pair is None
        &&& self.total_igt@ == 0
        &&& self.progress_igt@ == 0
        &&& forall|s: Segment| self.spec_counter(s).pair is None
    }

    /// The progress counter of an event.
    pub open spec fn spec_counter(&self, segment: Segment) -> DebouncedValue<u8> {
        self.stars[segment.spec_index()]
    }

    /// The state at the start of an attachment.
    pub fn new() -> (r: Watchers)
        ensures
            r.is_fresh(),
    {
        Watchers {
            run_start: DebouncedValue::new(),
            end_credits: DebouncedValue::new(),
            game_mode: DebouncedValue::new(),
            required_laps: DebouncedValue::new(),
            total_race_time: DebouncedValue::new(),
            race_completed: DebouncedValue::new(),
            race_status: DebouncedValue::new(),
            igt: DebouncedValue::new(),
            event_type: DebouncedValue::new(),
            track_id: DebouncedValue::new(),
            total_igt: GameTime::zero(),
            progress_igt: GameTime::zero(),
            stars: [DebouncedValue::new(); SEGMENT_COUNT],
        }
    }

    /// The progress counter of an event.
    #[verifier::when_used_as_spec(spec_counter)]
    pub fn counter(&self, segment: Segment) -> (r: DebouncedValue<u8>)
        ensures
            r == self.spec_counter(segment),
    {
        self.stars[segment.index()]
    }
}

impl Default for Watchers {
    fn default() -> (r: Watchers)
        ensures
            r.is_fresh(),
    {
        Watchers::new()
    }
}

} // verus!
