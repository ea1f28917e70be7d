//! One tick of sampling: from what was read of the game's memory to the
//! next debounced state and the in-game time.

use vstd::prelude::*;
use crate::classify::{GameMode, Track};
use crate::game_time::GameTime;
use crate::pair::DebouncedValue;
use crate::segment::{lemma_index_is_injective, Segment, ZoneBlock, SEGMENT_COUNT, ZONE_COUNT};
use crate::timer::TimerState;
use crate::timing::{
    can_reconcile, reconcile, spec_folded, spec_progress_after, spec_total_after, time_fits,
};
use crate::watchers::Watchers;

verus! {

/// What one tick read of the game's memory. `None` stands for a read that
/// failed.
#[derive(Clone, Copy, Debug, PartialEq, Eq)]
pub struct RawSample {
    /// The first of the two flags that are both 1 while a run is started.
    pub run_start: Option<u8>,
    /// The second of them.
    pub run_start_2: Option<u8>,
    pub end_credits: Option<bool>,
    pub mode_select: Option<u8>,
    pub required_laps: Option<u8>,
    pub total_race_time: Option<GameTime>,
    pub race_completed: Option<bool>,
    pub race_status: Option<u8>,
    pub igt: Option<GameTime>,
    pub event_type: Option<u32>,
    pub track_id: Option<u32>,
    /// The block of each zone of the World Tour, by the zone's index.
    pub zones: [Option<ZoneBlock>; ZONE_COUNT],
}

impl RawSample {
    /// Whether both run-start flags were read as 1.
    pub open spec fn spec_run_started(&self) -> bool {
        self.run_start == Some(1u8) && self.run_start_2 == Some(1u8)
    }

    /// The progress counter of an event: cut out of the block of its zone,
    /// or 0 where that block could not be read.
    pub open spec fn spec_counter(&self, segment: Segment) -> u8 {
        match self.zones[segment.spec_zone().spec_index()] {
            Some(block) => segment.spec_counter_in(block),
            None => 0,
        }
    }

    /// Whether both run-start flags were read as 1.
    #[verifier::when_used_as_spec(spec_run_started)]
    pub fn run_started(&self) -> (r: bool)
        ensures
            r == self.spec_run_started(),
    {
        let first = match self.run_start {
            Some(flag) => flag == 1,
            None => false,
        };
        let second = match self.run_start_2 {
            Some(flag) => flag == 1,
            None => false,
        };
        first && second
    }

    /// The progress counter of an event: cut out of the block of its zone,
    /// or 0 where that block could not be read.
    #[verifier::when_used_as_spec(spec_counter)]
    pub fn counter(&self, segment: Segment) -> (r: u8)
        ensures
            r == self.spec_counter(segment),
    {
        match &self.zones[segment.zone().index()] {
            Some(block) => segment.counter_in(block),
            None => 0,
        }
    }
}

/// The state after the race has been sampled: everything but the World
/// Tour's counters.
///
/// A flag that could not be read counts as unset, a status or an event
/// type as 0. A lap count or a time that could not be read stays what it
/// was, and starts at 0. The mode and the circuit stay what they were
/// where the sample stands for none.
pub open spec fn spec_sample_race(before: Watchers, sample: RawSample) -> Watchers {
    Watchers {
        run_start: before.run_start.updated(sample.spec_run_started()),
        end_credits: before.end_credits.updated(
            match sample.end_credits {
                Some(flag) => flag,
                None => false,
            },
        ),
        game_mode: before.game_mode.updated(
            GameMode::spec_classify(sample.mode_select, before.game_mode),
        ),
        required_laps: before.required_laps.updated(
            match sample.required_laps {
                Some(laps) => laps,
                None => before.required_laps.spec_current_or(0),
            },
        ),
        total_race_time: before.total_race_time.updated(
            match sample.total_race_time {
                Some(time) => time,
                None => before.total_race_time.spec_current_or(GameTime::spec_zero()),
            },
        ),
        race_completed: before.race_completed.updated(
            match sample.race_completed {
                Some(flag) => flag,
                None => false,
            },
        ),
        race_status: before.race_status.updated(
            match sample.race_status {
                Some(status) => status,
                None => 0,
            },
        ),
        igt: before.igt.updated(
            match sample.igt {
                Some(time) => time,
                None => before.igt.spec_current_or(GameTime::spec_zero()),
            },
        ),
        event_type: before.event_type.updated(
            match sample.event_type {
                Some(event) => event,
                None => 0,
            },
        ),
        track_id: before.track_id.updated(Track::spec_classify(sample.track_id, before.track_id)),
        ..before
    }
}

/// Whether `after` is `before` with the counter of every event of the World
/// Tour sampled, and nothing else changed.
pub open spec fn stars_sampled(before: Watchers, sample: RawSample, after: Watchers) -> bool {
    &&& after == Watchers { stars: after.stars, ..before }
    &&& forall|segment: Segment| #[trigger]
        after.spec_counter(segment) == before.spec_counter(segment).updated(
            sample.spec_counter(segment),
        )
}

/// Takes in what was read of the race.
pub fn sample_race(watchers: &mut Watchers, sample: &RawSample)
    ensures
        *final(watchers) == spec_sample_race(*old(watchers), *sample),
{
    let mode = GameMode::classify(sample.mode_select, watchers.game_mode);
    let track = Track::classify(sample.track_id, watchers.track_id);
    let laps = match sample.required_laps {
        Some(laps) => laps,
        None => watchers.required_laps.current_or(0),
    };
    let race_time = match sample.total_race_time {
        Some(time) => time,
        None => watchers.total_race_time.current_or(GameTime::zero()),
    };
    let igt = match sample.igt {
        Some(time) => time,
        None => watchers.igt.current_or(GameTime::zero()),
    };
    watchers.run_start.update(sample.run_started());
    watchers.end_credits.update(
        match sample.end_credits {
            Some(flag) => flag,
            None => false,
        },
    );
    watchers.game_mode.update(mode);
    watchers.required_laps.update(laps);
    watchers.total_race_time.update(race_time);
    watchers.race_completed.update(
        match sample.race_completed {
            Some(flag) => flag,
            None => false,
        },
    );
    watchers.race_status.update(
        match sample.race_status {
            Some(status) => status,
            None => 0,
        },
    );
    watchers.igt.update(igt);
    watchers.event_type.update(
        match sample.event_type {
            Some(event) => event,
            None => 0,
        },
    );
    watchers.track_id.update(track);
}

/// Takes in what was read of the World Tour's counters.
pub fn sample_stars(watchers: &mut Watchers, sample: &RawSample)
    ensures
        stars_sampled(*old(watchers), *sample, *final(watchers)),
{
    let ghost before = *watchers;
    let mut index: usize = 0;
    while index < SEGMENT_COUNT
        invariant
            index <= SEGMENT_COUNT,
            *watchers == (Watchers { stars: watchers.stars, ..before }),
            forall|segment: Segment| #[trigger]
                watchers.spec_counter(segment) == if segment.spec_index() < index {
                    before.spec_counter(segment).updated(sample.spec_counter(segment))
                } else {
                    before.spec_counter(segment)
                },
        decreases SEGMENT_COUNT - index,
    {
        if let Some(segment) = Segment::from_index(index) {
            let ghost earlier = *watchers;
            assert(earlier.spec_counter(segment) == before.spec_counter(segment));
            let mut counter = watchers.stars[index];
            counter.update(sample.counter(segment));
            watchers.stars[index] = counter;
            proof {
                assert(watchers.stars@ == earlier.stars@.update(index as int, counter));
                assert forall|other: Segment| #[trigger]
                    watchers.spec_counter(other) == if other.spec_index() < index + 1 {
                        before.spec_counter(other).updated(sample.spec_counter(other))
                    } else {
                        before.spec_counter(other)
                    } by {
                    if other.spec_index() == index {
                        lemma_index_is_injective(other, segment);
                    } else {
                        assert(watchers.spec_counter(other) == earlier.spec_counter(other));
                    }
                }
            }
        }
        index = index + 1;
    }
}

/// Whether the time of the tick that `sample` makes can be added up.
pub open spec fn update_fits(before: Watchers, sample: RawSample, timer: TimerState) -> bool {
    time_fits(spec_sample_race(before, sample), timer)
}

/// Whether `after` is what a tick makes of `before`: the race and the
/// World Tour's counters sampled, then the time added up from the new
/// samples.
pub open spec fn updated(
    before: Watchers,
    sample: RawSample,
    timer: TimerState,
    after: Watchers,
) -> bool {
    let raced = spec_sample_race(before, sample);
    &&& after == Watchers {
        total_igt: after.total_igt,
        progress_igt: after.progress_igt,
        stars: after.stars,
        ..raced
    }
    &&& after.total_igt@ == spec_total_after(raced, timer)
    &&& after.progress_igt@ == spec_progress_after(raced, timer)
    &&& forall|segment: Segment| #[trigger]
        after.spec_counter(segment) == before.spec_counter(segment).updated(
            sample.spec_counter(segment),
        )
}

/// One tick: takes the sample in and adds the time up.
pub fn update_loop(watchers: &mut Watchers, sample: &RawSample, timer: TimerState)
    requires
        update_fits(*old(watchers), *sample, timer),
    ensures
        updated(*old(watchers), *sample, timer, *final(watchers)),
{
    let ghost before = *watchers;
    sample_race(watchers, sample);
    let ghost raced = *watchers;
    sample_stars(watchers, sample);
    let ghost starred = *watchers;
    assert(spec_total_after(starred, timer) == spec_total_after(raced, timer));
    assert(spec_progress_after(starred, timer) == spec_progress_after(raced, timer));
    reconcile(watchers, timer);
    proof {
        assert forall|segment: Segment| #[trigger]
            watchers.spec_counter(segment) == before.spec_counter(segment).updated(
                sample.spec_counter(segment),
            ) by {
            assert(watchers.spec_counter(segment) == starred.spec_counter(segment));
            assert(raced.spec_counter(segment) == before.spec_counter(segment));
        }
    }
}

/// Whether `update_loop` can take this tick.
pub fn can_update(watchers: &Watchers, sample: &RawSample, timer: TimerState) -> (r: bool)
    ensures
        r == update_fits(*watchers, *sample, timer),
{
    let mut raced = *watchers;
    sample_race(&mut raced, sample);
    can_reconcile(&raced, timer)
}

/// While the timer runs, a tick adds to the total what it folds in: the
/// total goes down in a tick exactly when that is a negative time.
pub proof fn lemma_total_goes_up_by_what_is_folded(
    before: Watchers,
    sample: RawSample,
    timer: TimerState,
    after: Watchers,
)
    requires
        updated(before, sample, timer, after),
        !(timer is NotRunning),
    ensures
        after.total_igt@ == before.total_igt@ + spec_folded(spec_sample_race(before, sample)),
        after.total_igt@ >= before.total_igt@ <==> spec_folded(spec_sample_race(before, sample))
            >= 0,
{
}

/// While the timer is not running, a tick leaves the total and the
/// progress at zero.
pub proof fn lemma_not_running_resets_time(before: Watchers, sample: RawSample, after: Watchers)
    requires
        updated(before, sample, TimerState::NotRunning, after),
    ensures
        after.total_igt@ == 0,
        after.progress_igt@ == 0,
{
}

/// Whether none of the times that the state remembers of the game is
/// negative.
pub open spec fn times_are_not_negative(watchers: Watchers) -> bool {
    &&& watchers.igt.pair matches Some(p) ==> p.previous@ >= 0 && p.current@ >= 0
    &&& watchers.total_race_time.pair matches Some(p) ==> p.previous@ >= 0 && p.current@ >= 0
}

/// As long as the game gives no negative time, the total never goes down
/// while the timer runs: a tick keeps the remembered times from being
/// negative, and leaves the total at least what it was.
pub proof fn lemma_total_does_not_go_down(
    before: Watchers,
    sample: RawSample,
    timer: TimerState,
    after: Watchers,
)
    requires
        updated(before, sample, timer, after),
        times_are_not_negative(before),
        sample.igt matches Some(time) ==> time@ >= 0,
        sample.total_race_time matches Some(time) ==> time@ >= 0,
    ensures
        times_are_not_negative(after),
        !(timer is NotRunning) ==> after.total_igt@ >= before.total_igt@,
{
}

} // verus!
