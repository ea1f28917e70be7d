//! What to tell the timer, from the debounced samples and the settings.
//!
//! Nothing here changes anything: each answer is a function of its
//! arguments.

use vstd::prelude::*;
use crate::classify::{GameMode, Track};
use crate::game_time::GameTime;
use crate::locator::Addresses;
use crate::pair::{
    lemma_changed_to_reads_last_two, lemma_increased_reads_last_two, DebouncedValue,
};
use crate::segment::{lemma_index_is_injective, Segment, FINAL_STAGE, SEGMENT_COUNT};
use crate::settings::Settings;
use crate::watchers::Watchers;

verus! {

/// Whether the counter of an event reads exactly `value` now.
pub open spec fn counter_reads(watchers: Watchers, segment: Segment, value: u8) -> bool {
    watchers.spec_counter(segment).pair matches Some(p) && p.current == value
}

/// Whether an event's counter, and the credits, show that the event has
/// just been completed.
///
/// An event is completed when its counter goes up. The two events that end
/// with a last stage are told otherwise, by two signs that come in either
/// order: such an event is completed when its counter comes to
/// `FINAL_STAGE`, or when the credits start while it reads anything else.
pub open spec fn spec_completed(
    segment: Segment,
    counter: DebouncedValue<u8>,
    credits_started: bool,
) -> bool {
    if segment.spec_ends_with_final_stage() {
        ||| counter.spec_changed_to(FINAL_STAGE)
        ||| credits_started && (counter.pair matches Some(p) && p.current != FINAL_STAGE)
    } else {
        counter.spec_increased()
    }
}

/// Whether an event of the World Tour has just been completed.
pub open spec fn spec_segment_fires(watchers: &Watchers, segment: Segment) -> bool {
    spec_completed(
        segment,
        watchers.spec_counter(segment),
        watchers.end_credits.spec_changed_to(true),
    )
}

/// Whether the timer is to start: the start is switched on, a run has just
/// begun, and the mode is one to time. A World Tour is timed only from a
/// save without progress, which is told by the first and the last event of
/// the first zone.
pub open spec fn spec_start(watchers: &Watchers, settings: &Settings) -> bool {
    &&& settings.start
    &&& watchers.run_start.spec_changed_to(true)
    &&& watchers.game_mode.pair matches Some(mode)
    &&& match mode.current {
        GameMode::GrandPrix | GameMode::SingleRace => true,
        GameMode::WorldTour => {
            &&& counter_reads(*watchers, Segment::CoastalCruise, 0)
            &&& counter_reads(*watchers, Segment::CanyonCarnage, 0)
        },
        GameMode::TimeAttack => false,
    }
}

/// Whether some event of the World Tour that is switched on has just been
/// completed.
pub open spec fn spec_tour_split(watchers: &Watchers, settings: &Settings) -> bool {
    exists|segment: Segment|
        #![trigger watchers.spec_counter(segment)]
        #![trigger settings.spec_segment_enabled(segment)]
        settings.spec_segment_enabled(segment) && spec_completed(
            segment,
            watchers.spec_counter(segment),
            watchers.end_credits.spec_changed_to(true),
        )
}

/// Whether the timer is to split.
///
/// In a Grand Prix or a single race: a race has just been completed on a
/// circuit that is switched on. In the World Tour: some event that is
/// switched on has just been completed. Never in a time attack, nor while
/// the mode is unknown.
pub open spec fn spec_split(watchers: &Watchers, settings: &Settings) -> bool {
    watchers.game_mode.pair matches Some(mode) && match mode.current {
        GameMode::WorldTour => spec_tour_split(watchers, settings),
        GameMode::GrandPrix | GameMode::SingleRace => {
            &&& watchers.race_completed.spec_changed_to(true)
            &&& watchers.track_id.pair matches Some(track)
            &&& settings.spec_track_enabled(track.current)
        },
        GameMode::TimeAttack => false,
    }
}

/// Whether an event of the World Tour has just been completed.
#[verifier::when_used_as_spec(spec_segment_fires)]
pub fn segment_fires(watchers: &Watchers, segment: Segment) -> (r: bool)
    ensures
        r == spec_segment_fires(watchers, segment),
{
    let counter = watchers.counter(segment);
    if segment.ends_with_final_stage() {
        let before_final = match counter.pair {
            Some(p) => p.current != FINAL_STAGE,
            None => false,
        };
        counter.changed_to(&FINAL_STAGE) || (watchers.end_credits.changed_to(&true)
            && before_final)
    } else {
        counter.increased()
    }
}

/// Whether the timer is to start.
#[verifier::when_used_as_spec(spec_start)]
pub fn start(watchers: &Watchers, settings: &Settings) -> (r: bool)
    ensures
        r == spec_start(watchers, settings),
{
    if !settings.start {
        return false;
    }
    if !watchers.run_start.changed_to(&true) {
        return false;
    }
    match watchers.game_mode.pair {
        Some(mode) => match mode.current {
            GameMode::GrandPrix | GameMode::SingleRace => true,
            GameMode::WorldTour => {
                let first = watchers.counter(Segment::CoastalCruise);
                let last = watchers.counter(Segment::CanyonCarnage);
                let first_is_zero = match first.pair {
                    Some(p) => p.current == 0,
                    None => false,
                };
                let last_is_zero = match last.pair {
                    Some(p) => p.current == 0,
                    None => false,
                };
                first_is_zero && last_is_zero
            },
            GameMode::TimeAttack => false,
        },
        None => false,
    }
}

/// Whether some event of the World Tour that is switched on has just been
/// completed.
#[verifier::when_used_as_spec(spec_tour_split)]
pub fn tour_split(watchers: &Watchers, settings: &Settings) -> (r: bool)
    ensures
        r == spec_tour_split(watchers, settings),
{
    let mut index: usize = 0;
    while index < SEGMENT_COUNT
        invariant
            index <= SEGMENT_COUNT,
            forall|segment: Segment|
                segment.spec_index() < index ==> !(settings.spec_segment_enabled(segment)
                    && #[trigger] spec_segment_fires(watchers, segment)),
        decreases SEGMENT_COUNT - index,
    {
        if let Some(segment) = Segment::from_index(index) {
            if settings.segment_enabled(segment) && segment_fires(watchers, segment) {
                return true;
            }
            proof {
                assert forall|other: Segment| other.spec_index() < index + 1 implies !(
                settings.spec_segment_enabled(other) && #[trigger] spec_segment_fires(
                    watchers,
                    other,
                )) by {
                    if other.spec_index() == index {
                        lemma_index_is_injective(other, segment);
                    }
                }
            }
        }
        index = index + 1;
    }
    proof {
        assert forall|segment: Segment|
            !(settings.spec_segment_enabled(segment) && spec_completed(
                segment,
                #[trigger] watchers.spec_counter(segment),
                watchers.end_credits.spec_changed_to(true),
            )) by {
            assert(!(settings.spec_segment_enabled(segment) && spec_segment_fires(
                watchers,
                segment,
            )));
        }
    }
    false
}

/// Whether the timer is to split.
#[verifier::when_used_as_spec(spec_split)]
pub fn split(watchers: &Watchers, settings: &Settings) -> (r: bool)
    ensures
        r == spec_split(watchers, settings),
{
    match watchers.game_mode.pair {
        Some(mode) => match mode.current {
            GameMode::WorldTour => tour_split(watchers, settings),
            GameMode::GrandPrix | GameMode::SingleRace => {
                watchers.race_completed.changed_to(&true) && match watchers.track_id.pair {
                    Some(track) => settings.track_enabled(track.current),
                    None => false,
                }
            },
            GameMode::TimeAttack => false,
        },
        None => false,
    }
}

/// Whether the timer is to reset. Nothing in this game asks for it.
pub open spec fn spec_reset(watchers: &Watchers, settings: &Settings) -> bool {
    false
}

/// Whether the timer is to reset: never.
#[verifier::when_used_as_spec(spec_reset)]
pub fn reset(watchers: &Watchers, settings: &Settings) -> (r: bool)
    ensures
        r == spec_reset(watchers, settings),
        !r,
{
    false
}

/// Whether the game is loading, if that can be told. In this game the
/// timer's game time is always set from memory, so it never runs by
/// itself: the answer is always yes.
pub open spec fn spec_is_loading(watchers: &Watchers, settings: &Settings) -> Option<bool> {
    Some(true)
}

/// Whether the game is loading: always.
#[verifier::when_used_as_spec(spec_is_loading)]
pub fn is_loading(watchers: &Watchers, settings: &Settings) -> (r: Option<bool>)
    ensures
        r == spec_is_loading(watchers, settings),
        r == Some(true),
{
    Some(true)
}

/// The game time for the timer to show, if there is one: always the
/// progress time that the sampler has added up.
pub open spec fn spec_game_time(
    watchers: &Watchers,
    settings: &Settings,
    addresses: &Addresses,
) -> Option<GameTime> {
    Some(watchers.progress_igt)
}

/// The game time for the timer to show: the progress time.
#[verifier::when_used_as_spec(spec_game_time)]
pub fn game_time(watchers: &Watchers, settings: &Settings, addresses: &Addresses) -> (r: Option<
    GameTime,
>)
    ensures
        r == spec_game_time(watchers, settings, addresses),
        r == Some(watchers.progress_igt),
{
    Some(watchers.progress_igt)
}

/// Whether two states show the same samples and the same progress time.
pub open spec fn same_samples(a: Watchers, b: Watchers) -> bool {
    &&& a.run_start == b.run_start
    &&& a.end_credits == b.end_credits
    &&& a.game_mode == b.game_mode
    &&& a.race_completed == b.race_completed
    &&& a.track_id == b.track_id
    &&& a.progress_igt == b.progress_igt
    &&& forall|segment: Segment| #[trigger] a.spec_counter(segment) == b.spec_counter(segment)
}

/// Whether two settings have the same switches set.
pub open spec fn same_switches(a: Settings, b: Settings) -> bool {
    &&& a.start == b.start
    &&& forall|track: Track| #[trigger] a.spec_track_enabled(track) == b.spec_track_enabled(track)
    &&& forall|segment: Segment| #[trigger]
        a.spec_segment_enabled(segment) == b.spec_segment_enabled(segment)
}

/// The answers are functions of the samples and the switches: asked again
/// of the same, each of them is the same again.
pub proof fn lemma_same_question_same_answer(
    watchers: Watchers,
    settings: Settings,
    addresses: Addresses,
    watchers_again: Watchers,
    settings_again: Settings,
    addresses_again: Addresses,
)
    requires
        same_samples(watchers, watchers_again),
        same_switches(settings, settings_again),
    ensures
        spec_start(&watchers, &settings) == spec_start(&watchers_again, &settings_again),
        spec_split(&watchers, &settings) == spec_split(&watchers_again, &settings_again),
        spec_reset(&watchers, &settings) == spec_reset(&watchers_again, &settings_again),
        spec_is_loading(&watchers, &settings) == spec_is_loading(
            &watchers_again,
            &settings_again,
        ),
        spec_game_time(&watchers, &settings, &addresses) == spec_game_time(
            &watchers_again,
            &settings_again,
            &addresses_again,
        ),
{
    assert(watchers.spec_counter(Segment::CoastalCruise) == watchers_again.spec_counter(
        Segment::CoastalCruise,
    ));
    assert(watchers.spec_counter(Segment::CanyonCarnage) == watchers_again.spec_counter(
        Segment::CanyonCarnage,
    ));
    assert forall|segment: Segment|
        (settings.spec_segment_enabled(segment) && spec_segment_fires(&watchers, segment)) == (
        settings_again.spec_segment_enabled(segment) && spec_segment_fires(
            &watchers_again,
            segment,
        )) by {
        assert(watchers.spec_counter(segment) == watchers_again.spec_counter(segment));
        assert(settings.spec_segment_enabled(segment) == settings_again.spec_segment_enabled(
            segment,
        ));
    }
    if spec_tour_split(&watchers, &settings) {
        let segment = choose|segment: Segment|
            settings.spec_segment_enabled(segment) && spec_segment_fires(&watchers, segment);
        assert(spec_segment_fires(&watchers_again, segment));
    }
    if spec_tour_split(&watchers_again, &settings_again) {
        let segment = choose|segment: Segment|
            settings_again.spec_segment_enabled(segment) && spec_segment_fires(
                &watchers_again,
                segment,
            );
        assert(spec_segment_fires(&watchers, segment));
    }
    if let Some(track) = watchers.track_id.pair {
        assert(settings.spec_track_enabled(track.current) == settings_again.spec_track_enabled(
            track.current,
        ));
    }
}

/// With the start switched on, in a Grand Prix or a single race, the timer
/// is to start on the tick on which the run-start flag has come up, and on
/// no other: whatever flags were sampled, exactly when the last is set and
/// the one before it is not.
pub proof fn lemma_start_on_rising_edge(flags: Seq<bool>, watchers: Watchers, settings: Settings)
    requires
        settings.start,
        watchers.run_start == DebouncedValue::<bool>::fed(flags),
        watchers.game_mode.pair matches Some(mode) && (mode.current == GameMode::SingleRace
            || mode.current == GameMode::GrandPrix),
    ensures
        spec_start(&watchers, &settings) <==> {
            &&& flags.len() >= 2
            &&& !flags[flags.len() - 2]
            &&& flags[flags.len() - 1]
        },
{
    lemma_changed_to_reads_last_two(flags, true);
}

/// In the World Tour, the timer is to split on the tick on which the
/// counter of an event that is switched on has gone up. An event that ends
/// with a last stage asks for more: that the counter has come to
/// `FINAL_STAGE`, or the credits have started.
pub proof fn lemma_tour_splits_when_counter_goes_up(
    watchers: Watchers,
    settings: Settings,
    segment: Segment,
)
    requires
        watchers.game_mode.pair matches Some(mode) && mode.current == GameMode::WorldTour,
        settings.spec_segment_enabled(segment),
        watchers.spec_counter(segment).spec_increased(),
        segment.spec_ends_with_final_stage() ==> counter_reads(watchers, segment, FINAL_STAGE)
            || watchers.end_credits.spec_changed_to(true),
    ensures
        spec_split(&watchers, &settings),
{
    assert(spec_segment_fires(&watchers, segment));
}

/// In the World Tour, the timer is not to split on a tick on which no
/// counter has moved and the credits have not started: a split follows the
/// change, not the value.
pub proof fn lemma_tour_does_not_split_when_steady(watchers: Watchers, settings: Settings)
    requires
        watchers.game_mode.pair matches Some(mode) && mode.current == GameMode::WorldTour,
        !watchers.end_credits.spec_changed_to(true),
        forall|segment: Segment|
            (#[trigger] watchers.spec_counter(segment)).pair matches Some(p) ==> p.previous
                == p.current,
    ensures
        !spec_split(&watchers, &settings),
{
    assert forall|segment: Segment| !spec_segment_fires(&watchers, segment) by {
        let counter = watchers.spec_counter(segment);
        assert(counter.pair matches Some(p) ==> p.previous == p.current);
    }
}

/// In the World Tour, while nothing else moves, the timer is to split on
/// the ticks on which the counter of an event that is switched on has gone
/// up, and on no others: whatever was sampled of the counter, exactly when
/// the last sample is greater than the one before it. This is said of the
/// events that do not end with a last stage.
pub proof fn lemma_tour_split_follows_the_counter(
    samples: Seq<u8>,
    watchers: Watchers,
    settings: Settings,
    segment: Segment,
)
    requires
        watchers.game_mode.pair matches Some(mode) && mode.current == GameMode::WorldTour,
        settings.spec_segment_enabled(segment),
        !segment.spec_ends_with_final_stage(),
        watchers.spec_counter(segment) == DebouncedValue::<u8>::fed(samples),
        !watchers.end_credits.spec_changed_to(true),
        forall|other: Segment|
            other != segment ==> ((#[trigger] watchers.spec_counter(other)).pair matches Some(p)
                ==> p.previous == p.current),
    ensures
        spec_split(&watchers, &settings) <==> {
            &&& samples.len() >= 2
            &&& samples[samples.len() - 1] > samples[samples.len() - 2]
        },
{
    lemma_increased_reads_last_two(samples);
    assert(spec_segment_fires(&watchers, segment) == watchers.spec_counter(
        segment,
    ).spec_increased());
    assert forall|other: Segment| other != segment implies !spec_segment_fires(
        &watchers,
        other,
    ) by {
        let counter = watchers.spec_counter(other);
        assert(counter.pair matches Some(p) ==> p.previous == p.current);
    }
}

/// The same of an event that ends with a last stage: while nothing else
/// moves and the credits do not start, the timer is to split exactly on the
/// ticks on which the counter has come to `FINAL_STAGE`.
pub proof fn lemma_tour_split_follows_the_final_stage(
    samples: Seq<u8>,
    watchers: Watchers,
    settings: Settings,
    segment: Segment,
)
    requires
        watchers.game_mode.pair matches Some(mode) && mode.current == GameMode::WorldTour,
        settings.spec_segment_enabled(segment),
        segment.spec_ends_with_final_stage(),
        watchers.spec_counter(segment) == DebouncedValue::<u8>::fed(samples),
        !watchers.end_credits.spec_changed_to(true),
        forall|other: Segment|
            other != segment ==> ((#[trigger] watchers.spec_counter(other)).pair matches Some(p)
                ==> p.previous == p.current),
    ensures
        spec_split(&watchers, &settings) <==> {
            &&& samples.len() >= 2
            &&& samples[samples.len() - 2] != FINAL_STAGE
            &&& samples[samples.len() - 1] == FINAL_STAGE
        },
{
    lemma_changed_to_reads_last_two(samples, FINAL_STAGE);
    assert(spec_segment_fires(&watchers, segment) == watchers.spec_counter(
        segment,
    ).spec_changed_to(FINAL_STAGE));
    assert forall|other: Segment| other != segment implies !spec_segment_fires(
        &watchers,
        other,
    ) by {
        let counter = watchers.spec_counter(other);
        assert(counter.pair matches Some(p) ==> p.previous == p.current);
    }
}

} // verus!
