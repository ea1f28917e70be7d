use racing_autosplit::classify::{GameMode, Track};
use racing_autosplit::decision::{game_time, is_loading, reset, segment_fires, split, start, tour_split};
use racing_autosplit::game_time::GameTime;
use racing_autosplit::locator::Addresses;
use racing_autosplit::pair::{DebouncedValue, Pair};
use racing_autosplit::segment::{Segment, SEGMENT_COUNT};
use racing_autosplit::settings::Settings;
use racing_autosplit::watchers::Watchers;

fn pair<T: Copy>(previous: T, current: T) -> DebouncedValue<T> {
    DebouncedValue { pair: Some(Pair { previous, current }) }
}

fn steady<T: Copy>(current: T) -> DebouncedValue<T> {
    pair(current, current)
}

/// A state in the given mode in which nothing moves: every counter reads 0.
fn quiet(mode: GameMode) -> Watchers {
    let mut watchers = Watchers::new();
    watchers.run_start = steady(false);
    watchers.end_credits = steady(false);
    watchers.game_mode = steady(mode);
    watchers.race_completed = steady(false);
    watchers.track_id = steady(Track::OceanView);
    watchers.stars = [steady(0); SEGMENT_COUNT];
    watchers
}

fn with_counter(mut watchers: Watchers, segment: Segment, counter: DebouncedValue<u8>) -> Watchers {
    watchers.stars[segment.index()] = counter;
    watchers
}

fn all_segments() -> Vec<Segment> {
    (0..SEGMENT_COUNT).map(|index| Segment::from_index(index).unwrap()).collect()
}

const MODES: [GameMode; 4] =
    [GameMode::WorldTour, GameMode::GrandPrix, GameMode::TimeAttack, GameMode::SingleRace];

#[test]
fn nothing_is_decided_of_a_fresh_state() {
    let watchers = Watchers::new();
    let settings = Settings::uniform(true);
    assert!(!start(&watchers, &settings));
    assert!(!split(&watchers, &settings));
    assert!(!reset(&watchers, &settings));
}

#[test]
fn reset_is_never_asked_for() {
    for mode in MODES {
        let mut watchers = quiet(mode);
        watchers.run_start = pair(false, true);
        watchers.race_completed = pair(false, true);
        watchers.end_credits = pair(false, true);
        assert!(!reset(&watchers, &Settings::uniform(true)));
        assert!(!reset(&watchers, &Settings::uniform(false)));
    }
}

#[test]
fn the_game_is_always_loading() {
    for mode in MODES {
        assert_eq!(is_loading(&quiet(mode), &Settings::uniform(true)), Some(true));
    }
    assert_eq!(is_loading(&Watchers::new(), &Settings::uniform(false)), Some(true));
}

#[test]
fn game_time_is_the_progress() {
    let mut watchers = quiet(GameMode::GrandPrix);
    watchers.total_igt = GameTime::from_milliseconds(90_000);
    watchers.progress_igt = GameTime::from_milliseconds(123_450);
    let addresses = Addresses::zeroed();
    assert_eq!(
        game_time(&watchers, &Settings::uniform(true), &addresses),
        Some(GameTime::from_milliseconds(123_450))
    );
    assert_eq!(game_time(&Watchers::new(), &Settings::uniform(true), &addresses), Some(GameTime::zero()));
}

#[test]
fn start_in_a_single_race_on_the_rising_edge_only() {
    let settings = Settings::uniform(true);
    let mut watchers = quiet(GameMode::SingleRace);
    let flags = [false, false, true, true, true, false, false];
    let mut started = Vec::new();
    for flag in flags {
        watchers.run_start.update(flag);
        started.push(start(&watchers, &settings));
    }
    assert_eq!(started, [false, false, true, false, false, false, false]);
}

#[test]
fn start_needs_the_switch() {
    let mut watchers = quiet(GameMode::SingleRace);
    watchers.run_start = pair(false, true);
    assert!(start(&watchers, &Settings::uniform(true)));
    let mut settings = Settings::uniform(true);
    settings.start = false;
    assert!(!start(&watchers, &settings));
    let mut only_start = Settings::uniform(false);
    only_start.start = true;
    assert!(start(&watchers, &only_start));
}

#[test]
fn start_needs_a_mode_to_time() {
    let settings = Settings::uniform(true);
    let mut watchers = Watchers::new();
    watchers.run_start = pair(false, true);
    assert!(!start(&watchers, &settings));
    watchers.game_mode = steady(GameMode::GrandPrix);
    assert!(start(&watchers, &settings));
    watchers.game_mode = steady(GameMode::SingleRace);
    assert!(start(&watchers, &settings));
    watchers.game_mode = steady(GameMode::TimeAttack);
    assert!(!start(&watchers, &settings));
    watchers.game_mode = pair(GameMode::TimeAttack, GameMode::SingleRace);
    assert!(start(&watchers, &settings));
    watchers.game_mode = pair(GameMode::SingleRace, GameMode::TimeAttack);
    assert!(!start(&watchers, &settings));
}

#[test]
fn start_of_a_world_tour_needs_a_save_without_progress() {
    let settings = Settings::uniform(true);
    let mut watchers = quiet(GameMode::WorldTour);
    watchers.run_start = pair(false, true);
    assert!(start(&watchers, &settings));
    assert!(!start(&with_counter(watchers, Segment::CoastalCruise, steady(1)), &settings));
    assert!(!start(&with_counter(watchers, Segment::CanyonCarnage, steady(3)), &settings));
    assert!(start(&with_counter(watchers, Segment::CoastalCruise, pair(2, 0)), &settings));
    assert!(start(&with_counter(watchers, Segment::StudioScrapes, steady(3)), &settings));
    assert!(start(&with_counter(watchers, Segment::FatalFinale, steady(4)), &settings));
    assert!(!start(&with_counter(watchers, Segment::CoastalCruise, DebouncedValue::new()), &settings));
    assert!(!start(&with_counter(watchers, Segment::CanyonCarnage, DebouncedValue::new()), &settings));
}

#[test]
fn start_needs_the_flag_to_come_up() {
    let settings = Settings::uniform(true);
    let mut watchers = quiet(GameMode::GrandPrix);
    watchers.run_start = pair(true, true);
    assert!(!start(&watchers, &settings));
    watchers.run_start = pair(true, false);
    assert!(!start(&watchers, &settings));
    watchers.run_start = DebouncedValue::new();
    assert!(!start(&watchers, &settings));
}

#[test]
fn split_in_the_world_tour_follows_the_edge() {
    let settings = Settings::uniform(true);
    for segment in all_segments() {
        let mut watchers = with_counter(quiet(GameMode::WorldTour), segment, steady(3));
        let mut splits = vec![split(&watchers, &settings)];
        for sample in [3, 4, 4, 4] {
            watchers.stars[segment.index()].update(sample);
            splits.push(split(&watchers, &settings));
        }
        assert_eq!(splits, [false, false, true, false, false], "{:?}", segment);
    }
}

#[test]
fn split_in_the_world_tour_needs_the_segment_switched_on() {
    for segment in all_segments() {
        let watchers = with_counter(quiet(GameMode::WorldTour), segment, pair(3, 4));
        let mut settings = Settings::uniform(false);
        assert!(!split(&watchers, &settings));
        settings.set_segment(segment, true);
        assert!(split(&watchers, &settings), "{:?}", segment);
        let mut others = Settings::uniform(true);
        others.set_segment(segment, false);
        assert!(!split(&watchers, &others), "{:?}", segment);
    }
}

#[test]
fn two_events_end_with_a_final_stage() {
    for segment in all_segments() {
        let expected = segment == Segment::ArcadeAnnihilation || segment == Segment::FatalFinale;
        assert_eq!(segment.ends_with_final_stage(), expected, "{:?}", segment);
    }
}

#[test]
fn an_ordinary_segment_fires_when_its_counter_goes_up() {
    let watchers = quiet(GameMode::WorldTour);
    let segment = Segment::ShinobiScramble;
    assert!(segment_fires(&with_counter(watchers, segment, pair(0, 1)), segment));
    assert!(segment_fires(&with_counter(watchers, segment, pair(1, 3)), segment));
    assert!(segment_fires(&with_counter(watchers, segment, pair(3, 4)), segment));
    assert!(segment_fires(&with_counter(watchers, segment, pair(4, 5)), segment));
    assert!(!segment_fires(&with_counter(watchers, segment, pair(2, 2)), segment));
    assert!(!segment_fires(&with_counter(watchers, segment, pair(3, 1)), segment));
    assert!(!segment_fires(&with_counter(watchers, segment, DebouncedValue::new()), segment));
    assert!(!segment_fires(&with_counter(watchers, segment, pair(0, 1)), Segment::SeasideScrap));
}

#[test]
fn an_ordinary_segment_does_not_fire_on_the_credits() {
    let mut watchers = quiet(GameMode::WorldTour);
    watchers.end_credits = pair(false, true);
    let segment = Segment::TokyoTakeover;
    assert!(!segment_fires(&with_counter(watchers, segment, steady(4)), segment));
    assert!(!segment_fires(&with_counter(watchers, segment, steady(2)), segment));
}

#[test]
fn an_event_with_a_final_stage_fires_on_the_final_stage_or_on_the_credits_before_it() {
    for segment in [Segment::ArcadeAnnihilation, Segment::FatalFinale] {
        let calm = quiet(GameMode::WorldTour);
        assert!(segment_fires(&with_counter(calm, segment, pair(3, 4)), segment));
        assert!(segment_fires(&with_counter(calm, segment, pair(0, 4)), segment));
        assert!(segment_fires(&with_counter(calm, segment, pair(5, 4)), segment));
        assert!(!segment_fires(&with_counter(calm, segment, pair(4, 4)), segment));
        assert!(!segment_fires(&with_counter(calm, segment, pair(0, 1)), segment));
        assert!(!segment_fires(&with_counter(calm, segment, pair(2, 3)), segment));
        assert!(!segment_fires(&with_counter(calm, segment, pair(4, 5)), segment));
        assert!(!segment_fires(&with_counter(calm, segment, pair(3, 3)), segment));
        assert!(!segment_fires(&with_counter(calm, segment, DebouncedValue::new()), segment));

        let mut credits = calm;
        credits.end_credits = pair(false, true);
        assert!(segment_fires(&with_counter(credits, segment, pair(3, 3)), segment));
        assert!(segment_fires(&with_counter(credits, segment, pair(0, 0)), segment));
        assert!(segment_fires(&with_counter(credits, segment, pair(4, 0)), segment));
        assert!(segment_fires(&with_counter(credits, segment, pair(3, 4)), segment));
        assert!(!segment_fires(&with_counter(credits, segment, pair(4, 4)), segment));
        assert!(!segment_fires(&with_counter(credits, segment, DebouncedValue::new()), segment));

        let mut rolling = calm;
        rolling.end_credits = pair(true, true);
        assert!(!segment_fires(&with_counter(rolling, segment, pair(3, 3)), segment));
        let mut over = calm;
        over.end_credits = pair(true, false);
        assert!(!segment_fires(&with_counter(over, segment, pair(3, 3)), segment));
        let unknown = {
            let mut watchers = calm;
            watchers.end_credits = DebouncedValue::new();
            watchers
        };
        assert!(!segment_fires(&with_counter(unknown, segment, pair(3, 3)), segment));
    }
}

#[test]
fn the_final_stage_and_the_credits_split_once_in_either_order() {
    let settings = Settings::uniform(true);
    for segment in [Segment::ArcadeAnnihilation, Segment::FatalFinale] {
        // Every other event is at rest; the other last event is switched off.
        let mut settings = settings;
        settings.set_segment(Segment::ArcadeAnnihilation, false);
        settings.set_segment(Segment::FatalFinale, false);
        settings.set_segment(segment, true);
        for (counters, credits, expected) in [
            // The final stage comes first.
            ([3, 4, 4, 4], [false, false, true, true], [false, true, false, false]),
            // The credits come first.
            ([3, 3, 3, 3], [false, true, true, true], [false, true, false, false]),
            // Both come on one tick.
            ([3, 4, 4, 4], [false, true, true, true], [false, true, false, false]),
        ] {
            let mut watchers = quiet(GameMode::WorldTour);
            let mut splits = Vec::new();
            for tick in 0..4 {
                watchers.stars[segment.index()].update(counters[tick]);
                watchers.end_credits.update(credits[tick]);
                splits.push(split(&watchers, &settings));
            }
            assert_eq!(splits, expected, "{:?} {:?} {:?}", segment, counters, credits);
        }
    }
}

#[test]
fn the_credits_split_the_world_tour_through_the_last_events_only() {
    let mut watchers = quiet(GameMode::WorldTour);
    watchers.end_credits = pair(false, true);
    // Both last events read 0, which is not the final stage.
    assert!(split(&watchers, &Settings::uniform(true)));
    let mut without_arcade = Settings::uniform(true);
    without_arcade.set_segment(Segment::ArcadeAnnihilation, false);
    assert!(split(&watchers, &without_arcade));
    let mut without_both = without_arcade;
    without_both.set_segment(Segment::FatalFinale, false);
    assert!(!split(&watchers, &without_both));
    let mut only_fatal = Settings::uniform(false);
    only_fatal.set_segment(Segment::FatalFinale, true);
    assert!(split(&watchers, &only_fatal));
    let at_final = with_counter(
        with_counter(watchers, Segment::FatalFinale, steady(4)),
        Segment::ArcadeAnnihilation,
        steady(4),
    );
    assert!(!split(&at_final, &Settings::uniform(true)));
}

#[test]
fn tour_split_is_the_world_tours_split() {
    let settings = Settings::uniform(true);
    let moved = with_counter(quiet(GameMode::GrandPrix), Segment::RuinRun, pair(1, 2));
    assert!(tour_split(&moved, &settings));
    assert!(!split(&moved, &settings));
    let mut tour = moved;
    tour.game_mode = steady(GameMode::WorldTour);
    assert!(split(&tour, &settings));
    assert!(!tour_split(&quiet(GameMode::WorldTour), &settings));
}

#[test]
fn a_completed_race_does_not_split_the_world_tour() {
    let mut watchers = quiet(GameMode::WorldTour);
    watchers.race_completed = pair(false, true);
    assert!(!split(&watchers, &Settings::uniform(true)));
}

#[test]
fn split_in_a_race_on_completion_of_a_track_switched_on() {
    for mode in [GameMode::GrandPrix, GameMode::SingleRace] {
        let mut watchers = quiet(mode);
        watchers.track_id = steady(Track::GraffitiCity);
        let mut settings = Settings::uniform(false);
        settings.set_track(Track::GraffitiCity, true);

        let mut splits = Vec::new();
        for completed in [false, true, true, false, true] {
            watchers.race_completed.update(completed);
            splits.push(split(&watchers, &settings));
        }
        assert_eq!(splits, [false, true, false, false, true]);

        watchers.race_completed = pair(false, true);
        watchers.track_id = steady(Track::SanctuaryFalls);
        assert!(!split(&watchers, &settings));
        assert!(split(&watchers, &Settings::uniform(true)));
        watchers.track_id = pair(Track::SanctuaryFalls, Track::GraffitiCity);
        assert!(split(&watchers, &settings));
        watchers.track_id = pair(Track::GraffitiCity, Track::SanctuaryFalls);
        assert!(!split(&watchers, &settings));
        watchers.track_id = DebouncedValue::new();
        assert!(!split(&watchers, &Settings::uniform(true)));
    }
}

#[test]
fn every_track_has_its_own_switch() {
    let ids = [
        Track::OceanView, Track::SambaStudios, Track::CarrierZone, Track::DragonCanyon,
        Track::TempleTrouble, Track::GalacticParade, Track::SeasonalShrines, Track::RoguesLanding,
        Track::DreamValley, Track::ChillyCastle, Track::GraffitiCity, Track::SanctuaryFalls,
        Track::GraveyardGig, Track::AddersLair, Track::BurningDepths, Track::RaceOfAges,
        Track::SunshineTour, Track::ShibuyaDowntown, Track::RouletteRoad, Track::EggHangar,
        Track::OutrunBay,
    ];
    for on in ids {
        let mut settings = Settings::uniform(false);
        settings.set_track(on, true);
        for raced in ids {
            let mut watchers = quiet(GameMode::SingleRace);
            watchers.race_completed = pair(false, true);
            watchers.track_id = steady(raced);
            assert_eq!(split(&watchers, &settings), on == raced, "{:?} {:?}", on, raced);
        }
    }
}

#[test]
fn a_counter_does_not_split_a_race() {
    for mode in [GameMode::GrandPrix, GameMode::SingleRace, GameMode::TimeAttack] {
        let watchers = with_counter(quiet(mode), Segment::CoastalCruise, pair(0, 1));
        assert!(!split(&watchers, &Settings::uniform(true)));
    }
}

#[test]
fn a_time_attack_never_splits() {
    let mut watchers = quiet(GameMode::TimeAttack);
    watchers.race_completed = pair(false, true);
    watchers.end_credits = pair(false, true);
    watchers.stars = [pair(0, 1); SEGMENT_COUNT];
    assert!(!split(&watchers, &Settings::uniform(true)));
}

#[test]
fn an_unknown_mode_never_splits() {
    let mut watchers = quiet(GameMode::WorldTour);
    watchers.game_mode = DebouncedValue::new();
    watchers.race_completed = pair(false, true);
    watchers.stars = [pair(0, 1); SEGMENT_COUNT];
    assert!(!split(&watchers, &Settings::uniform(true)));
}

#[test]
fn the_same_question_has_the_same_answer() {
    let mut watchers = with_counter(quiet(GameMode::WorldTour), Segment::HangarHassle, pair(1, 2));
    watchers.run_start = pair(false, true);
    watchers.progress_igt = GameTime::from_milliseconds(42);
    let settings = Settings::uniform(true);
    let addresses = Addresses::zeroed();
    let before = watchers;
    let first = (
        start(&watchers, &settings),
        split(&watchers, &settings),
        reset(&watchers, &settings),
        is_loading(&watchers, &settings),
        game_time(&watchers, &settings, &addresses),
    );
    let second = (
        start(&watchers, &settings),
        split(&watchers, &settings),
        reset(&watchers, &settings),
        is_loading(&watchers, &settings),
        game_time(&watchers, &settings, &addresses),
    );
    assert_eq!(first, second);
    assert_eq!(first, (true, true, false, Some(true), Some(GameTime::from_milliseconds(42))));
    assert_eq!(watchers, before);
    assert_eq!(settings, Settings::uniform(true));
}
