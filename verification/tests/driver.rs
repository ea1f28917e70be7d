use racing_autosplit::classify::{GameMode, Track};
use racing_autosplit::driver::{idle_actions, running_actions, TimerAction};
use racing_autosplit::game_time::GameTime;
use racing_autosplit::locator::Addresses;
use racing_autosplit::pair::{DebouncedValue, Pair};
use racing_autosplit::segment::{Segment, SEGMENT_COUNT};
use racing_autosplit::settings::Settings;
use racing_autosplit::timer::TimerState;
use racing_autosplit::watchers::Watchers;

fn pair<T: Copy>(previous: T, current: T) -> DebouncedValue<T> {
    DebouncedValue { pair: Some(Pair { previous, current }) }
}

fn quiet(mode: GameMode) -> Watchers {
    let mut watchers = Watchers::new();
    watchers.run_start = pair(false, false);
    watchers.end_credits = pair(false, false);
    watchers.game_mode = pair(mode, mode);
    watchers.race_completed = pair(false, false);
    watchers.track_id = pair(Track::OceanView, Track::OceanView);
    watchers.stars = [pair(0, 0); SEGMENT_COUNT];
    watchers.progress_igt = GameTime::from_milliseconds(83_210);
    watchers
}

const SET: TimerAction = TimerAction::SetGameTime(GameTime { millis: 83_210 });

#[test]
fn while_the_timer_runs_the_game_time_is_paused_and_set() {
    let addresses = Addresses::zeroed();
    let settings = Settings::uniform(true);
    for timer in [TimerState::Running, TimerState::Paused] {
        for mode in [GameMode::WorldTour, GameMode::GrandPrix, GameMode::TimeAttack] {
            assert_eq!(
                running_actions(&quiet(mode), &settings, &addresses, timer),
                [TimerAction::PauseGameTime, SET]
            );
        }
    }
}

#[test]
fn a_split_comes_after_the_game_time() {
    let addresses = Addresses::zeroed();
    let settings = Settings::uniform(true);
    let mut race = quiet(GameMode::SingleRace);
    race.race_completed = pair(false, true);
    let mut tour = quiet(GameMode::WorldTour);
    tour.stars[Segment::SeasideSkirmish.index()] = pair(2, 3);
    for watchers in [race, tour] {
        for timer in [TimerState::Running, TimerState::Paused] {
            assert_eq!(
                running_actions(&watchers, &settings, &addresses, timer),
                [TimerAction::PauseGameTime, SET, TimerAction::Split]
            );
            assert_eq!(
                running_actions(&watchers, &Settings::uniform(false), &addresses, timer),
                [TimerAction::PauseGameTime, SET]
            );
        }
    }
}

#[test]
fn a_timer_that_does_not_run_is_left_alone_in_the_first_half() {
    let addresses = Addresses::zeroed();
    let mut watchers = quiet(GameMode::SingleRace);
    watchers.race_completed = pair(false, true);
    watchers.run_start = pair(false, true);
    for timer in [TimerState::NotRunning, TimerState::Ended, TimerState::Unknown] {
        assert_eq!(running_actions(&watchers, &Settings::uniform(true), &addresses, timer), []);
    }
}

#[test]
fn a_start_pauses_the_game_time() {
    let mut watchers = quiet(GameMode::GrandPrix);
    watchers.run_start = pair(false, true);
    assert_eq!(
        idle_actions(&watchers, &Settings::uniform(true), TimerState::NotRunning),
        [TimerAction::Start, TimerAction::PauseGameTime, TimerAction::PauseGameTime]
    );
}

#[test]
fn the_timer_is_started_only_while_it_is_not_running() {
    let mut watchers = quiet(GameMode::GrandPrix);
    watchers.run_start = pair(false, true);
    for timer in [
        TimerState::Running,
        TimerState::Paused,
        TimerState::Ended,
        TimerState::Unknown,
    ] {
        assert_eq!(idle_actions(&watchers, &Settings::uniform(true), timer), []);
    }
}

#[test]
fn the_timer_is_not_started_without_a_start() {
    let settings = Settings::uniform(true);
    assert_eq!(idle_actions(&quiet(GameMode::GrandPrix), &settings, TimerState::NotRunning), []);
    let mut watchers = quiet(GameMode::TimeAttack);
    watchers.run_start = pair(false, true);
    assert_eq!(idle_actions(&watchers, &settings, TimerState::NotRunning), []);
    watchers.game_mode = pair(GameMode::SingleRace, GameMode::SingleRace);
    let mut off = Settings::uniform(true);
    off.start = false;
    assert_eq!(idle_actions(&watchers, &off, TimerState::NotRunning), []);
    assert_eq!(idle_actions(&watchers, &settings, TimerState::NotRunning).len(), 3);
}
