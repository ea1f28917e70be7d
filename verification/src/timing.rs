//! Adding up in-game time.
//!
//! The game times each race by itself. The total is what finished races
//! and stages have taken; the progress is the total and what the race under
//! way has taken so far.

use vstd::prelude::*;
use crate::classify::GameMode;
use crate::game_time::{representable, GameTime};
use crate::timer::TimerState;
use crate::watchers::Watchers;

verus! {

/// The race status with which the game marks a stage of a race as finished.
pub const STAGE_FINISHED: u8 = 4;

/// The lap count by which the World Tour marks a race whose timer runs
/// through all of its stages.
pub const NO_LAPS: u8 = 0xFF;

/// The event type of the marathon.
pub const MARATHON_EVENT: u32 = 0xE64B5DD8;

/// Whether a race is under way, and its timer and status are known.
pub open spec fn race_in_progress(watchers: Watchers) -> bool {
    &&& watchers.race_completed.pair matches Some(completed)
    &&& !completed.current
    &&& watchers.igt.pair is Some
    &&& watchers.race_status.pair is Some
}

/// Whether a stage of the race under way has just been finished: the
/// race's timer is back at zero, and the status before was
/// `STAGE_FINISHED`.
pub open spec fn stage_finished(watchers: Watchers) -> bool {
    &&& race_in_progress(watchers)
    &&& watchers.igt.spec_changed_to(GameTime::spec_zero())
    &&& watchers.race_status.pair->0.previous == STAGE_FINISHED
}

/// Whether the race has just been completed, and its timer is known.
pub open spec fn race_finished(watchers: Watchers) -> bool {
    &&& watchers.race_completed.spec_changed_to(true)
    &&& watchers.igt.pair is Some
}

/// Whether the game's timer has run on through all stages of the race, so
/// that it holds the time of the whole race: in the World Tour where the
/// lap count is `NO_LAPS`, and in the marathon.
pub open spec fn timer_spans_race(watchers: Watchers) -> bool {
    ||| {
        &&& watchers.game_mode.pair matches Some(mode)
        &&& mode.current == GameMode::WorldTour
        &&& watchers.required_laps.spec_current_or(0) == NO_LAPS
    }
    ||| watchers.event_type.pair matches Some(event) && event.current == MARATHON_EVENT
}

/// The time that a race which has just been completed adds to the total:
/// what the game's timer shows where it spans the race, else the result
/// that the game gives.
pub open spec fn spec_race_result(watchers: Watchers) -> GameTime {
    if timer_spans_race(watchers) {
        watchers.igt.spec_current_or(GameTime::spec_zero())
    } else {
        watchers.total_race_time.spec_current_or(GameTime::spec_zero())
    }
}

/// The time that this tick adds to the total, in milliseconds.
pub open spec fn spec_folded(watchers: Watchers) -> int {
    if stage_finished(watchers) {
        watchers.igt.pair->0.previous@
    } else if race_finished(watchers) {
        spec_race_result(watchers)@
    } else {
        0
    }
}

/// The total after this tick, in milliseconds. While the timer is not
/// running it is zero.
pub open spec fn spec_total_after(watchers: Watchers, timer: TimerState) -> int {
    if timer is NotRunning {
        0
    } else {
        watchers.total_igt@ + spec_folded(watchers)
    }
}

/// The progress after this tick, in milliseconds: the total where a stage
/// or the race has just been finished, the total and the race's timer
/// while a race is under way, and what it was otherwise. While the timer
/// is not running it is zero.
pub open spec fn spec_progress_after(watchers: Watchers, timer: TimerState) -> int {
    if timer is NotRunning {
        0
    } else if stage_finished(watchers) || race_finished(watchers) {
        spec_total_after(watchers, timer)
    } else if race_in_progress(watchers) {
        watchers.total_igt@ + watchers.igt.pair->0.current@
    } else {
        watchers.progress_igt@
    }
}

/// Whether the total and the progress after this tick can be held.
pub open spec fn time_fits(watchers: Watchers, timer: TimerState) -> bool {
    &&& representable(spec_total_after(watchers, timer))
    &&& representable(spec_progress_after(watchers, timer))
}

/// Whether `after` is `before` with the time of this tick added up, and
/// nothing else changed.
pub open spec fn reconciled(before: Watchers, timer: TimerState, after: Watchers) -> bool {
    &&& after.total_igt@ == spec_total_after(before, timer)
    &&& after.progress_igt@ == spec_progress_after(before, timer)
    &&& after == Watchers { total_igt: after.total_igt, progress_igt: after.progress_igt, ..before }
}

/// The time that a race which has just been completed adds to the total.
pub fn race_result(watchers: &Watchers) -> (r: GameTime)
    ensures
        r == spec_race_result(*watchers),
{
    let in_tour = match watchers.game_mode.pair {
        Some(mode) => mode.current == GameMode::WorldTour,
        None => false,
    };
    let in_marathon = match watchers.event_type.pair {
        Some(event) => event.current == MARATHON_EVENT,
        None => false,
    };
    if (in_tour && watchers.required_laps.current_or(0) == NO_LAPS) || in_marathon {
        watchers.igt.current_or(GameTime::zero())
    } else {
        watchers.total_race_time.current_or(GameTime::zero())
    }
}

/// Adds the time of this tick up.
pub fn reconcile(watchers: &mut Watchers, timer: TimerState)
    requires
        time_fits(*old(watchers), timer),
    ensures
        reconciled(*old(watchers), timer, *final(watchers)),
{
    if timer == TimerState::NotRunning {
        watchers.total_igt = GameTime::zero();
        watchers.progress_igt = GameTime::zero();
        return ;
    }
    if let Some(completed) = watchers.race_completed.pair {
        if let Some(igt) = watchers.igt.pair {
            if !completed.current {
                if let Some(status) = watchers.race_status.pair {
                    if watchers.igt.changed_to(&GameTime::zero()) && status.previous
                        == STAGE_FINISHED {
                        watchers.total_igt = watchers.total_igt.plus(igt.previous);
                        watchers.progress_igt = watchers.total_igt;
                    } else {
                        watchers.progress_igt = watchers.total_igt.plus(igt.current);
                    }
                }
            } else if watchers.race_completed.changed_to(&true) {
                let result = race_result(watchers);
                watchers.total_igt = watchers.total_igt.plus(result);
                watchers.progress_igt = watchers.total_igt;
            }
        }
    }
}

/// Whether the time of this tick can be added up.
pub fn can_reconcile(watchers: &Watchers, timer: TimerState) -> (r: bool)
    ensures
        r == time_fits(*watchers, timer),
{
    if timer == TimerState::NotRunning {
        return true;
    }
    if let Some(completed) = watchers.race_completed.pair {
        if let Some(igt) = watchers.igt.pair {
            if !completed.current {
                if let Some(status) = watchers.race_status.pair {
                    if watchers.igt.changed_to(&GameTime::zero()) && status.previous
                        == STAGE_FINISHED {
                        return watchers.total_igt.checked_add(igt.previous).is_some();
                    } else {
                        return watchers.total_igt.checked_add(igt.current).is_some();
                    }
                }
            } else if watchers.race_completed.changed_to(&true) {
                let result = race_result(watchers);
                return watchers.total_igt.checked_add(result).is_some();
            }
        }
    }
    true
}

} // verus!
