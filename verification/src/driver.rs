//! What to do to the timer in one tick, and in which order.
//!
//! A tick has two halves. First, while the timer runs or is paused: the
//! game time is paused or resumed, then set, and then the timer is reset
//! or, if it is not, split. Then the timer's state is asked for again, and
//! while it is not running the timer may be started.

use vstd::prelude::*;
use crate::decision::{
    game_time, is_loading, reset, spec_game_time, spec_is_loading, spec_reset, spec_split,
    spec_start, split, start,
};
use crate::game_time::GameTime;
use crate::locator::Addresses;
use crate::settings::Settings;
use crate::timer::TimerState;
use crate::watchers::Watchers;

verus! {

/// Something to do to the timer.
#[derive(Clone, Copy, Debug, PartialEq, Eq, Structural)]
pub enum TimerAction {
    Start,
    Split,
    Reset,
    /// Stop the timer's game time from running by itself.
    PauseGameTime,
    /// Let the timer's game time run by itself.
    ResumeGameTime,
    SetGameTime(GameTime),
}

/// How to tell the timer whether the game is loading: the game time is
/// paused while it is, resumed while it is not, and left alone while that
/// cannot be told.
pub open spec fn spec_loading_actions(loading: Option<bool>) -> Seq<TimerAction> {
    match loading {
        Some(true) => seq![TimerAction::PauseGameTime],
        Some(false) => seq![TimerAction::ResumeGameTime],
        None => seq![],
    }
}

/// What to do in the first half of a tick, in this order.
pub open spec fn spec_running_actions(
    watchers: &Watchers,
    settings: &Settings,
    addresses: &Addresses,
    timer: TimerState,
) -> Seq<TimerAction> {
    if timer is Running || timer is Paused {
        spec_loading_actions(spec_is_loading(watchers, settings)) + (match spec_game_time(
            watchers,
            settings,
            addresses,
        ) {
            Some(time) => seq![TimerAction::SetGameTime(time)],
            None => seq![],
        }) + (if spec_reset(watchers, settings) {
            seq![TimerAction::Reset]
        } else if spec_split(watchers, settings) {
            seq![TimerAction::Split]
        } else {
            seq![]
        })
    } else {
        seq![]
    }
}

/// What to do in the second half of a tick, in this order: nothing unless
/// the timer is not running and is to start.
pub open spec fn spec_idle_actions(
    watchers: &Watchers,
    settings: &Settings,
    timer: TimerState,
) -> Seq<TimerAction> {
    if timer is NotRunning && spec_start(watchers, settings) {
        seq![TimerAction::Start, TimerAction::PauseGameTime] + spec_loading_actions(
            spec_is_loading(watchers, settings),
        )
    } else {
        seq![]
    }
}

fn push_loading_actions(actions: &mut Vec<TimerAction>, loading: Option<bool>)
    ensures
        final(actions)@ == old(actions)@ + spec_loading_actions(loading),
{
    match loading {
        Some(true) => {
            actions.push(TimerAction::PauseGameTime);
        },
        Some(false) => {
            actions.push(TimerAction::ResumeGameTime);
        },
        None => {},
    }
}

/// What to do in the first half of a tick, given the timer's state after
/// the samples were taken.
pub fn running_actions(
    watchers: &Watchers,
    settings: &Settings,
    addresses: &Addresses,
    timer: TimerState,
) -> (r: Vec<TimerAction>)
    ensures
        r@ == spec_running_actions(watchers, settings, addresses, timer),
{
    let mut actions: Vec<TimerAction> = Vec::new();
    if timer == TimerState::Running || timer == TimerState::Paused {
        push_loading_actions(&mut actions, is_loading(watchers, settings));
        if let Some(time) = game_time(watchers, settings, addresses) {
            actions.push(TimerAction::SetGameTime(time));
        }
        if reset(watchers, settings) {
            actions.push(TimerAction::Reset);
        } else if split(watchers, settings) {
            actions.push(TimerAction::Split);
        }
    }
    actions
}

/// What to do in the second half of a tick, given the timer's state after
/// the first half.
pub fn idle_actions(watchers: &Watchers, settings: &Settings, timer: TimerState) -> (r: Vec<
    TimerAction,
>)
    ensures
        r@ == spec_idle_actions(watchers, settings, timer),
{
    let mut actions: Vec<TimerAction> = Vec::new();
    if timer == TimerState::NotRunning && start(watchers, settings) {
        actions.push(TimerAction::Start);
        actions.push(TimerAction::PauseGameTime);
        push_loading_actions(&mut actions, is_loading(watchers, settings));
    }
    actions
}

} // verus!
