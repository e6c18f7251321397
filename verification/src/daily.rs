//! Daily rewards: calendars, task chests, the Hellevator's daily chests
//! and the free spin of the wheel of fortune.

use vstd::prelude::*;

use crate::dungeon::HellevatorState;

verus! {

/// A task chest: the points it needs, and whether the game allows opening
/// it now.
#[derive(Debug, Clone, Copy, PartialEq, Eq, Structural)]
pub struct Chest {
    pub required_points: u32,
    pub can_open: bool,
}

/// What the daily routine reads of the game.
#[derive(Debug, Clone)]
pub struct DailyView {
    pub level: u16,
    pub calendar_next: Option<i64>,
    pub advent_calendar: bool,
    /// The chests of the daily tasks.
    pub daily_chests: Vec<Chest>,
    /// The chests of the event tasks.
    pub event_chests: Vec<Chest>,
    pub hellevator: HellevatorState,
    pub wheel_next_free_spin: Option<i64>,
    pub now: i64,
}

/// The next daily reward to collect.
#[derive(Debug, Clone, Copy, PartialEq, Eq, Structural)]
pub enum DailyAction {
    CollectCalendar,
    CollectAdventsCalendar,
    CollectDailyQuestReward { pos: usize },
    CollectEventTaskReward { pos: usize },
    HellevatorClaimDailyYesterday,
    HellevatorClaimDaily,
    SpinWheelOfFortune,
}

/// A chest worth opening: it needs points and can be opened.
pub open spec fn spec_ready(chests: Seq<Chest>, i: int) -> bool {
    0 <= i < chests.len() && chests[i].required_points > 0 && chests[i].can_open
}

/// The first of the three chests that is ready.
pub open spec fn spec_first_ready(chests: Seq<Chest>) -> Option<nat> {
    if spec_ready(chests, 0) {
        Some(0)
    } else if spec_ready(chests, 1) {
        Some(1)
    } else if spec_ready(chests, 2) {
        Some(2)
    } else {
        None
    }
}

/// The next daily reward: the calendar when due, the advent calendar, a
/// daily then an event task chest, from level 10 yesterday's then today's
/// Hellevator chests, the free spin when due.
pub open spec fn spec_daily_next(v: DailyView) -> Option<DailyAction> {
    if v.calendar_next matches Some(t) && v.now >= t {
        Some(DailyAction::CollectCalendar)
    } else if v.advent_calendar {
        Some(DailyAction::CollectAdventsCalendar)
    } else if spec_first_ready(v.daily_chests@) is Some {
        Some(DailyAction::CollectDailyQuestReward { pos: spec_first_ready(v.daily_chests@).unwrap() as usize })
    } else if spec_first_ready(v.event_chests@) is Some {
        Some(DailyAction::CollectEventTaskReward { pos: spec_first_ready(v.event_chests@).unwrap() as usize })
    } else if v.level >= 10 && (v.hellevator matches HellevatorState::Active { yesterday_claimable, .. }
        && yesterday_claimable) {
        Some(DailyAction::HellevatorClaimDailyYesterday)
    } else if v.level >= 10 && (v.hellevator matches HellevatorState::Active { today_claimable, .. }
        && today_claimable) {
        Some(DailyAction::HellevatorClaimDaily)
    } else if v.wheel_next_free_spin matches Some(t) && v.now >= t {
        Some(DailyAction::SpinWheelOfFortune)
    } else {
        None
    }
}

fn ready(chests: &Vec<Chest>, i: usize) -> (r: bool)
    ensures
        r == spec_ready(chests@, i as int),
{
    i < chests.len() && chests[i].required_points > 0 && chests[i].can_open
}

fn first_ready(chests: &Vec<Chest>) -> (r: Option<usize>)
    ensures
        r matches Some(p) ==> spec_first_ready(chests@) == Some(p as nat),
        r is None ==> spec_first_ready(chests@) is None,
{
    if ready(chests, 0) {
        Some(0)
    } else if ready(chests, 1) {
        Some(1)
    } else if ready(chests, 2) {
        Some(2)
    } else {
        None
    }
}

/// The next daily reward to collect.
pub fn daily_next(v: &DailyView) -> (r: Option<DailyAction>)
    ensures
        r == spec_daily_next(*v),
{
    if let Some(t) = v.calendar_next {
        if v.now >= t {
            return Some(DailyAction::CollectCalendar);
        }
    }
    if v.advent_calendar {
        return Some(DailyAction::CollectAdventsCalendar);
    }
    if let Some(pos) = first_ready(&v.daily_chests) {
        return Some(DailyAction::CollectDailyQuestReward { pos });
    }
    if let Some(pos) = first_ready(&v.event_chests) {
        return Some(DailyAction::CollectEventTaskReward { pos });
    }
    if v.level >= 10 {
        if let HellevatorState::Active { yesterday_claimable, today_claimable, .. } = v.hellevator {
            if yesterday_claimable {
                return Some(DailyAction::HellevatorClaimDailyYesterday);
            }
            if today_claimable {
                return Some(DailyAction::HellevatorClaimDaily);
            }
        }
    }
    if let Some(t) = v.wheel_next_free_spin {
        if v.now >= t {
            return Some(DailyAction::SpinWheelOfFortune);
        }
    }
    None
}

} // verus!
