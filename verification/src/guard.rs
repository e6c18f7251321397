//! City guard duty: collecting the pay, and working through the hours
//! until the botting day begins when there is nothing else to do.

use vstd::prelude::*;

use crate::constant::EXPEDITION_START_HOUR;
use crate::expedition::{can_drink_beer, spec_can_drink_beer, BeerView};
use crate::model::CurrentAction;

verus! {

/// What the guard routine reads of the game and the clock.
#[derive(Debug, Clone, Copy, PartialEq, Eq, Structural)]
pub struct GuardView {
    pub beer: BeerView,
    pub now: i64,
    /// Whole seconds since local midnight.
    pub secs_of_day: u32,
    /// The fraction of the current second, in nanoseconds.
    pub subsec_nanos: u32,
}

/// The next step at the city guard.
#[derive(Debug, Clone, Copy, PartialEq, Eq, Structural)]
pub enum GuardAction {
    FinishWork,
    StartWork { hours: u8 },
}

/// Whole seconds from now until the next start of the botting day (today's
/// if that hour has not come yet, else tomorrow's).
pub open spec fn spec_secs_to_start(v: GuardView) -> int {
    let start = EXPEDITION_START_HOUR * 3600;
    let hour = v.secs_of_day / 3600;
    let target = if hour >= EXPEDITION_START_HOUR {
        start + 86400
    } else {
        start as int
    };
    target - v.secs_of_day - if v.subsec_nanos > 0 {
        1int
    } else {
        0
    }
}

/// The hours to work: the whole hours until the day starts, at most ten.
pub open spec fn spec_hours_to_work(v: GuardView) -> int {
    let h = spec_secs_to_start(v) / 3600;
    if h < 10 {
        h
    } else {
        10
    }
}

/// The next step: collect the pay once the duty is over; when idle, before
/// the botting day's start hour or with no thirst for adventure and no free
/// beer, work until the day starts (at least one and at most ten hours).
pub open spec fn spec_guard_next(v: GuardView) -> Option<GuardAction> {
    match v.beer.current_action {
        CurrentAction::CityGuard { busy_until, .. } => if v.now >= busy_until {
            Some(GuardAction::FinishWork)
        } else {
            None
        },
        CurrentAction::Idle => if ((v.beer.thirst_for_adventure_sec == 0 && !spec_can_drink_beer(v.beer))
            || v.secs_of_day / 3600 < EXPEDITION_START_HOUR) && spec_hours_to_work(v) >= 1 {
            Some(GuardAction::StartWork { hours: spec_hours_to_work(v) as u8 })
        } else {
            None
        },
        _ => None,
    }
}

/// The next step at the city guard.
pub fn guard_next(v: &GuardView) -> (r: Option<GuardAction>)
    ensures
        r == spec_guard_next(*v),
{
    match v.beer.current_action {
        CurrentAction::CityGuard { busy_until, .. } => {
            if v.now >= busy_until {
                Some(GuardAction::FinishWork)
            } else {
                None
            }
        },
        CurrentAction::Idle => {
            let hour = v.secs_of_day / 3600;
            if (v.beer.thirst_for_adventure_sec == 0 && !can_drink_beer(&v.beer)) || hour
                < EXPEDITION_START_HOUR {
                let start: i64 = EXPEDITION_START_HOUR as i64 * 3600;
                let target: i64 = if hour >= EXPEDITION_START_HOUR {
                    start + 86400
                } else {
                    start
                };
                let frac: i64 = if v.subsec_nanos > 0 {
                    1
                } else {
                    0
                };
                let secs: i64 = target - v.secs_of_day as i64 - frac;
                let h = secs / 3600;
                let hours = if h < 10 {
                    h
                } else {
                    10
                };
                assert(secs == spec_secs_to_start(*v));
                if hours >= 1 {
                    Some(GuardAction::StartWork { hours: hours as u8 })
                } else {
                    None
                }
            } else {
                None
            }
        },
        _ => None,
    }
}

/// Guard duty is taken for one to ten whole hours, and never runs past the
/// hour at which the botting day begins.
pub proof fn law_guard_shift_ends_by_day_start(v: GuardView)
    requires
        spec_guard_next(v) matches Some(GuardAction::StartWork { .. }),
    ensures
        ({
            let hours = spec_guard_next(v).unwrap()->StartWork_hours;
            &&& 1 <= hours <= 10
            &&& hours * 3600 <= spec_secs_to_start(v)
        }),
{
}

/// While idle before the hour at which the botting day begins, guard duty
/// is taken whatever the thirst for adventure, as long as a whole hour is
/// left until then.
pub proof fn law_guard_before_day_start(v: GuardView)
    requires
        v.beer.current_action is Idle,
        v.secs_of_day / 3600 < EXPEDITION_START_HOUR,
        spec_secs_to_start(v) >= 3600,
    ensures
        spec_guard_next(v) matches Some(GuardAction::StartWork { .. }),
{
}

} // verus!
