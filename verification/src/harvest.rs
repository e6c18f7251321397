//! Harvest timing shared by the fortress and the underworld.

use vstd::prelude::*;

use crate::model::SECOND_NANOS;

verus! {

/// The largest number of minutes a harvest interval may have (a longer one
/// is out of the range of the game client's durations).
pub const MAX_INTERVAL_MINS: i64 = 153_722_867_280_912;

/// Whole seconds from `from` to `now`, or 0 if `now` is not later.
pub open spec fn spec_elapsed_secs(from: i64, now: i64) -> int {
    if now - from > 0 {
        (now - from) / (SECOND_NANOS as int)
    } else {
        0
    }
}

pub fn elapsed_secs(from: i64, now: i64) -> (r: u64)
    ensures
        r == spec_elapsed_secs(from, now),
{
    let d: i128 = (now as i128) - (from as i128);
    if d > 0 {
        let q = d / (SECOND_NANOS as i128);
        assert(q <= 0xFFFF_FFFF_FFFF_FFFFi128) by {
            assert(d <= 0x1_0000_0000_0000_0000i128);
        }
        q as u64
    } else {
        0
    }
}

/// What a production building holds now: what the server last reported
/// plus what it produced since, per hour, up to its limit (if it has one).
/// `slow` production (thirst for adventure) runs 24 times slower.
pub open spec fn spec_collectable(
    last_collectable: u64,
    per_hour: u64,
    limit: u64,
    updated: Option<i64>,
    now: i64,
    slow: bool,
) -> int {
    match updated {
        None => last_collectable as int,
        Some(lu) => {
            let hourly = spec_elapsed_secs(lu, now) * per_hour / 3600;
            let produce = if slow {
                hourly / 24
            } else {
                hourly
            };
            if limit > 0 {
                if last_collectable + produce < limit {
                    last_collectable + produce
                } else {
                    limit as int
                }
            } else {
                last_collectable + produce
            }
        },
    }
}

/// What a production building holds now.
pub fn collectable(
    last_collectable: u64,
    per_hour: u64,
    limit: u64,
    updated: Option<i64>,
    now: i64,
    slow: bool,
) -> (r: u128)
    ensures
        r == spec_collectable(last_collectable, per_hour, limit, updated, now, slow),
{
    match updated {
        None => last_collectable as u128,
        Some(lu) => {
            let secs = elapsed_secs(lu, now);
            assert(secs * per_hour <= 0xFFFF_FFFF_FFFF_FFFF * 0xFFFF_FFFF_FFFF_FFFF) by (nonlinear_arith)
                requires
                    secs <= 0xFFFF_FFFF_FFFF_FFFFu64,
                    per_hour <= 0xFFFF_FFFF_FFFF_FFFFu64,
            ;
            let hourly = (secs as u128) * (per_hour as u128) / 3600;
            let produce = if slow {
                hourly / 24
            } else {
                hourly
            };
            assert(produce <= 0xFFFF_FFFF_FFFF_FFFF * 0xFFFF_FFFF_FFFF_FFFF);
            let total = last_collectable as u128 + produce;
            if limit > 0 {
                if total < limit as u128 {
                    total
                } else {
                    limit as u128
                }
            } else {
                total
            }
        },
    }
}

/// Harvests are checked when nothing is known of the last update, when the
/// interval has passed since it, or within two minutes after it.
pub open spec fn spec_is_collect_time(updated: Option<i64>, now: i64, interval_mins: i64) -> bool {
    match updated {
        None => true,
        Some(lu) => now - lu >= interval_mins * 60 * SECOND_NANOS || now - lu < 2 * 60 * SECOND_NANOS,
    }
}

/// Whether it is time to check the harvests.
pub fn is_collect_time(updated: Option<i64>, now: i64, interval_mins: i64) -> (r: bool)
    requires
        -MAX_INTERVAL_MINS <= interval_mins <= MAX_INTERVAL_MINS,
    ensures
        r == spec_is_collect_time(updated, now, interval_mins),
{
    match updated {
        None => true,
        Some(lu) => {
            let since: i128 = (now as i128) - (lu as i128);
            since >= (interval_mins as i128) * 60_000_000_000i128 || since < 120_000_000_000i128
        },
    }
}

/// Whether a building holds at least `ratio` thousandths of its limit.
pub open spec fn spec_enough(collectable: int, limit: u64, ratio: u64) -> bool {
    collectable * 1000 >= limit * ratio
}

/// Whether a building holds at least `ratio` thousandths of its limit.
pub fn enough(collectable: u128, limit: u64, ratio: u64) -> (r: bool)
    ensures
        r == spec_enough(collectable as int, limit, ratio),
{
    let lhs: u128 = collectable;
    assert((limit as u128) * (ratio as u128) <= 0xFFFF_FFFF_FFFF_FFFF * 0xFFFF_FFFF_FFFF_FFFF)
        by (nonlinear_arith)
        requires
            limit <= 0xFFFF_FFFF_FFFF_FFFFu64,
            ratio <= 0xFFFF_FFFF_FFFF_FFFFu64,
    ;
    let rhs: u128 = (limit as u128) * (ratio as u128);
    // collectable * 1000 >= rhs, without overflow: compare against rhs / 1000 rounded up
    let q = rhs / 1000;
    let rem = rhs % 1000;
    let need = if rem == 0 {
        q
    } else {
        q + 1
    };
    assert(lhs * 1000 >= rhs <==> lhs >= need) by (nonlinear_arith)
        requires
            q == rhs / 1000,
            rem == rhs % 1000,
            rem == 0 ==> need == q,
            rem != 0 ==> need == q + 1,
    ;
    lhs >= need
}

} // verus!
