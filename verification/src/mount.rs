//! Mount rental: the best mount the character can pay for.

use vstd::prelude::*;

use crate::model::{mount_cost, mount_tier, spec_mount_cost, spec_mount_tier, Mount};

verus! {

/// What the mount routine reads of the game.
#[derive(Debug, Clone, Copy, PartialEq, Eq, Structural)]
pub struct MountView {
    pub mount: Option<Mount>,
    pub mount_end: Option<i64>,
    pub silver: u64,
    pub mushrooms: u32,
    pub now: i64,
}

/// The tier of the mount being ridden: 0 with none, or once the rent ran out.
pub open spec fn spec_current_tier(v: MountView) -> u8 {
    match v.mount {
        None => 0,
        Some(m) => if v.mount_end matches Some(e) && e <= v.now {
            0
        } else {
            spec_mount_tier(m)
        },
    }
}

/// Whether a mount is better than the current one and paid for.
pub open spec fn spec_buys(v: MountView, m: Mount) -> bool {
    spec_mount_tier(m) > spec_current_tier(v) && v.mushrooms >= spec_mount_cost(m).mushrooms && v.silver
        >= spec_mount_cost(m).silver
}

/// The mount to rent: the best one (dragon, tiger, horse, cow) above the
/// current tier that mushrooms and silver pay for.
pub open spec fn spec_mount_next(v: MountView) -> Option<Mount> {
    if spec_buys(v, Mount::Dragon) {
        Some(Mount::Dragon)
    } else if spec_buys(v, Mount::Tiger) {
        Some(Mount::Tiger)
    } else if spec_buys(v, Mount::Horse) {
        Some(Mount::Horse)
    } else if spec_buys(v, Mount::Cow) {
        Some(Mount::Cow)
    } else {
        None
    }
}

fn buys(v: &MountView, m: Mount, tier: u8) -> (r: bool)
    requires
        tier == spec_current_tier(*v),
    ensures
        r == spec_buys(*v, m),
{
    let cost = mount_cost(m);
    mount_tier(m) > tier && v.mushrooms >= cost.mushrooms as u32 && v.silver >= cost.silver
}

/// The mount to rent, if any.
pub fn mount_next(v: &MountView) -> (r: Option<Mount>)
    ensures
        r == spec_mount_next(*v),
{
    let tier: u8 = match v.mount {
        None => 0,
        Some(m) => {
            let expired = match v.mount_end {
                Some(e) => e <= v.now,
                None => false,
            };
            if expired {
                0
            } else {
                mount_tier(m)
            }
        },
    };
    if buys(v, Mount::Dragon, tier) {
        Some(Mount::Dragon)
    } else if buys(v, Mount::Tiger, tier) {
        Some(Mount::Tiger)
    } else if buys(v, Mount::Horse, tier) {
        Some(Mount::Horse)
    } else if buys(v, Mount::Cow, tier) {
        Some(Mount::Cow)
    } else {
        None
    }
}

/// The mount rented is better than the one ridden and paid for, and no
/// better mount could be paid for; none is rented when none qualifies.
pub proof fn law_mount_best_affordable(v: MountView, other: Mount)
    ensures
        spec_mount_next(v) matches Some(m) ==> spec_buys(v, m) && (spec_buys(v, other) ==> spec_mount_tier(other)
            <= spec_mount_tier(m)),
        spec_mount_next(v) is None ==> !spec_buys(v, other),
{
}

} // verus!
