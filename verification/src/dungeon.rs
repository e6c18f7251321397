//! Dungeons: the portal, the Hellevator, the tower, and the light and
//! shadow dungeons.

use vstd::prelude::*;

use crate::config::FeatureConfig;
use crate::model::SECOND_NANOS;

verus! {

/// The position of the tower among the light dungeons.
pub const TOWER_POSITION: usize = 14;

/// What the Hellevator shows.
#[derive(Debug, Clone, Copy, PartialEq, Eq, Structural)]
pub enum HellevatorState {
    NotEntered,
    /// Entered: the key cards left, and whether yesterday's and today's
    /// daily chests can be claimed.
    Active { key_cards: u32, yesterday_claimable: bool, today_claimable: bool },
    /// Not available (locked, closed, or the event is over).
    Unavailable,
}

/// A dungeon, by its position in the light or shadow dungeon list.
#[derive(Debug, Clone, Copy, PartialEq, Eq, Structural)]
pub enum DungeonRef {
    Light(usize),
    Shadow(usize),
}

/// What the dungeon routine reads of the game.
#[derive(Debug, Clone)]
pub struct DungeonView {
    pub level: u16,
    /// Whether the portal can be fought, if the portal is known.
    pub portal_can_fight: Option<bool>,
    pub hellevator: HellevatorState,
    pub next_free_fight: Option<i64>,
    /// The level of the next enemy of each light dungeon, if it is open.
    pub light: Vec<Option<u16>>,
    /// The level of the next enemy of each shadow dungeon, if it is open.
    pub shadow: Vec<Option<u16>>,
    /// The tower's finished floors, while it is open.
    pub tower_finished: Option<u16>,
    pub now: i64,
}

/// The next fight.
#[derive(Debug, Clone, Copy, PartialEq, Eq, Structural)]
pub enum DungeonAction {
    FightPortal,
    HellevatorEnter,
    HellevatorFight,
    FightTower { current_level: u8 },
    FightDungeon { dungeon: DungeonRef },
}

/// Whether the portal can be fought now.
pub open spec fn spec_portal_fight(v: DungeonView, cfg: FeatureConfig) -> bool {
    cfg.enable_dungeon && v.portal_can_fight == Some(true)
}

/// Whether the Hellevator has something to do: entering it, or fighting
/// with a key card (from level 10).
pub open spec fn spec_hellevator_fight(v: DungeonView, cfg: FeatureConfig) -> bool {
    cfg.enable_hellevator && v.level >= 10 && match v.hellevator {
        HellevatorState::NotEntered => true,
        HellevatorState::Active { key_cards, .. } => key_cards > 0,
        HellevatorState::Unavailable => false,
    }
}

/// The free dungeon fight is not due until five seconds after its time.
pub open spec fn spec_waiting(next_free_fight: Option<i64>, now: i64) -> bool {
    next_free_fight matches Some(n) && now < n + 5 * SECOND_NANOS
}

/// Walks a dungeon list from `i` on and keeps the first dungeon with the
/// lowest next enemy.
pub open spec fn spec_easiest_from(
    levels: Seq<Option<u16>>,
    shadow: bool,
    i: nat,
    best: Option<(DungeonRef, u16)>,
) -> Option<(DungeonRef, u16)>
    decreases levels.len() - i,
{
    if i >= levels.len() {
        best
    } else {
        match levels[i as int] {
            Some(l) => if (best matches Some((_, b)) ==> l < b) {
                spec_easiest_from(
                    levels,
                    shadow,
                    i + 1,
                    Some(
                        (
                            if shadow {
                                DungeonRef::Shadow(i as usize)
                            } else {
                                DungeonRef::Light(i as usize)
                            },
                            l,
                        ),
                    ),
                )
            } else {
                spec_easiest_from(levels, shadow, i + 1, best)
            },
            None => spec_easiest_from(levels, shadow, i + 1, best),
        }
    }
}

/// The dungeon with the lowest next enemy: light dungeons first, then the
/// shadow dungeons; the first on a tie.
pub open spec fn spec_easiest(v: DungeonView) -> Option<(DungeonRef, u16)> {
    spec_easiest_from(v.shadow@, true, 0, spec_easiest_from(v.light@, false, 0, None))
}

/// The tower floor to fight: the one after the finished ones (counted in
/// a byte, as the game's command does).
pub open spec fn spec_tower_level(finished: Option<u16>) -> u8 {
    match finished {
        Some(f) => if (f as u8) == 255 {
            0
        } else {
            ((f as u8) + 1) as u8
        },
        None => 1,
    }
}

/// The next fight: the portal; the Hellevator (enter, or fight with a key
/// card); once the free fight is due, the dungeon with the lowest next
/// enemy (the tower at its next floor).
pub open spec fn spec_dungeon_next(v: DungeonView, cfg: FeatureConfig) -> Option<DungeonAction> {
    if spec_portal_fight(v, cfg) {
        Some(DungeonAction::FightPortal)
    } else if spec_hellevator_fight(v, cfg) {
        if v.hellevator == HellevatorState::NotEntered {
            Some(DungeonAction::HellevatorEnter)
        } else {
            Some(DungeonAction::HellevatorFight)
        }
    } else if !cfg.enable_dungeon || spec_waiting(v.next_free_fight, v.now) {
        None
    } else {
        match spec_easiest(v) {
            None => None,
            Some((d, _)) => if d == DungeonRef::Light(TOWER_POSITION) {
                Some(DungeonAction::FightTower { current_level: spec_tower_level(v.tower_finished) })
            } else {
                Some(DungeonAction::FightDungeon { dungeon: d })
            },
        }
    }
}

fn waiting(next_free_fight: Option<i64>, now: i64) -> (r: bool)
    ensures
        r == spec_waiting(next_free_fight, now),
{
    match next_free_fight {
        Some(n) => (now as i128) < (n as i128) + 5_000_000_000i128,
        None => false,
    }
}

fn hellevator_fight(v: &DungeonView, cfg: &FeatureConfig) -> (r: bool)
    ensures
        r == spec_hellevator_fight(*v, *cfg),
{
    cfg.enable_hellevator && v.level >= 10 && match v.hellevator {
        HellevatorState::NotEntered => true,
        HellevatorState::Active { key_cards, .. } => key_cards > 0,
        HellevatorState::Unavailable => false,
    }
}

fn easiest_from(levels: &Vec<Option<u16>>, shadow: bool, start: Option<(DungeonRef, u16)>) -> (r: Option<
    (DungeonRef, u16),
>)
    ensures
        r == spec_easiest_from(levels@, shadow, 0, start),
{
    let mut best = start;
    let mut i: usize = 0;
    while i < levels.len()
        invariant
            i <= levels@.len(),
            spec_easiest_from(levels@, shadow, 0, start) == spec_easiest_from(levels@, shadow, i as nat, best),
        decreases levels@.len() - i,
    {
        if let Some(l) = levels[i] {
            let better = match best {
                Some((_, b)) => l < b,
                None => true,
            };
            if better {
                let d = if shadow {
                    DungeonRef::Shadow(i)
                } else {
                    DungeonRef::Light(i)
                };
                best = Some((d, l));
            }
        }
        i = i + 1;
    }
    best
}

/// The next fight.
pub fn dungeon_next(v: &DungeonView, cfg: &FeatureConfig) -> (r: Option<DungeonAction>)
    ensures
        r == spec_dungeon_next(*v, *cfg),
{
    if cfg.enable_dungeon && v.portal_can_fight == Some(true) {
        return Some(DungeonAction::FightPortal);
    }
    if hellevator_fight(v, cfg) {
        if v.hellevator == HellevatorState::NotEntered {
            return Some(DungeonAction::HellevatorEnter);
        }
        return Some(DungeonAction::HellevatorFight);
    }
    if !cfg.enable_dungeon || waiting(v.next_free_fight, v.now) {
        return None;
    }
    let light = easiest_from(&v.light, false, None);
    match easiest_from(&v.shadow, true, light) {
        None => None,
        Some((d, _)) => {
            if d == DungeonRef::Light(TOWER_POSITION) {
                let current_level: u8 = match v.tower_finished {
                    Some(f) => {
                        let t = f as u8;
                        if t == 255 {
                            0
                        } else {
                            t + 1
                        }
                    },
                    None => 1,
                };
                Some(DungeonAction::FightTower { current_level })
            } else {
                Some(DungeonAction::FightDungeon { dungeon: d })
            }
        },
    }
}

/// Whether the dungeon routine runs at all: not when dungeons are disabled
/// and the Hellevator has nothing to do, nor while the free dungeon fight is
/// not due and neither the portal nor the Hellevator can be fought.
pub open spec fn spec_dungeon_runs(v: DungeonView, cfg: FeatureConfig) -> bool {
    let pcf = spec_portal_fight(v, cfg);
    let hcf = spec_hellevator_fight(v, cfg);
    !(!cfg.enable_dungeon && !hcf) && !(cfg.enable_dungeon && spec_waiting(v.next_free_fight, v.now) && !pcf
        && !hcf)
}

/// Whether the dungeon routine runs at all.
pub fn dungeon_runs(v: &DungeonView, cfg: &FeatureConfig) -> (r: bool)
    ensures
        r == spec_dungeon_runs(*v, *cfg),
{
    let pcf = cfg.enable_dungeon && v.portal_can_fight == Some(true);
    let hcf = hellevator_fight(v, cfg);
    if !cfg.enable_dungeon && !hcf {
        return false;
    }
    if cfg.enable_dungeon && waiting(v.next_free_fight, v.now) && !pcf && !hcf {
        return false;
    }
    true
}

/// The level of the next enemy in a dungeon, if it is open.
pub open spec fn spec_level_of(v: DungeonView, d: DungeonRef) -> Option<u16> {
    match d {
        DungeonRef::Light(i) => if i < v.light@.len() {
            v.light@[i as int]
        } else {
            None
        },
        DungeonRef::Shadow(i) => if i < v.shadow@.len() {
            v.shadow@[i as int]
        } else {
            None
        },
    }
}

/// Whether no open dungeon of a list has a weaker next enemy than `l`.
pub open spec fn spec_none_weaker(levels: Seq<Option<u16>>, l: u16) -> bool {
    forall|k: int| 0 <= k < levels.len() ==> (#[trigger] levels[k] matches Some(x) ==> x >= l)
}

proof fn lemma_easiest_from(levels: Seq<Option<u16>>, shadow: bool, i: nat, best: Option<(DungeonRef, u16)>)
    requires
        levels.len() <= usize::MAX,
    ensures
        spec_easiest_from(levels, shadow, i, best) matches Some((d, l)) ==> {
            &&& (Some((d, l)) == best || exists|k: int|
                i <= k < levels.len() && levels[k] == Some(l) && d == (if shadow {
                    DungeonRef::Shadow(k as usize)
                } else {
                    DungeonRef::Light(k as usize)
                }))
            &&& forall|k: int| i <= k < levels.len() ==> (#[trigger] levels[k] matches Some(x) ==> x >= l)
            &&& best matches Some((_, b)) ==> b >= l
        },
        best is Some ==> spec_easiest_from(levels, shadow, i, best) is Some,
        spec_easiest_from(levels, shadow, i, best) is None ==> forall|k: int|
            i <= k < levels.len() ==> #[trigger] levels[k] is None,
    decreases levels.len() - i,
{
    if i < levels.len() {
        match levels[i as int] {
            Some(l) => if (best matches Some((_, b)) ==> l < b) {
                let d = if shadow {
                    DungeonRef::Shadow(i as usize)
                } else {
                    DungeonRef::Light(i as usize)
                };
                lemma_easiest_from(levels, shadow, i + 1, Some((d, l)));
            } else {
                lemma_easiest_from(levels, shadow, i + 1, best);
            },
            None => lemma_easiest_from(levels, shadow, i + 1, best),
        }
    }
}

/// A dungeon fight (the tower's included) goes to an open dungeon whose
/// next enemy has the lowest level among all open light and shadow
/// dungeons.
pub proof fn law_dungeon_fights_easiest(v: DungeonView, cfg: FeatureConfig)
    requires
        spec_dungeon_next(v, cfg) matches Some(a) && (a is FightDungeon || a is FightTower),
    ensures
        ({
            let d = match spec_dungeon_next(v, cfg).unwrap() {
                DungeonAction::FightDungeon { dungeon } => dungeon,
                _ => DungeonRef::Light(TOWER_POSITION),
            };
            &&& spec_level_of(v, d) is Some
            &&& spec_none_weaker(v.light@, spec_level_of(v, d).unwrap())
            &&& spec_none_weaker(v.shadow@, spec_level_of(v, d).unwrap())
        }),
{
    assert(v.light.len() == v.light@.len());
    assert(v.shadow.len() == v.shadow@.len());
    let first = spec_easiest_from(v.light@, false, 0, None);
    lemma_easiest_from(v.light@, false, 0, None);
    lemma_easiest_from(v.shadow@, true, 0, first);
    let (d, l) = spec_easiest(v).unwrap();
    if Some((d, l)) == first {
        let k = choose|k: int| 0 <= k < v.light@.len() && v.light@[k] == Some(l) && d == DungeonRef::Light(
            k as usize,
        );
        assert((k as usize) as int == k);
        assert(spec_level_of(v, d) == Some(l));
    } else {
        let k = choose|k: int|
            0 <= k < v.shadow@.len() && v.shadow@[k] == Some(l) && d == DungeonRef::Shadow(k as usize);
        assert((k as usize) as int == k);
        assert(spec_level_of(v, d) == Some(l));
    }
    assert forall|k: int| 0 <= k < v.light@.len() implies (#[trigger] v.light@[k] matches Some(x) ==> x >= l) by {
        if first is Some {
            let (d1, b) = first.unwrap();
            assert(b >= l);
        }
    }
}

} // verus!
