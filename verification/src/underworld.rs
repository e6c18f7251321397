//! The underworld: finishing upgrades, harvesting, upgrading buildings and
//! luring heroes.

use vstd::prelude::*;

use crate::config::FortressConfig;
use crate::harvest::{
    collectable, enough, is_collect_time, spec_collectable, spec_enough, spec_is_collect_time,
    MAX_INTERVAL_MINS,
};
use crate::memory::{NameMap, NameSet};

verus! {

/// A building of the underworld, in the game's order.
#[derive(Debug, Clone, Copy, PartialEq, Eq, Structural)]
pub enum UnderworldBuildingType {
    HeartOfDarkness,
    Gate,
    GoldPit,
    SoulExtractor,
    GoblinPit,
    TortureChamber,
    GladiatorTrainer,
    TrollBlock,
    Adventuromatic,
    Keeper,
}

/// The number of underworld buildings.
pub const UNDERWORLD_BUILDINGS: usize = 10;

pub open spec fn spec_uw_building_at(i: int) -> UnderworldBuildingType {
    if i == 0 {
        UnderworldBuildingType::HeartOfDarkness
    } else if i == 1 {
        UnderworldBuildingType::Gate
    } else if i == 2 {
        UnderworldBuildingType::GoldPit
    } else if i == 3 {
        UnderworldBuildingType::SoulExtractor
    } else if i == 4 {
        UnderworldBuildingType::GoblinPit
    } else if i == 5 {
        UnderworldBuildingType::TortureChamber
    } else if i == 6 {
        UnderworldBuildingType::GladiatorTrainer
    } else if i == 7 {
        UnderworldBuildingType::TrollBlock
    } else if i == 8 {
        UnderworldBuildingType::Adventuromatic
    } else {
        UnderworldBuildingType::Keeper
    }
}

fn uw_building_at(i: usize) -> (r: UnderworldBuildingType)
    requires
        i < UNDERWORLD_BUILDINGS,
    ensures
        r == spec_uw_building_at(i as int),
{
    if i == 0 {
        UnderworldBuildingType::HeartOfDarkness
    } else if i == 1 {
        UnderworldBuildingType::Gate
    } else if i == 2 {
        UnderworldBuildingType::GoldPit
    } else if i == 3 {
        UnderworldBuildingType::SoulExtractor
    } else if i == 4 {
        UnderworldBuildingType::GoblinPit
    } else if i == 5 {
        UnderworldBuildingType::TortureChamber
    } else if i == 6 {
        UnderworldBuildingType::GladiatorTrainer
    } else if i == 7 {
        UnderworldBuildingType::TrollBlock
    } else if i == 8 {
        UnderworldBuildingType::Adventuromatic
    } else {
        UnderworldBuildingType::Keeper
    }
}

/// A resource of the underworld.
#[derive(Debug, Clone, Copy, PartialEq, Eq, Structural)]
pub enum UnderworldResourceType {
    Souls,
    Silver,
    ThirstForAdventure,
}

/// A building's level and the price of its next level.
#[derive(Debug, Clone, Copy, PartialEq, Eq, Structural)]
pub struct UnderworldBuilding {
    pub level: u8,
    pub cost_silver: u64,
    pub cost_souls: u64,
}

/// A production building of the underworld.
#[derive(Debug, Clone, Copy, PartialEq, Eq, Structural)]
pub struct UnderworldProduction {
    pub last_collectable: u64,
    pub limit: u64,
    pub per_hour: u64,
}

/// The first hero of the hall of fame and, once the bot has looked at
/// them, their level and player id.
#[derive(Debug, Clone)]
pub struct HallOfFameEntry {
    pub name: String,
    pub looked_up: Option<(u16, u32)>,
}

/// What the underworld routine reads of the game.
#[derive(Debug, Clone)]
pub struct UnderworldView {
    /// The buildings in the game's order.
    pub buildings: Vec<UnderworldBuilding>,
    pub goblin_level: u16,
    pub souls: UnderworldProduction,
    pub silver: UnderworldProduction,
    pub thirst: UnderworldProduction,
    pub last_collectable_update: Option<i64>,
    pub souls_current: u64,
    pub souls_limit: u64,
    pub upgrade_building: Option<UnderworldBuildingType>,
    pub upgrade_finish: Option<i64>,
    pub lured_today: u16,
    /// The game's lure suggestion, by its identifier.
    pub lure_suggestion: Option<u32>,
    pub hall_of_fame_first: Option<HallOfFameEntry>,
}

/// What the underworld routine reads of the character.
#[derive(Debug, Clone)]
pub struct UnderworldContext {
    pub name: String,
    pub silver: u64,
    pub now: i64,
}

/// The next step in the underworld.
#[derive(Debug, Clone, PartialEq, Eq)]
pub enum UnderworldAction {
    UpgradeFinish { building: UnderworldBuildingType },
    Collect { resource: UnderworldResourceType },
    UpgradeStart { building: UnderworldBuildingType },
    Attack { player_id: u32 },
    ViewPlayer { name: String },
    ViewLureSuggestion { suggestion: u32 },
    UpdateLureSuggestion,
}

/// What the underworld remembers per character: whether the startup
/// harvest check ran, and which lure suggestion was found too strong for
/// which goblin level.
#[derive(Debug, Clone)]
pub struct UnderworldMemory {
    pub collected_on_startup: NameSet,
    pub last_lure_check: NameMap<(u32, u16)>,
}

impl UnderworldMemory {
    pub open spec fn wf(&self) -> bool {
        self.last_lure_check.wf()
    }

    /// Nothing remembered yet.
    pub fn new() -> (r: UnderworldMemory)
        ensures
            r.wf(),
            r.collected_on_startup@ == Set::<Seq<char>>::empty(),
            r.last_lure_check@ == Map::<Seq<char>, (u32, u16)>::empty(),
    {
        UnderworldMemory { collected_on_startup: NameSet::new(), last_lure_check: NameMap::new() }
    }
}

pub open spec fn spec_uw_building(v: UnderworldView, i: int) -> UnderworldBuilding {
    if 0 <= i < v.buildings@.len() {
        v.buildings@[i]
    } else {
        UnderworldBuilding { level: 0, cost_silver: 0, cost_souls: 0 }
    }
}

fn uw_building(v: &UnderworldView, i: usize) -> (r: UnderworldBuilding)
    ensures
        r == spec_uw_building(*v, i as int),
{
    if i < v.buildings.len() {
        v.buildings[i]
    } else {
        UnderworldBuilding { level: 0, cost_silver: 0, cost_souls: 0 }
    }
}

pub open spec fn spec_uw_collectable(v: UnderworldView, p: UnderworldProduction, now: i64, slow: bool) -> int {
    spec_collectable(p.last_collectable, p.per_hour, p.limit, v.last_collectable_update, now, slow)
}

/// Walks the buildings from `i` on and keeps the first one of the lowest
/// level among those that may be upgraded (below the heart of darkness's
/// level and below 15; the heart itself below 15), whose upgrade has a price
/// and is paid for.
pub open spec fn spec_uw_build_scan(
    v: UnderworldView,
    silver: u64,
    i: nat,
    best: Option<(UnderworldBuildingType, u8)>,
) -> Option<UnderworldBuildingType>
    decreases UNDERWORLD_BUILDINGS - i,
{
    if i >= UNDERWORLD_BUILDINGS {
        match best {
            Some((b, _)) => Some(b),
            None => None,
        }
    } else {
        let b = spec_uw_building_at(i as int);
        let info = spec_uw_building(v, i as int);
        let hod = spec_uw_building(v, 0).level;
        let can_upgrade = if b == UnderworldBuildingType::HeartOfDarkness {
            hod < 15
        } else {
            info.level < hod && info.level < 15
        };
        if can_upgrade && (info.cost_silver > 0 || info.cost_souls > 0) && info.cost_silver <= silver
            && info.cost_souls <= v.souls_current && (best matches Some((_, l)) ==> info.level < l) {
            spec_uw_build_scan(v, silver, i + 1, Some((b, info.level)))
        } else {
            spec_uw_build_scan(v, silver, i + 1, best)
        }
    }
}

/// The part of the routine before the startup harvest check: a finished
/// upgrade.
pub open spec fn spec_uw_early(v: UnderworldView, now: i64) -> Option<UnderworldAction> {
    if v.upgrade_building is Some && (v.upgrade_finish matches Some(f) && now >= f) {
        Some(UnderworldAction::UpgradeFinish { building: v.upgrade_building.unwrap() })
    } else {
        None
    }
}

/// Whether the goblin is strong enough for a hero of a level: at least
/// `ratio` thousandths of it.
pub open spec fn spec_goblin_strong_enough(goblin: u16, hero: u16, ratio: u64) -> bool {
    goblin * 1000 >= hero * ratio
}

/// The luring part of the routine, given what was remembered for the
/// character: at most five heroes a day; a suggestion already found too
/// strong for the same goblin level is left alone; a looked-up hero is
/// attacked when the goblin is strong enough; otherwise look the hero up,
/// look at the suggestion, or ask for one.
pub open spec fn spec_lure(v: UnderworldView, remembered: Option<(u32, u16)>, ratio: u64) -> Option<
    UnderworldAction,
> {
    if v.lured_today >= 5 {
        None
    } else {
        match v.lure_suggestion {
            None => Some(UnderworldAction::UpdateLureSuggestion),
            Some(sugg) => if remembered == Some((sugg, v.goblin_level)) {
                None
            } else {
                match v.hall_of_fame_first {
                    None => Some(UnderworldAction::ViewLureSuggestion { suggestion: sugg }),
                    Some(hof) => match hof.looked_up {
                        None => Some(UnderworldAction::ViewPlayer { name: hof.name }),
                        Some((level, player_id)) => if spec_goblin_strong_enough(v.goblin_level, level, ratio) {
                            Some(UnderworldAction::Attack { player_id })
                        } else {
                            None
                        },
                    },
                }
            },
        }
    }
}

/// Whether the luring part records the current suggestion as too strong.
pub open spec fn spec_lure_records(v: UnderworldView, remembered: Option<(u32, u16)>, ratio: u64) -> bool {
    v.lured_today < 5 && v.lure_suggestion is Some && remembered != Some(
        (v.lure_suggestion.unwrap(), v.goblin_level),
    ) && v.hall_of_fame_first is Some && v.hall_of_fame_first.unwrap().looked_up is Some
        && !spec_goblin_strong_enough(
        v.goblin_level,
        v.hall_of_fame_first.unwrap().looked_up.unwrap().0,
        ratio,
    )
}

/// Whether the harvest part gathers a resource.
pub open spec fn spec_uw_gathers(
    v: UnderworldView,
    p: UnderworldProduction,
    producer: UnderworldBuildingType,
    now: i64,
    ratio: u64,
    slow: bool,
) -> bool {
    spec_enough(spec_uw_collectable(v, p, now, slow), p.limit, ratio) && p.limit > 0 && v.upgrade_building
        != Some(producer)
}

/// The next step in the underworld before luring, given whether this is
/// the first check for the character: finish an upgrade; at startup or
/// harvest time, collect souls (unless their store is full), silver or
/// thirst for adventure whose building holds enough; upgrade the lowest
/// upgradable building.
pub open spec fn spec_uw_build_part(
    v: UnderworldView,
    ctx: UnderworldContext,
    cfg: FortressConfig,
    startup: bool,
) -> Option<UnderworldAction> {
    let now = ctx.now;
    let ratio = cfg.harvest_ratio;
    let harvest = startup || spec_is_collect_time(v.last_collectable_update, now, cfg.harvest_check_mins);
    if spec_uw_early(v, now) is Some {
        spec_uw_early(v, now)
    } else if harvest && spec_uw_gathers(v, v.souls, UnderworldBuildingType::SoulExtractor, now, ratio, false)
        && v.souls_current < v.souls_limit {
        Some(UnderworldAction::Collect { resource: UnderworldResourceType::Souls })
    } else if harvest && spec_uw_gathers(v, v.silver, UnderworldBuildingType::GoldPit, now, ratio, false) {
        Some(UnderworldAction::Collect { resource: UnderworldResourceType::Silver })
    } else if harvest && spec_uw_gathers(v, v.thirst, UnderworldBuildingType::Adventuromatic, now, ratio, true) {
        Some(UnderworldAction::Collect { resource: UnderworldResourceType::ThirstForAdventure })
    } else if v.upgrade_building is None && spec_uw_build_scan(v, ctx.silver, 0, None) is Some {
        Some(UnderworldAction::UpgradeStart { building: spec_uw_build_scan(v, ctx.silver, 0, None).unwrap() })
    } else {
        None
    }
}

/// The next step in the underworld.
pub open spec fn spec_underworld_next(
    v: UnderworldView,
    ctx: UnderworldContext,
    cfg: FortressConfig,
    startup: bool,
    remembered: Option<(u32, u16)>,
) -> Option<UnderworldAction> {
    if spec_uw_build_part(v, ctx, cfg, startup) is Some {
        spec_uw_build_part(v, ctx, cfg, startup)
    } else {
        spec_lure(v, remembered, cfg.goblin_hero_ratio)
    }
}

fn uw_gathers(
    v: &UnderworldView,
    p: UnderworldProduction,
    producer: UnderworldBuildingType,
    now: i64,
    ratio: u64,
    slow: bool,
) -> (r: bool)
    ensures
        r == spec_uw_gathers(*v, p, producer, now, ratio, slow),
{
    let c = collectable(p.last_collectable, p.per_hour, p.limit, v.last_collectable_update, now, slow);
    enough(c, p.limit, ratio) && p.limit > 0 && v.upgrade_building != Some(producer)
}

fn uw_build_scan(v: &UnderworldView, silver: u64) -> (r: Option<UnderworldBuildingType>)
    ensures
        r == spec_uw_build_scan(*v, silver, 0, None),
{
    let hod = uw_building(v, 0).level;
    let mut best: Option<(UnderworldBuildingType, u8)> = None;
    let mut i: usize = 0;
    while i < UNDERWORLD_BUILDINGS
        invariant
            i <= UNDERWORLD_BUILDINGS,
            hod == spec_uw_building(*v, 0).level,
            spec_uw_build_scan(*v, silver, 0, None) == spec_uw_build_scan(*v, silver, i as nat, best),
        decreases UNDERWORLD_BUILDINGS - i,
    {
        let b = uw_building_at(i);
        let info = uw_building(v, i);
        let can_upgrade = if b == UnderworldBuildingType::HeartOfDarkness {
            hod < 15
        } else {
            info.level < hod && info.level < 15
        };
        let better = match best {
            Some((_, l)) => info.level < l,
            None => true,
        };
        if can_upgrade && (info.cost_silver > 0 || info.cost_souls > 0) && info.cost_silver <= silver
            && info.cost_souls <= v.souls_current && better {
            best = Some((b, info.level));
        }
        i = i + 1;
    }
    match best {
        Some((b, _)) => Some(b),
        None => None,
    }
}

fn goblin_strong_enough(goblin: u16, hero: u16, ratio: u64) -> (r: bool)
    ensures
        r == spec_goblin_strong_enough(goblin, hero, ratio),
{
    assert((hero as u128) * (ratio as u128) <= 0xFFFF * 0xFFFF_FFFF_FFFF_FFFFu128) by (nonlinear_arith)
        requires
            hero <= 0xFFFFu16,
            ratio <= 0xFFFF_FFFF_FFFF_FFFFu64,
    ;
    (goblin as u128) * 1000 >= (hero as u128) * (ratio as u128)
}

/// The next step in the underworld. The first check for a character
/// harvests whatever is due regardless of the harvest interval; a hero found
/// too strong is remembered with the suggestion and the goblin's level, and
/// not looked at again until either changes.
pub fn underworld_next(
    v: &UnderworldView,
    ctx: &UnderworldContext,
    cfg: &FortressConfig,
    memory: &mut UnderworldMemory,
) -> (r: Option<UnderworldAction>)
    requires
        old(memory).wf(),
        -MAX_INTERVAL_MINS <= cfg.harvest_check_mins <= MAX_INTERVAL_MINS,
    ensures
        final(memory).wf(),
        r == spec_underworld_next(
            *v,
            *ctx,
            *cfg,
            !old(memory).collected_on_startup@.contains(ctx.name@),
            if old(memory).last_lure_check@.contains_key(ctx.name@) {
                Some(old(memory).last_lure_check@[ctx.name@])
            } else {
                None
            },
        ),
        spec_uw_early(*v, ctx.now) is Some ==> final(memory).collected_on_startup@ == old(
            memory,
        ).collected_on_startup@,
        spec_uw_early(*v, ctx.now) is None ==> final(memory).collected_on_startup@ == old(
            memory,
        ).collected_on_startup@.insert(ctx.name@),
        ({
            let startup = !old(memory).collected_on_startup@.contains(ctx.name@);
            let remembered = if old(memory).last_lure_check@.contains_key(ctx.name@) {
                Some(old(memory).last_lure_check@[ctx.name@])
            } else {
                None
            };
            if spec_uw_build_part(*v, *ctx, *cfg, startup) is None && spec_lure_records(
                *v,
                remembered,
                cfg.goblin_hero_ratio,
            ) {
                final(memory).last_lure_check@ == old(memory).last_lure_check@.insert(
                    ctx.name@,
                    (v.lure_suggestion.unwrap(), v.goblin_level),
                )
            } else {
                final(memory).last_lure_check@ == old(memory).last_lure_check@
            }
        }),
{
    let now = ctx.now;
    if let Some(target) = v.upgrade_building {
        if let Some(f) = v.upgrade_finish {
            if now >= f {
                return Some(UnderworldAction::UpgradeFinish { building: target });
            }
        }
    }
    let startup = memory.collected_on_startup.insert(&ctx.name);
    let ratio = cfg.harvest_ratio;
    if startup || is_collect_time(v.last_collectable_update, now, cfg.harvest_check_mins) {
        if uw_gathers(v, v.souls, UnderworldBuildingType::SoulExtractor, now, ratio, false) && v.souls_current
            < v.souls_limit {
            return Some(UnderworldAction::Collect { resource: UnderworldResourceType::Souls });
        }
        if uw_gathers(v, v.silver, UnderworldBuildingType::GoldPit, now, ratio, false) {
            return Some(UnderworldAction::Collect { resource: UnderworldResourceType::Silver });
        }
        if uw_gathers(v, v.thirst, UnderworldBuildingType::Adventuromatic, now, ratio, true) {
            return Some(UnderworldAction::Collect { resource: UnderworldResourceType::ThirstForAdventure });
        }
    }
    if v.upgrade_building.is_none() {
        if let Some(b) = uw_build_scan(v, ctx.silver) {
            return Some(UnderworldAction::UpgradeStart { building: b });
        }
    }
    if v.lured_today >= 5 {
        return None;
    }
    let sugg = match v.lure_suggestion {
        None => {
            return Some(UnderworldAction::UpdateLureSuggestion);
        },
        Some(s) => s,
    };
    if memory.last_lure_check.get(&ctx.name) == Some((sugg, v.goblin_level)) {
        return None;
    }
    match &v.hall_of_fame_first {
        None => Some(UnderworldAction::ViewLureSuggestion { suggestion: sugg }),
        Some(hof) => match hof.looked_up {
            None => Some(UnderworldAction::ViewPlayer { name: hof.name.clone() }),
            Some((level, player_id)) => {
                if goblin_strong_enough(v.goblin_level, level, cfg.goblin_hero_ratio) {
                    Some(UnderworldAction::Attack { player_id })
                } else {
                    memory.last_lure_check.insert(&ctx.name, (sugg, v.goblin_level));
                    None
                }
            },
        },
    }
}

/// The goblin attacks only a hero it has looked up and whose level it
/// reaches at least `goblin_hero_ratio` thousandths of.
pub proof fn law_goblin_attacks_weaker_heroes(
    v: UnderworldView,
    ctx: UnderworldContext,
    cfg: FortressConfig,
    startup: bool,
    remembered: Option<(u32, u16)>,
)
    requires
        spec_underworld_next(v, ctx, cfg, startup, remembered) matches Some(UnderworldAction::Attack { .. }),
    ensures
        ({
            let id = spec_underworld_next(v, ctx, cfg, startup, remembered).unwrap()->Attack_player_id;
            &&& v.lured_today < 5
            &&& v.hall_of_fame_first is Some
            &&& v.hall_of_fame_first.unwrap().looked_up matches Some((level, player_id)) && player_id == id
                && v.goblin_level * 1000 >= level * cfg.goblin_hero_ratio
        }),
{
}

/// A suggestion recorded as too strong is left alone while neither it nor
/// the goblin's level changes: the next check for it does nothing.
pub proof fn law_strong_hero_left_alone(v: UnderworldView, remembered: Option<(u32, u16)>, ratio: u64)
    requires
        spec_lure_records(v, remembered, ratio),
    ensures
        spec_lure(v, Some((v.lure_suggestion.unwrap(), v.goblin_level)), ratio) is None,
{
}

/// The production of a resource, its building, and whether it runs slow.
pub open spec fn spec_production_of(v: UnderworldView, r: UnderworldResourceType) -> (
    UnderworldProduction,
    UnderworldBuildingType,
    bool,
) {
    match r {
        UnderworldResourceType::Souls => (v.souls, UnderworldBuildingType::SoulExtractor, false),
        UnderworldResourceType::Silver => (v.silver, UnderworldBuildingType::GoldPit, false),
        UnderworldResourceType::ThirstForAdventure => (v.thirst, UnderworldBuildingType::Adventuromatic, true),
    }
}

/// A resource is collected only at the startup check or at harvest time,
/// and only when its building holds at least `harvest_ratio` thousandths of
/// its limit and is not being upgraded; souls only while their store has
/// room.
pub proof fn law_underworld_collects_when_due(
    v: UnderworldView,
    ctx: UnderworldContext,
    cfg: FortressConfig,
    startup: bool,
    remembered: Option<(u32, u16)>,
)
    requires
        spec_underworld_next(v, ctx, cfg, startup, remembered) matches Some(UnderworldAction::Collect { .. }),
    ensures
        ({
            let res = spec_underworld_next(v, ctx, cfg, startup, remembered).unwrap()->Collect_resource;
            let (p, producer, slow) = spec_production_of(v, res);
            &&& startup || spec_is_collect_time(v.last_collectable_update, ctx.now, cfg.harvest_check_mins)
            &&& spec_enough(spec_uw_collectable(v, p, ctx.now, slow), p.limit, cfg.harvest_ratio)
            &&& p.limit > 0
            &&& v.upgrade_building != Some(producer)
            &&& res == UnderworldResourceType::Souls ==> v.souls_current < v.souls_limit
        }),
{
}

proof fn lemma_uw_build_scan_pays(v: UnderworldView, silver: u64, i: nat, best: Option<(UnderworldBuildingType, u8)>)
    requires
        best matches Some((b, _)) ==> exists|k: int|
            0 <= k < UNDERWORLD_BUILDINGS && #[trigger] spec_uw_building_at(k) == b && spec_uw_building(v, k).cost_silver
                <= silver && spec_uw_building(v, k).cost_souls <= v.souls_current,
    ensures
        spec_uw_build_scan(v, silver, i, best) matches Some(b) ==> exists|k: int|
            0 <= k < UNDERWORLD_BUILDINGS && #[trigger] spec_uw_building_at(k) == b && spec_uw_building(v, k).cost_silver
                <= silver && spec_uw_building(v, k).cost_souls <= v.souls_current,
    decreases UNDERWORLD_BUILDINGS - i,
{
    if i < UNDERWORLD_BUILDINGS {
        let b = spec_uw_building_at(i as int);
        let info = spec_uw_building(v, i as int);
        let hod = spec_uw_building(v, 0).level;
        let can_upgrade = if b == UnderworldBuildingType::HeartOfDarkness {
            hod < 15
        } else {
            info.level < hod && info.level < 15
        };
        let picked = can_upgrade && (info.cost_silver > 0 || info.cost_souls > 0) && info.cost_silver <= silver
            && info.cost_souls <= v.souls_current && (best matches Some((_, l)) ==> info.level < l);
        if picked {
            assert(spec_uw_building_at(i as int) == b);
            lemma_uw_build_scan_pays(v, silver, i + 1, Some((b, info.level)));
        } else {
            lemma_uw_build_scan_pays(v, silver, i + 1, best);
        }
    }
}

/// An underworld upgrade is started only when the character's silver and
/// the souls in store pay for it.
pub proof fn law_underworld_upgrade_paid(
    v: UnderworldView,
    ctx: UnderworldContext,
    cfg: FortressConfig,
    startup: bool,
    remembered: Option<(u32, u16)>,
)
    requires
        spec_underworld_next(v, ctx, cfg, startup, remembered) matches Some(UnderworldAction::UpgradeStart { .. }),
    ensures
        ({
            let b = spec_underworld_next(v, ctx, cfg, startup, remembered).unwrap()->UpgradeStart_building;
            forall|k: int|
                0 <= k < UNDERWORLD_BUILDINGS && #[trigger] spec_uw_building_at(k) == b ==> spec_uw_building(v, k).cost_silver
                    <= ctx.silver && spec_uw_building(v, k).cost_souls <= v.souls_current
        }),
{
    lemma_uw_build_scan_pays(v, ctx.silver, 0, None);
    let b = spec_underworld_next(v, ctx, cfg, startup, remembered).unwrap()->UpgradeStart_building;
    assert(spec_uw_build_scan(v, ctx.silver, 0, None) == Some(b));
    let k0 = choose|k: int|
        0 <= k < UNDERWORLD_BUILDINGS && #[trigger] spec_uw_building_at(k) == b && spec_uw_building(v, k).cost_silver
            <= ctx.silver && spec_uw_building(v, k).cost_souls <= v.souls_current;
    assert forall|k: int| 0 <= k < UNDERWORLD_BUILDINGS && #[trigger] spec_uw_building_at(k) == b implies k == k0 by {
    }
}

} // verus!
