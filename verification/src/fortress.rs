//! The fortress: finishing constructions and gem searches, harvesting,
//! training and upgrading units, the hall of knights, new buildings and gem
//! searches.

use vstd::prelude::*;

use crate::config::FortressConfig;
use crate::harvest::{
    collectable, enough, is_collect_time, spec_collectable, spec_enough, spec_is_collect_time,
    MAX_INTERVAL_MINS,
};
use crate::memory::NameSet;

verus! {

/// A building of the fortress, in the game's order.
#[derive(Debug, Clone, Copy, PartialEq, Eq, Structural)]
pub enum FortressBuildingType {
    Fortress,
    LaborersQuarters,
    WoodcuttersHut,
    Quarry,
    GemMine,
    Academy,
    ArcheryGuild,
    Barracks,
    MagesTower,
    Treasury,
    Smithy,
    Wall,
}

/// The number of fortress buildings.
pub const FORTRESS_BUILDINGS: usize = 12;

pub open spec fn spec_building_index(b: FortressBuildingType) -> int {
    match b {
        FortressBuildingType::Fortress => 0,
        FortressBuildingType::LaborersQuarters => 1,
        FortressBuildingType::WoodcuttersHut => 2,
        FortressBuildingType::Quarry => 3,
        FortressBuildingType::GemMine => 4,
        FortressBuildingType::Academy => 5,
        FortressBuildingType::ArcheryGuild => 6,
        FortressBuildingType::Barracks => 7,
        FortressBuildingType::MagesTower => 8,
        FortressBuildingType::Treasury => 9,
        FortressBuildingType::Smithy => 10,
        FortressBuildingType::Wall => 11,
    }
}

pub open spec fn spec_building_at(i: int) -> FortressBuildingType {
    if i == 0 {
        FortressBuildingType::Fortress
    } else if i == 1 {
        FortressBuildingType::LaborersQuarters
    } else if i == 2 {
        FortressBuildingType::WoodcuttersHut
    } else if i == 3 {
        FortressBuildingType::Quarry
    } else if i == 4 {
        FortressBuildingType::GemMine
    } else if i == 5 {
        FortressBuildingType::Academy
    } else if i == 6 {
        FortressBuildingType::ArcheryGuild
    } else if i == 7 {
        FortressBuildingType::Barracks
    } else if i == 8 {
        FortressBuildingType::MagesTower
    } else if i == 9 {
        FortressBuildingType::Treasury
    } else if i == 10 {
        FortressBuildingType::Smithy
    } else {
        FortressBuildingType::Wall
    }
}

fn building_index(b: FortressBuildingType) -> (r: usize)
    ensures
        r == spec_building_index(b),
        r < FORTRESS_BUILDINGS,
{
    match b {
        FortressBuildingType::Fortress => 0,
        FortressBuildingType::LaborersQuarters => 1,
        FortressBuildingType::WoodcuttersHut => 2,
        FortressBuildingType::Quarry => 3,
        FortressBuildingType::GemMine => 4,
        FortressBuildingType::Academy => 5,
        FortressBuildingType::ArcheryGuild => 6,
        FortressBuildingType::Barracks => 7,
        FortressBuildingType::MagesTower => 8,
        FortressBuildingType::Treasury => 9,
        FortressBuildingType::Smithy => 10,
        FortressBuildingType::Wall => 11,
    }
}

fn building_at(i: usize) -> (r: FortressBuildingType)
    requires
        i < FORTRESS_BUILDINGS,
    ensures
        r == spec_building_at(i as int),
{
    if i == 0 {
        FortressBuildingType::Fortress
    } else if i == 1 {
        FortressBuildingType::LaborersQuarters
    } else if i == 2 {
        FortressBuildingType::WoodcuttersHut
    } else if i == 3 {
        FortressBuildingType::Quarry
    } else if i == 4 {
        FortressBuildingType::GemMine
    } else if i == 5 {
        FortressBuildingType::Academy
    } else if i == 6 {
        FortressBuildingType::ArcheryGuild
    } else if i == 7 {
        FortressBuildingType::Barracks
    } else if i == 8 {
        FortressBuildingType::MagesTower
    } else if i == 9 {
        FortressBuildingType::Treasury
    } else if i == 10 {
        FortressBuildingType::Smithy
    } else {
        FortressBuildingType::Wall
    }
}

/// A unit the fortress trains, in the game's order.
#[derive(Debug, Clone, Copy, PartialEq, Eq, Structural)]
pub enum FortressUnitType {
    Soldier,
    Magician,
    Archer,
}

pub open spec fn spec_unit_at(i: int) -> FortressUnitType {
    if i == 0 {
        FortressUnitType::Soldier
    } else if i == 1 {
        FortressUnitType::Magician
    } else {
        FortressUnitType::Archer
    }
}

fn unit_at(i: usize) -> (r: FortressUnitType)
    requires
        i < 3,
    ensures
        r == spec_unit_at(i as int),
{
    if i == 0 {
        FortressUnitType::Soldier
    } else if i == 1 {
        FortressUnitType::Magician
    } else {
        FortressUnitType::Archer
    }
}

/// The building that trains a unit.
pub open spec fn spec_training_building(u: FortressUnitType) -> FortressBuildingType {
    match u {
        FortressUnitType::Archer => FortressBuildingType::ArcheryGuild,
        FortressUnitType::Magician => FortressBuildingType::MagesTower,
        FortressUnitType::Soldier => FortressBuildingType::Barracks,
    }
}

/// The building that trains a unit.
pub fn training_building(u: FortressUnitType) -> (r: FortressBuildingType)
    ensures
        r == spec_training_building(u),
{
    match u {
        FortressUnitType::Archer => FortressBuildingType::ArcheryGuild,
        FortressUnitType::Magician => FortressBuildingType::MagesTower,
        FortressUnitType::Soldier => FortressBuildingType::Barracks,
    }
}

/// A resource of the fortress.
#[derive(Debug, Clone, Copy, PartialEq, Eq, Structural)]
pub enum FortressResourceType {
    Wood,
    Stone,
    Experience,
}

/// A price in the fortress.
#[derive(Debug, Clone, Copy, PartialEq, Eq, Structural)]
pub struct FortressCost {
    pub wood: u64,
    pub stone: u64,
    pub silver: u64,
}

/// A building's level and whether the game client allows building or
/// upgrading it now with the character's silver.
#[derive(Debug, Clone, Copy, PartialEq, Eq, Structural)]
pub struct FortressBuilding {
    pub level: u16,
    pub can_build: bool,
}

/// A unit type: its troops, its limit and its next upgrade.
#[derive(Debug, Clone, Copy, PartialEq, Eq, Structural)]
pub struct FortressUnit {
    pub count: u16,
    pub in_training: u16,
    pub limit: u16,
    pub training_cost: FortressCost,
    pub upgrade_cost: FortressCost,
    pub upgrade_next_lvl: u64,
}

/// A resource: the stock and its limit, and the building producing it.
#[derive(Debug, Clone, Copy, PartialEq, Eq, Structural)]
pub struct FortressResource {
    pub current: u64,
    pub limit: u64,
    pub last_collectable: u64,
    pub production_limit: u64,
    pub per_hour: u64,
}

/// What the fortress routine reads of the fortress.
#[derive(Debug, Clone)]
pub struct FortressView {
    /// The buildings in the game's order.
    pub buildings: Vec<FortressBuilding>,
    pub soldier: FortressUnit,
    pub magician: FortressUnit,
    pub archer: FortressUnit,
    pub wood: FortressResource,
    pub stone: FortressResource,
    pub experience: FortressResource,
    pub last_collectable_updated: Option<i64>,
    pub building_max_lvl: u8,
    pub upgrade_target: Option<FortressBuildingType>,
    pub upgrade_finish: Option<i64>,
    pub gem_search_finish: Option<i64>,
    pub gem_search_cost: FortressCost,
    pub hall_of_knights_level: u16,
    pub hall_of_knights_upgrade_price: FortressCost,
}

/// What the fortress routine reads of the character.
#[derive(Debug, Clone)]
pub struct FortressContext {
    pub name: String,
    pub silver: u64,
    pub free_slots: usize,
    pub in_guild: bool,
    pub now: i64,
}

/// The next step in the fortress.
#[derive(Debug, Clone, Copy, PartialEq, Eq, Structural)]
pub enum FortressAction {
    BuildFinish { building: FortressBuildingType },
    GemSearchFinish,
    Gather { resource: FortressResourceType },
    BuildUnit { unit: FortressUnitType, count: u32 },
    UpgradeUnit { unit: FortressUnitType },
    UpgradeHallOfKnights,
    Build { building: FortressBuildingType },
    GemSearch,
}

/// A building (level 0 and not buildable where the list has no entry).
pub open spec fn spec_building(v: FortressView, b: FortressBuildingType) -> FortressBuilding {
    if spec_building_index(b) < v.buildings@.len() {
        v.buildings@[spec_building_index(b)]
    } else {
        FortressBuilding { level: 0, can_build: false }
    }
}

fn building(v: &FortressView, b: FortressBuildingType) -> (r: FortressBuilding)
    ensures
        r == spec_building(*v, b),
{
    let i = building_index(b);
    if i < v.buildings.len() {
        v.buildings[i]
    } else {
        FortressBuilding { level: 0, can_build: false }
    }
}

pub open spec fn spec_unit(v: FortressView, u: FortressUnitType) -> FortressUnit {
    match u {
        FortressUnitType::Soldier => v.soldier,
        FortressUnitType::Magician => v.magician,
        FortressUnitType::Archer => v.archer,
    }
}

fn unit(v: &FortressView, u: FortressUnitType) -> (r: FortressUnit)
    ensures
        r == spec_unit(*v, u),
{
    match u {
        FortressUnitType::Soldier => v.soldier,
        FortressUnitType::Magician => v.magician,
        FortressUnitType::Archer => v.archer,
    }
}

/// What a resource's building holds now.
pub open spec fn spec_resource_collectable(v: FortressView, r: FortressResource, now: i64) -> int {
    spec_collectable(
        r.last_collectable,
        r.per_hour,
        r.production_limit,
        v.last_collectable_updated,
        now,
        false,
    )
}

/// Whether a resource is harvested: its building holds enough, it has a
/// production limit, it is not being upgraded, and (for wood and stone) the
/// store is not full.
pub open spec fn spec_should_gather(
    v: FortressView,
    r: FortressResource,
    producer: FortressBuildingType,
    check_store: bool,
    now: i64,
    ratio: u64,
) -> bool {
    spec_enough(spec_resource_collectable(v, r, now), r.production_limit, ratio) && r.production_limit
        > 0 && (!check_store || r.current < r.limit) && v.upgrade_target != Some(producer)
}

fn should_gather(
    v: &FortressView,
    r: FortressResource,
    producer: FortressBuildingType,
    check_store: bool,
    now: i64,
    ratio: u64,
) -> (b: bool)
    ensures
        b == spec_should_gather(*v, r, producer, check_store, now, ratio),
{
    let c = collectable(r.last_collectable, r.per_hour, r.production_limit, v.last_collectable_updated, now, false);
    enough(c, r.production_limit, ratio) && r.production_limit > 0 && (!check_store || r.current < r.limit)
        && v.upgrade_target != Some(producer)
}

pub open spec fn spec_min_u32(a: u32, b: u32) -> u32 {
    if a < b {
        a
    } else {
        b
    }
}

/// How many units of a type to train: up to its limit and as many as wood,
/// stone and silver pay for (each quotient taken as a `u32`).
pub open spec fn spec_training_count(v: FortressView, u: FortressUnit, silver: u64) -> u32 {
    let t0 = (u.limit - (u.count + u.in_training)) as u32;
    let cost = u.training_cost;
    let t1 = if cost.wood > 0 {
        spec_min_u32(t0, (v.wood.current / cost.wood) as u32)
    } else {
        t0
    };
    let t2 = if cost.stone > 0 {
        spec_min_u32(t1, (v.stone.current / cost.stone) as u32)
    } else {
        t1
    };
    if cost.silver > 0 {
        spec_min_u32(t2, (silver / cost.silver) as u32)
    } else {
        t2
    }
}

/// The training order for a unit type, if one is due: its building is not
/// being upgraded, it is below its limit and some can be paid for.
pub open spec fn spec_train(v: FortressView, u: FortressUnitType, silver: u64) -> Option<FortressAction> {
    let unit = spec_unit(v, u);
    if v.upgrade_target == Some(spec_training_building(u)) {
        None
    } else if unit.count + unit.in_training < unit.limit && spec_training_count(v, unit, silver) > 0 {
        Some(FortressAction::BuildUnit { unit: u, count: spec_training_count(v, unit, silver) })
    } else {
        None
    }
}

pub open spec fn spec_train_from(v: FortressView, silver: u64, i: nat) -> Option<FortressAction>
    decreases 3 - i,
{
    if i >= 3 {
        None
    } else {
        match spec_train(v, spec_unit_at(i as int), silver) {
            Some(a) => Some(a),
            None => spec_train_from(v, silver, i + 1),
        }
    }
}

/// The highest unit level a smithy of a given level allows.
pub open spec fn spec_smithy_max_level(smithy: u16) -> int {
    if smithy == 0 {
        0
    } else if smithy == 1 {
        28
    } else if smithy == 2 {
        30
    } else if smithy == 3 {
        35
    } else if smithy == 4 {
        40
    } else if smithy == 5 {
        45
    } else if smithy == 6 {
        50
    } else if smithy == 7 {
        55
    } else if smithy == 8 {
        62
    } else if smithy == 9 {
        70
    } else if smithy == 10 {
        77
    } else {
        5 * smithy + 30
    }
}

fn smithy_max_level(smithy: u16) -> (r: u64)
    ensures
        r == spec_smithy_max_level(smithy),
{
    if smithy == 0 {
        0
    } else if smithy == 1 {
        28
    } else if smithy == 2 {
        30
    } else if smithy == 3 {
        35
    } else if smithy == 4 {
        40
    } else if smithy == 5 {
        45
    } else if smithy == 6 {
        50
    } else if smithy == 7 {
        55
    } else if smithy == 8 {
        62
    } else if smithy == 9 {
        70
    } else if smithy == 10 {
        77
    } else {
        5 * (smithy as u64) + 30
    }
}

/// Whether the stock and the silver pay a price.
pub open spec fn spec_affords(v: FortressView, cost: FortressCost, silver: u64) -> bool {
    cost.wood <= v.wood.current && cost.stone <= v.stone.current && cost.silver <= silver
}

/// A unit upgrade at the smithy, if one is due: its training building
/// stands, the upgrade costs wood and stone, the smithy's level allows the
/// next unit level, and it is paid for.
pub open spec fn spec_upgrade_unit(v: FortressView, u: FortressUnitType, silver: u64) -> bool {
    let unit = spec_unit(v, u);
    let cost = unit.upgrade_cost;
    spec_building(v, spec_training_building(u)).level > 0 && cost.wood > 0 && cost.stone > 0
        && unit.upgrade_next_lvl <= spec_smithy_max_level(spec_building(v, FortressBuildingType::Smithy).level)
        && spec_affords(v, cost, silver)
}

pub open spec fn spec_upgrade_unit_from(v: FortressView, silver: u64, i: nat) -> Option<FortressUnitType>
    decreases 3 - i,
{
    if i >= 3 {
        None
    } else if spec_upgrade_unit(v, spec_unit_at(i as int), silver) {
        Some(spec_unit_at(i as int))
    } else {
        spec_upgrade_unit_from(v, silver, i + 1)
    }
}

/// The hall of knights is upgraded, for a guild member, below the fortress
/// level and the highest building level, when the upgrade costs wood or
/// stone and is paid for.
pub open spec fn spec_upgrade_hall(v: FortressView, ctx: FortressContext) -> bool {
    let hok = v.hall_of_knights_upgrade_price;
    let hkl = v.hall_of_knights_level;
    ctx.in_guild && hkl < spec_building(v, FortressBuildingType::Fortress).level && hkl
        < v.building_max_lvl && (hok.wood > 0 || hok.stone > 0) && spec_affords(v, hok, ctx.silver)
}

/// Walks the buildings from `i` on and keeps the first one of the lowest
/// level among those the game allows and that are below the highest level.
pub open spec fn spec_build_scan(v: FortressView, i: nat, best: Option<(FortressBuildingType, u16)>) -> Option<
    FortressBuildingType,
>
    decreases FORTRESS_BUILDINGS - i,
{
    if i >= FORTRESS_BUILDINGS {
        match best {
            Some((b, _)) => Some(b),
            None => None,
        }
    } else {
        let b = spec_building_at(i as int);
        let info = spec_building(v, b);
        if info.can_build && info.level < v.building_max_lvl && (best matches Some((_, l)) ==> info.level
            < l) {
            spec_build_scan(v, i + 1, Some((b, info.level)))
        } else {
            spec_build_scan(v, i + 1, best)
        }
    }
}

/// The instants of the fortress's constructions that are over.
pub open spec fn spec_finished(at: Option<i64>, now: i64) -> bool {
    at matches Some(f) && now >= f
}

/// The part of the routine that runs only until the startup harvest check:
/// a finished construction, then a finished gem search (when the bag has
/// room).
pub open spec fn spec_fortress_early(v: FortressView, ctx: FortressContext) -> Option<FortressAction> {
    if v.upgrade_target is Some && spec_finished(v.upgrade_finish, ctx.now) {
        Some(FortressAction::BuildFinish { building: v.upgrade_target.unwrap() })
    } else if spec_building(v, FortressBuildingType::GemMine).level > 0 && spec_finished(
        v.gem_search_finish,
        ctx.now,
    ) && ctx.free_slots > 0 {
        Some(FortressAction::GemSearchFinish)
    } else {
        None
    }
}

/// The next step in the fortress, given whether this is the first check
/// for the character since the bot started: finish a construction; finish a
/// gem search; at startup or harvest time, gather wood, stone or experience
/// whose building holds enough; train units; upgrade units at the smithy;
/// upgrade the hall of knights; start the lowest buildable building; start
/// a gem search.
pub open spec fn spec_fortress_next(
    v: FortressView,
    ctx: FortressContext,
    cfg: FortressConfig,
    startup: bool,
) -> Option<FortressAction> {
    let now = ctx.now;
    let ratio = cfg.harvest_ratio;
    if spec_fortress_early(v, ctx) is Some {
        spec_fortress_early(v, ctx)
    } else if (startup || spec_is_collect_time(v.last_collectable_updated, now, cfg.harvest_check_mins))
        && spec_should_gather(v, v.wood, FortressBuildingType::WoodcuttersHut, true, now, ratio) {
        Some(FortressAction::Gather { resource: FortressResourceType::Wood })
    } else if (startup || spec_is_collect_time(v.last_collectable_updated, now, cfg.harvest_check_mins))
        && spec_should_gather(v, v.stone, FortressBuildingType::Quarry, true, now, ratio) {
        Some(FortressAction::Gather { resource: FortressResourceType::Stone })
    } else if (startup || spec_is_collect_time(v.last_collectable_updated, now, cfg.harvest_check_mins))
        && spec_should_gather(v, v.experience, FortressBuildingType::Academy, false, now, ratio) {
        Some(FortressAction::Gather { resource: FortressResourceType::Experience })
    } else if spec_train_from(v, ctx.silver, 0) is Some {
        spec_train_from(v, ctx.silver, 0)
    } else if spec_building(v, FortressBuildingType::Smithy).level > 0 && spec_upgrade_unit_from(
        v,
        ctx.silver,
        0,
    ) is Some {
        Some(FortressAction::UpgradeUnit { unit: spec_upgrade_unit_from(v, ctx.silver, 0).unwrap() })
    } else if spec_upgrade_hall(v, ctx) {
        Some(FortressAction::UpgradeHallOfKnights)
    } else if v.upgrade_target is None && spec_build_scan(v, 0, None) is Some {
        Some(FortressAction::Build { building: spec_build_scan(v, 0, None).unwrap() })
    } else if spec_building(v, FortressBuildingType::GemMine).level > 0 && v.gem_search_finish is None
        && v.upgrade_target != Some(FortressBuildingType::GemMine) && spec_affords(
        v,
        v.gem_search_cost,
        ctx.silver,
    ) {
        Some(FortressAction::GemSearch)
    } else {
        None
    }
}

fn finished(at: Option<i64>, now: i64) -> (r: bool)
    ensures
        r == spec_finished(at, now),
{
    match at {
        Some(f) => now >= f,
        None => false,
    }
}

fn affords(v: &FortressView, cost: FortressCost, silver: u64) -> (r: bool)
    ensures
        r == spec_affords(*v, cost, silver),
{
    cost.wood <= v.wood.current && cost.stone <= v.stone.current && cost.silver <= silver
}

fn min_u32(a: u32, b: u32) -> (r: u32)
    ensures
        r == spec_min_u32(a, b),
{
    if a < b {
        a
    } else {
        b
    }
}

fn train(v: &FortressView, u: FortressUnitType, silver: u64) -> (r: Option<FortressAction>)
    ensures
        r == spec_train(*v, u, silver),
{
    let unit = unit(v, u);
    if v.upgrade_target == Some(training_building(u)) {
        return None;
    }
    let total = unit.count as u32 + unit.in_training as u32;
    if total >= unit.limit as u32 {
        return None;
    }
    let cost = unit.training_cost;
    let mut to_train: u32 = (unit.limit as u32 - total) as u32;
    if cost.wood > 0 {
        to_train = min_u32(to_train, (v.wood.current / cost.wood) as u32);
    }
    if cost.stone > 0 {
        to_train = min_u32(to_train, (v.stone.current / cost.stone) as u32);
    }
    if cost.silver > 0 {
        to_train = min_u32(to_train, (silver / cost.silver) as u32);
    }
    assert(to_train == spec_training_count(*v, unit, silver));
    if to_train > 0 {
        Some(FortressAction::BuildUnit { unit: u, count: to_train })
    } else {
        None
    }
}

fn upgrade_unit(v: &FortressView, u: FortressUnitType, silver: u64) -> (r: bool)
    ensures
        r == spec_upgrade_unit(*v, u, silver),
{
    let unit = unit(v, u);
    let cost = unit.upgrade_cost;
    building(v, training_building(u)).level > 0 && cost.wood > 0 && cost.stone > 0 && unit.upgrade_next_lvl
        <= smithy_max_level(building(v, FortressBuildingType::Smithy).level) && affords(v, cost, silver)
}

fn upgrade_hall(v: &FortressView, ctx: &FortressContext) -> (r: bool)
    ensures
        r == spec_upgrade_hall(*v, *ctx),
{
    let hok = v.hall_of_knights_upgrade_price;
    let hkl = v.hall_of_knights_level;
    ctx.in_guild && hkl < building(v, FortressBuildingType::Fortress).level && hkl < v.building_max_lvl as u16
        && (hok.wood > 0 || hok.stone > 0) && affords(v, hok, ctx.silver)
}

fn build_scan(v: &FortressView) -> (r: Option<FortressBuildingType>)
    ensures
        r == spec_build_scan(*v, 0, None),
{
    let mut best: Option<(FortressBuildingType, u16)> = None;
    let mut i: usize = 0;
    while i < FORTRESS_BUILDINGS
        invariant
            i <= FORTRESS_BUILDINGS,
            spec_build_scan(*v, 0, None) == spec_build_scan(*v, i as nat, best),
        decreases FORTRESS_BUILDINGS - i,
    {
        let b = building_at(i);
        let info = building(v, b);
        let better = match best {
            Some((_, l)) => info.level < l,
            None => true,
        };
        if info.can_build && info.level < v.building_max_lvl as u16 && better {
            best = Some((b, info.level));
        }
        i = i + 1;
    }
    match best {
        Some((b, _)) => Some(b),
        None => None,
    }
}

/// What happens when the fortress routine starts.
#[derive(Debug, Clone, Copy, PartialEq, Eq, Structural)]
pub enum FortressStart {
    /// Below level 25 the fortress is left alone.
    Skip,
    /// The fortress has not been built yet: build the fortress itself and stop.
    Initialize,
    /// Run the routine.
    Run,
}

/// How the fortress routine starts: nothing below level 25; a first build
/// when there is no fortress or its highest building level is 0; otherwise
/// the routine runs.
pub fn fortress_start(level: u16, fortress: Option<&FortressView>) -> (r: FortressStart)
    ensures
        level < 25 ==> r == FortressStart::Skip,
        level >= 25 && (fortress is None || fortress.unwrap().building_max_lvl == 0) ==> r
            == FortressStart::Initialize,
        level >= 25 && fortress is Some && fortress.unwrap().building_max_lvl != 0 ==> r == FortressStart::Run,
{
    if level < 25 {
        return FortressStart::Skip;
    }
    match fortress {
        None => FortressStart::Initialize,
        Some(f) => if f.building_max_lvl == 0 {
            FortressStart::Initialize
        } else {
            FortressStart::Run
        },
    }
}

/// The next step in the fortress. The first call for a character (the
/// startup check) harvests whatever is due regardless of the harvest
/// interval; `seen` keeps the characters already checked.
#[verifier::loop_isolation(false)]
pub fn fortress_next(v: &FortressView, ctx: &FortressContext, cfg: &FortressConfig, seen: &mut NameSet) -> (r:
    Option<FortressAction>)
    requires
        -MAX_INTERVAL_MINS <= cfg.harvest_check_mins <= MAX_INTERVAL_MINS,
    ensures
        r == spec_fortress_next(*v, *ctx, *cfg, !old(seen)@.contains(ctx.name@)),
        spec_fortress_early(*v, *ctx) is Some ==> final(seen)@ == old(seen)@,
        spec_fortress_early(*v, *ctx) is None ==> final(seen)@ == old(seen)@.insert(ctx.name@),
{
    let now = ctx.now;
    if let Some(target) = v.upgrade_target {
        if finished(v.upgrade_finish, now) {
            return Some(FortressAction::BuildFinish { building: target });
        }
    }
    let gem_mine = building(v, FortressBuildingType::GemMine);
    if gem_mine.level > 0 && finished(v.gem_search_finish, now) && ctx.free_slots > 0 {
        return Some(FortressAction::GemSearchFinish);
    }
    let startup = seen.insert(&ctx.name);
    let ratio = cfg.harvest_ratio;
    if startup || is_collect_time(v.last_collectable_updated, now, cfg.harvest_check_mins) {
        if should_gather(v, v.wood, FortressBuildingType::WoodcuttersHut, true, now, ratio) {
            return Some(FortressAction::Gather { resource: FortressResourceType::Wood });
        }
        if should_gather(v, v.stone, FortressBuildingType::Quarry, true, now, ratio) {
            return Some(FortressAction::Gather { resource: FortressResourceType::Stone });
        }
        if should_gather(v, v.experience, FortressBuildingType::Academy, false, now, ratio) {
            return Some(FortressAction::Gather { resource: FortressResourceType::Experience });
        }
    }
    let mut i: usize = 0;
    while i < 3
        invariant
            i <= 3,
            spec_train_from(*v, ctx.silver, 0) == spec_train_from(*v, ctx.silver, i as nat),
        decreases 3 - i,
    {
        let t = train(v, unit_at(i), ctx.silver);
        if t.is_some() {
            return t;
        }
        i = i + 1;
    }
    if building(v, FortressBuildingType::Smithy).level > 0 {
        let mut k: usize = 0;
        while k < 3
            invariant
                k <= 3,
                spec_upgrade_unit_from(*v, ctx.silver, 0) == spec_upgrade_unit_from(*v, ctx.silver, k as nat),
            decreases 3 - k,
        {
            let u = unit_at(k);
            if upgrade_unit(v, u, ctx.silver) {
                return Some(FortressAction::UpgradeUnit { unit: u });
            }
            k = k + 1;
        }
    }
    if upgrade_hall(v, ctx) {
        return Some(FortressAction::UpgradeHallOfKnights);
    }
    if v.upgrade_target.is_none() {
        if let Some(b) = build_scan(v) {
            return Some(FortressAction::Build { building: b });
        }
    }
    if gem_mine.level > 0 && v.gem_search_finish.is_none() && v.upgrade_target != Some(
        FortressBuildingType::GemMine,
    ) && affords(v, v.gem_search_cost, ctx.silver) {
        return Some(FortressAction::GemSearch);
    }
    None
}

/// The stock of a resource and the building that produces it.
pub open spec fn spec_resource_of(v: FortressView, r: FortressResourceType) -> (FortressResource, FortressBuildingType) {
    match r {
        FortressResourceType::Wood => (v.wood, FortressBuildingType::WoodcuttersHut),
        FortressResourceType::Stone => (v.stone, FortressBuildingType::Quarry),
        FortressResourceType::Experience => (v.experience, FortressBuildingType::Academy),
    }
}

proof fn lemma_train_from_trains(v: FortressView, silver: u64, i: nat)
    ensures
        spec_train_from(v, silver, i) matches Some(a) ==> a is BuildUnit,
    decreases 3 - i,
{
    if i < 3 {
        lemma_train_from_trains(v, silver, i + 1);
    }
}

/// A resource is gathered only at the startup check or at harvest time,
/// and only when its building holds at least `harvest_ratio` thousandths of
/// its production limit and is not being upgraded.
pub proof fn law_fortress_gathers_when_due(v: FortressView, ctx: FortressContext, cfg: FortressConfig, startup: bool)
    requires
        spec_fortress_next(v, ctx, cfg, startup) matches Some(FortressAction::Gather { .. }),
    ensures
        ({
            let res = spec_fortress_next(v, ctx, cfg, startup).unwrap()->Gather_resource;
            let (r, producer) = spec_resource_of(v, res);
            &&& startup || spec_is_collect_time(v.last_collectable_updated, ctx.now, cfg.harvest_check_mins)
            &&& spec_enough(spec_resource_collectable(v, r, ctx.now), r.production_limit, cfg.harvest_ratio)
            &&& r.production_limit > 0
            &&& v.upgrade_target != Some(producer)
        }),
{
    lemma_train_from_trains(v, ctx.silver, 0);
}

/// Only the first check after start harvests out of turn: once a
/// character has been seen, its next check is an ordinary one.
pub proof fn law_fortress_startup_once(
    v1: FortressView,
    ctx1: FortressContext,
    v2: FortressView,
    ctx2: FortressContext,
    cfg: FortressConfig,
    seen: Set<Seq<char>>,
)
    requires
        spec_fortress_early(v1, ctx1) is None,
        ctx2.name@ == ctx1.name@,
    ensures
        ({
            let seen_after = seen.insert(ctx1.name@);
            spec_fortress_next(v2, ctx2, cfg, !seen_after.contains(ctx2.name@)) == spec_fortress_next(
                v2,
                ctx2,
                cfg,
                false,
            )
        }),
{
}

proof fn lemma_upgrade_unit_from_due(v: FortressView, silver: u64, i: nat)
    ensures
        spec_upgrade_unit_from(v, silver, i) matches Some(u) ==> spec_upgrade_unit(v, u, silver),
    decreases 3 - i,
{
    if i < 3 {
        lemma_upgrade_unit_from_due(v, silver, i + 1);
    }
}

/// Whatever the fortress pays for is paid from what the character has: a
/// unit upgrade, the hall of knights and a gem search each cost no more
/// wood and stone than in store and no more silver than the character's.
pub proof fn law_fortress_pays_from_stock(v: FortressView, ctx: FortressContext, cfg: FortressConfig, startup: bool)
    requires
        spec_fortress_next(v, ctx, cfg, startup) matches Some(a) && (a is UpgradeUnit || a is UpgradeHallOfKnights
            || a is GemSearch),
    ensures
        ({
            let a = spec_fortress_next(v, ctx, cfg, startup).unwrap();
            let cost = match a {
                FortressAction::UpgradeUnit { unit } => spec_unit(v, unit).upgrade_cost,
                FortressAction::UpgradeHallOfKnights => v.hall_of_knights_upgrade_price,
                _ => v.gem_search_cost,
            };
            &&& cost.wood <= v.wood.current
            &&& cost.stone <= v.stone.current
            &&& cost.silver <= ctx.silver
        }),
{
    lemma_train_from_trains(v, ctx.silver, 0);
    lemma_upgrade_unit_from_due(v, ctx.silver, 0);
}

} // verus!
