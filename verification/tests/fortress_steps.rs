use rsfb::config::FortressConfig;
use rsfb::fortress::{
    fortress_next, fortress_start, training_building, FortressAction, FortressBuilding, FortressBuildingType,
    FortressContext, FortressCost, FortressResource, FortressResourceType, FortressStart, FortressUnit,
    FortressUnitType, FortressView,
};
use rsfb::memory::NameSet;

const MIN: i64 = 60_000_000_000;

fn no_cost() -> FortressCost {
    FortressCost { wood: 0, stone: 0, silver: 0 }
}

fn unit() -> FortressUnit {
    FortressUnit {
        count: 0,
        in_training: 0,
        limit: 0,
        training_cost: no_cost(),
        upgrade_cost: no_cost(),
        upgrade_next_lvl: 0,
    }
}

fn resource() -> FortressResource {
    FortressResource { current: 0, limit: 0, last_collectable: 0, production_limit: 0, per_hour: 0 }
}

fn view() -> FortressView {
    FortressView {
        buildings: vec![FortressBuilding { level: 1, can_build: false }; 12],
        soldier: unit(),
        magician: unit(),
        archer: unit(),
        wood: resource(),
        stone: resource(),
        experience: resource(),
        last_collectable_updated: Some(1000 * MIN - 10 * MIN),
        building_max_lvl: 20,
        upgrade_target: None,
        upgrade_finish: None,
        gem_search_finish: Some(i64::MAX),
        gem_search_cost: no_cost(),
        hall_of_knights_level: 0,
        hall_of_knights_upgrade_price: no_cost(),
    }
}

fn ctx() -> FortressContext {
    FortressContext { name: "hero".to_string(), silver: 0, free_slots: 5, in_guild: false, now: 1000 * MIN }
}

fn cfg() -> FortressConfig {
    FortressConfig { harvest_check_mins: 30, harvest_ratio: 500, goblin_hero_ratio: 1500 }
}

#[test]
fn fortress_start_by_level_and_state() {
    let mut v = view();
    assert_eq!(fortress_start(24, Some(&v)), FortressStart::Skip);
    assert_eq!(fortress_start(25, None), FortressStart::Initialize);
    assert_eq!(fortress_start(25, Some(&v)), FortressStart::Run);
    v.building_max_lvl = 0;
    assert_eq!(fortress_start(30, Some(&v)), FortressStart::Initialize);
}

#[test]
fn units_train_in_their_buildings() {
    assert_eq!(training_building(FortressUnitType::Soldier), FortressBuildingType::Barracks);
    assert_eq!(training_building(FortressUnitType::Magician), FortressBuildingType::MagesTower);
    assert_eq!(training_building(FortressUnitType::Archer), FortressBuildingType::ArcheryGuild);
}

#[test]
fn finished_construction_comes_first_and_keeps_startup() {
    let mut v = view();
    v.upgrade_target = Some(FortressBuildingType::Wall);
    v.upgrade_finish = Some(ctx().now);
    v.wood = FortressResource { current: 0, limit: 100, last_collectable: 60, production_limit: 100, per_hour: 0 };
    let mut seen = NameSet::new();
    assert_eq!(
        fortress_next(&v, &ctx(), &cfg(), &mut seen),
        Some(FortressAction::BuildFinish { building: FortressBuildingType::Wall })
    );
    assert!(!seen.contains(&ctx().name));
    v.upgrade_target = None;
    assert_eq!(
        fortress_next(&v, &ctx(), &cfg(), &mut seen),
        Some(FortressAction::Gather { resource: FortressResourceType::Wood })
    );
    assert!(seen.contains(&ctx().name));
}

#[test]
fn startup_harvests_out_of_turn_once() {
    let mut v = view();
    v.wood = FortressResource { current: 0, limit: 100, last_collectable: 60, production_limit: 100, per_hour: 0 };
    let mut seen = NameSet::new();
    assert_eq!(
        fortress_next(&v, &ctx(), &cfg(), &mut seen),
        Some(FortressAction::Gather { resource: FortressResourceType::Wood })
    );
    // Ten minutes after the last update: not harvest time any more.
    assert_eq!(fortress_next(&v, &ctx(), &cfg(), &mut seen), None);
    // Thirty minutes after it: harvest time.
    let mut c = ctx();
    c.now += 20 * MIN;
    assert_eq!(
        fortress_next(&v, &c, &cfg(), &mut seen),
        Some(FortressAction::Gather { resource: FortressResourceType::Wood })
    );
}

#[test]
fn harvest_needs_half_the_production_limit() {
    let mut v = view();
    v.last_collectable_updated = None;
    v.stone = FortressResource { current: 0, limit: 100, last_collectable: 49, production_limit: 100, per_hour: 0 };
    let mut seen = NameSet::new();
    assert_eq!(fortress_next(&v, &ctx(), &cfg(), &mut seen), None);
    v.stone.last_collectable = 50;
    assert_eq!(
        fortress_next(&v, &ctx(), &cfg(), &mut seen),
        Some(FortressAction::Gather { resource: FortressResourceType::Stone })
    );
    // A full store is not harvested.
    v.stone.current = 100;
    assert_eq!(fortress_next(&v, &ctx(), &cfg(), &mut seen), None);
    // Experience has no store to fill.
    v.experience =
        FortressResource { current: 100, limit: 100, last_collectable: 80, production_limit: 100, per_hour: 0 };
    assert_eq!(
        fortress_next(&v, &ctx(), &cfg(), &mut seen),
        Some(FortressAction::Gather { resource: FortressResourceType::Experience })
    );
}

#[test]
fn training_is_limited_by_room_and_stock() {
    let mut v = view();
    v.wood.current = 35;
    v.soldier = FortressUnit {
        count: 2,
        in_training: 1,
        limit: 10,
        training_cost: FortressCost { wood: 10, stone: 0, silver: 0 },
        upgrade_cost: no_cost(),
        upgrade_next_lvl: 0,
    };
    let mut seen = NameSet::new();
    seen.insert(&ctx().name);
    assert_eq!(
        fortress_next(&v, &ctx(), &cfg(), &mut seen),
        Some(FortressAction::BuildUnit { unit: FortressUnitType::Soldier, count: 3 })
    );
    // Barracks under construction: no training there.
    v.upgrade_target = Some(FortressBuildingType::Barracks);
    v.upgrade_finish = Some(i64::MAX);
    assert_eq!(fortress_next(&v, &ctx(), &cfg(), &mut seen), None);
}

#[test]
fn lowest_buildable_building_is_started() {
    let mut v = view();
    v.buildings[3] = FortressBuilding { level: 5, can_build: true };
    v.buildings[7] = FortressBuilding { level: 2, can_build: true };
    v.buildings[9] = FortressBuilding { level: 2, can_build: true };
    let mut seen = NameSet::new();
    seen.insert(&ctx().name);
    assert_eq!(
        fortress_next(&v, &ctx(), &cfg(), &mut seen),
        Some(FortressAction::Build { building: FortressBuildingType::Barracks })
    );
}

#[test]
fn gem_search_when_idle() {
    let mut v = view();
    v.gem_search_finish = None;
    v.gem_search_cost = FortressCost { wood: 0, stone: 0, silver: 10 };
    let mut seen = NameSet::new();
    seen.insert(&ctx().name);
    assert_eq!(fortress_next(&v, &ctx(), &cfg(), &mut seen), None);
    let mut c = ctx();
    c.silver = 10;
    assert_eq!(fortress_next(&v, &c, &cfg(), &mut seen), Some(FortressAction::GemSearch));
    // A finished search is collected when the bag has room.
    v.gem_search_finish = Some(0);
    assert_eq!(fortress_next(&v, &c, &cfg(), &mut seen), Some(FortressAction::GemSearchFinish));
    c.free_slots = 0;
    assert_eq!(fortress_next(&v, &c, &cfg(), &mut seen), None);
}
