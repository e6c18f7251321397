use rsfb::config::FortressConfig;
use rsfb::underworld::{
    underworld_next, HallOfFameEntry, UnderworldAction, UnderworldBuilding, UnderworldBuildingType,
    UnderworldContext, UnderworldMemory, UnderworldProduction, UnderworldResourceType, UnderworldView,
};

const MIN: i64 = 60_000_000_000;

fn production() -> UnderworldProduction {
    UnderworldProduction { last_collectable: 0, limit: 0, per_hour: 0 }
}

fn view() -> UnderworldView {
    UnderworldView {
        buildings: vec![UnderworldBuilding { level: 5, cost_silver: 0, cost_souls: 0 }; 10],
        goblin_level: 30,
        souls: production(),
        silver: production(),
        thirst: production(),
        last_collectable_update: Some(1000 * MIN - 10 * MIN),
        souls_current: 0,
        souls_limit: 100,
        upgrade_building: None,
        upgrade_finish: None,
        lured_today: 5,
        lure_suggestion: None,
        hall_of_fame_first: None,
    }
}

fn ctx() -> UnderworldContext {
    UnderworldContext { name: "hero".to_string(), silver: 0, now: 1000 * MIN }
}

fn cfg() -> FortressConfig {
    FortressConfig { harvest_check_mins: 30, harvest_ratio: 500, goblin_hero_ratio: 1500 }
}

fn seen_memory() -> UnderworldMemory {
    let mut m = UnderworldMemory::new();
    m.collected_on_startup.insert(&ctx().name);
    m
}

#[test]
fn finished_upgrade_is_collected_first() {
    let mut v = view();
    v.upgrade_building = Some(UnderworldBuildingType::Gate);
    v.upgrade_finish = Some(ctx().now);
    let mut m = UnderworldMemory::new();
    assert_eq!(
        underworld_next(&v, &ctx(), &cfg(), &mut m),
        Some(UnderworldAction::UpgradeFinish { building: UnderworldBuildingType::Gate })
    );
    assert!(!m.collected_on_startup.contains(&ctx().name));
}

#[test]
fn startup_collects_souls_once_then_waits_for_the_interval() {
    let mut v = view();
    v.souls = UnderworldProduction { last_collectable: 50, limit: 100, per_hour: 0 };
    let mut m = UnderworldMemory::new();
    assert_eq!(
        underworld_next(&v, &ctx(), &cfg(), &mut m),
        Some(UnderworldAction::Collect { resource: UnderworldResourceType::Souls })
    );
    assert_eq!(underworld_next(&v, &ctx(), &cfg(), &mut m), None);
    // A full soul store is not collected.
    let mut c = ctx();
    c.now += 20 * MIN;
    v.souls_current = 100;
    assert_eq!(underworld_next(&v, &c, &cfg(), &mut m), None);
    v.souls_current = 99;
    assert_eq!(
        underworld_next(&v, &c, &cfg(), &mut m),
        Some(UnderworldAction::Collect { resource: UnderworldResourceType::Souls })
    );
}

#[test]
fn thirst_production_runs_slow() {
    let mut v = view();
    v.last_collectable_update = Some(0);
    // 24 hours at 100 per hour is 2400, slowed to 100: half of 200.
    v.thirst = UnderworldProduction { last_collectable: 0, limit: 200, per_hour: 100 };
    let mut c = ctx();
    c.now = 24 * 60 * MIN;
    let mut m = seen_memory();
    assert_eq!(
        underworld_next(&v, &c, &cfg(), &mut m),
        Some(UnderworldAction::Collect { resource: UnderworldResourceType::ThirstForAdventure })
    );
    c.now -= 1;
    assert_eq!(underworld_next(&v, &c, &cfg(), &mut m), None);
}

#[test]
fn lowest_upgradable_building_is_started() {
    let mut v = view();
    v.buildings[0] = UnderworldBuilding { level: 15, cost_silver: 10, cost_souls: 0 };
    v.buildings[4] = UnderworldBuilding { level: 3, cost_silver: 10, cost_souls: 5 };
    v.buildings[6] = UnderworldBuilding { level: 3, cost_silver: 10, cost_souls: 0 };
    v.souls_current = 4;
    let mut c = ctx();
    c.silver = 10;
    let mut m = seen_memory();
    assert_eq!(
        underworld_next(&v, &c, &cfg(), &mut m),
        Some(UnderworldAction::UpgradeStart { building: UnderworldBuildingType::GladiatorTrainer })
    );
    v.souls_current = 5;
    assert_eq!(
        underworld_next(&v, &c, &cfg(), &mut m),
        Some(UnderworldAction::UpgradeStart { building: UnderworldBuildingType::GoblinPit })
    );
}

#[test]
fn luring_steps() {
    let mut v = view();
    v.lured_today = 4;
    let mut m = seen_memory();
    assert_eq!(underworld_next(&v, &ctx(), &cfg(), &mut m), Some(UnderworldAction::UpdateLureSuggestion));
    v.lure_suggestion = Some(77);
    assert_eq!(
        underworld_next(&v, &ctx(), &cfg(), &mut m),
        Some(UnderworldAction::ViewLureSuggestion { suggestion: 77 })
    );
    v.hall_of_fame_first = Some(HallOfFameEntry { name: "rival".to_string(), looked_up: None });
    assert_eq!(
        underworld_next(&v, &ctx(), &cfg(), &mut m),
        Some(UnderworldAction::ViewPlayer { name: "rival".to_string() })
    );
    // A goblin of level 30 takes a hero of level 20 (1.5 times), not 21.
    v.hall_of_fame_first = Some(HallOfFameEntry { name: "rival".to_string(), looked_up: Some((20, 555)) });
    assert_eq!(underworld_next(&v, &ctx(), &cfg(), &mut m), Some(UnderworldAction::Attack { player_id: 555 }));
    v.lured_today = 5;
    assert_eq!(underworld_next(&v, &ctx(), &cfg(), &mut m), None);
}

#[test]
fn too_strong_hero_is_remembered_until_the_goblin_grows() {
    let mut v = view();
    v.lured_today = 0;
    v.lure_suggestion = Some(77);
    v.hall_of_fame_first = Some(HallOfFameEntry { name: "rival".to_string(), looked_up: Some((21, 555)) });
    let mut m = seen_memory();
    assert_eq!(underworld_next(&v, &ctx(), &cfg(), &mut m), None);
    assert_eq!(m.last_lure_check.get(&ctx().name), Some((77, 30)));
    // Even with the hero forgotten, the same suggestion is left alone.
    v.hall_of_fame_first = None;
    assert_eq!(underworld_next(&v, &ctx(), &cfg(), &mut m), None);
    // The goblin grew: the suggestion is looked at again.
    v.goblin_level = 32;
    assert_eq!(
        underworld_next(&v, &ctx(), &cfg(), &mut m),
        Some(UnderworldAction::ViewLureSuggestion { suggestion: 77 })
    );
}
