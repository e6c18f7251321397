use rsfb::config::FeatureConfig;
use rsfb::dungeon::{dungeon_next, dungeon_runs, DungeonAction, DungeonRef, DungeonView, HellevatorState};
use rsfb::pets::{pets_next, HabitatType, HabitatView, PetView, PetsAction, PetsView};

const SEC: i64 = 1_000_000_000;

fn features() -> FeatureConfig {
    FeatureConfig::default()
}

fn dungeons() -> DungeonView {
    DungeonView {
        level: 100,
        portal_can_fight: Some(false),
        hellevator: HellevatorState::Unavailable,
        next_free_fight: None,
        light: vec![None; 20],
        shadow: vec![None; 20],
        tower_finished: None,
        now: 100 * SEC,
    }
}

#[test]
fn portal_then_hellevator_first() {
    let mut v = dungeons();
    v.portal_can_fight = Some(true);
    assert_eq!(dungeon_next(&v, &features()), Some(DungeonAction::FightPortal));
    v.portal_can_fight = None;
    v.hellevator = HellevatorState::NotEntered;
    assert_eq!(dungeon_next(&v, &features()), Some(DungeonAction::HellevatorEnter));
    v.hellevator = HellevatorState::Active { key_cards: 2, yesterday_claimable: false, today_claimable: false };
    assert_eq!(dungeon_next(&v, &features()), Some(DungeonAction::HellevatorFight));
    v.hellevator = HellevatorState::Active { key_cards: 0, yesterday_claimable: false, today_claimable: false };
    assert_eq!(dungeon_next(&v, &features()), None);
    // Below level 10 the Hellevator is left alone.
    v.level = 9;
    v.hellevator = HellevatorState::NotEntered;
    assert_eq!(dungeon_next(&v, &features()), None);
}

#[test]
fn easiest_dungeon_is_fought() {
    let mut v = dungeons();
    v.light[2] = Some(40);
    v.light[5] = Some(30);
    v.shadow[1] = Some(30);
    assert_eq!(dungeon_next(&v, &features()), Some(DungeonAction::FightDungeon { dungeon: DungeonRef::Light(5) }));
    v.shadow[3] = Some(29);
    assert_eq!(
        dungeon_next(&v, &features()),
        Some(DungeonAction::FightDungeon { dungeon: DungeonRef::Shadow(3) })
    );
}

#[test]
fn tower_is_fought_by_its_level() {
    let mut v = dungeons();
    v.light[14] = Some(10);
    assert_eq!(dungeon_next(&v, &features()), Some(DungeonAction::FightTower { current_level: 1 }));
    v.tower_finished = Some(41);
    assert_eq!(dungeon_next(&v, &features()), Some(DungeonAction::FightTower { current_level: 42 }));
}

#[test]
fn free_fight_waits_five_seconds_past_its_time() {
    let mut v = dungeons();
    v.light[0] = Some(10);
    v.next_free_fight = Some(96 * SEC);
    assert_eq!(dungeon_next(&v, &features()), None);
    assert!(!dungeon_runs(&v, &features()));
    v.next_free_fight = Some(95 * SEC);
    assert_eq!(dungeon_next(&v, &features()), Some(DungeonAction::FightDungeon { dungeon: DungeonRef::Light(0) }));
    assert!(dungeon_runs(&v, &features()));
}

#[test]
fn disabled_dungeons_run_only_for_the_hellevator() {
    let mut f = features();
    f.enable_dungeon = false;
    let mut v = dungeons();
    v.portal_can_fight = Some(true);
    v.light[0] = Some(10);
    assert!(!dungeon_runs(&v, &f));
    assert_eq!(dungeon_next(&v, &f), None);
    v.hellevator = HellevatorState::NotEntered;
    assert!(dungeon_runs(&v, &f));
    assert_eq!(dungeon_next(&v, &f), Some(DungeonAction::HellevatorEnter));
}

fn pet(id: u32, level: u16, fruits_today: u16) -> PetView {
    PetView { id, level, fruits_today }
}

fn habitat(fruits: u16, exploring: Option<(u32, u16)>, pets: Vec<PetView>) -> HabitatView {
    HabitatView { fruits, exploring, pets }
}

#[test]
fn highest_hungry_pet_is_fed() {
    let v = PetsView {
        habitats: vec![
            habitat(2, None, vec![pet(1, 50, 0), pet(2, 99, 3)]),
            habitat(0, None, vec![pet(3, 90, 0)]),
            habitat(1, None, vec![pet(4, 60, 2), pet(5, 100, 0)]),
        ],
        next_free_exploration: None,
        now: 0,
    };
    assert_eq!(pets_next(&v), Some(PetsAction::Feed { pet_id: 4, total_fruit_count: 3 }));
}

#[test]
fn pets_fight_the_easiest_habitat_with_their_strongest() {
    let mut v = PetsView {
        habitats: vec![
            habitat(0, Some((4, 30)), vec![pet(1, 50, 3), pet(2, 70, 3)]),
            habitat(0, Some((9, 20)), vec![pet(3, 10, 3), pet(4, 10, 3)]),
            habitat(0, Some((0, 10)), vec![]),
        ],
        next_free_exploration: None,
        now: 100 * SEC,
    };
    assert_eq!(
        pets_next(&v),
        Some(PetsAction::Fight { habitat: HabitatType::Light, enemy_pos: 10, player_pet_id: 4 })
    );
    v.next_free_exploration = Some(96 * SEC);
    assert_eq!(pets_next(&v), None);
}
