use rsfb::model::CurrentAction;
use rsfb::config::FeatureConfig;
use rsfb::session::{next_routine_step, routine_enabled, RoundState, RoutineStep};

fn state() -> RoundState {
    RoundState {
        update_ok: true,
        has_state: true,
        pending_unlock: false,
        hour: 12,
        start_hour: 5,
        free_slots: 10,
        current_action: CurrentAction::Idle,
        thirst_for_adventure_sec: 0,
        can_drink_beer: false,
    }
}

#[test]
fn update_failure_recovers_then_updates() {
    let mut s = state();
    s.update_ok = false;
    assert_eq!(next_routine_step(RoutineStep::Update, &s, &FeatureConfig::default()), RoutineStep::Recover);
    assert_eq!(next_routine_step(RoutineStep::Recover, &s, &FeatureConfig::default()), RoutineStep::Update);
}

#[test]
fn unknown_state_updates_again() {
    let mut s = state();
    s.has_state = false;
    assert_eq!(next_routine_step(RoutineStep::Update, &s, &FeatureConfig::default()), RoutineStep::Update);
}

#[test]
fn pending_unlock_comes_first_then_rest() {
    let mut s = state();
    s.pending_unlock = true;
    assert_eq!(next_routine_step(RoutineStep::Update, &s, &FeatureConfig::default()), RoutineStep::Unlock);
    assert_eq!(next_routine_step(RoutineStep::Unlock, &s, &FeatureConfig::default()), RoutineStep::Rest);
    assert_eq!(next_routine_step(RoutineStep::Rest, &s, &FeatureConfig::default()), RoutineStep::Update);
}

#[test]
fn night_round_is_guard_then_rest() {
    let mut s = state();
    s.hour = 3;
    assert_eq!(next_routine_step(RoutineStep::Update, &s, &FeatureConfig::default()), RoutineStep::Guard);
    assert_eq!(next_routine_step(RoutineStep::Guard, &s, &FeatureConfig::default()), RoutineStep::Rest);
}

#[test]
fn start_hour_itself_is_daytime() {
    let mut s = state();
    s.hour = 5;
    assert_eq!(next_routine_step(RoutineStep::Guard, &s, &FeatureConfig::default()), RoutineStep::Shop);
}

#[test]
fn full_day_round_order() {
    let mut s = state();
    s.thirst_for_adventure_sec = 600;
    let mut step = RoutineStep::Update;
    let mut seen = Vec::new();
    for _ in 0..19 {
        step = next_routine_step(step, &s, &FeatureConfig::default());
        seen.push(step);
    }
    assert_eq!(
        seen,
        vec![
            RoutineStep::Guard,
            RoutineStep::Shop,
            RoutineStep::Inventory,
            RoutineStep::Fortress,
            RoutineStep::Underworld,
            RoutineStep::Daily,
            RoutineStep::Mail,
            RoutineStep::Guild,
            RoutineStep::Skill,
            RoutineStep::Mount,
            RoutineStep::Witch,
            RoutineStep::ArenaManager,
            RoutineStep::Arena,
            RoutineStep::Dungeon,
            RoutineStep::Pets,
            RoutineStep::Expedition,
            RoutineStep::Rest,
            RoutineStep::Update,
            RoutineStep::Guard,
        ]
    );
}

#[test]
fn full_bag_rests_after_underworld() {
    let mut s = state();
    s.free_slots = 0;
    assert_eq!(next_routine_step(RoutineStep::Underworld, &s, &FeatureConfig::default()), RoutineStep::Rest);
    s.free_slots = 1;
    assert_eq!(next_routine_step(RoutineStep::Underworld, &s, &FeatureConfig::default()), RoutineStep::Daily);
}

#[test]
fn expedition_follows_pets_only_when_possible() {
    let mut s = state();
    assert_eq!(next_routine_step(RoutineStep::Pets, &s, &FeatureConfig::default()), RoutineStep::Rest);
    s.can_drink_beer = true;
    assert_eq!(next_routine_step(RoutineStep::Pets, &s, &FeatureConfig::default()), RoutineStep::Expedition);
    s.can_drink_beer = false;
    s.current_action = CurrentAction::Expedition;
    assert_eq!(next_routine_step(RoutineStep::Pets, &s, &FeatureConfig::default()), RoutineStep::Expedition);
    s.current_action = CurrentAction::Idle;
    s.thirst_for_adventure_sec = 1;
    assert_eq!(next_routine_step(RoutineStep::Pets, &s, &FeatureConfig::default()), RoutineStep::Expedition);
    assert_eq!(next_routine_step(RoutineStep::Expedition, &s, &FeatureConfig::default()), RoutineStep::Rest);
}

#[test]
fn lost_state_after_pets_updates() {
    let mut s = state();
    s.has_state = false;
    assert_eq!(next_routine_step(RoutineStep::Pets, &s, &FeatureConfig::default()), RoutineStep::Update);
    assert_eq!(next_routine_step(RoutineStep::Underworld, &s, &FeatureConfig::default()), RoutineStep::Update);
}

#[test]
fn every_daytime_step_is_reached_only_through_the_guard() {
    // Daytime steps: everything from the shop up to the expedition.
    let daytime = [
        RoutineStep::Shop,
        RoutineStep::Inventory,
        RoutineStep::Fortress,
        RoutineStep::Underworld,
        RoutineStep::Daily,
        RoutineStep::Mail,
        RoutineStep::Guild,
        RoutineStep::Skill,
        RoutineStep::Mount,
        RoutineStep::Witch,
        RoutineStep::ArenaManager,
        RoutineStep::Arena,
        RoutineStep::Dungeon,
        RoutineStep::Pets,
        RoutineStep::Expedition,
    ];
    let others = [RoutineStep::Update, RoutineStep::Recover, RoutineStep::Unlock, RoutineStep::Rest];
    let mut s = state();
    s.pending_unlock = true;
    for done in others {
        let next = next_routine_step(done, &s, &FeatureConfig::default());
        assert!(!daytime.contains(&next));
    }
}

#[test]
fn disabled_unlock_goes_on_to_the_guard() {
    let mut s = state();
    s.pending_unlock = true;
    let mut cfg = FeatureConfig::default();
    cfg.enable_unlock = false;
    assert_eq!(next_routine_step(RoutineStep::Update, &s, &cfg), RoutineStep::Guard);
}

#[test]
fn feature_switches_gate_the_steps() {
    let on = FeatureConfig::default();
    let all = [
        RoutineStep::Update,
        RoutineStep::Recover,
        RoutineStep::Unlock,
        RoutineStep::Guard,
        RoutineStep::Shop,
        RoutineStep::Inventory,
        RoutineStep::Fortress,
        RoutineStep::Underworld,
        RoutineStep::Daily,
        RoutineStep::Mail,
        RoutineStep::Guild,
        RoutineStep::Skill,
        RoutineStep::Mount,
        RoutineStep::Witch,
        RoutineStep::ArenaManager,
        RoutineStep::Arena,
        RoutineStep::Dungeon,
        RoutineStep::Pets,
        RoutineStep::Expedition,
        RoutineStep::Rest,
    ];
    for step in all {
        assert!(routine_enabled(step, &on));
    }
    let mut cfg = on;
    cfg.enable_mail = false;
    assert!(!routine_enabled(RoutineStep::Mail, &cfg));
    assert!(routine_enabled(RoutineStep::Daily, &cfg));
    cfg.enable_idle = false;
    assert!(!routine_enabled(RoutineStep::ArenaManager, &cfg));
    assert!(routine_enabled(RoutineStep::Arena, &cfg));
    cfg.enable_dungeon = false;
    assert!(routine_enabled(RoutineStep::Dungeon, &cfg));
    cfg.enable_hellevator = false;
    assert!(!routine_enabled(RoutineStep::Dungeon, &cfg));
    cfg.enable_expedition = false;
    assert!(!routine_enabled(RoutineStep::Expedition, &cfg));
    assert!(routine_enabled(RoutineStep::Rest, &cfg));
}
