use rsfb::expedition::{
    can_drink_beer, expedition_next, expedition_step, get_last_wait, BeerView, ExpeditionAction, ExpeditionNote,
    ExpeditionSpecial, ExpeditionStage, ExpeditionTask, ExpeditionView, RewardKind, WaitLog,
};
use rsfb::model::{Attributes, CurrentAction, Enchantment, EquipmentSlot, Item, ItemKind};

const SEC: i64 = 1_000_000_000;

fn beer() -> BeerView {
    BeerView {
        current_action: CurrentAction::Idle,
        beer_drunk: 0,
        beer_max: 11,
        thirst_for_adventure_sec: 0,
        free_beer_event: false,
        belt: None,
    }
}

fn view(stage: Option<ExpeditionStage>) -> ExpeditionView {
    ExpeditionView { username: "hero".to_string(), active_stage: stage, beer: beer(), available: None, now: 0 }
}

fn task(special: Option<ExpeditionSpecial>, thirst: u32) -> ExpeditionTask {
    ExpeditionTask { special, thirst_for_adventure_sec: thirst }
}

fn belt(enchantment: Option<Enchantment>) -> Item {
    Item {
        kind: ItemKind::Equipment { slot: EquipmentSlot::Belt, weapon: false },
        model_id: 1,
        price: 0,
        mushroom_price: 0,
        attributes: Attributes { strength: 0, dexterity: 0, intelligence: 0, constitution: 0, luck: 0 },
        gem_slot: None,
        enchantment,
        wearable_by_player: true,
        wearable_by_warrior: false,
        wearable_by_mage: false,
        wearable_by_scout: false,
        dismantle_arcane: 0,
        upgrade_costs: None,
        socket_costs: None,
    }
}

#[test]
fn free_beer_with_the_event_or_the_belt() {
    let mut b = beer();
    assert!(!can_drink_beer(&b));
    b.free_beer_event = true;
    assert!(can_drink_beer(&b));
    b.free_beer_event = false;
    b.belt = Some(belt(Some(Enchantment::ThirstyWanderer)));
    assert!(can_drink_beer(&b));
    // The belt gives the first and the eleventh beer only.
    b.beer_drunk = 1;
    assert!(!can_drink_beer(&b));
    b.beer_drunk = 10;
    assert!(can_drink_beer(&b));
    // Not beyond the beers the character may drink.
    b.beer_drunk = 11;
    assert!(!can_drink_beer(&b));
    // Another enchantment gives nothing.
    b.beer_drunk = 0;
    b.belt = Some(belt(Some(Enchantment::MariosBeard)));
    assert!(!can_drink_beer(&b));
}

#[test]
fn beer_only_while_thirst_stays_within_its_maximum() {
    let mut b = beer();
    b.free_beer_event = true;
    b.beer_max = 0;
    b.beer_drunk = 0;
    assert!(!can_drink_beer(&b));
    b.beer_max = 1;
    b.thirst_for_adventure_sec = 6000;
    assert!(can_drink_beer(&b));
    b.thirst_for_adventure_sec = 6001;
    assert!(!can_drink_beer(&b));
    b.current_action = CurrentAction::Expedition;
    b.thirst_for_adventure_sec = 0;
    assert!(!can_drink_beer(&b));
}

#[test]
fn boss_and_rewards() {
    let mut log = WaitLog::new();
    let v = view(Some(ExpeditionStage::Boss));
    assert_eq!(expedition_step(&v, &mut log, 0), (Some(ExpeditionAction::Continue), ExpeditionNote::Silent));
    let rewards = vec![RewardKind::Other, RewardKind::Fruit, RewardKind::Mushrooms];
    let v = view(Some(ExpeditionStage::Rewards(rewards)));
    assert_eq!(
        expedition_step(&v, &mut log, 0),
        (Some(ExpeditionAction::PickReward { pos: 2 }), ExpeditionNote::Silent)
    );
    let v = view(Some(ExpeditionStage::Rewards(vec![RewardKind::Other, RewardKind::Fruit])));
    assert_eq!(
        expedition_step(&v, &mut log, 0),
        (Some(ExpeditionAction::PickReward { pos: 1 }), ExpeditionNote::Silent)
    );
    let v = view(Some(ExpeditionStage::Rewards(vec![RewardKind::Other, RewardKind::Other])));
    assert_eq!(
        expedition_step(&v, &mut log, 0),
        (Some(ExpeditionAction::PickReward { pos: 0 }), ExpeditionNote::Silent)
    );
}

#[test]
fn encounter_picked_at_random_among_those_offered() {
    let mut log = WaitLog::new();
    let v = view(Some(ExpeditionStage::Encounters(3)));
    for _ in 0..50 {
        match expedition_next(&v, &mut log) {
            (Some(ExpeditionAction::PickEncounter { pos }), ExpeditionNote::Silent) => assert!(pos < 3),
            other => panic!("unexpected step {:?}", other),
        }
    }
    let v = view(Some(ExpeditionStage::Encounters(0)));
    assert_eq!(expedition_next(&v, &mut log), (None, ExpeditionNote::Silent));
    let v = view(Some(ExpeditionStage::Encounters(2)));
    assert_eq!(
        expedition_step(&v, &mut log, 1),
        (Some(ExpeditionAction::PickEncounter { pos: 1 }), ExpeditionNote::Silent)
    );
}

#[test]
fn waiting_period_is_reported_once() {
    let mut log = WaitLog::new();
    let mut v = view(Some(ExpeditionStage::Waiting { busy_until: 100 * SEC, busy_until_secs: 100 }));
    v.now = 40 * SEC;
    assert_eq!(expedition_step(&v, &mut log, 0), (None, ExpeditionNote::Waiting { remaining_secs: 60 }));
    assert_eq!(get_last_wait(&log, &"hero".to_string()), 100);
    assert_eq!(expedition_step(&v, &mut log, 0), (None, ExpeditionNote::Silent));
    // Within fifteen seconds of the last one: the same period.
    let v2 = view(Some(ExpeditionStage::Waiting { busy_until: 115 * SEC, busy_until_secs: 115 }));
    assert_eq!(expedition_step(&v2, &mut log, 0), (None, ExpeditionNote::Silent));
    let v3 = view(Some(ExpeditionStage::Waiting { busy_until: 116 * SEC, busy_until_secs: 116 }));
    assert_eq!(expedition_step(&v3, &mut log, 0), (None, ExpeditionNote::Waiting { remaining_secs: 116 }));
    assert_eq!(get_last_wait(&log, &"hero".to_string()), 116);
    // Another character has its own record.
    assert_eq!(get_last_wait(&log, &"other".to_string()), 0);
}

#[test]
fn running_expedition_continues_and_busy_character_waits() {
    let mut log = WaitLog::new();
    let mut v = view(None);
    v.beer.current_action = CurrentAction::Expedition;
    assert_eq!(expedition_step(&v, &mut log, 0), (Some(ExpeditionAction::Continue), ExpeditionNote::Silent));
    v.beer.current_action = CurrentAction::Quest { quest_idx: 1 };
    assert_eq!(expedition_step(&v, &mut log, 0), (None, ExpeditionNote::Silent));
}

#[test]
fn offered_expedition_choice() {
    let mut log = WaitLog::new();
    let mut v = view(None);
    v.beer.thirst_for_adventure_sec = 600;
    assert_eq!(expedition_step(&v, &mut log, 0), (None, ExpeditionNote::NoExpeditions));
    v.available = Some(vec![]);
    assert_eq!(expedition_step(&v, &mut log, 0), (None, ExpeditionNote::EmptyList));
    v.available = Some(vec![task(None, 600), task(Some(ExpeditionSpecial::DailyTask), 600), task(None, 600)]);
    assert_eq!(
        expedition_step(&v, &mut log, 0),
        (Some(ExpeditionAction::Start { pos: 1 }), ExpeditionNote::Starting { thirst_secs: 600 })
    );
    v.available = Some(vec![
        task(Some(ExpeditionSpecial::DailyTask), 600),
        task(Some(ExpeditionSpecial::Egg), 600),
        task(Some(ExpeditionSpecial::DailyTask), 600),
    ]);
    assert_eq!(
        expedition_step(&v, &mut log, 0),
        (Some(ExpeditionAction::Start { pos: 1 }), ExpeditionNote::Starting { thirst_secs: 600 })
    );
    v.available = Some(vec![task(None, 601)]);
    assert_eq!(expedition_step(&v, &mut log, 0), (None, ExpeditionNote::NotEnoughThirst));
    v.beer.free_beer_event = true;
    assert_eq!(expedition_step(&v, &mut log, 0), (Some(ExpeditionAction::BuyBeer), ExpeditionNote::Silent));
}
