use rsfb::daily::{daily_next, Chest, DailyAction, DailyView};
use rsfb::dungeon::HellevatorState;
use rsfb::expedition::BeerView;
use rsfb::guard::{guard_next, GuardAction, GuardView};
use rsfb::model::{
    Attributes, Class, Companion, CompanionClass, CurrentAction, Enchantment, EquipmentSlot, Gear, Item, ItemKind,
};
use rsfb::witch::{get_next_enchant_action, witch_next, WitchAction, WitchView};

fn equipment(slot: EquipmentSlot, enchantment: Option<Enchantment>) -> Item {
    Item {
        kind: ItemKind::Equipment { slot, weapon: slot == EquipmentSlot::Weapon },
        model_id: 1,
        price: 0,
        mushroom_price: 0,
        attributes: Attributes { strength: 0, dexterity: 0, intelligence: 0, constitution: 0, luck: 0 },
        gem_slot: None,
        enchantment,
        wearable_by_player: true,
        wearable_by_warrior: true,
        wearable_by_mage: true,
        wearable_by_scout: true,
        dismantle_arcane: 0,
        upgrade_costs: None,
        socket_costs: None,
    }
}

fn witch_view(unlocked: Vec<bool>) -> WitchView {
    let mut eq = vec![None; 10];
    eq[8] = Some(equipment(EquipmentSlot::Weapon, None));
    WitchView { level: 66, silver: 1000, gear: Gear { class: Class::Warrior, equipment: eq, companions: None }, witch: Some((1000, unlocked)) }
}

#[test]
fn witch_enchants_the_worn_item() {
    let v = witch_view(vec![true, false, false, false, false, false, false, false, false]);
    assert_eq!(witch_next(&v), Some(WitchAction::Enchant { enchantment: Enchantment::SwordOfVengeance }));
    let mut poor = v.clone();
    poor.silver = 999;
    assert_eq!(witch_next(&poor), None);
    let mut young = v.clone();
    young.level = 65;
    assert_eq!(witch_next(&young), None);
    assert_eq!(get_next_enchant_action(&young), Some(WitchAction::Enchant { enchantment: Enchantment::SwordOfVengeance }));
}

#[test]
fn witch_skips_locked_and_done_enchantments() {
    let mut v = witch_view(vec![false; 9]);
    assert_eq!(witch_next(&v), None);
    v.witch = Some((1000, vec![true; 9]));
    v.gear.equipment[8] = Some(equipment(EquipmentSlot::Weapon, Some(Enchantment::SwordOfVengeance)));
    v.gear.equipment[5] = Some(equipment(EquipmentSlot::Belt, None));
    assert_eq!(witch_next(&v), Some(WitchAction::Enchant { enchantment: Enchantment::ThirstyWanderer }));
}

#[test]
fn witch_enchants_a_companion() {
    let mut v = witch_view(vec![true]);
    v.gear.equipment[8] = Some(equipment(EquipmentSlot::Weapon, Some(Enchantment::SwordOfVengeance)));
    let mut mage_eq = vec![None; 10];
    mage_eq[8] = Some(equipment(EquipmentSlot::Weapon, None));
    v.gear.companions = Some(vec![
        Companion { level: 10, equipment: vec![None; 10] },
        Companion { level: 10, equipment: mage_eq },
        Companion { level: 0, equipment: vec![None; 10] },
    ]);
    assert_eq!(
        witch_next(&v),
        Some(WitchAction::EnchantCompanion {
            enchantment: Enchantment::SwordOfVengeance,
            companion: CompanionClass::Mage,
        })
    );
}

fn guard_view(current_action: CurrentAction, secs_of_day: u32) -> GuardView {
    GuardView {
        beer: BeerView {
            current_action,
            beer_drunk: 0,
            beer_max: 11,
            thirst_for_adventure_sec: 0,
            free_beer_event: false,
            belt: None,
        },
        now: 1000,
        secs_of_day,
        subsec_nanos: 0,
    }
}

#[test]
fn guard_pay_is_collected_when_done() {
    let v = guard_view(CurrentAction::CityGuard { hours: 3, busy_until: 1000 }, 0);
    assert_eq!(guard_next(&v), Some(GuardAction::FinishWork));
    let v = guard_view(CurrentAction::CityGuard { hours: 3, busy_until: 1001 }, 0);
    assert_eq!(guard_next(&v), None);
}

#[test]
fn guard_works_until_the_day_starts() {
    // At 01:00, four hours remain until 05:00.
    assert_eq!(guard_next(&guard_view(CurrentAction::Idle, 3600)), Some(GuardAction::StartWork { hours: 4 }));
    // At 01:00 and a fraction of a second, three whole hours remain.
    let mut v = guard_view(CurrentAction::Idle, 3600);
    v.subsec_nanos = 1;
    assert_eq!(guard_next(&v), Some(GuardAction::StartWork { hours: 3 }));
    // At 04:30 less than an hour remains.
    assert_eq!(guard_next(&guard_view(CurrentAction::Idle, 4 * 3600 + 1800)), None);
    // During the day, at most ten hours.
    assert_eq!(guard_next(&guard_view(CurrentAction::Idle, 12 * 3600)), Some(GuardAction::StartWork { hours: 10 }));
    // At 20:00, nine hours remain until 05:00 the next day.
    assert_eq!(guard_next(&guard_view(CurrentAction::Idle, 20 * 3600)), Some(GuardAction::StartWork { hours: 9 }));
}

#[test]
fn guard_not_taken_while_adventures_remain() {
    // During the day, thirst left or a free beer keeps the character free.
    let mut v = guard_view(CurrentAction::Idle, 12 * 3600);
    v.beer.thirst_for_adventure_sec = 1;
    assert_eq!(guard_next(&v), None);
    let mut v = guard_view(CurrentAction::Idle, 12 * 3600);
    v.beer.free_beer_event = true;
    assert_eq!(guard_next(&v), None);
    assert_eq!(guard_next(&guard_view(CurrentAction::Expedition, 3600)), None);
}

#[test]
fn guard_taken_before_the_day_starts_whatever_the_thirst() {
    // At 01:00 with thirst left, four hours of duty until 05:00.
    let mut v = guard_view(CurrentAction::Idle, 3600);
    v.beer.thirst_for_adventure_sec = 1;
    assert_eq!(guard_next(&v), Some(GuardAction::StartWork { hours: 4 }));
    let mut v = guard_view(CurrentAction::Idle, 3600);
    v.beer.free_beer_event = true;
    assert_eq!(guard_next(&v), Some(GuardAction::StartWork { hours: 4 }));
}

fn daily_view() -> DailyView {
    DailyView {
        level: 50,
        calendar_next: None,
        advent_calendar: false,
        daily_chests: vec![],
        event_chests: vec![],
        hellevator: HellevatorState::Unavailable,
        wheel_next_free_spin: None,
        now: 100,
    }
}

#[test]
fn daily_rewards_in_order() {
    let mut v = daily_view();
    assert_eq!(daily_next(&v), None);
    v.wheel_next_free_spin = Some(100);
    assert_eq!(daily_next(&v), Some(DailyAction::SpinWheelOfFortune));
    v.hellevator = HellevatorState::Active { key_cards: 0, yesterday_claimable: false, today_claimable: true };
    assert_eq!(daily_next(&v), Some(DailyAction::HellevatorClaimDaily));
    v.hellevator = HellevatorState::Active { key_cards: 0, yesterday_claimable: true, today_claimable: true };
    assert_eq!(daily_next(&v), Some(DailyAction::HellevatorClaimDailyYesterday));
    v.event_chests = vec![Chest { required_points: 0, can_open: true }, Chest { required_points: 5, can_open: true }];
    assert_eq!(daily_next(&v), Some(DailyAction::CollectEventTaskReward { pos: 1 }));
    v.daily_chests = vec![
        Chest { required_points: 5, can_open: false },
        Chest { required_points: 5, can_open: false },
        Chest { required_points: 5, can_open: true },
        Chest { required_points: 5, can_open: true },
    ];
    assert_eq!(daily_next(&v), Some(DailyAction::CollectDailyQuestReward { pos: 2 }));
    v.advent_calendar = true;
    assert_eq!(daily_next(&v), Some(DailyAction::CollectAdventsCalendar));
    v.calendar_next = Some(101);
    assert_eq!(daily_next(&v), Some(DailyAction::CollectAdventsCalendar));
    v.calendar_next = Some(100);
    assert_eq!(daily_next(&v), Some(DailyAction::CollectCalendar));
}

#[test]
fn daily_ignores_chests_past_the_third_and_young_hellevator() {
    let mut v = daily_view();
    v.daily_chests = vec![
        Chest { required_points: 5, can_open: false },
        Chest { required_points: 5, can_open: false },
        Chest { required_points: 5, can_open: false },
        Chest { required_points: 5, can_open: true },
    ];
    v.level = 9;
    v.hellevator = HellevatorState::Active { key_cards: 0, yesterday_claimable: true, today_claimable: true };
    assert_eq!(daily_next(&v), None);
}
