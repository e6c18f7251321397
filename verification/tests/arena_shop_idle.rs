use rsfb::arena::{arena_due, arena_next, ArenaAction, ArenaEnemy, ArenaView};
use rsfb::config::{Config, DailyConfig, EconomyConfig, FeatureConfig, FortressConfig, InventoryConfig, ScheduleConfig, SkillConfig};
use rsfb::idle::{compare, double, idle_upgrade_next, is_zero, should_sacrifice, Amount, IdleBuilding, IdleView, UpgradeAmount};
use rsfb::model::{Attributes, Class, EquipmentSlot, Gear, Item, ItemKind, Potion, PotionType};
use rsfb::shop::{shop_next, ShopAction, ShopView};

const SEC: i64 = 1_000_000_000;

fn enemy(id: u32, known: Option<(&str, u16)>) -> ArenaEnemy {
    ArenaEnemy { id, known: known.map(|(n, l)| (n.to_string(), l)) }
}

fn arena(enemies: Vec<ArenaEnemy>) -> ArenaView {
    ArenaView { fights_for_xp: 0, next_free_fight: None, enemies, now: 100 * SEC }
}

#[test]
fn arena_fights_for_experience_ten_times() {
    let mut v = arena(vec![]);
    assert!(arena_due(&v));
    v.fights_for_xp = 10;
    assert!(!arena_due(&v));
    v.fights_for_xp = 9;
    v.next_free_fight = Some(96 * SEC);
    assert!(!arena_due(&v));
    v.next_free_fight = Some(95 * SEC);
    assert!(arena_due(&v));
}

#[test]
fn arena_looks_up_then_fights_the_weakest() {
    let v = arena(vec![enemy(0, None), enemy(7, Some(("Ann", 50))), enemy(8, None), enemy(9, Some(("Bob", 40)))]);
    assert_eq!(arena_next(&v, &vec![]), Some(ArenaAction::ViewPlayer { id: 8 }));
    assert_eq!(arena_next(&v, &vec![8]), Some(ArenaAction::Fight { name: "Bob".to_string() }));
    let v = arena(vec![enemy(7, Some(("Ann", 40))), enemy(9, Some(("Bob", 40)))]);
    assert_eq!(arena_next(&v, &vec![]), Some(ArenaAction::Fight { name: "Ann".to_string() }));
    let v = arena(vec![enemy(0, Some(("Ghost", 1)))]);
    assert_eq!(arena_next(&v, &vec![]), None);
}

fn shop_item(kind: ItemKind, price: u32, mushroom_price: u32) -> Item {
    Item {
        kind,
        model_id: 1,
        price,
        mushroom_price,
        attributes: Attributes { strength: 10, dexterity: 0, intelligence: 0, constitution: 0, luck: 0 },
        gem_slot: None,
        enchantment: None,
        wearable_by_player: true,
        wearable_by_warrior: false,
        wearable_by_mage: false,
        wearable_by_scout: false,
        dismantle_arcane: 0,
        upgrade_costs: None,
        socket_costs: None,
    }
}

fn shop_view(shops: Vec<Vec<Item>>, bag: Vec<Option<Item>>) -> ShopView {
    ShopView {
        gear: Gear { class: Class::Warrior, equipment: vec![None; 10], companions: None },
        silver: 1000,
        active_potions: vec![None, None, None],
        bag,
        shops,
        now_secs: 0,
    }
}

#[test]
fn shop_buys_the_first_worthwhile_item_into_the_first_free_place() {
    let hat = shop_item(ItemKind::Equipment { slot: EquipmentSlot::Hat, weapon: false }, 500, 0);
    let luck = shop_item(ItemKind::Potion(Potion { typ: PotionType::Luck, size: 10, expires_secs: None }), 10, 0);
    let glass = shop_item(ItemKind::QuickSandGlass, 10, 0);
    let dear = shop_item(ItemKind::Equipment { slot: EquipmentSlot::Hat, weapon: false }, 1001, 0);
    let mushroom = shop_item(ItemKind::Equipment { slot: EquipmentSlot::Hat, weapon: false }, 10, 1);
    let filled = Some(shop_item(ItemKind::Other, 0, 0));
    let v = shop_view(vec![vec![luck, dear, mushroom], vec![glass, hat]], vec![filled, None, None]);
    assert_eq!(shop_next(&v), Some(ShopAction { shop: 1, pos: 0, new_pos: 1 }));
    let v = shop_view(vec![vec![glass]], vec![filled]);
    assert_eq!(shop_next(&v), None);
}

#[test]
fn shop_buys_wanted_potions_only() {
    let strength = |size: u8| {
        shop_item(ItemKind::Potion(Potion { typ: PotionType::Strength, size, expires_secs: None }), 10, 0)
    };
    let mut v = shop_view(vec![vec![strength(10)]], vec![None]);
    assert_eq!(shop_next(&v), Some(ShopAction { shop: 0, pos: 0, new_pos: 0 }));
    v.active_potions[2] = Some(Potion { typ: PotionType::Strength, size: 25, expires_secs: Some(0) });
    assert_eq!(shop_next(&v), None);
    v.active_potions[2] = Some(Potion { typ: PotionType::Strength, size: 10, expires_secs: Some(100) });
    assert_eq!(shop_next(&v), Some(ShopAction { shop: 0, pos: 0, new_pos: 0 }));
    v.active_potions[2] = Some(Potion { typ: PotionType::Strength, size: 10, expires_secs: Some(12 * 24 * 3600) });
    assert_eq!(shop_next(&v), None);
}

fn amount(negative: bool, digits: Vec<u32>) -> Amount {
    Amount { negative, digits }
}

#[test]
fn amounts_compare_by_value() {
    assert_eq!(compare(&amount(false, vec![5]), &amount(false, vec![5, 0, 0])), 0);
    assert_eq!(compare(&amount(false, vec![0, 1]), &amount(false, vec![u32::MAX])), 1);
    assert_eq!(compare(&amount(true, vec![3]), &amount(false, vec![1])), -1);
    assert_eq!(compare(&amount(true, vec![3]), &amount(true, vec![1])), -1);
    assert_eq!(compare(&amount(true, vec![0]), &amount(false, vec![])), 0);
    assert!(is_zero(&amount(true, vec![0, 0])));
    assert!(!is_zero(&amount(false, vec![0, 1])));
}

#[test]
fn doubling_carries_between_digits() {
    let d = double(&amount(false, vec![u32::MAX, 1]));
    assert_eq!(compare(&d, &amount(false, vec![u32::MAX - 1, 3])), 0);
    let d = double(&amount(true, vec![7]));
    assert_eq!(compare(&d, &amount(true, vec![14])), 0);
}

fn building(level: u32, one: u32, ten: u32) -> IdleBuilding {
    IdleBuilding { level, upgrade_cost: amount(false, vec![one]), upgrade_cost_10x: amount(false, vec![ten]) }
}

#[test]
fn sacrifice_when_runes_double() {
    let mut v = IdleView {
        current_money: amount(false, vec![0]),
        current_runes: amount(false, vec![]),
        sacrifice_runes: amount(false, vec![1]),
        buildings: vec![],
    };
    assert!(!should_sacrifice(&v));
    v.sacrifice_runes = amount(false, vec![2]);
    assert!(should_sacrifice(&v));
    v.current_runes = amount(false, vec![0, 1]);
    v.sacrifice_runes = amount(false, vec![u32::MAX, 1]);
    assert!(!should_sacrifice(&v));
    v.sacrifice_runes = amount(false, vec![0, 2]);
    assert!(should_sacrifice(&v));
}

#[test]
fn cheapest_idle_upgrade_when_paid() {
    let mut v = IdleView {
        current_money: amount(false, vec![100]),
        current_runes: amount(false, vec![]),
        sacrifice_runes: amount(false, vec![]),
        buildings: vec![building(3, 150, 1), building(12, 1, 90), building(5, 80, 1), building(4, 80, 1)],
    };
    assert_eq!(idle_upgrade_next(&v), Some((2, UpgradeAmount::One)));
    v.buildings[1] = building(12, 1, 70);
    assert_eq!(idle_upgrade_next(&v), Some((1, UpgradeAmount::Ten)));
    v.current_money = amount(false, vec![69]);
    assert_eq!(idle_upgrade_next(&v), None);
    v.buildings.clear();
    assert_eq!(idle_upgrade_next(&v), None);
}

#[test]
fn configuration_defaults() {
    let f = FeatureConfig::default();
    assert!(f.enable_expedition && f.enable_dungeon && f.enable_wheel);
    assert_eq!(ScheduleConfig::default().expedition_hour, 5);
    assert_eq!(ScheduleConfig::default().status_table_secs, 300);
    assert_eq!(InventoryConfig::default().min_free_slots, 5);
    assert_eq!(InventoryConfig::default().epic_multiplier, 2000);
    assert_eq!(SkillConfig::default().gold_safety_mult, 10);
    assert_eq!(SkillConfig::default().weight_constitution, 80);
    let fc = FortressConfig::default();
    assert_eq!((fc.harvest_check_mins, fc.harvest_ratio, fc.goblin_hero_ratio), (30, 500, 1500));
    assert_eq!(EconomyConfig::default().min_mushroom_reserve, 30);
    assert_eq!(DailyConfig::default().wheel_max_daily_spins, 20);
    let c = Config::default();
    assert_eq!(c.fortress, fc);
}
