use rsfb::inventory::{
    inventory_next, is_equippable, matches_attr, s_eq_comp, sell, should_equip, target_equipment_slot, Blacksmith,
    Cauldron, InventoryAction, InventoryView, Toilet,
};
use rsfb::model::{
    AttributeType, Attributes, BlacksmithPayment, Class, Companion, CompanionClass, EquipmentSlot, Gear, Gem,
    GemSlot, GemType, Item, ItemKind, Potion, PotionType,
};

/// Strength and dexterity both at `value`: the main attribute of warriors
/// and of assassins.
fn attrs(value: u32) -> Attributes {
    Attributes { strength: value, dexterity: value, intelligence: 0, constitution: 0, luck: 0 }
}

fn item(kind: ItemKind, model_id: u16, strength: u32) -> Item {
    Item {
        kind,
        model_id,
        price: 0,
        mushroom_price: 0,
        attributes: attrs(strength),
        gem_slot: None,
        enchantment: None,
        wearable_by_player: true,
        wearable_by_warrior: false,
        wearable_by_mage: false,
        wearable_by_scout: false,
        dismantle_arcane: 0,
        upgrade_costs: None,
        socket_costs: None,
    }
}

fn weapon(model_id: u16, strength: u32) -> Item {
    item(ItemKind::Equipment { slot: EquipmentSlot::Weapon, weapon: true }, model_id, strength)
}

fn other() -> Item {
    item(ItemKind::Other, 1, 0)
}

fn gear(class: Class, worn_weapon: Option<Item>) -> Gear {
    let mut equipment = vec![None; 10];
    equipment[8] = worn_weapon;
    Gear { class, equipment, companions: None }
}

fn view(level: u16, gear: Gear, bag: Vec<Option<Item>>) -> InventoryView {
    InventoryView {
        level,
        gear,
        toilet: None,
        blacksmith: None,
        witch: None,
        active_potions: vec![None, None, None],
        bag,
        now_secs: 0,
    }
}

#[test]
fn epic_replaces_normal_unless_normal_is_twice_as_strong() {
    let g = gear(Class::Warrior, Some(weapon(1, 100)));
    assert!(should_equip(&g, &weapon(50, 60), EquipmentSlot::Weapon));
    assert!(!should_equip(&g, &weapon(50, 50), EquipmentSlot::Weapon));
}

#[test]
fn normal_replaces_epic_only_with_more_than_twice() {
    let g = gear(Class::Warrior, Some(weapon(90, 100)));
    assert!(should_equip(&g, &weapon(1, 201), EquipmentSlot::Weapon));
    assert!(!should_equip(&g, &weapon(1, 200), EquipmentSlot::Weapon));
    // Two normal items: a strictly higher value wins.
    let g = gear(Class::Warrior, Some(weapon(1, 100)));
    assert!(should_equip(&g, &weapon(2, 101), EquipmentSlot::Weapon));
    assert!(!should_equip(&g, &weapon(2, 100), EquipmentSlot::Weapon));
}

#[test]
fn empty_slot_takes_any_wearable_item() {
    let g = gear(Class::Warrior, None);
    assert!(should_equip(&g, &weapon(1, 0), EquipmentSlot::Weapon));
    let mut unwearable = weapon(1, 1000);
    unwearable.wearable_by_player = false;
    assert!(!should_equip(&g, &unwearable, EquipmentSlot::Weapon));
    assert!(!is_equippable(&g, &unwearable));
}

#[test]
fn assassin_wears_a_second_weapon_as_shield() {
    let mut g = gear(Class::Assassin, Some(weapon(1, 100)));
    assert_eq!(target_equipment_slot(&g, &weapon(1, 50)), Some(EquipmentSlot::Shield));
    g.equipment[9] = Some(weapon(1, 80));
    assert_eq!(target_equipment_slot(&g, &weapon(1, 50)), None);
    assert_eq!(target_equipment_slot(&g, &weapon(1, 90)), Some(EquipmentSlot::Shield));
    assert_eq!(target_equipment_slot(&g, &weapon(1, 150)), Some(EquipmentSlot::Weapon));
}

#[test]
fn companion_wears_what_fits_it() {
    let mut g = gear(Class::Mage, None);
    let mut it = weapon(1, 10);
    it.wearable_by_player = false;
    it.wearable_by_warrior = true;
    assert!(!s_eq_comp(&g, &it, EquipmentSlot::Weapon, CompanionClass::Warrior));
    g.companions = Some(vec![
        Companion { level: 1, equipment: vec![None; 10] },
        Companion { level: 1, equipment: vec![None; 10] },
        Companion { level: 1, equipment: vec![None; 10] },
    ]);
    assert!(s_eq_comp(&g, &it, EquipmentSlot::Weapon, CompanionClass::Warrior));
    assert!(!s_eq_comp(&g, &it, EquipmentSlot::Weapon, CompanionClass::Mage));
    let v = view(10, g, vec![Some(it)]);
    assert_eq!(
        inventory_next(&v),
        Some(InventoryAction::EquipCompanion {
            bag_pos: 0,
            to_slot: EquipmentSlot::Weapon,
            to_companion: CompanionClass::Warrior,
        })
    );
}

#[test]
fn gems_match_their_attribute() {
    assert!(matches_attr(GemType::Strength, AttributeType::Strength));
    assert!(!matches_attr(GemType::Strength, AttributeType::Dexterity));
    assert!(!matches_attr(GemType::All, AttributeType::Strength));
    assert!(!matches_attr(GemType::Legendary, AttributeType::Luck));
}

#[test]
fn full_toilet_is_flushed_first() {
    let mut v = view(100, gear(Class::Warrior, None), vec![Some(weapon(1, 10))]);
    v.toilet = Some(Toilet { aura: 1, mana_currently: 10, mana_total: 10, sacrifices_left: 0 });
    assert_eq!(inventory_next(&v), Some(InventoryAction::ToiletFlush));
    v.level = 99;
    assert_eq!(inventory_next(&v), Some(InventoryAction::Equip { bag_pos: 0, to_slot: EquipmentSlot::Weapon }));
}

#[test]
fn unwanted_active_potion_is_removed() {
    let mut v = view(10, gear(Class::Warrior, None), vec![]);
    v.active_potions[1] = Some(Potion { typ: PotionType::Luck, size: 10, expires_secs: None });
    assert_eq!(inventory_next(&v), Some(InventoryAction::RemovePotion { pos: 1 }));
}

#[test]
fn potions_in_the_bag() {
    let strength = |size: u8| {
        Some(item(ItemKind::Potion(Potion { typ: PotionType::Strength, size, expires_secs: None }), 1, 0))
    };
    let mut bag = vec![None; 10];
    bag[2] = strength(10);
    let mut v = view(10, gear(Class::Warrior, None), bag);
    assert_eq!(inventory_next(&v), Some(InventoryAction::UsePotion { bag_pos: 2 }));
    // A larger potion than the active one: make room for it.
    v.active_potions[0] = Some(Potion { typ: PotionType::Strength, size: 5, expires_secs: Some(0) });
    assert_eq!(inventory_next(&v), Some(InventoryAction::RemovePotion { pos: 0 }));
    // Same size, running out within twelve days: drink.
    v.active_potions[0] = Some(Potion { typ: PotionType::Strength, size: 10, expires_secs: Some(100) });
    assert_eq!(inventory_next(&v), Some(InventoryAction::UsePotion { bag_pos: 2 }));
    // Same size, twelve days or more left: leave it.
    v.active_potions[0] = Some(Potion { typ: PotionType::Strength, size: 10, expires_secs: Some(12 * 24 * 3600) });
    assert_eq!(inventory_next(&v), None);
}

#[test]
fn gem_goes_into_an_empty_socket() {
    let mut hat = item(ItemKind::Equipment { slot: EquipmentSlot::Hat, weapon: false }, 1, 0);
    hat.gem_slot = Some(GemSlot::Empty);
    let mut g = gear(Class::Warrior, None);
    g.equipment[0] = Some(hat);
    let gem = item(ItemKind::Gem(Gem { typ: GemType::Strength, value: 10 }), 1, 0);
    let mut bag = vec![None; 10];
    bag[0] = Some(gem);
    let v = view(10, g.clone(), bag);
    assert_eq!(inventory_next(&v), Some(InventoryAction::Equip { bag_pos: 0, to_slot: EquipmentSlot::Hat }));
    // A gem of another attribute is not used.
    let gem = item(ItemKind::Gem(Gem { typ: GemType::Luck, value: 10 }), 1, 0);
    let mut bag = vec![None; 10];
    bag[0] = Some(gem);
    let v = view(10, g, bag);
    assert_eq!(inventory_next(&v), None);
}

#[test]
fn toilet_key_opens_the_toilet() {
    let v = view(10, gear(Class::Warrior, None), vec![Some(item(ItemKind::ToiletKey, 1, 0))]);
    assert_eq!(inventory_next(&v), Some(InventoryAction::ToiletOpen));
}

#[test]
fn sells_only_when_short_of_room() {
    let full = vec![Some(other()), Some(other()), Some(other()), Some(other()), Some(other())];
    let v = view(10, gear(Class::Warrior, None), full);
    assert_eq!(inventory_next(&v), Some(InventoryAction::SellShop { bag_pos: 0 }));
    let mut roomy = vec![None; 10];
    roomy[3] = Some(other());
    let v = view(10, gear(Class::Warrior, None), roomy);
    assert_eq!(inventory_next(&v), None);
}

#[test]
fn rich_items_are_dismantled_even_with_room() {
    let mut rich = weapon(1, 10);
    rich.wearable_by_player = false;
    rich.dismantle_arcane = 1001;
    let mut bag = vec![None; 10];
    bag[4] = Some(rich);
    let mut v = view(90, gear(Class::Warrior, None), bag);
    v.blacksmith = Some(Blacksmith { metal: 0, arcane: 0, dismantle_left: 1 });
    assert_eq!(inventory_next(&v), Some(InventoryAction::Dismantle { bag_pos: 4 }));
    // At the threshold itself: kept.
    v.bag[4].as_mut().unwrap().dismantle_arcane = 1000;
    assert_eq!(inventory_next(&v), None);
}

#[test]
fn sell_picks_toilet_blacksmith_witch_then_shop() {
    let hat = item(ItemKind::Equipment { slot: EquipmentSlot::Hat, weapon: false }, 1, 0);
    let mut v = view(66, gear(Class::Warrior, None), vec![]);
    assert_eq!(sell(&v, 3, &hat), InventoryAction::SellShop { bag_pos: 3 });
    v.witch = Some(Cauldron { required_item: Some(EquipmentSlot::Hat) });
    assert_eq!(sell(&v, 3, &hat), InventoryAction::WitchDropCauldron { bag_pos: 3 });
    assert_eq!(sell(&v, 3, &other()), InventoryAction::SellShop { bag_pos: 3 });
    v.level = 100;
    v.blacksmith = Some(Blacksmith { metal: 0, arcane: 0, dismantle_left: 2 });
    assert_eq!(sell(&v, 3, &hat), InventoryAction::Dismantle { bag_pos: 3 });
    v.toilet = Some(Toilet { aura: 5, mana_currently: 0, mana_total: 10, sacrifices_left: 1 });
    assert_eq!(sell(&v, 3, &hat), InventoryAction::ToiletDrop { bag_pos: 3 });
}

#[test]
fn blacksmith_adds_sockets_before_upgrades() {
    let mut w = weapon(1, 10);
    w.socket_costs = Some(BlacksmithPayment { metal: 10, arcane: 10 });
    w.upgrade_costs = Some(BlacksmithPayment { metal: 1, arcane: 1 });
    let mut v = view(90, gear(Class::Warrior, Some(w)), vec![]);
    v.blacksmith = Some(Blacksmith { metal: 100, arcane: 100, dismantle_left: 0 });
    assert_eq!(inventory_next(&v), Some(InventoryAction::SocketUpgrade { slot: EquipmentSlot::Weapon }));
    // The socket is not paid: upgrades must leave enough for it.
    v.blacksmith = Some(Blacksmith { metal: 10, arcane: 9, dismantle_left: 0 });
    assert_eq!(inventory_next(&v), None);
    v.gear.equipment[8].as_mut().unwrap().socket_costs = None;
    assert_eq!(inventory_next(&v), Some(InventoryAction::UpgradeItem { slot: EquipmentSlot::Weapon }));
}
