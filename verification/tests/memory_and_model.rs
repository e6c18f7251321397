use rsfb::memory::{NameMap, NameSet};
use rsfb::model::{
    companion_class, count_free_slots, enchantment_at, enchantment_slot, free_slot, main_attribute, mount_cost,
    mount_tier, potion_of, slot_at, slot_index, Attributes, AttributeType, Class, CompanionClass, Enchantment,
    EquipmentSlot, Item, ItemKind, Mount, NormalCost, PotionType,
};

fn plain_item() -> Item {
    Item {
        kind: ItemKind::Other,
        model_id: 1,
        price: 0,
        mushroom_price: 0,
        attributes: Attributes { strength: 0, dexterity: 0, intelligence: 0, constitution: 0, luck: 0 },
        gem_slot: None,
        enchantment: None,
        wearable_by_player: false,
        wearable_by_warrior: false,
        wearable_by_mage: false,
        wearable_by_scout: false,
        dismantle_arcane: 0,
        upgrade_costs: None,
        socket_costs: None,
    }
}

#[test]
fn name_set_insert_reports_novelty() {
    let mut s = NameSet::new();
    let a = "alice".to_string();
    assert!(!s.contains(&a));
    assert!(s.insert(&a));
    assert!(s.contains(&a));
    assert!(!s.insert(&a));
    assert!(!s.contains(&"bob".to_string()));
}

#[test]
fn name_map_read_after_write() {
    let mut m: NameMap<i64> = NameMap::new();
    let a = "alice".to_string();
    let b = "bob".to_string();
    assert_eq!(m.get(&a), None);
    m.insert(&a, 7);
    m.insert(&b, 9);
    assert_eq!(m.get(&a), Some(7));
    m.insert(&a, 11);
    assert_eq!(m.get(&a), Some(11));
    assert_eq!(m.get(&b), Some(9));
}

#[test]
fn main_attribute_of_each_class() {
    assert_eq!(main_attribute(Class::Warrior), AttributeType::Strength);
    assert_eq!(main_attribute(Class::Paladin), AttributeType::Strength);
    assert_eq!(main_attribute(Class::Scout), AttributeType::Dexterity);
    assert_eq!(main_attribute(Class::Assassin), AttributeType::Dexterity);
    assert_eq!(main_attribute(Class::Mage), AttributeType::Intelligence);
    assert_eq!(main_attribute(Class::Druid), AttributeType::Intelligence);
}

#[test]
fn potions_of_attributes() {
    assert_eq!(potion_of(AttributeType::Strength), PotionType::Strength);
    assert_eq!(potion_of(AttributeType::Luck), PotionType::Luck);
    assert_eq!(potion_of(AttributeType::Constitution), PotionType::Constitution);
}

#[test]
fn slot_index_round_trip() {
    for i in 0..10 {
        assert_eq!(slot_index(slot_at(i)), i);
    }
    assert_eq!(slot_at(0), EquipmentSlot::Hat);
    assert_eq!(slot_at(8), EquipmentSlot::Weapon);
}

#[test]
fn enchantments_and_their_slots() {
    assert_eq!(enchantment_at(0), Enchantment::SwordOfVengeance);
    assert_eq!(enchantment_slot(Enchantment::SwordOfVengeance), EquipmentSlot::Weapon);
    assert_eq!(enchantment_slot(Enchantment::ThirstyWanderer), EquipmentSlot::Belt);
}

#[test]
fn companions_have_classes() {
    assert_eq!(companion_class(CompanionClass::Warrior), Class::Warrior);
    assert_eq!(companion_class(CompanionClass::Mage), Class::Mage);
    assert_eq!(companion_class(CompanionClass::Scout), Class::Scout);
}

#[test]
fn free_places_of_a_bag() {
    let bag = vec![Some(plain_item()), None, Some(plain_item()), None];
    assert_eq!(count_free_slots(&bag), 2);
    assert_eq!(free_slot(&bag), Some(1));
    let full = vec![Some(plain_item())];
    assert_eq!(count_free_slots(&full), 0);
    assert_eq!(free_slot(&full), None);
    assert_eq!(free_slot(&Vec::new()), None);
}

#[test]
fn mount_tiers_and_rents() {
    assert_eq!(mount_tier(Mount::Cow), 1);
    assert_eq!(mount_tier(Mount::Dragon), 4);
    assert_eq!(mount_cost(Mount::Cow), NormalCost { silver: 100, mushrooms: 0 });
    assert_eq!(mount_cost(Mount::Horse), NormalCost { silver: 500, mushrooms: 0 });
    assert_eq!(mount_cost(Mount::Tiger), NormalCost { silver: 1000, mushrooms: 1 });
    assert_eq!(mount_cost(Mount::Dragon), NormalCost { silver: 0, mushrooms: 25 });
}

#[test]
fn attributes_get() {
    let a = Attributes { strength: 1, dexterity: 2, intelligence: 3, constitution: 4, luck: 5 };
    assert_eq!(a.get(AttributeType::Strength), 1);
    assert_eq!(a.get(AttributeType::Luck), 5);
}
