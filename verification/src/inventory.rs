//! Inventory management: potions, gems, equipment upgrades for the character
//! and its companions, the toilet, the blacksmith and selling.

use vstd::prelude::*;

use crate::constant::{BLACKSMITH_MIN_ARCANE_DISMANTLE, EPIC_LEGENDARY_MULTIPLIER, INVENTORY_MIN_FREE_SLOTS};
use crate::model::{
    companion_at, companion_class, companion_worn, count_free_slots, main_attribute, potion_of,
    slot_at, spec_companion_at, spec_companion_class, spec_companion_equipment, spec_count_free,
    spec_main_attribute, spec_potion_of, spec_slot_at, spec_slot_index, spec_worn, worn, AttributeType,
    BlacksmithPayment, Class, CompanionClass, EquipmentSlot, Gear, Gem, GemSlot, GemType, Item,
    ItemKind, Potion, PotionType, EQUIPMENT_SLOTS,
};

verus! {

// ---------------------------------------------------------------------------
// Equipment comparison
// ---------------------------------------------------------------------------

/// Whether `new` is worth wearing in place of `old`, judged by `attr`.
/// Epic and legendary items count double: a normal item replaces a special
/// one only with more than twice its value, and a special one replaces a
/// normal one unless the normal one has at least twice its value.
pub open spec fn spec_is_upgrade(old: Item, new: Item, attr: AttributeType) -> bool {
    let a_old = old.attributes.spec_get(attr) as int;
    let a_new = new.attributes.spec_get(attr) as int;
    let new_special = new.spec_is_epic() || new.spec_is_legendary();
    let old_special = old.spec_is_epic() || old.spec_is_legendary();
    if !new_special && old_special {
        a_new > a_old * EPIC_LEGENDARY_MULTIPLIER
    } else if new_special && !old_special {
        a_old < a_new * EPIC_LEGENDARY_MULTIPLIER
    } else {
        a_new > a_old
    }
}

fn is_upgrade(old: &Item, new: &Item, attr: AttributeType) -> (r: bool)
    ensures
        r == spec_is_upgrade(*old, *new, attr),
{
    let a_old = old.attributes.get(attr) as u64;
    let a_new = new.attributes.get(attr) as u64;
    let new_special = new.is_epic() || new.is_legendary();
    let old_special = old.is_epic() || old.is_legendary();
    let mult = EPIC_LEGENDARY_MULTIPLIER as u64;
    assert(mult == 2);
    if !new_special && old_special {
        a_new > a_old * mult
    } else if new_special && !old_special {
        a_old < a_new * mult
    } else {
        a_new > a_old
    }
}

/// Whether the character should wear `it` in `slot`.
pub open spec fn spec_should_equip(gear: Gear, it: Item, slot: EquipmentSlot) -> bool {
    it.wearable_by_player && match spec_worn(gear.equipment@, slot) {
        None => true,
        Some(eq) => spec_is_upgrade(eq, it, spec_main_attribute(gear.class)),
    }
}

/// Whether the character should wear `it` in `slot`: it must be wearable by
/// the character's class and the slot empty or holding a worse item.
pub fn should_equip(gear: &Gear, it: &Item, slot: EquipmentSlot) -> (r: bool)
    ensures
        r == spec_should_equip(*gear, *it, slot),
{
    if !it.wearable_by_player {
        return false;
    }
    let attr = main_attribute(gear.class);
    match worn(&gear.equipment, slot) {
        None => true,
        Some(eq) => is_upgrade(&eq, it, attr),
    }
}

/// Whether companion `cc` should wear `it` in `slot`.
pub open spec fn spec_s_eq_comp(gear: Gear, it: Item, slot: EquipmentSlot, cc: CompanionClass) -> bool {
    it.spec_wearable_by_companion(cc) && match gear.companions {
        None => false,
        Some(cs) => match spec_worn(spec_companion_equipment(cs@, cc), slot) {
            None => true,
            Some(eq) => spec_is_upgrade(eq, it, spec_main_attribute(spec_companion_class(cc))),
        },
    }
}

/// Whether companion `cc` should wear `it` in `slot`: the companions must
/// be unlocked, the companion able to wear it, and its slot empty or holding
/// a worse item.
pub fn s_eq_comp(gear: &Gear, it: &Item, slot: EquipmentSlot, cc: CompanionClass) -> (r: bool)
    ensures
        r == spec_s_eq_comp(*gear, *it, slot, cc),
{
    if !it.wearable_by_companion(cc) {
        return false;
    }
    match &gear.companions {
        None => false,
        Some(cs) => {
            let attr = main_attribute(companion_class(cc));
            match companion_worn(cs, cc, slot) {
                None => true,
                Some(eq) => is_upgrade(&eq, it, attr),
            }
        },
    }
}

/// The slot of the character in which `it` should be worn, if any. An
/// assassin wears a weapon in either hand.
pub open spec fn spec_target_equipment_slot(gear: Gear, it: Item) -> Option<EquipmentSlot> {
    match it.spec_equipment_slot() {
        None => None,
        Some(slot) => if gear.class == Class::Assassin && it.spec_is_weapon() {
            if spec_should_equip(gear, it, EquipmentSlot::Weapon) {
                Some(EquipmentSlot::Weapon)
            } else if spec_should_equip(gear, it, EquipmentSlot::Shield) {
                Some(EquipmentSlot::Shield)
            } else {
                None
            }
        } else if spec_should_equip(gear, it, slot) {
            Some(slot)
        } else {
            None
        },
    }
}

/// The slot of the character in which `it` should be worn, if any.
pub fn target_equipment_slot(gear: &Gear, it: &Item) -> (r: Option<EquipmentSlot>)
    ensures
        r == spec_target_equipment_slot(*gear, *it),
{
    let slot = match it.equipment_slot() {
        None => {
            return None;
        },
        Some(s) => s,
    };
    if gear.class == Class::Assassin && it.is_weapon() {
        if should_equip(gear, it, EquipmentSlot::Weapon) {
            return Some(EquipmentSlot::Weapon);
        }
        if should_equip(gear, it, EquipmentSlot::Shield) {
            return Some(EquipmentSlot::Shield);
        }
        return None;
    }
    if should_equip(gear, it, slot) {
        Some(slot)
    } else {
        None
    }
}

/// The first companion (warrior, mage, scout) that should wear `it` in `slot`.
pub open spec fn spec_companion_for(gear: Gear, it: Item, slot: EquipmentSlot) -> Option<CompanionClass> {
    if spec_s_eq_comp(gear, it, slot, CompanionClass::Warrior) {
        Some(CompanionClass::Warrior)
    } else if spec_s_eq_comp(gear, it, slot, CompanionClass::Mage) {
        Some(CompanionClass::Mage)
    } else if spec_s_eq_comp(gear, it, slot, CompanionClass::Scout) {
        Some(CompanionClass::Scout)
    } else {
        None
    }
}

fn companion_for(gear: &Gear, it: &Item, slot: EquipmentSlot) -> (r: Option<CompanionClass>)
    ensures
        r == spec_companion_for(*gear, *it, slot),
{
    if s_eq_comp(gear, it, slot, CompanionClass::Warrior) {
        Some(CompanionClass::Warrior)
    } else if s_eq_comp(gear, it, slot, CompanionClass::Mage) {
        Some(CompanionClass::Mage)
    } else if s_eq_comp(gear, it, slot, CompanionClass::Scout) {
        Some(CompanionClass::Scout)
    } else {
        None
    }
}

/// Whether the character or a companion should wear `item`.
pub open spec fn spec_is_equippable(gear: Gear, item: Item) -> bool {
    spec_target_equipment_slot(gear, item) is Some || match item.spec_equipment_slot() {
        None => false,
        Some(slot) => spec_companion_for(gear, item, slot) is Some,
    }
}

/// Whether the character or a companion should wear `item`.
pub fn is_equippable(gear: &Gear, item: &Item) -> (r: bool)
    ensures
        r == spec_is_equippable(*gear, *item),
{
    if target_equipment_slot(gear, item).is_some() {
        return true;
    }
    match item.equipment_slot() {
        None => false,
        Some(slot) => companion_for(gear, item, slot).is_some(),
    }
}

// ---------------------------------------------------------------------------
// Gems
// ---------------------------------------------------------------------------

/// Whether a gem raises a given attribute.
pub open spec fn spec_matches_attr(gem_typ: GemType, attr_typ: AttributeType) -> bool {
    (gem_typ == GemType::Strength && attr_typ == AttributeType::Strength) || (gem_typ
        == GemType::Dexterity && attr_typ == AttributeType::Dexterity) || (gem_typ
        == GemType::Intelligence && attr_typ == AttributeType::Intelligence) || (gem_typ
        == GemType::Constitution && attr_typ == AttributeType::Constitution) || (gem_typ
        == GemType::Luck && attr_typ == AttributeType::Luck)
}

/// Whether a gem raises a given attribute.
pub fn matches_attr(gem_typ: GemType, attr_typ: AttributeType) -> (r: bool)
    ensures
        r == spec_matches_attr(gem_typ, attr_typ),
{
    if gem_typ == GemType::Strength && attr_typ == AttributeType::Strength {
        return true;
    }
    if gem_typ == GemType::Dexterity && attr_typ == AttributeType::Dexterity {
        return true;
    }
    if gem_typ == GemType::Intelligence && attr_typ == AttributeType::Intelligence {
        return true;
    }
    if gem_typ == GemType::Constitution && attr_typ == AttributeType::Constitution {
        return true;
    }
    if gem_typ == GemType::Luck && attr_typ == AttributeType::Luck {
        return true;
    }
    false
}

/// Walks the slots from `i` on: the first item with an empty socket wins;
/// otherwise the filled socket with the weakest gem that is weaker than
/// `value` (the first such slot on a tie).
pub open spec fn spec_gem_scan(
    eq: Seq<Option<Item>>,
    value: u32,
    i: nat,
    best: Option<EquipmentSlot>,
    min: u32,
) -> Option<EquipmentSlot>
    decreases EQUIPMENT_SLOTS - i,
{
    if i >= EQUIPMENT_SLOTS {
        best
    } else {
        let slot = spec_slot_at(i as int);
        match spec_worn(eq, slot) {
            Some(e) => match e.gem_slot {
                Some(GemSlot::Empty) => Some(slot),
                Some(GemSlot::Filled(v)) => if value > v && v < min {
                    spec_gem_scan(eq, value, i + 1, Some(slot), v)
                } else {
                    spec_gem_scan(eq, value, i + 1, best, min)
                },
                None => spec_gem_scan(eq, value, i + 1, best, min),
            },
            None => spec_gem_scan(eq, value, i + 1, best, min),
        }
    }
}

/// The slot of `eq` a gem should go into, for a wearer whose main attribute
/// is `attr`: only gems of every attribute, legendary gems and gems of the
/// main attribute are used.
pub open spec fn spec_gem_target(eq: Seq<Option<Item>>, gem: Gem, attr: AttributeType) -> Option<EquipmentSlot> {
    if gem.typ == GemType::All || gem.typ == GemType::Legendary || spec_matches_attr(gem.typ, attr) {
        spec_gem_scan(eq, gem.value, 0, None, u32::MAX)
    } else {
        None
    }
}

fn gem_target(eq: &Vec<Option<Item>>, gem: Gem, attr: AttributeType) -> (r: Option<EquipmentSlot>)
    ensures
        r == spec_gem_target(eq@, gem, attr),
{
    if !(gem.typ == GemType::All || gem.typ == GemType::Legendary || matches_attr(gem.typ, attr)) {
        return None;
    }
    let mut best: Option<EquipmentSlot> = None;
    let mut min: u32 = u32::MAX;
    let mut i: usize = 0;
    while i < EQUIPMENT_SLOTS
        invariant
            i <= EQUIPMENT_SLOTS,
            spec_gem_target(eq@, gem, attr) == spec_gem_scan(eq@, gem.value, 0, None, u32::MAX),
            spec_gem_scan(eq@, gem.value, 0, None, u32::MAX) == spec_gem_scan(
                eq@,
                gem.value,
                i as nat,
                best,
                min,
            ),
        decreases EQUIPMENT_SLOTS - i,
    {
        let slot = slot_at(i);
        match worn(eq, slot) {
            Some(e) => match e.gem_slot {
                Some(GemSlot::Empty) => {
                    return Some(slot);
                },
                Some(GemSlot::Filled(v)) => {
                    if gem.value > v && v < min {
                        min = v;
                        best = Some(slot);
                    }
                },
                None => {},
            },
            None => {},
        }
        i = i + 1;
    }
    best
}

/// The first companion, from position `k` on, that should get a gem, with
/// the slot it goes into.
pub open spec fn spec_companion_gem_from(cs: Seq<Companion>, gem: Gem, k: nat) -> Option<(CompanionClass, EquipmentSlot)>
    decreases 3 - k,
{
    if k >= 3 {
        None
    } else {
        let c = spec_companion_at(k as int);
        match spec_gem_target(
            spec_companion_equipment(cs, c),
            gem,
            spec_main_attribute(spec_companion_class(c)),
        ) {
            Some(slot) => Some((c, slot)),
            None => spec_companion_gem_from(cs, gem, k + 1),
        }
    }
}

use crate::model::Companion;

fn companion_gem(cs: &Vec<Companion>, gem: Gem) -> (r: Option<(CompanionClass, EquipmentSlot)>)
    ensures
        r == spec_companion_gem_from(cs@, gem, 0),
{
    let mut k: usize = 0;
    while k < 3
        invariant
            k <= 3,
            spec_companion_gem_from(cs@, gem, 0) == spec_companion_gem_from(cs@, gem, k as nat),
        decreases 3 - k,
    {
        let c = companion_at(k);
        let attr = main_attribute(companion_class(c));
        let target = if k < cs.len() {
            gem_target(&cs[k].equipment, gem, attr)
        } else {
            let empty: Vec<Option<Item>> = Vec::new();
            assert(empty@ == Seq::<Option<Item>>::empty());
            gem_target(&empty, gem, attr)
        };
        if let Some(slot) = target {
            return Some((c, slot));
        }
        k = k + 1;
    }
    None
}

// ---------------------------------------------------------------------------
// The inventory routine
// ---------------------------------------------------------------------------

/// The toilet in the tavern.
#[derive(Debug, Clone, Copy, PartialEq, Eq, Structural)]
pub struct Toilet {
    pub aura: u32,
    pub mana_currently: u32,
    pub mana_total: u32,
    pub sacrifices_left: u32,
}

/// The blacksmith's stock and the dismantles left today.
#[derive(Debug, Clone, Copy, PartialEq, Eq, Structural)]
pub struct Blacksmith {
    pub metal: u64,
    pub arcane: u64,
    pub dismantle_left: u8,
}

/// The witch's cauldron and the kind of item it asks for today.
#[derive(Debug, Clone, Copy, PartialEq, Eq, Structural)]
pub struct Cauldron {
    pub required_item: Option<EquipmentSlot>,
}

/// What the inventory routine reads of the game.
#[derive(Debug, Clone)]
pub struct InventoryView {
    pub level: u16,
    pub gear: Gear,
    pub toilet: Option<Toilet>,
    pub blacksmith: Option<Blacksmith>,
    pub witch: Option<Cauldron>,
    /// The three potion places of the character.
    pub active_potions: Vec<Option<Potion>>,
    /// The bag, place by place.
    pub bag: Vec<Option<Item>>,
    /// The current second since the Unix epoch.
    pub now_secs: i64,
}

/// The next step of the inventory routine. Bag places and potion places
/// are 0-based positions.
#[derive(Debug, Clone, Copy, PartialEq, Eq, Structural)]
pub enum InventoryAction {
    ToiletFlush,
    RemovePotion { pos: usize },
    ToiletOpen,
    UsePotion { bag_pos: usize },
    Equip { bag_pos: usize, to_slot: EquipmentSlot },
    EquipCompanion { bag_pos: usize, to_slot: EquipmentSlot, to_companion: CompanionClass },
    Dismantle { bag_pos: usize },
    ToiletDrop { bag_pos: usize },
    WitchDropCauldron { bag_pos: usize },
    SellShop { bag_pos: usize },
    SocketUpgrade { slot: EquipmentSlot },
    UpgradeItem { slot: EquipmentSlot },
}

/// Seconds of potion time beyond which a potion is not topped up (12 days).
pub const POTION_FULL_SECS: i64 = 12 * 24 * 60 * 60;

/// The toilet is usable from level 100 once its aura is above zero.
pub open spec fn spec_toilet_unlocked(v: InventoryView) -> bool {
    v.level >= 100 && (v.toilet matches Some(t) && t.aura > 0)
}

/// The potions worth keeping: the main attribute's, constitution and the
/// winged bottle.
pub open spec fn spec_wanted_potion(class: Class, p: PotionType) -> bool {
    p == spec_potion_of(spec_main_attribute(class)) || p == PotionType::Constitution || p
        == PotionType::EternalLife
}

/// The first active potion, from place `i` on, that is not worth keeping.
pub open spec fn spec_unwanted_active_from(v: InventoryView, i: nat) -> Option<nat>
    decreases v.active_potions@.len() - i,
{
    if i >= v.active_potions@.len() {
        None
    } else if v.active_potions@[i as int] matches Some(ap) && !spec_wanted_potion(v.gear.class, ap.typ) {
        Some(i)
    } else {
        spec_unwanted_active_from(v, i + 1)
    }
}

/// The first active potion, from place `i` on, of the given kind.
pub open spec fn spec_active_of_type_from(actives: Seq<Option<Potion>>, typ: PotionType, i: nat) -> Option<nat>
    decreases actives.len() - i,
{
    if i >= actives.len() {
        None
    } else if actives[i as int] matches Some(ap) && ap.typ == typ {
        Some(i)
    } else {
        spec_active_of_type_from(actives, typ, i + 1)
    }
}

/// What to do with a potion in the bag at `bag_pos`: drink it if no potion
/// of its kind is active, or the active one is of the same size and runs
/// out within twelve days; make room for it if it is larger than the active
/// one; otherwise leave it.
pub open spec fn spec_potion_step(v: InventoryView, bag_pos: nat, p: Potion) -> Option<InventoryAction> {
    if !spec_wanted_potion(v.gear.class, p.typ) {
        None
    } else {
        match spec_active_of_type_from(v.active_potions@, p.typ, 0) {
            None => Some(InventoryAction::UsePotion { bag_pos: bag_pos as usize }),
            Some(idx) => {
                let ap = v.active_potions@[idx as int].unwrap();
                if ap.size < p.size {
                    Some(InventoryAction::RemovePotion { pos: idx as usize })
                } else if ap.size > p.size {
                    None
                } else if !(ap.expires_secs matches Some(e) && e - v.now_secs >= POTION_FULL_SECS) {
                    Some(InventoryAction::UsePotion { bag_pos: bag_pos as usize })
                } else {
                    None
                }
            },
        }
    }
}

/// What to do with a gem in the bag at `bag_pos`: set it into the
/// character's equipment, or else into a companion's.
pub open spec fn spec_gem_step(v: InventoryView, bag_pos: nat, g: Gem) -> Option<InventoryAction> {
    match spec_gem_target(v.gear.equipment@, g, spec_main_attribute(v.gear.class)) {
        Some(slot) => Some(InventoryAction::Equip { bag_pos: bag_pos as usize, to_slot: slot }),
        None => match v.gear.companions {
            None => None,
            Some(cs) => match spec_companion_gem_from(cs@, g, 0) {
                Some((c, slot)) => Some(
                    InventoryAction::EquipCompanion {
                        bag_pos: bag_pos as usize,
                        to_slot: slot,
                        to_companion: c,
                    },
                ),
                None => None,
            },
        },
    }
}

/// What to do with the item in the bag at `bag_pos`, if anything.
pub open spec fn spec_bag_step(v: InventoryView, bag_pos: nat) -> Option<InventoryAction> {
    match v.bag@[bag_pos as int] {
        None => None,
        Some(item) => if item.kind == ItemKind::ToiletKey && !spec_toilet_unlocked(v) {
            Some(InventoryAction::ToiletOpen)
        } else {
            match item.kind {
                ItemKind::Potion(p) => spec_potion_step(v, bag_pos, p),
                ItemKind::Gem(g) => spec_gem_step(v, bag_pos, g),
                _ => match spec_target_equipment_slot(v.gear, item) {
                    Some(to_slot) => Some(InventoryAction::Equip { bag_pos: bag_pos as usize, to_slot }),
                    None => match item.spec_equipment_slot() {
                        None => None,
                        Some(slot) => match spec_companion_for(v.gear, item, slot) {
                            Some(c) => Some(
                                InventoryAction::EquipCompanion {
                                    bag_pos: bag_pos as usize,
                                    to_slot: slot,
                                    to_companion: c,
                                },
                            ),
                            None => None,
                        },
                    },
                },
            }
        },
    }
}

/// The first step for a bag item, from place `i` on.
pub open spec fn spec_bag_scan(v: InventoryView, i: nat) -> Option<InventoryAction>
    decreases v.bag@.len() - i,
{
    if i >= v.bag@.len() {
        None
    } else {
        match spec_bag_step(v, i) {
            Some(a) => Some(a),
            None => spec_bag_scan(v, i + 1),
        }
    }
}

/// A bag item the bot may get rid of: anything but a toilet key that has
/// not been used yet.
pub open spec fn spec_is_surplus(v: InventoryView, i: int) -> bool {
    v.bag@[i] matches Some(item) && !(item.kind == ItemKind::ToiletKey && !spec_toilet_unlocked(v))
}

/// Which surplus items a search looks for.
#[derive(Debug, Clone, Copy, PartialEq, Eq, Structural)]
pub enum SurplusFilter {
    /// Equipment that yields more arcane splinters than the dismantle threshold.
    RichInArcane,
    /// Epic items.
    Epic,
    /// Every surplus item.
    Any,
}

pub open spec fn spec_filter(f: SurplusFilter, item: Item) -> bool {
    match f {
        SurplusFilter::RichInArcane => item.spec_equipment_slot() is Some && item.dismantle_arcane
            > BLACKSMITH_MIN_ARCANE_DISMANTLE,
        SurplusFilter::Epic => item.spec_is_epic(),
        SurplusFilter::Any => true,
    }
}

/// The first surplus item, from place `i` on, that the filter keeps.
pub open spec fn spec_first_surplus_from(v: InventoryView, f: SurplusFilter, i: nat) -> Option<nat>
    decreases v.bag@.len() - i,
{
    if i >= v.bag@.len() {
        None
    } else if spec_is_surplus(v, i as int) && spec_filter(f, v.bag@[i as int].unwrap()) {
        Some(i)
    } else {
        spec_first_surplus_from(v, f, i + 1)
    }
}

/// The blacksmith can dismantle from level 90 while dismantles remain.
pub open spec fn spec_can_dismantle(v: InventoryView) -> bool {
    v.level >= 90 && (v.blacksmith matches Some(bs) && bs.dismantle_left > 0)
}

/// The toilet takes sacrifices while it is unlocked and some remain.
pub open spec fn spec_can_sacrifice(v: InventoryView) -> bool {
    spec_toilet_unlocked(v) && (v.toilet matches Some(t) && t.sacrifices_left > 0)
}

/// How to get rid of a bag item: the toilet, else the blacksmith (for
/// equipment), else the witch's cauldron (for the kind she asks for), else
/// the shop.
pub open spec fn spec_sell(v: InventoryView, bag_pos: nat, item: Item) -> InventoryAction {
    if spec_can_sacrifice(v) {
        InventoryAction::ToiletDrop { bag_pos: bag_pos as usize }
    } else if spec_can_dismantle(v) && item.spec_equipment_slot() is Some {
        InventoryAction::Dismantle { bag_pos: bag_pos as usize }
    } else if v.level >= 66 && (v.witch matches Some(w) && item.spec_equipment_slot() is Some
        && w.required_item == item.spec_equipment_slot()) {
        InventoryAction::WitchDropCauldron { bag_pos: bag_pos as usize }
    } else {
        InventoryAction::SellShop { bag_pos: bag_pos as usize }
    }
}

/// A slot whose item gets a gem socket: every slot but the shield, which
/// counts for assassins only.
pub open spec fn spec_socket_slot(class: Class, slot: EquipmentSlot) -> bool {
    !(slot == EquipmentSlot::Shield && class != Class::Assassin)
}

/// The socket price of the item worn in a slot, where the slot counts.
pub open spec fn spec_socket_costs_at(gear: Gear, i: int) -> Option<BlacksmithPayment> {
    let slot = spec_slot_at(i);
    if spec_socket_slot(gear.class, slot) {
        match spec_worn(gear.equipment@, slot) {
            Some(e) => e.socket_costs,
            None => None,
        }
    } else {
        None
    }
}

/// The metal for all sockets in the first `n` slots.
pub open spec fn spec_socket_metal(gear: Gear, n: nat) -> int
    decreases n,
{
    if n == 0 {
        0
    } else {
        spec_socket_metal(gear, (n - 1) as nat) + match spec_socket_costs_at(gear, n - 1) {
            Some(c) => c.metal as int,
            None => 0,
        }
    }
}

/// The arcane splinters for all sockets in the first `n` slots.
pub open spec fn spec_socket_arcane(gear: Gear, n: nat) -> int
    decreases n,
{
    if n == 0 {
        0
    } else {
        spec_socket_arcane(gear, (n - 1) as nat) + match spec_socket_costs_at(gear, n - 1) {
            Some(c) => c.arcane as int,
            None => 0,
        }
    }
}

/// The first slot, from `i` on, whose socket the blacksmith's stock pays.
pub open spec fn spec_socket_from(gear: Gear, bs: Blacksmith, i: nat) -> Option<EquipmentSlot>
    decreases EQUIPMENT_SLOTS - i,
{
    if i >= EQUIPMENT_SLOTS {
        None
    } else if spec_socket_costs_at(gear, i as int) matches Some(c) && bs.metal >= c.metal && bs.arcane
        >= c.arcane {
        Some(spec_slot_at(i as int))
    } else {
        spec_socket_from(gear, bs, i + 1)
    }
}

/// The order in which worn items are upgraded; assassins add the shield.
pub open spec fn spec_upgrade_order(class: Class) -> Seq<EquipmentSlot> {
    let base = seq![
        EquipmentSlot::Weapon,
        EquipmentSlot::BreastPlate,
        EquipmentSlot::FootWear,
        EquipmentSlot::Gloves,
        EquipmentSlot::Hat,
        EquipmentSlot::Belt,
        EquipmentSlot::Amulet,
        EquipmentSlot::Ring,
        EquipmentSlot::Talisman,
    ];
    if class == Class::Assassin {
        base.push(EquipmentSlot::Shield)
    } else {
        base
    }
}

/// The first slot in upgrade order, from position `k` on, whose upgrade the
/// stock pays while keeping `tsm` metal and `tsa` arcane for the sockets.
pub open spec fn spec_upgrade_from(gear: Gear, bs: Blacksmith, tsm: int, tsa: int, k: nat) -> Option<EquipmentSlot>
    decreases spec_upgrade_order(gear.class).len() - k,
{
    let order = spec_upgrade_order(gear.class);
    if k >= order.len() {
        None
    } else if spec_worn(gear.equipment@, order[k as int]) matches Some(e) && e.upgrade_costs matches Some(c)
        && bs.metal >= c.metal + tsm && bs.arcane >= c.arcane + tsa {
        Some(order[k as int])
    } else {
        spec_upgrade_from(gear, bs, tsm, tsa, k + 1)
    }
}

/// The blacksmith's part: sockets first, then upgrades that leave enough for
/// every socket still to come.
pub open spec fn spec_blacksmith_step(gear: Gear, bs: Blacksmith) -> Option<InventoryAction> {
    match spec_socket_from(gear, bs, 0) {
        Some(slot) => Some(InventoryAction::SocketUpgrade { slot }),
        None => match spec_upgrade_from(
            gear,
            bs,
            spec_socket_metal(gear, EQUIPMENT_SLOTS as nat),
            spec_socket_arcane(gear, EQUIPMENT_SLOTS as nat),
            0,
        ) {
            Some(slot) => Some(InventoryAction::UpgradeItem { slot }),
            None => None,
        },
    }
}

/// The next step of the inventory routine, in order: flush a full toilet;
/// take off a potion not worth keeping; deal with the first bag item that
/// can be used (toilet key, potion, gem, equipment for the character or a
/// companion); dismantle surplus equipment rich in arcane splinters; feed
/// when fewer than the minimum of places are free, feed a surplus item to
/// the toilet (an epic one first) or else get rid of the first surplus item; at the blacksmith, add
/// sockets and upgrade worn items.
pub open spec fn spec_inventory_next(v: InventoryView) -> Option<InventoryAction> {
    let any = SurplusFilter::Any;
    if spec_toilet_unlocked(v) && (v.toilet matches Some(t) && t.mana_total > 0 && t.mana_currently
        >= t.mana_total) {
        Some(InventoryAction::ToiletFlush)
    } else if spec_unwanted_active_from(v, 0) is Some {
        Some(InventoryAction::RemovePotion { pos: spec_unwanted_active_from(v, 0).unwrap() as usize })
    } else if spec_bag_scan(v, 0) is Some {
        spec_bag_scan(v, 0)
    } else if spec_can_dismantle(v) && spec_first_surplus_from(v, SurplusFilter::RichInArcane, 0) is Some {
        Some(
            InventoryAction::Dismantle {
                bag_pos: spec_first_surplus_from(v, SurplusFilter::RichInArcane, 0).unwrap() as usize,
            },
        )
    } else if spec_can_sacrifice(v) && spec_count_free(v.bag@) < INVENTORY_MIN_FREE_SLOTS
        && spec_first_surplus_from(v, any, 0) is Some {
        match spec_first_surplus_from(v, SurplusFilter::Epic, 0) {
            Some(p) => Some(InventoryAction::ToiletDrop { bag_pos: p as usize }),
            None => Some(
                InventoryAction::ToiletDrop { bag_pos: spec_first_surplus_from(v, any, 0).unwrap() as usize },
            ),
        }
    } else if spec_count_free(v.bag@) < INVENTORY_MIN_FREE_SLOTS && spec_first_surplus_from(v, any, 0) is Some {
        let p = spec_first_surplus_from(v, any, 0).unwrap();
        Some(spec_sell(v, p, v.bag@[p as int].unwrap()))
    } else if v.level >= 90 && v.blacksmith is Some {
        spec_blacksmith_step(v.gear, v.blacksmith.unwrap())
    } else {
        None
    }
}

fn toilet_unlocked(v: &InventoryView) -> (r: bool)
    ensures
        r == spec_toilet_unlocked(*v),
{
    v.level >= 100 && match v.toilet {
        Some(t) => t.aura > 0,
        None => false,
    }
}

fn wanted_potion(class: Class, p: PotionType) -> (r: bool)
    ensures
        r == spec_wanted_potion(class, p),
{
    p == potion_of(main_attribute(class)) || p == PotionType::Constitution || p == PotionType::EternalLife
}

fn unwanted_active(v: &InventoryView) -> (r: Option<usize>)
    ensures
        r matches Some(i) ==> spec_unwanted_active_from(*v, 0) == Some(i as nat),
        r is None ==> spec_unwanted_active_from(*v, 0) is None,
{
    let mut i: usize = 0;
    while i < v.active_potions.len()
        invariant
            i <= v.active_potions@.len(),
            spec_unwanted_active_from(*v, 0) == spec_unwanted_active_from(*v, i as nat),
        decreases v.active_potions@.len() - i,
    {
        if let Some(ap) = v.active_potions[i] {
            if !wanted_potion(v.gear.class, ap.typ) {
                return Some(i);
            }
        }
        i = i + 1;
    }
    None
}

fn active_of_type(actives: &Vec<Option<Potion>>, typ: PotionType) -> (r: Option<usize>)
    ensures
        r matches Some(i) ==> spec_active_of_type_from(actives@, typ, 0) == Some(i as nat) && i
            < actives@.len(),
        r is None ==> spec_active_of_type_from(actives@, typ, 0) is None,
{
    let mut i: usize = 0;
    while i < actives.len()
        invariant
            i <= actives@.len(),
            spec_active_of_type_from(actives@, typ, 0) == spec_active_of_type_from(actives@, typ, i as nat),
        decreases actives@.len() - i,
    {
        if let Some(ap) = actives[i] {
            if ap.typ == typ {
                return Some(i);
            }
        }
        i = i + 1;
    }
    None
}

proof fn lemma_active_of_type_found(actives: Seq<Option<Potion>>, typ: PotionType, i: nat)
    requires
        spec_active_of_type_from(actives, typ, i) is Some,
    ensures
        spec_active_of_type_from(actives, typ, i).unwrap() < actives.len(),
        actives[spec_active_of_type_from(actives, typ, i).unwrap() as int] matches Some(ap) && ap.typ == typ,
    decreases actives.len() - i,
{
    if i < actives.len() && !(actives[i as int] matches Some(ap) && ap.typ == typ) {
        lemma_active_of_type_found(actives, typ, i + 1);
    }
}

fn potion_step(v: &InventoryView, bag_pos: usize, p: Potion) -> (r: Option<InventoryAction>)
    ensures
        r == spec_potion_step(*v, bag_pos as nat, p),
{
    if !wanted_potion(v.gear.class, p.typ) {
        return None;
    }
    match active_of_type(&v.active_potions, p.typ) {
        None => Some(InventoryAction::UsePotion { bag_pos }),
        Some(idx) => {
            proof {
                lemma_active_of_type_found(v.active_potions@, p.typ, 0);
            }
            let ap = v.active_potions[idx].unwrap();
            if ap.size < p.size {
                return Some(InventoryAction::RemovePotion { pos: idx });
            }
            if ap.size > p.size {
                return None;
            }
            let full = match ap.expires_secs {
                Some(e) => (e as i128) - (v.now_secs as i128) >= POTION_FULL_SECS as i128,
                None => false,
            };
            if !full {
                Some(InventoryAction::UsePotion { bag_pos })
            } else {
                None
            }
        },
    }
}

fn gem_step(v: &InventoryView, bag_pos: usize, g: Gem) -> (r: Option<InventoryAction>)
    ensures
        r == spec_gem_step(*v, bag_pos as nat, g),
{
    match gem_target(&v.gear.equipment, g, main_attribute(v.gear.class)) {
        Some(slot) => Some(InventoryAction::Equip { bag_pos, to_slot: slot }),
        None => match &v.gear.companions {
            None => None,
            Some(cs) => match companion_gem(cs, g) {
                Some((c, slot)) => Some(
                    InventoryAction::EquipCompanion { bag_pos, to_slot: slot, to_companion: c },
                ),
                None => None,
            },
        },
    }
}

fn bag_step(v: &InventoryView, bag_pos: usize) -> (r: Option<InventoryAction>)
    requires
        bag_pos < v.bag@.len(),
    ensures
        r == spec_bag_step(*v, bag_pos as nat),
{
    let item = match v.bag[bag_pos] {
        None => {
            return None;
        },
        Some(item) => item,
    };
    if item.kind == ItemKind::ToiletKey && !toilet_unlocked(v) {
        return Some(InventoryAction::ToiletOpen);
    }
    match item.kind {
        ItemKind::Potion(p) => potion_step(v, bag_pos, p),
        ItemKind::Gem(g) => gem_step(v, bag_pos, g),
        _ => match target_equipment_slot(&v.gear, &item) {
            Some(to_slot) => Some(InventoryAction::Equip { bag_pos, to_slot }),
            None => match item.equipment_slot() {
                None => None,
                Some(slot) => match companion_for(&v.gear, &item, slot) {
                    Some(c) => Some(InventoryAction::EquipCompanion { bag_pos, to_slot: slot, to_companion: c }),
                    None => None,
                },
            },
        },
    }
}

fn bag_scan(v: &InventoryView) -> (r: Option<InventoryAction>)
    ensures
        r == spec_bag_scan(*v, 0),
{
    let mut i: usize = 0;
    while i < v.bag.len()
        invariant
            i <= v.bag@.len(),
            spec_bag_scan(*v, 0) == spec_bag_scan(*v, i as nat),
        decreases v.bag@.len() - i,
    {
        if let Some(a) = bag_step(v, i) {
            return Some(a);
        }
        i = i + 1;
    }
    None
}

fn filter(f: SurplusFilter, item: &Item) -> (r: bool)
    ensures
        r == spec_filter(f, *item),
{
    match f {
        SurplusFilter::RichInArcane => item.equipment_slot().is_some() && item.dismantle_arcane
            > BLACKSMITH_MIN_ARCANE_DISMANTLE,
        SurplusFilter::Epic => item.is_epic(),
        SurplusFilter::Any => true,
    }
}

fn first_surplus(v: &InventoryView, f: SurplusFilter) -> (r: Option<usize>)
    ensures
        r matches Some(i) ==> spec_first_surplus_from(*v, f, 0) == Some(i as nat) && i < v.bag@.len()
            && v.bag@[i as int] is Some,
        r is None ==> spec_first_surplus_from(*v, f, 0) is None,
{
    let unlocked = toilet_unlocked(v);
    let mut i: usize = 0;
    while i < v.bag.len()
        invariant
            i <= v.bag@.len(),
            unlocked == spec_toilet_unlocked(*v),
            spec_first_surplus_from(*v, f, 0) == spec_first_surplus_from(*v, f, i as nat),
        decreases v.bag@.len() - i,
    {
        if let Some(item) = v.bag[i] {
            if !(item.kind == ItemKind::ToiletKey && !unlocked) && filter(f, &item) {
                return Some(i);
            }
        }
        i = i + 1;
    }
    None
}

fn can_dismantle(v: &InventoryView) -> (r: bool)
    ensures
        r == spec_can_dismantle(*v),
{
    v.level >= 90 && match v.blacksmith {
        Some(bs) => bs.dismantle_left > 0,
        None => false,
    }
}

fn can_sacrifice(v: &InventoryView) -> (r: bool)
    ensures
        r == spec_can_sacrifice(*v),
{
    toilet_unlocked(v) && match v.toilet {
        Some(t) => t.sacrifices_left > 0,
        None => false,
    }
}

/// How to get rid of the bag item at `bag_pos`: the toilet, else the
/// blacksmith (for equipment), else the witch's cauldron (for the kind of
/// item she asks for), else the shop.
pub fn sell(v: &InventoryView, bag_pos: usize, item: &Item) -> (r: InventoryAction)
    ensures
        r == spec_sell(*v, bag_pos as nat, *item),
{
    if can_sacrifice(v) {
        return InventoryAction::ToiletDrop { bag_pos };
    }
    if can_dismantle(v) && item.equipment_slot().is_some() {
        return InventoryAction::Dismantle { bag_pos };
    }
    if v.level >= 66 {
        if let Some(w) = v.witch {
            if let Some(slot) = item.equipment_slot() {
                if w.required_item == Some(slot) {
                    return InventoryAction::WitchDropCauldron { bag_pos };
                }
            }
        }
    }
    InventoryAction::SellShop { bag_pos }
}

fn socket_costs_at(gear: &Gear, i: usize) -> (r: Option<BlacksmithPayment>)
    requires
        i < EQUIPMENT_SLOTS,
    ensures
        r == spec_socket_costs_at(*gear, i as int),
{
    let slot = slot_at(i);
    if slot == EquipmentSlot::Shield && gear.class != Class::Assassin {
        return None;
    }
    match worn(&gear.equipment, slot) {
        Some(e) => e.socket_costs,
        None => None,
    }
}

fn socket_totals(gear: &Gear) -> (r: (u128, u128))
    ensures
        r.0 == spec_socket_metal(*gear, EQUIPMENT_SLOTS as nat),
        r.1 == spec_socket_arcane(*gear, EQUIPMENT_SLOTS as nat),
        r.0 <= 10 * 0xFFFF_FFFF_FFFF_FFFFu128,
        r.1 <= 10 * 0xFFFF_FFFF_FFFF_FFFFu128,
{
    let mut tsm: u128 = 0;
    let mut tsa: u128 = 0;
    let mut i: usize = 0;
    while i < EQUIPMENT_SLOTS
        invariant
            i <= EQUIPMENT_SLOTS,
            tsm == spec_socket_metal(*gear, i as nat),
            tsa == spec_socket_arcane(*gear, i as nat),
            tsm <= i * 0xFFFF_FFFF_FFFF_FFFFu128,
            tsa <= i * 0xFFFF_FFFF_FFFF_FFFFu128,
        decreases EQUIPMENT_SLOTS - i,
    {
        if let Some(c) = socket_costs_at(gear, i) {
            tsm = tsm + c.metal as u128;
            tsa = tsa + c.arcane as u128;
        }
        i = i + 1;
    }
    (tsm, tsa)
}

fn upgrade_slot(class: Class, k: usize) -> (r: EquipmentSlot)
    requires
        k < spec_upgrade_order(class).len(),
    ensures
        r == spec_upgrade_order(class)[k as int],
{
    if k == 0 {
        EquipmentSlot::Weapon
    } else if k == 1 {
        EquipmentSlot::BreastPlate
    } else if k == 2 {
        EquipmentSlot::FootWear
    } else if k == 3 {
        EquipmentSlot::Gloves
    } else if k == 4 {
        EquipmentSlot::Hat
    } else if k == 5 {
        EquipmentSlot::Belt
    } else if k == 6 {
        EquipmentSlot::Amulet
    } else if k == 7 {
        EquipmentSlot::Ring
    } else if k == 8 {
        EquipmentSlot::Talisman
    } else {
        EquipmentSlot::Shield
    }
}

fn blacksmith_step(gear: &Gear, bs: Blacksmith) -> (r: Option<InventoryAction>)
    ensures
        r == spec_blacksmith_step(*gear, bs),
{
    let mut i: usize = 0;
    while i < EQUIPMENT_SLOTS
        invariant
            i <= EQUIPMENT_SLOTS,
            spec_socket_from(*gear, bs, 0) == spec_socket_from(*gear, bs, i as nat),
        decreases EQUIPMENT_SLOTS - i,
    {
        if let Some(c) = socket_costs_at(gear, i) {
            if bs.metal >= c.metal && bs.arcane >= c.arcane {
                return Some(InventoryAction::SocketUpgrade { slot: slot_at(i) });
            }
        }
        i = i + 1;
    }
    let (tsm, tsa) = socket_totals(gear);
    let n: usize = if gear.class == Class::Assassin {
        10
    } else {
        9
    };
    assert(n == spec_upgrade_order(gear.class).len());
    let mut k: usize = 0;
    while k < n
        invariant
            k <= n,
            n == spec_upgrade_order(gear.class).len(),
            tsm == spec_socket_metal(*gear, EQUIPMENT_SLOTS as nat),
            tsa == spec_socket_arcane(*gear, EQUIPMENT_SLOTS as nat),
            tsm <= 10 * 0xFFFF_FFFF_FFFF_FFFFu128,
            tsa <= 10 * 0xFFFF_FFFF_FFFF_FFFFu128,
            spec_socket_from(*gear, bs, 0) is None,
            spec_upgrade_from(*gear, bs, tsm as int, tsa as int, 0) == spec_upgrade_from(
                *gear,
                bs,
                tsm as int,
                tsa as int,
                k as nat,
            ),
        decreases n - k,
    {
        let slot = upgrade_slot(gear.class, k);
        if let Some(e) = worn(&gear.equipment, slot) {
            if let Some(c) = e.upgrade_costs {
                if bs.metal as u128 >= c.metal as u128 + tsm && bs.arcane as u128 >= c.arcane as u128 + tsa {
                    return Some(InventoryAction::UpgradeItem { slot });
                }
            }
        }
        k = k + 1;
    }
    None
}

/// The next step of the inventory routine, in order: flush a full toilet;
/// take off an active potion not worth keeping (one that is neither the
/// main attribute's, constitution nor the winged bottle); deal with the
/// first bag item that can be used (toilet key, potion, gem, equipment for
/// the character or a companion); dismantle surplus equipment rich in
/// arcane splinters; when fewer than `INVENTORY_MIN_FREE_SLOTS` places are
/// free, feed a surplus item to the toilet (an epic one first) or else get
/// rid of the first surplus item; at the blacksmith from level 90, add gem sockets and upgrade worn
/// items.
pub fn inventory_next(v: &InventoryView) -> (r: Option<InventoryAction>)
    ensures
        r == spec_inventory_next(*v),
{
    if toilet_unlocked(v) {
        if let Some(t) = v.toilet {
            if t.mana_total > 0 && t.mana_currently >= t.mana_total {
                return Some(InventoryAction::ToiletFlush);
            }
        }
    }
    if let Some(idx) = unwanted_active(v) {
        return Some(InventoryAction::RemovePotion { pos: idx });
    }
    let from_bag = bag_scan(v);
    if from_bag.is_some() {
        return from_bag;
    }
    if can_dismantle(v) {
        if let Some(p) = first_surplus(v, SurplusFilter::RichInArcane) {
            return Some(InventoryAction::Dismantle { bag_pos: p });
        }
    }
    let first = first_surplus(v, SurplusFilter::Any);
    let short_of_room = count_free_slots(&v.bag) < INVENTORY_MIN_FREE_SLOTS;
    if can_sacrifice(v) && short_of_room && first.is_some() {
        return match first_surplus(v, SurplusFilter::Epic) {
            Some(p) => Some(InventoryAction::ToiletDrop { bag_pos: p }),
            None => Some(InventoryAction::ToiletDrop { bag_pos: first.unwrap() }),
        };
    }
    if short_of_room {
        if let Some(p) = first {
            let item = v.bag[p].unwrap();
            return Some(sell(v, p, &item));
        }
    }
    if v.level >= 90 {
        if let Some(bs) = v.blacksmith {
            return blacksmith_step(&v.gear, bs);
        }
    }
    None
}

// ---------------------------------------------------------------------------
// Laws
// ---------------------------------------------------------------------------

/// The steps a bag item can lead to.
pub open spec fn spec_is_use_step(a: InventoryAction) -> bool {
    a is ToiletOpen || a is UsePotion || a is RemovePotion || a is Equip || a is EquipCompanion
}

proof fn lemma_bag_scan_uses(v: InventoryView, i: nat)
    ensures
        spec_bag_scan(v, i) matches Some(a) ==> spec_is_use_step(a),
    decreases v.bag@.len() - i,
{
    if i < v.bag@.len() {
        lemma_bag_scan_uses(v, i + 1);
    }
}

proof fn lemma_blacksmith_steps(gear: Gear, bs: Blacksmith)
    ensures
        spec_blacksmith_step(gear, bs) matches Some(a) ==> (a is SocketUpgrade || a is UpgradeItem),
{
}

/// Nothing is sold, sacrificed to the toilet or dropped into the witch's
/// cauldron while at least `INVENTORY_MIN_FREE_SLOTS` bag places are free.
pub proof fn law_sell_only_when_short_of_room(v: InventoryView)
    requires
        spec_inventory_next(v) matches Some(a) && (a is SellShop || a is ToiletDrop || a is WitchDropCauldron),
    ensures
        spec_count_free(v.bag@) < INVENTORY_MIN_FREE_SLOTS,
{
    lemma_bag_scan_uses(v, 0);
    if v.level >= 90 && v.blacksmith is Some {
        lemma_blacksmith_steps(v.gear, v.blacksmith.unwrap());
    }
}

proof fn lemma_first_surplus_found(v: InventoryView, f: SurplusFilter, i: nat)
    ensures
        spec_first_surplus_from(v, f, i) matches Some(p) ==> p < v.bag@.len() && spec_is_surplus(v, p as int)
            && spec_filter(f, v.bag@[p as int].unwrap()),
    decreases v.bag@.len() - i,
{
    if i < v.bag@.len() {
        lemma_first_surplus_found(v, f, i + 1);
    }
}

/// While enough bag places are free, the blacksmith dismantles only items
/// that yield more arcane splinters than `BLACKSMITH_MIN_ARCANE_DISMANTLE`.
pub proof fn law_dismantle_rich_items(v: InventoryView)
    requires
        spec_count_free(v.bag@) >= INVENTORY_MIN_FREE_SLOTS,
        spec_inventory_next(v) matches Some(InventoryAction::Dismantle { bag_pos }),
    ensures
        ({
            let p = spec_inventory_next(v).unwrap()->Dismantle_bag_pos;
            &&& p < v.bag@.len()
            &&& v.bag@[p as int] is Some
            &&& v.bag@[p as int].unwrap().spec_equipment_slot() is Some
            &&& v.bag@[p as int].unwrap().dismantle_arcane > BLACKSMITH_MIN_ARCANE_DISMANTLE
        }),
{
    lemma_bag_scan_uses(v, 0);
    lemma_first_surplus_found(v, SurplusFilter::RichInArcane, 0);
    lemma_first_surplus_found(v, SurplusFilter::Any, 0);
    lemma_first_surplus_found(v, SurplusFilter::Epic, 0);
    if v.level >= 90 && v.blacksmith is Some {
        lemma_blacksmith_steps(v.gear, v.blacksmith.unwrap());
    }
    let f = spec_first_surplus_from(v, SurplusFilter::RichInArcane, 0);
    if spec_can_dismantle(v) && f is Some {
        let p = f.unwrap();
        assert(p < v.bag@.len());
        assert(v.bag.len() == v.bag@.len());
        assert((p as usize) as int == p);
    }
}

/// A normal item replaces an epic or legendary one only with more than
/// twice its main attribute, while an epic or legendary item replaces a
/// normal one even with a lower main attribute, unless the normal one has
/// at least twice as much.
pub proof fn law_epic_multiplier(old: Item, new: Item, attr: AttributeType)
    ensures
        !(new.spec_is_epic() || new.spec_is_legendary()) && (old.spec_is_epic() || old.spec_is_legendary())
            ==> (spec_is_upgrade(old, new, attr) <==> new.attributes.spec_get(attr) > 2 * old.attributes.spec_get(
            attr,
        )),
        (new.spec_is_epic() || new.spec_is_legendary()) && !(old.spec_is_epic() || old.spec_is_legendary())
            ==> (spec_is_upgrade(old, new, attr) <==> old.attributes.spec_get(attr) < 2 * new.attributes.spec_get(
            attr,
        )),
{
}

proof fn lemma_bag_scan_step(v: InventoryView, i: nat)
    ensures
        spec_bag_scan(v, i) matches Some(a) ==> exists|p: nat|
            i <= p < v.bag@.len() && #[trigger] spec_bag_step(v, p) == Some(a),
    decreases v.bag@.len() - i,
{
    if i < v.bag@.len() {
        lemma_bag_scan_step(v, i + 1);
        if spec_bag_step(v, i) is Some {
            assert(spec_bag_step(v, i) == spec_bag_scan(v, i));
        }
    }
}

/// Equipment goes on the character only where it is an upgrade: an empty
/// slot, or a slot whose item it beats by the main attribute (epic and
/// legendary items counting double); gems go only into a socket.
pub proof fn law_equip_only_upgrades(v: InventoryView)
    requires
        spec_inventory_next(v) matches Some(InventoryAction::Equip { .. }),
    ensures
        ({
            let a = spec_inventory_next(v).unwrap();
            let p = a->Equip_bag_pos;
            &&& p < v.bag@.len()
            &&& v.bag@[p as int] is Some
            &&& (v.bag@[p as int].unwrap().kind is Equipment ==> spec_should_equip(
                v.gear,
                v.bag@[p as int].unwrap(),
                a->Equip_to_slot,
            ))
            &&& (v.bag@[p as int].unwrap().kind matches ItemKind::Gem(g) ==> spec_gem_target(
                v.gear.equipment@,
                g,
                spec_main_attribute(v.gear.class),
            ) == Some(a->Equip_to_slot))
        }),
{
    lemma_bag_scan_uses(v, 0);
    lemma_bag_scan_step(v, 0);
    if v.level >= 90 && v.blacksmith is Some {
        lemma_blacksmith_steps(v.gear, v.blacksmith.unwrap());
    }
    assert(v.bag.len() == v.bag@.len());
    let a = spec_bag_scan(v, 0).unwrap();
    let p = choose|p: nat| 0 <= p < v.bag@.len() && #[trigger] spec_bag_step(v, p) == Some(a);
    assert((p as usize) as nat == p);
}

/// The socket of the item worn at position `k` of an equipment.
pub open spec fn spec_socket(eq: Seq<Option<Item>>, k: int) -> Option<GemSlot> {
    match spec_worn(eq, spec_slot_at(k)) {
        Some(e) => e.gem_slot,
        None => None,
    }
}

/// Whether the socket at position `k` holds a gem weaker than `value`.
pub open spec fn spec_filled_below(eq: Seq<Option<Item>>, k: int, value: u32) -> bool {
    spec_socket(eq, k) matches Some(GemSlot::Filled(u)) && u < value
}

/// The value of the gem in the socket at position `k` (0 without one).
pub open spec fn spec_gem_value(eq: Seq<Option<Item>>, k: int) -> u32 {
    match spec_socket(eq, k) {
        Some(GemSlot::Filled(u)) => u,
        _ => 0,
    }
}

/// Where a gem of a value may go in an equipment: the slot at position `k`
/// has an empty socket and no slot before it has one; or there is no empty
/// socket at all and the slot holds the weakest gem weaker than `value`
/// (the first such slot on a tie).
pub open spec fn spec_gem_place_ok(eq: Seq<Option<Item>>, value: u32, k: int) -> bool {
    &&& 0 <= k < EQUIPMENT_SLOTS
    &&& match spec_socket(eq, k) {
        Some(GemSlot::Empty) => forall|j: int| 0 <= j < k ==> #[trigger] spec_socket(eq, j) != Some(GemSlot::Empty),
        Some(GemSlot::Filled(w)) => {
            &&& w < value
            &&& forall|j: int| 0 <= j < EQUIPMENT_SLOTS ==> #[trigger] spec_socket(eq, j) != Some(GemSlot::Empty)
            &&& forall|j: int|
                0 <= j < EQUIPMENT_SLOTS && #[trigger] spec_filled_below(eq, j, value) ==> w <= spec_gem_value(eq, j)
                    && (j < k ==> w < spec_gem_value(eq, j))
        },
        None => false,
    }
}

proof fn lemma_gem_scan(eq: Seq<Option<Item>>, value: u32, i: nat, best: Option<EquipmentSlot>, min: u32)
    requires
        i <= EQUIPMENT_SLOTS,
        forall|j: int| 0 <= j < i ==> #[trigger] spec_socket(eq, j) != Some(GemSlot::Empty),
        best is None ==> min == u32::MAX && forall|j: int| 0 <= j < i ==> !#[trigger] spec_filled_below(eq, j, value),
        best matches Some(b) ==> {
            let kb = spec_slot_index(b);
            &&& 0 <= kb < i
            &&& spec_slot_at(kb) == b
            &&& spec_socket(eq, kb) == Some(GemSlot::Filled(min))
            &&& min < value
            &&& forall|j: int|
                0 <= j < i && #[trigger] spec_filled_below(eq, j, value) ==> min <= spec_gem_value(eq, j) && (j
                    < kb ==> min < spec_gem_value(eq, j))
        },
    ensures
        match spec_gem_scan(eq, value, i, best, min) {
            Some(slot) => spec_slot_at(spec_slot_index(slot)) == slot && spec_gem_place_ok(
                eq,
                value,
                spec_slot_index(slot),
            ),
            None => forall|j: int|
                0 <= j < EQUIPMENT_SLOTS ==> #[trigger] spec_socket(eq, j) != Some(GemSlot::Empty) && !spec_filled_below(
                    eq,
                    j,
                    value,
                ),
        },
    decreases EQUIPMENT_SLOTS - i,
{
    if i < EQUIPMENT_SLOTS {
        let slot = spec_slot_at(i as int);
        assert(spec_slot_index(slot) == i);
        match spec_worn(eq, slot) {
            Some(e) => match e.gem_slot {
                Some(GemSlot::Empty) => {
                    assert(spec_socket(eq, i as int) == Some(GemSlot::Empty));
                },
                Some(GemSlot::Filled(v)) => {
                    assert(spec_socket(eq, i as int) == Some(GemSlot::Filled(v)));
                    if value > v && v < min {
                        lemma_gem_scan(eq, value, i + 1, Some(slot), v);
                    } else {
                        lemma_gem_scan(eq, value, i + 1, best, min);
                    }
                },
                None => {
                    assert(spec_socket(eq, i as int) is None);
                    lemma_gem_scan(eq, value, i + 1, best, min);
                },
            },
            None => {
                assert(spec_socket(eq, i as int) is None);
                lemma_gem_scan(eq, value, i + 1, best, min);
            },
        }
    } else {
        if let Some(b) = best {
            let kb = spec_slot_index(b);
            assert(spec_gem_place_ok(eq, value, kb));
        }
    }
}

/// A gem from the bag goes into the character's equipment only when it
/// raises every attribute, is legendary or raises the main attribute, and
/// only at a place the gem may take: the first empty socket; or, with no empty socket, the
/// socket holding the weakest gem weaker than it (the first on a tie).
pub proof fn law_gem_replaces_weakest(v: InventoryView)
    requires
        spec_inventory_next(v) matches Some(InventoryAction::Equip { bag_pos, .. }) && bag_pos < v.bag@.len()
            && (v.bag@[bag_pos as int] matches Some(it) && it.kind is Gem),
    ensures
        ({
            let a = spec_inventory_next(v).unwrap();
            let g = v.bag@[a->Equip_bag_pos as int].unwrap().kind->Gem_0;
            &&& g.typ == GemType::All || g.typ == GemType::Legendary || spec_matches_attr(
                g.typ,
                spec_main_attribute(v.gear.class),
            )
            &&& spec_slot_at(spec_slot_index(a->Equip_to_slot)) == a->Equip_to_slot
            &&& spec_gem_place_ok(v.gear.equipment@, g.value, spec_slot_index(a->Equip_to_slot))
        }),
{
    law_equip_only_upgrades(v);
    let a = spec_inventory_next(v).unwrap();
    let g = v.bag@[a->Equip_bag_pos as int].unwrap().kind->Gem_0;
    let eq = v.gear.equipment@;
    lemma_gem_scan(eq, g.value, 0, None, u32::MAX);
}

} // verus!
