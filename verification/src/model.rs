//! Enumerations and plain records of the game shared by all routines.
//!
//! Instants are nanoseconds since the Unix epoch (`i64`); where the bot
//! compares whole seconds, a field says so.

use vstd::prelude::*;

verus! {

/// One second, in nanoseconds.
pub const SECOND_NANOS: i64 = 1_000_000_000;

/// A character class.
#[derive(Debug, Clone, Copy, PartialEq, Eq, Structural)]
pub enum Class {
    Warrior,
    Mage,
    Scout,
    Assassin,
    BattleMage,
    Berserker,
    DemonHunter,
    Druid,
    Bard,
    Necromancer,
    Paladin,
    PlagueDoctor,
    BloodWeaver,
}

/// One of the five attributes of a character or an item.
#[derive(Debug, Clone, Copy, PartialEq, Eq, Structural)]
pub enum AttributeType {
    Strength,
    Dexterity,
    Intelligence,
    Constitution,
    Luck,
}

/// The attribute a class scales with.
pub open spec fn spec_main_attribute(class: Class) -> AttributeType {
    match class {
        Class::Paladin | Class::BattleMage | Class::Berserker | Class::Warrior => AttributeType::Strength,
        Class::Assassin | Class::DemonHunter | Class::Scout | Class::PlagueDoctor => AttributeType::Dexterity,
        Class::Druid | Class::Bard | Class::Necromancer | Class::Mage | Class::BloodWeaver => {
            AttributeType::Intelligence
        },
    }
}

/// The attribute a class scales with.
pub fn main_attribute(class: Class) -> (r: AttributeType)
    ensures
        r == spec_main_attribute(class),
{
    match class {
        Class::Paladin | Class::BattleMage | Class::Berserker | Class::Warrior => AttributeType::Strength,
        Class::Assassin | Class::DemonHunter | Class::Scout | Class::PlagueDoctor => AttributeType::Dexterity,
        Class::Druid | Class::Bard | Class::Necromancer | Class::Mage | Class::BloodWeaver => {
            AttributeType::Intelligence
        },
    }
}

/// The value of each attribute.
#[derive(Debug, Clone, Copy, PartialEq, Eq, Structural)]
pub struct Attributes {
    pub strength: u32,
    pub dexterity: u32,
    pub intelligence: u32,
    pub constitution: u32,
    pub luck: u32,
}

impl Attributes {
    pub open spec fn spec_get(self, attr: AttributeType) -> u32 {
        match attr {
            AttributeType::Strength => self.strength,
            AttributeType::Dexterity => self.dexterity,
            AttributeType::Intelligence => self.intelligence,
            AttributeType::Constitution => self.constitution,
            AttributeType::Luck => self.luck,
        }
    }

    /// The value of one attribute.
    pub fn get(&self, attr: AttributeType) -> (r: u32)
        ensures
            r == self.spec_get(attr),
    {
        match attr {
            AttributeType::Strength => self.strength,
            AttributeType::Dexterity => self.dexterity,
            AttributeType::Intelligence => self.intelligence,
            AttributeType::Constitution => self.constitution,
            AttributeType::Luck => self.luck,
        }
    }
}

/// A place on the body where an item is worn. The order of the variants is
/// the order in which the bot walks the equipment.
#[derive(Debug, Clone, Copy, PartialEq, Eq, Structural)]
pub enum EquipmentSlot {
    Hat,
    BreastPlate,
    Gloves,
    FootWear,
    Amulet,
    Belt,
    Ring,
    Talisman,
    Weapon,
    Shield,
}

/// The number of equipment slots.
pub const EQUIPMENT_SLOTS: usize = 10;

/// The position of a slot in the equipment (`Hat` is 0, `Shield` is 9).
pub open spec fn spec_slot_index(slot: EquipmentSlot) -> int {
    match slot {
        EquipmentSlot::Hat => 0,
        EquipmentSlot::BreastPlate => 1,
        EquipmentSlot::Gloves => 2,
        EquipmentSlot::FootWear => 3,
        EquipmentSlot::Amulet => 4,
        EquipmentSlot::Belt => 5,
        EquipmentSlot::Ring => 6,
        EquipmentSlot::Talisman => 7,
        EquipmentSlot::Weapon => 8,
        EquipmentSlot::Shield => 9,
    }
}

/// The slot at a position of the equipment; the inverse of `spec_slot_index`.
pub open spec fn spec_slot_at(i: int) -> EquipmentSlot {
    if i == 0 {
        EquipmentSlot::Hat
    } else if i == 1 {
        EquipmentSlot::BreastPlate
    } else if i == 2 {
        EquipmentSlot::Gloves
    } else if i == 3 {
        EquipmentSlot::FootWear
    } else if i == 4 {
        EquipmentSlot::Amulet
    } else if i == 5 {
        EquipmentSlot::Belt
    } else if i == 6 {
        EquipmentSlot::Ring
    } else if i == 7 {
        EquipmentSlot::Talisman
    } else if i == 8 {
        EquipmentSlot::Weapon
    } else {
        EquipmentSlot::Shield
    }
}

/// The position of a slot in the equipment.
pub fn slot_index(slot: EquipmentSlot) -> (r: usize)
    ensures
        r == spec_slot_index(slot),
        r < EQUIPMENT_SLOTS,
        spec_slot_at(r as int) == slot,
{
    match slot {
        EquipmentSlot::Hat => 0,
        EquipmentSlot::BreastPlate => 1,
        EquipmentSlot::Gloves => 2,
        EquipmentSlot::FootWear => 3,
        EquipmentSlot::Amulet => 4,
        EquipmentSlot::Belt => 5,
        EquipmentSlot::Ring => 6,
        EquipmentSlot::Talisman => 7,
        EquipmentSlot::Weapon => 8,
        EquipmentSlot::Shield => 9,
    }
}

/// The slot at a position of the equipment.
pub fn slot_at(i: usize) -> (r: EquipmentSlot)
    requires
        i < EQUIPMENT_SLOTS,
    ensures
        r == spec_slot_at(i as int),
        spec_slot_index(r) == i,
{
    if i == 0 {
        EquipmentSlot::Hat
    } else if i == 1 {
        EquipmentSlot::BreastPlate
    } else if i == 2 {
        EquipmentSlot::Gloves
    } else if i == 3 {
        EquipmentSlot::FootWear
    } else if i == 4 {
        EquipmentSlot::Amulet
    } else if i == 5 {
        EquipmentSlot::Belt
    } else if i == 6 {
        EquipmentSlot::Ring
    } else if i == 7 {
        EquipmentSlot::Talisman
    } else if i == 8 {
        EquipmentSlot::Weapon
    } else {
        EquipmentSlot::Shield
    }
}

/// The kind of a potion.
#[derive(Debug, Clone, Copy, PartialEq, Eq, Structural)]
pub enum PotionType {
    Strength,
    Dexterity,
    Intelligence,
    Constitution,
    Luck,
    EternalLife,
}

/// The potion that raises an attribute.
pub open spec fn spec_potion_of(attr: AttributeType) -> PotionType {
    match attr {
        AttributeType::Strength => PotionType::Strength,
        AttributeType::Dexterity => PotionType::Dexterity,
        AttributeType::Intelligence => PotionType::Intelligence,
        AttributeType::Constitution => PotionType::Constitution,
        AttributeType::Luck => PotionType::Luck,
    }
}

/// The potion that raises an attribute.
pub fn potion_of(attr: AttributeType) -> (r: PotionType)
    ensures
        r == spec_potion_of(attr),
{
    match attr {
        AttributeType::Strength => PotionType::Strength,
        AttributeType::Dexterity => PotionType::Dexterity,
        AttributeType::Intelligence => PotionType::Intelligence,
        AttributeType::Constitution => PotionType::Constitution,
        AttributeType::Luck => PotionType::Luck,
    }
}

/// A potion: its kind, its size (0 small, 1 medium, 2 large) and, when
/// known, the second at which it wears off.
#[derive(Debug, Clone, Copy, PartialEq, Eq, Structural)]
pub struct Potion {
    pub typ: PotionType,
    pub size: u8,
    pub expires_secs: Option<i64>,
}

/// The kind of a gem.
#[derive(Debug, Clone, Copy, PartialEq, Eq, Structural)]
pub enum GemType {
    Strength,
    Dexterity,
    Intelligence,
    Constitution,
    Luck,
    All,
    Legendary,
}

/// A gem and its strength.
#[derive(Debug, Clone, Copy, PartialEq, Eq, Structural)]
pub struct Gem {
    pub typ: GemType,
    pub value: u32,
}

/// The gem socket of an item.
#[derive(Debug, Clone, Copy, PartialEq, Eq, Structural)]
pub enum GemSlot {
    Empty,
    Filled(u32),
}

/// An enchantment the witch can put on an item.
#[derive(Debug, Clone, Copy, PartialEq, Eq, Structural)]
pub enum Enchantment {
    SwordOfVengeance,
    MariosBeard,
    ManyFeetBoots,
    ShadowOfTheCowboy,
    AdventurersArchaeologicalAura,
    ThirstyWanderer,
    UnholyAcquisitiveness,
    TheGraveRobbersPrayer,
    RobberBaronRitual,
}

/// The number of enchantments.
pub const ENCHANTMENTS: usize = 9;

/// The enchantment at a position of the witch's list, in declaration order.
pub open spec fn spec_enchantment_at(i: int) -> Enchantment {
    if i == 0 {
        Enchantment::SwordOfVengeance
    } else if i == 1 {
        Enchantment::MariosBeard
    } else if i == 2 {
        Enchantment::ManyFeetBoots
    } else if i == 3 {
        Enchantment::ShadowOfTheCowboy
    } else if i == 4 {
        Enchantment::AdventurersArchaeologicalAura
    } else if i == 5 {
        Enchantment::ThirstyWanderer
    } else if i == 6 {
        Enchantment::UnholyAcquisitiveness
    } else if i == 7 {
        Enchantment::TheGraveRobbersPrayer
    } else {
        Enchantment::RobberBaronRitual
    }
}

/// The enchantment at a position of the witch's list.
pub fn enchantment_at(i: usize) -> (r: Enchantment)
    requires
        i < ENCHANTMENTS,
    ensures
        r == spec_enchantment_at(i as int),
{
    if i == 0 {
        Enchantment::SwordOfVengeance
    } else if i == 1 {
        Enchantment::MariosBeard
    } else if i == 2 {
        Enchantment::ManyFeetBoots
    } else if i == 3 {
        Enchantment::ShadowOfTheCowboy
    } else if i == 4 {
        Enchantment::AdventurersArchaeologicalAura
    } else if i == 5 {
        Enchantment::ThirstyWanderer
    } else if i == 6 {
        Enchantment::UnholyAcquisitiveness
    } else if i == 7 {
        Enchantment::TheGraveRobbersPrayer
    } else {
        Enchantment::RobberBaronRitual
    }
}

/// The slot whose item carries an enchantment.
pub open spec fn spec_enchantment_slot(e: Enchantment) -> EquipmentSlot {
    match e {
        Enchantment::SwordOfVengeance => EquipmentSlot::Weapon,
        Enchantment::MariosBeard => EquipmentSlot::BreastPlate,
        Enchantment::ManyFeetBoots => EquipmentSlot::FootWear,
        Enchantment::ShadowOfTheCowboy => EquipmentSlot::Gloves,
        Enchantment::AdventurersArchaeologicalAura => EquipmentSlot::Hat,
        Enchantment::ThirstyWanderer => EquipmentSlot::Belt,
        Enchantment::UnholyAcquisitiveness => EquipmentSlot::Amulet,
        Enchantment::TheGraveRobbersPrayer => EquipmentSlot::Ring,
        Enchantment::RobberBaronRitual => EquipmentSlot::Talisman,
    }
}

/// The slot whose item carries an enchantment.
pub fn enchantment_slot(e: Enchantment) -> (r: EquipmentSlot)
    ensures
        r == spec_enchantment_slot(e),
{
    match e {
        Enchantment::SwordOfVengeance => EquipmentSlot::Weapon,
        Enchantment::MariosBeard => EquipmentSlot::BreastPlate,
        Enchantment::ManyFeetBoots => EquipmentSlot::FootWear,
        Enchantment::ShadowOfTheCowboy => EquipmentSlot::Gloves,
        Enchantment::AdventurersArchaeologicalAura => EquipmentSlot::Hat,
        Enchantment::ThirstyWanderer => EquipmentSlot::Belt,
        Enchantment::UnholyAcquisitiveness => EquipmentSlot::Amulet,
        Enchantment::TheGraveRobbersPrayer => EquipmentSlot::Ring,
        Enchantment::RobberBaronRitual => EquipmentSlot::Talisman,
    }
}

/// One of the three dungeon companions.
#[derive(Debug, Clone, Copy, PartialEq, Eq, Structural)]
pub enum CompanionClass {
    Warrior,
    Mage,
    Scout,
}

/// The companion at a position (warrior, mage, scout).
pub open spec fn spec_companion_at(i: int) -> CompanionClass {
    if i == 0 {
        CompanionClass::Warrior
    } else if i == 1 {
        CompanionClass::Mage
    } else {
        CompanionClass::Scout
    }
}

/// The position of a companion (warrior 0, mage 1, scout 2).
pub open spec fn spec_companion_index(c: CompanionClass) -> int {
    match c {
        CompanionClass::Warrior => 0,
        CompanionClass::Mage => 1,
        CompanionClass::Scout => 2,
    }
}

/// The companion at a position.
pub fn companion_at(i: usize) -> (r: CompanionClass)
    requires
        i < 3,
    ensures
        r == spec_companion_at(i as int),
        spec_companion_index(r) == i,
{
    if i == 0 {
        CompanionClass::Warrior
    } else if i == 1 {
        CompanionClass::Mage
    } else {
        CompanionClass::Scout
    }
}

/// The class a companion fights as.
pub open spec fn spec_companion_class(c: CompanionClass) -> Class {
    match c {
        CompanionClass::Warrior => Class::Warrior,
        CompanionClass::Mage => Class::Mage,
        CompanionClass::Scout => Class::Scout,
    }
}

/// The class a companion fights as.
pub fn companion_class(c: CompanionClass) -> (r: Class)
    ensures
        r == spec_companion_class(c),
{
    match c {
        CompanionClass::Warrior => Class::Warrior,
        CompanionClass::Mage => Class::Mage,
        CompanionClass::Scout => Class::Scout,
    }
}

/// A price in silver and mushrooms.
#[derive(Debug, Clone, Copy, PartialEq, Eq, Structural)]
pub struct NormalCost {
    pub silver: u64,
    pub mushrooms: u16,
}

/// A price at the blacksmith.
#[derive(Debug, Clone, Copy, PartialEq, Eq, Structural)]
pub struct BlacksmithPayment {
    pub metal: u64,
    pub arcane: u64,
}

/// What kind of thing an item is, as far as the bot cares.
#[derive(Debug, Clone, Copy, PartialEq, Eq, Structural)]
pub enum ItemKind {
    /// Something worn in a slot; `weapon` tells weapons apart.
    Equipment { slot: EquipmentSlot, weapon: bool },
    Potion(Potion),
    Gem(Gem),
    ToiletKey,
    QuickSandGlass,
    Other,
}

/// An item: in the bag, worn, or offered in a shop.
///
/// Besides the item's own values it holds what the game client computes
/// from the whole item and the character: whether the character and each
/// companion may wear it, the arcane splinters dismantling yields, and the
/// blacksmith's prices for the next upgrade and for a gem socket.
#[derive(Debug, Clone, Copy, PartialEq, Eq, Structural)]
pub struct Item {
    pub kind: ItemKind,
    pub model_id: u16,
    pub price: u32,
    pub mushroom_price: u32,
    pub attributes: Attributes,
    pub gem_slot: Option<GemSlot>,
    pub enchantment: Option<Enchantment>,
    pub wearable_by_player: bool,
    pub wearable_by_warrior: bool,
    pub wearable_by_mage: bool,
    pub wearable_by_scout: bool,
    pub dismantle_arcane: u64,
    pub upgrade_costs: Option<BlacksmithPayment>,
    pub socket_costs: Option<BlacksmithPayment>,
}

impl Item {
    /// Epic items have a model id of at least 50.
    pub open spec fn spec_is_epic(self) -> bool {
        self.model_id >= 50
    }

    /// Legendary items have a model id of at least 90.
    pub open spec fn spec_is_legendary(self) -> bool {
        self.model_id >= 90
    }

    /// The slot the item is worn in, if it is equipment.
    pub open spec fn spec_equipment_slot(self) -> Option<EquipmentSlot> {
        match self.kind {
            ItemKind::Equipment { slot, .. } => Some(slot),
            _ => None,
        }
    }

    pub open spec fn spec_is_weapon(self) -> bool {
        match self.kind {
            ItemKind::Equipment { weapon, .. } => weapon,
            _ => false,
        }
    }

    pub open spec fn spec_wearable_by_companion(self, c: CompanionClass) -> bool {
        match c {
            CompanionClass::Warrior => self.wearable_by_warrior,
            CompanionClass::Mage => self.wearable_by_mage,
            CompanionClass::Scout => self.wearable_by_scout,
        }
    }

    pub fn is_epic(&self) -> (r: bool)
        ensures
            r == self.spec_is_epic(),
    {
        self.model_id >= 50
    }

    pub fn is_legendary(&self) -> (r: bool)
        ensures
            r == self.spec_is_legendary(),
    {
        self.model_id >= 90
    }

    pub fn equipment_slot(&self) -> (r: Option<EquipmentSlot>)
        ensures
            r == self.spec_equipment_slot(),
    {
        match self.kind {
            ItemKind::Equipment { slot, .. } => Some(slot),
            _ => None,
        }
    }

    pub fn is_weapon(&self) -> (r: bool)
        ensures
            r == self.spec_is_weapon(),
    {
        match self.kind {
            ItemKind::Equipment { weapon, .. } => weapon,
            _ => false,
        }
    }

    pub fn wearable_by_companion(&self, c: CompanionClass) -> (r: bool)
        ensures
            r == self.spec_wearable_by_companion(c),
    {
        match c {
            CompanionClass::Warrior => self.wearable_by_warrior,
            CompanionClass::Mage => self.wearable_by_mage,
            CompanionClass::Scout => self.wearable_by_scout,
        }
    }
}

/// The item in a slot of an equipment (`None` where the slot is empty or
/// the list is too short).
pub open spec fn spec_worn(equipment: Seq<Option<Item>>, slot: EquipmentSlot) -> Option<Item> {
    if spec_slot_index(slot) < equipment.len() {
        equipment[spec_slot_index(slot)]
    } else {
        None
    }
}

/// The item in a slot of an equipment.
pub fn worn(equipment: &Vec<Option<Item>>, slot: EquipmentSlot) -> (r: Option<Item>)
    ensures
        r == spec_worn(equipment@, slot),
{
    let i = slot_index(slot);
    if i < equipment.len() {
        equipment[i]
    } else {
        None
    }
}

/// A dungeon companion: its level and what it wears.
#[derive(Debug, Clone)]
pub struct Companion {
    pub level: u16,
    pub equipment: Vec<Option<Item>>,
}

/// The equipment of a companion (empty where the list has no entry for it).
pub open spec fn spec_companion_equipment(companions: Seq<Companion>, c: CompanionClass) -> Seq<Option<Item>> {
    if spec_companion_index(c) < companions.len() {
        companions[spec_companion_index(c)].equipment@
    } else {
        Seq::empty()
    }
}

/// The item a companion wears in a slot.
pub fn companion_worn(companions: &Vec<Companion>, c: CompanionClass, slot: EquipmentSlot) -> (r: Option<Item>)
    ensures
        r == spec_worn(spec_companion_equipment(companions@, c), slot),
{
    let k: usize = match c {
        CompanionClass::Warrior => 0,
        CompanionClass::Mage => 1,
        CompanionClass::Scout => 2,
    };
    if k < companions.len() {
        worn(&companions[k].equipment, slot)
    } else {
        None
    }
}

/// What the character and its companions wear.
#[derive(Debug, Clone)]
pub struct Gear {
    pub class: Class,
    pub equipment: Vec<Option<Item>>,
    /// `None` until the companions are unlocked.
    pub companions: Option<Vec<Companion>>,
}

/// The number of empty places in a bag.
pub open spec fn spec_count_free(bag: Seq<Option<Item>>) -> nat
    decreases bag.len(),
{
    if bag.len() == 0 {
        0
    } else {
        spec_count_free(bag.drop_last()) + if bag.last() is None {
            1nat
        } else {
            0nat
        }
    }
}

/// The number of empty places in a bag.
pub fn count_free_slots(bag: &Vec<Option<Item>>) -> (r: usize)
    ensures
        r == spec_count_free(bag@),
{
    let mut count: usize = 0;
    let mut i: usize = 0;
    while i < bag.len()
        invariant
            i <= bag.len(),
            count == spec_count_free(bag@.take(i as int)),
            count <= i,
        decreases bag.len() - i,
    {
        assert(bag@.take(i + 1).drop_last() == bag@.take(i as int));
        if bag[i].is_none() {
            count = count + 1;
        }
        i = i + 1;
    }
    assert(bag@.take(bag.len() as int) == bag@);
    count
}

/// The first empty place of a bag, from `i` on.
pub open spec fn spec_first_free_from(bag: Seq<Option<Item>>, i: int) -> Option<int>
    decreases bag.len() - i,
{
    if i < 0 || i >= bag.len() {
        None
    } else if bag[i] is None {
        Some(i)
    } else {
        spec_first_free_from(bag, i + 1)
    }
}

/// The first empty place of a bag.
pub fn free_slot(bag: &Vec<Option<Item>>) -> (r: Option<usize>)
    ensures
        r matches Some(p) ==> spec_first_free_from(bag@, 0) == Some(p as int),
        r is None ==> spec_first_free_from(bag@, 0) is None,
{
    let mut i: usize = 0;
    while i < bag.len()
        invariant
            i <= bag.len(),
            spec_first_free_from(bag@, 0) == spec_first_free_from(bag@, i as int),
        decreases bag.len() - i,
    {
        if bag[i].is_none() {
            return Some(i);
        }
        i = i + 1;
    }
    None
}

/// A mount, from the cheapest to the best.
#[derive(Debug, Clone, Copy, PartialEq, Eq, Structural)]
pub enum Mount {
    Cow,
    Horse,
    Tiger,
    Dragon,
}

/// The tier of a mount (cow 1 to dragon 4).
pub open spec fn spec_mount_tier(m: Mount) -> u8 {
    match m {
        Mount::Cow => 1,
        Mount::Horse => 2,
        Mount::Tiger => 3,
        Mount::Dragon => 4,
    }
}

/// The tier of a mount.
pub fn mount_tier(m: Mount) -> (r: u8)
    ensures
        r == spec_mount_tier(m),
{
    match m {
        Mount::Cow => 1,
        Mount::Horse => 2,
        Mount::Tiger => 3,
        Mount::Dragon => 4,
    }
}

/// The rent of a mount.
pub open spec fn spec_mount_cost(m: Mount) -> NormalCost {
    match m {
        Mount::Cow => NormalCost { silver: 100, mushrooms: 0 },
        Mount::Horse => NormalCost { silver: 500, mushrooms: 0 },
        Mount::Tiger => NormalCost { silver: 1000, mushrooms: 1 },
        Mount::Dragon => NormalCost { silver: 0, mushrooms: 25 },
    }
}

/// The rent of a mount.
pub fn mount_cost(m: Mount) -> (r: NormalCost)
    ensures
        r == spec_mount_cost(m),
{
    match m {
        Mount::Cow => NormalCost { silver: 100, mushrooms: 0 },
        Mount::Horse => NormalCost { silver: 500, mushrooms: 0 },
        Mount::Tiger => NormalCost { silver: 1000, mushrooms: 1 },
        Mount::Dragon => NormalCost { silver: 0, mushrooms: 25 },
    }
}

/// What the character is doing in the tavern.
#[derive(Debug, Clone, Copy, PartialEq, Eq, Structural)]
pub enum CurrentAction {
    Idle,
    /// City guard duty for `hours`, paid out from `busy_until` on.
    CityGuard { hours: u8, busy_until: i64 },
    Quest { quest_idx: u8 },
    Expedition,
    Unknown,
}

} // verus!
