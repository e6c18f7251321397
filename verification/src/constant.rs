//! The bot's built-in settings.
//!
//! Ratios that the game states as fractions are kept in thousandths
//! (`500` is one half), so that every comparison is exact.

use vstd::prelude::*;

verus! {

/// Tavern expeditions and quests.
pub const ENABLE_EXPEDITION: bool = true;

/// Arena battles.
pub const ENABLE_ARENA: bool = true;

/// Dungeon fights (dungeons, tower, portal, shadow world).
pub const ENABLE_DUNGEON: bool = true;

/// Pet activities (habitat fights, feeding).
pub const ENABLE_PETS: bool = true;

/// Fortress management (harvesting, buildings, gem mine, units).
pub const ENABLE_FORTRESS: bool = true;

/// Underworld management (harvesting, buildings, luring heroes).
pub const ENABLE_UNDERWORLD: bool = true;

/// The idle game (arena manager) upgrades and rune sacrifices.
pub const ENABLE_IDLE: bool = true;

/// Inventory management (equipping, dismantling, selling).
pub const ENABLE_INVENTORY: bool = true;

/// Shop purchases.
pub const ENABLE_SHOP: bool = true;

/// Attribute upgrades.
pub const ENABLE_SKILL: bool = true;

/// Mount rental.
pub const ENABLE_MOUNT: bool = true;

/// Witch cauldron and enchantments.
pub const ENABLE_WITCH: bool = true;

/// Guild activities (battles, portal, hydra, skills).
pub const ENABLE_GUILD: bool = true;

/// Reading mail and player news.
pub const ENABLE_MAIL: bool = true;

/// Daily rewards (calendar, tasks, Hellevator, wheel of fortune).
pub const ENABLE_DAILY: bool = true;

/// City guard work when out of thirst or before the day starts.
pub const ENABLE_GUARD: bool = true;

/// Unlocking pending features.
pub const ENABLE_UNLOCK: bool = true;

/// The toilet (flushing, sacrifices).
pub const ENABLE_TOILET: bool = true;

/// The blacksmith (dismantling, sockets, upgrades).
pub const ENABLE_BLACKSMITH: bool = true;

/// Hellevator fights and rewards.
pub const ENABLE_HELLEVATOR: bool = true;

/// The wheel of fortune.
pub const ENABLE_WHEEL: bool = true;

/// The local hour at which the botting day begins. Before it, daytime
/// activities are skipped and city guard duty runs until this hour.
pub const EXPEDITION_START_HOUR: u32 = 5;

/// Seconds between two refreshes of the status table.
pub const STATUS_TABLE_INTERVAL_SECS: u64 = 300;

/// Below this many empty bag places the bot starts selling surplus items.
pub const INVENTORY_MIN_FREE_SLOTS: usize = 5;

/// A normal item must have more than this many times the main attribute of
/// an epic or legendary item to replace it, and an epic or legendary item
/// replaces a normal one unless the normal one has at least this many times
/// its main attribute.
pub const EPIC_LEGENDARY_MULTIPLIER: u32 = 2;

/// Items that yield more arcane splinters than this are dismantled while
/// dismantles remain, however much room the bag has.
pub const BLACKSMITH_MIN_ARCANE_DISMANTLE: u64 = 1000;

/// Arcane splinters an item must yield to be dismantled when clearing room.
pub const BLACKSMITH_MIN_ARCANE_CLEANUP: u64 = 0;

/// Attributes are bought only while the silver exceeds this multiple of the
/// dearest shop item.
pub const SKILL_GOLD_SAFETY_MULTIPLIER: u64 = 10;

/// Target weight of the main attribute.
pub const SKILL_WEIGHT_MAIN_ATTRIBUTE: u64 = 100;

/// Target weight of constitution.
pub const SKILL_WEIGHT_CONSTITUTION: u64 = 80;

/// Target weight of luck.
pub const SKILL_WEIGHT_LUCK: u64 = 40;

/// Target weight of the two secondary attributes.
pub const SKILL_WEIGHT_SECONDARY_ATTRIBUTE: u64 = 10;

/// Minutes between two harvests of fortress and underworld resources.
pub const HARVEST_CHECK_INTERVAL_MINS: i64 = 30;

/// Share of a production building's capacity (in thousandths) that must be
/// filled before it is harvested.
pub const FORTRESS_HARVEST_STORAGE_RATIO: u64 = 500;

/// The goblin's level must be at least this multiple (in thousandths) of a
/// hero's level before the hero is lured into the underworld.
pub const GOBLIN_LEVEL_HERO_RATIO: u64 = 1500;

/// Mushrooms that must remain after paying for an optional upgrade.
pub const MIN_MUSHROOM_RESERVE: u32 = 30;

/// A guild upgrade's mushroom price must be strictly below this share (in
/// thousandths) of all mushrooms.
pub const GUILD_UPGRADE_MAX_MUSHROOM_RATIO: u64 = 100;

/// Daily spins of the wheel of fortune.
pub const WHEEL_MAX_DAILY_SPINS: u8 = 20;

/// Daily spins of the wheel of fortune during the lucky day event.
pub const WHEEL_MAX_DAILY_SPINS_LUCKY_DAY_EVENT: u8 = 40;

} // verus!
