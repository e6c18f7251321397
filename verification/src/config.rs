//! The bot's settings, as read from its configuration file. A setting the
//! file leaves out keeps its built-in value from `constant`.

use vstd::prelude::*;

use crate::constant::{
    BLACKSMITH_MIN_ARCANE_CLEANUP,
    BLACKSMITH_MIN_ARCANE_DISMANTLE,
    ENABLE_ARENA,
    ENABLE_BLACKSMITH,
    ENABLE_DAILY,
    ENABLE_DUNGEON,
    ENABLE_EXPEDITION,
    ENABLE_FORTRESS,
    ENABLE_GUARD,
    ENABLE_GUILD,
    ENABLE_HELLEVATOR,
    ENABLE_IDLE,
    ENABLE_INVENTORY,
    ENABLE_MAIL,
    ENABLE_MOUNT,
    ENABLE_PETS,
    ENABLE_SHOP,
    ENABLE_SKILL,
    ENABLE_TOILET,
    ENABLE_UNDERWORLD,
    ENABLE_UNLOCK,
    ENABLE_WHEEL,
    ENABLE_WITCH,
    EPIC_LEGENDARY_MULTIPLIER,
    EXPEDITION_START_HOUR,
    FORTRESS_HARVEST_STORAGE_RATIO,
    GOBLIN_LEVEL_HERO_RATIO,
    GUILD_UPGRADE_MAX_MUSHROOM_RATIO,
    HARVEST_CHECK_INTERVAL_MINS,
    INVENTORY_MIN_FREE_SLOTS,
    MIN_MUSHROOM_RESERVE,
    SKILL_GOLD_SAFETY_MULTIPLIER,
    SKILL_WEIGHT_CONSTITUTION,
    SKILL_WEIGHT_LUCK,
    SKILL_WEIGHT_MAIN_ATTRIBUTE,
    SKILL_WEIGHT_SECONDARY_ATTRIBUTE,
    STATUS_TABLE_INTERVAL_SECS,
    WHEEL_MAX_DAILY_SPINS,
    WHEEL_MAX_DAILY_SPINS_LUCKY_DAY_EVENT,
};

verus! {

/// Every setting of the bot.
#[derive(Debug, Clone)]
pub struct Config {
    pub features: FeatureConfig,
    pub schedule: ScheduleConfig,
    pub inventory: InventoryConfig,
    pub skills: SkillConfig,
    pub fortress: FortressConfig,
    pub economy: EconomyConfig,
    pub daily: DailyConfig,
}

/// Which routines run.
#[derive(Debug, Clone, Copy, PartialEq, Eq, Structural)]
pub struct FeatureConfig {
    pub enable_expedition: bool,
    pub enable_arena: bool,
    pub enable_dungeon: bool,
    pub enable_pets: bool,
    pub enable_fortress: bool,
    pub enable_underworld: bool,
    pub enable_idle: bool,
    pub enable_inventory: bool,
    pub enable_shop: bool,
    pub enable_skill: bool,
    pub enable_mount: bool,
    pub enable_witch: bool,
    pub enable_guild: bool,
    pub enable_mail: bool,
    pub enable_daily: bool,
    pub enable_guard: bool,
    pub enable_unlock: bool,
    pub enable_toilet: bool,
    pub enable_blacksmith: bool,
    pub enable_hellevator: bool,
    pub enable_wheel: bool,
}

impl FeatureConfig {
    /// Every feature as built in.
    pub open spec fn spec_default() -> FeatureConfig {
        FeatureConfig {
            enable_expedition: ENABLE_EXPEDITION,
            enable_arena: ENABLE_ARENA,
            enable_dungeon: ENABLE_DUNGEON,
            enable_pets: ENABLE_PETS,
            enable_fortress: ENABLE_FORTRESS,
            enable_underworld: ENABLE_UNDERWORLD,
            enable_idle: ENABLE_IDLE,
            enable_inventory: ENABLE_INVENTORY,
            enable_shop: ENABLE_SHOP,
            enable_skill: ENABLE_SKILL,
            enable_mount: ENABLE_MOUNT,
            enable_witch: ENABLE_WITCH,
            enable_guild: ENABLE_GUILD,
            enable_mail: ENABLE_MAIL,
            enable_daily: ENABLE_DAILY,
            enable_guard: ENABLE_GUARD,
            enable_unlock: ENABLE_UNLOCK,
            enable_toilet: ENABLE_TOILET,
            enable_blacksmith: ENABLE_BLACKSMITH,
            enable_hellevator: ENABLE_HELLEVATOR,
            enable_wheel: ENABLE_WHEEL,
        }
    }
}

impl Default for FeatureConfig {
    fn default() -> (r: Self)
        ensures
            r == FeatureConfig::spec_default(),
    {
        FeatureConfig {
            enable_expedition: ENABLE_EXPEDITION,
            enable_arena: ENABLE_ARENA,
            enable_dungeon: ENABLE_DUNGEON,
            enable_pets: ENABLE_PETS,
            enable_fortress: ENABLE_FORTRESS,
            enable_underworld: ENABLE_UNDERWORLD,
            enable_idle: ENABLE_IDLE,
            enable_inventory: ENABLE_INVENTORY,
            enable_shop: ENABLE_SHOP,
            enable_skill: ENABLE_SKILL,
            enable_mount: ENABLE_MOUNT,
            enable_witch: ENABLE_WITCH,
            enable_guild: ENABLE_GUILD,
            enable_mail: ENABLE_MAIL,
            enable_daily: ENABLE_DAILY,
            enable_guard: ENABLE_GUARD,
            enable_unlock: ENABLE_UNLOCK,
            enable_toilet: ENABLE_TOILET,
            enable_blacksmith: ENABLE_BLACKSMITH,
            enable_hellevator: ENABLE_HELLEVATOR,
            enable_wheel: ENABLE_WHEEL,
        }
    }
}

/// When the bot works.
#[derive(Debug, Clone, Copy, PartialEq, Eq, Structural)]
pub struct ScheduleConfig {
    pub expedition_hour: u32,
    pub status_table_secs: u64,
}

impl Default for ScheduleConfig {
    fn default() -> (r: Self)
        ensures
            r.expedition_hour == EXPEDITION_START_HOUR,
            r.status_table_secs == STATUS_TABLE_INTERVAL_SECS,
    {
        ScheduleConfig {
            expedition_hour: EXPEDITION_START_HOUR,
            status_table_secs: STATUS_TABLE_INTERVAL_SECS,
        }
    }
}

/// Inventory management; `epic_multiplier` is in thousandths.
#[derive(Debug, Clone, Copy, PartialEq, Eq, Structural)]
pub struct InventoryConfig {
    pub min_free_slots: usize,
    pub epic_multiplier: u64,
    pub min_arcane: u64,
    pub min_arcane_cleanup: u64,
}

impl Default for InventoryConfig {
    fn default() -> (r: Self)
        ensures
            r.min_free_slots == INVENTORY_MIN_FREE_SLOTS,
            r.epic_multiplier == EPIC_LEGENDARY_MULTIPLIER * 1000,
            r.min_arcane == BLACKSMITH_MIN_ARCANE_DISMANTLE,
            r.min_arcane_cleanup == BLACKSMITH_MIN_ARCANE_CLEANUP,
    {
        InventoryConfig {
            min_free_slots: INVENTORY_MIN_FREE_SLOTS,
            epic_multiplier: 2000,
            min_arcane: BLACKSMITH_MIN_ARCANE_DISMANTLE,
            min_arcane_cleanup: BLACKSMITH_MIN_ARCANE_CLEANUP,
        }
    }
}

/// Attribute upgrades.
#[derive(Debug, Clone, Copy, PartialEq, Eq, Structural)]
pub struct SkillConfig {
    pub gold_safety_mult: u64,
    pub weight_main_attribute: u64,
    pub weight_constitution: u64,
    pub weight_luck: u64,
    pub weight_secondary: u64,
}

impl Default for SkillConfig {
    fn default() -> (r: Self)
        ensures
            r.gold_safety_mult == SKILL_GOLD_SAFETY_MULTIPLIER,
            r.weight_main_attribute == SKILL_WEIGHT_MAIN_ATTRIBUTE,
            r.weight_constitution == SKILL_WEIGHT_CONSTITUTION,
            r.weight_luck == SKILL_WEIGHT_LUCK,
            r.weight_secondary == SKILL_WEIGHT_SECONDARY_ATTRIBUTE,
    {
        SkillConfig {
            gold_safety_mult: SKILL_GOLD_SAFETY_MULTIPLIER,
            weight_main_attribute: SKILL_WEIGHT_MAIN_ATTRIBUTE,
            weight_constitution: SKILL_WEIGHT_CONSTITUTION,
            weight_luck: SKILL_WEIGHT_LUCK,
            weight_secondary: SKILL_WEIGHT_SECONDARY_ATTRIBUTE,
        }
    }
}

/// Fortress and underworld; both ratios are in thousandths.
#[derive(Debug, Clone, Copy, PartialEq, Eq, Structural)]
pub struct FortressConfig {
    pub harvest_check_mins: i64,
    pub harvest_ratio: u64,
    pub goblin_hero_ratio: u64,
}

impl Default for FortressConfig {
    fn default() -> (r: Self)
        ensures
            r.harvest_check_mins == HARVEST_CHECK_INTERVAL_MINS,
            r.harvest_ratio == FORTRESS_HARVEST_STORAGE_RATIO,
            r.goblin_hero_ratio == GOBLIN_LEVEL_HERO_RATIO,
    {
        FortressConfig {
            harvest_check_mins: HARVEST_CHECK_INTERVAL_MINS,
            harvest_ratio: FORTRESS_HARVEST_STORAGE_RATIO,
            goblin_hero_ratio: GOBLIN_LEVEL_HERO_RATIO,
        }
    }
}

/// Spending of mushrooms; `guild_mushroom_ratio` is in thousandths.
#[derive(Debug, Clone, Copy, PartialEq, Eq, Structural)]
pub struct EconomyConfig {
    pub min_mushroom_reserve: u32,
    pub guild_mushroom_ratio: u64,
}

impl Default for EconomyConfig {
    fn default() -> (r: Self)
        ensures
            r.min_mushroom_reserve == MIN_MUSHROOM_RESERVE,
            r.guild_mushroom_ratio == GUILD_UPGRADE_MAX_MUSHROOM_RATIO,
    {
        EconomyConfig {
            min_mushroom_reserve: MIN_MUSHROOM_RESERVE,
            guild_mushroom_ratio: GUILD_UPGRADE_MAX_MUSHROOM_RATIO,
        }
    }
}

/// Daily mini-games.
#[derive(Debug, Clone, Copy, PartialEq, Eq, Structural)]
pub struct DailyConfig {
    pub wheel_max_daily_spins: u8,
    pub wheel_spins_lucky_day: u8,
}

impl Default for DailyConfig {
    fn default() -> (r: Self)
        ensures
            r.wheel_max_daily_spins == WHEEL_MAX_DAILY_SPINS,
            r.wheel_spins_lucky_day == WHEEL_MAX_DAILY_SPINS_LUCKY_DAY_EVENT,
    {
        DailyConfig {
            wheel_max_daily_spins: WHEEL_MAX_DAILY_SPINS,
            wheel_spins_lucky_day: WHEEL_MAX_DAILY_SPINS_LUCKY_DAY_EVENT,
        }
    }
}

impl Default for Config {
    fn default() -> (r: Self)
        ensures
            r.features == FeatureConfig::spec_default(),
            r.schedule.expedition_hour == EXPEDITION_START_HOUR,
            r.schedule.status_table_secs == STATUS_TABLE_INTERVAL_SECS,
            r.inventory.min_free_slots == INVENTORY_MIN_FREE_SLOTS,
            r.inventory.epic_multiplier == EPIC_LEGENDARY_MULTIPLIER * 1000,
            r.inventory.min_arcane == BLACKSMITH_MIN_ARCANE_DISMANTLE,
            r.inventory.min_arcane_cleanup == BLACKSMITH_MIN_ARCANE_CLEANUP,
            r.skills.gold_safety_mult == SKILL_GOLD_SAFETY_MULTIPLIER,
            r.skills.weight_main_attribute == SKILL_WEIGHT_MAIN_ATTRIBUTE,
            r.skills.weight_constitution == SKILL_WEIGHT_CONSTITUTION,
            r.skills.weight_luck == SKILL_WEIGHT_LUCK,
            r.skills.weight_secondary == SKILL_WEIGHT_SECONDARY_ATTRIBUTE,
            r.fortress.harvest_check_mins == HARVEST_CHECK_INTERVAL_MINS,
            r.fortress.harvest_ratio == FORTRESS_HARVEST_STORAGE_RATIO,
            r.fortress.goblin_hero_ratio == GOBLIN_LEVEL_HERO_RATIO,
            r.economy.min_mushroom_reserve == MIN_MUSHROOM_RESERVE,
            r.economy.guild_mushroom_ratio == GUILD_UPGRADE_MAX_MUSHROOM_RATIO,
            r.daily.wheel_max_daily_spins == WHEEL_MAX_DAILY_SPINS,
            r.daily.wheel_spins_lucky_day == WHEEL_MAX_DAILY_SPINS_LUCKY_DAY_EVENT,
    {
        Config {
            features: FeatureConfig::default(),
            schedule: ScheduleConfig::default(),
            inventory: InventoryConfig::default(),
            skills: SkillConfig::default(),
            fortress: FortressConfig::default(),
            economy: EconomyConfig::default(),
            daily: DailyConfig::default(),
        }
    }
}

} // verus!
