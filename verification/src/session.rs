//! The round of routines the bot runs for each character.

use vstd::prelude::*;

use crate::config::FeatureConfig;
use crate::model::CurrentAction;

verus! {

/// A step of the round.
#[derive(Debug, Clone, Copy, PartialEq, Eq, Structural)]
pub enum RoutineStep {
    /// Ask the server for the character's state.
    Update,
    /// The update failed: pause, log in again, and start over.
    Recover,
    /// Unlock the first pending feature.
    Unlock,
    Guard,
    Shop,
    Inventory,
    Fortress,
    Underworld,
    /// Daily rewards.
    Daily,
    /// Inbox messages and player news.
    Mail,
    Guild,
    Skill,
    Mount,
    Witch,
    /// The idle game (the arena manager).
    ArenaManager,
    Arena,
    Dungeon,
    Pets,
    Expedition,
    /// Pause between two rounds.
    Rest,
}

/// What the round reads of the game after a step.
#[derive(Debug, Clone, Copy, PartialEq, Eq, Structural)]
pub struct RoundState {
    /// Whether the last update reached the server.
    pub update_ok: bool,
    /// Whether the game state of the character is known.
    pub has_state: bool,
    pub pending_unlock: bool,
    /// The local hour at which the round began.
    pub hour: u32,
    /// The local hour at which the botting day begins.
    pub start_hour: u32,
    pub free_slots: usize,
    pub current_action: CurrentAction,
    pub thirst_for_adventure_sec: u32,
    pub can_drink_beer: bool,
}

/// The step after `done`: after an update, a failed update recovers, an
/// unknown state updates again, a pending feature is unlocked (when
/// unlocking is enabled), otherwise the guard runs; before the day's start
/// hour the round rests after the guard; then shop, inventory, fortress and
/// underworld; with a full bag the round rests there; then daily rewards,
/// mail, guild, skills, mount, witch, arena manager, arena, dungeons and
/// pets; an expedition follows when one is running, thirst for adventure
/// remains, or a free beer can be had; the round then rests and starts over
/// with an update.
pub open spec fn spec_next_routine_step(done: RoutineStep, s: RoundState, cfg: FeatureConfig) -> RoutineStep {
    match done {
        RoutineStep::Update => if !s.update_ok {
            RoutineStep::Recover
        } else if !s.has_state {
            RoutineStep::Update
        } else if s.pending_unlock && cfg.enable_unlock {
            RoutineStep::Unlock
        } else {
            RoutineStep::Guard
        },
        RoutineStep::Recover => RoutineStep::Update,
        RoutineStep::Unlock => RoutineStep::Rest,
        RoutineStep::Guard => if s.hour < s.start_hour {
            RoutineStep::Rest
        } else {
            RoutineStep::Shop
        },
        RoutineStep::Shop => RoutineStep::Inventory,
        RoutineStep::Inventory => RoutineStep::Fortress,
        RoutineStep::Fortress => RoutineStep::Underworld,
        RoutineStep::Underworld => if !s.has_state {
            RoutineStep::Update
        } else if s.free_slots == 0 {
            RoutineStep::Rest
        } else {
            RoutineStep::Daily
        },
        RoutineStep::Daily => RoutineStep::Mail,
        RoutineStep::Mail => RoutineStep::Guild,
        RoutineStep::Guild => RoutineStep::Skill,
        RoutineStep::Skill => RoutineStep::Mount,
        RoutineStep::Mount => RoutineStep::Witch,
        RoutineStep::Witch => RoutineStep::ArenaManager,
        RoutineStep::ArenaManager => RoutineStep::Arena,
        RoutineStep::Arena => RoutineStep::Dungeon,
        RoutineStep::Dungeon => RoutineStep::Pets,
        RoutineStep::Pets => if !s.has_state {
            RoutineStep::Update
        } else if s.current_action == CurrentAction::Expedition || s.thirst_for_adventure_sec > 0
            || s.can_drink_beer {
            RoutineStep::Expedition
        } else {
            RoutineStep::Rest
        },
        RoutineStep::Expedition => RoutineStep::Rest,
        RoutineStep::Rest => RoutineStep::Update,
    }
}

/// The step after `done`.
pub fn next_routine_step(done: RoutineStep, s: &RoundState, cfg: &FeatureConfig) -> (r: RoutineStep)
    ensures
        r == spec_next_routine_step(done, *s, *cfg),
{
    match done {
        RoutineStep::Update => {
            if !s.update_ok {
                RoutineStep::Recover
            } else if !s.has_state {
                RoutineStep::Update
            } else if s.pending_unlock && cfg.enable_unlock {
                RoutineStep::Unlock
            } else {
                RoutineStep::Guard
            }
        },
        RoutineStep::Recover => RoutineStep::Update,
        RoutineStep::Unlock => RoutineStep::Rest,
        RoutineStep::Guard => {
            if s.hour < s.start_hour {
                RoutineStep::Rest
            } else {
                RoutineStep::Shop
            }
        },
        RoutineStep::Shop => RoutineStep::Inventory,
        RoutineStep::Inventory => RoutineStep::Fortress,
        RoutineStep::Fortress => RoutineStep::Underworld,
        RoutineStep::Underworld => {
            if !s.has_state {
                RoutineStep::Update
            } else if s.free_slots == 0 {
                RoutineStep::Rest
            } else {
                RoutineStep::Daily
            }
        },
        RoutineStep::Daily => RoutineStep::Mail,
        RoutineStep::Mail => RoutineStep::Guild,
        RoutineStep::Guild => RoutineStep::Skill,
        RoutineStep::Skill => RoutineStep::Mount,
        RoutineStep::Mount => RoutineStep::Witch,
        RoutineStep::Witch => RoutineStep::ArenaManager,
        RoutineStep::ArenaManager => RoutineStep::Arena,
        RoutineStep::Arena => RoutineStep::Dungeon,
        RoutineStep::Dungeon => RoutineStep::Pets,
        RoutineStep::Pets => {
            if !s.has_state {
                RoutineStep::Update
            } else if s.current_action == CurrentAction::Expedition || s.thirst_for_adventure_sec > 0
                || s.can_drink_beer {
                RoutineStep::Expedition
            } else {
                RoutineStep::Rest
            }
        },
        RoutineStep::Expedition => RoutineStep::Rest,
        RoutineStep::Rest => RoutineStep::Update,
    }
}

/// The steps that take actions in the game after the guard (everything
/// from the shop on).
pub open spec fn spec_daytime(step: RoutineStep) -> bool {
    !(step == RoutineStep::Update || step == RoutineStep::Recover || step == RoutineStep::Unlock || step
        == RoutineStep::Guard || step == RoutineStep::Rest)
}

/// The steps that a full bag skips: everything after the underworld.
pub open spec fn spec_needs_room(step: RoutineStep) -> bool {
    spec_daytime(step) && !(step == RoutineStep::Shop || step == RoutineStep::Inventory || step
        == RoutineStep::Fortress || step == RoutineStep::Underworld)
}

/// Before the day's start hour, the round goes from the guard straight to
/// rest: no step after the guard follows it.
pub proof fn law_night_guard_only(s: RoundState, cfg: FeatureConfig)
    requires
        s.hour < s.start_hour,
    ensures
        !spec_daytime(spec_next_routine_step(RoutineStep::Guard, s, cfg)),
{
}

/// With a full bag, the round rests after the underworld: expeditions,
/// dungeons and daily rewards are skipped.
pub proof fn law_full_bag_skips(s: RoundState, cfg: FeatureConfig)
    requires
        s.has_state,
        s.free_slots == 0,
    ensures
        !spec_needs_room(spec_next_routine_step(RoutineStep::Underworld, s, cfg)),
{
}

/// Every round passes through the guard before any daytime step: a
/// daytime step only follows the guard or another daytime step.
pub proof fn law_guard_before_daytime(done: RoutineStep, s: RoundState, cfg: FeatureConfig)
    requires
        spec_daytime(spec_next_routine_step(done, s, cfg)),
    ensures
        done == RoutineStep::Guard || spec_daytime(done),
{
}

/// Whether the feature switches let a step act: updating, recovering and
/// resting always run; every other step runs only while its feature is
/// enabled (dungeons while dungeon fights or the Hellevator are).
pub open spec fn spec_routine_enabled(step: RoutineStep, cfg: FeatureConfig) -> bool {
    match step {
        RoutineStep::Update | RoutineStep::Recover | RoutineStep::Rest => true,
        RoutineStep::Unlock => cfg.enable_unlock,
        RoutineStep::Guard => cfg.enable_guard,
        RoutineStep::Shop => cfg.enable_shop,
        RoutineStep::Inventory => cfg.enable_inventory,
        RoutineStep::Fortress => cfg.enable_fortress,
        RoutineStep::Underworld => cfg.enable_underworld,
        RoutineStep::Daily => cfg.enable_daily,
        RoutineStep::Mail => cfg.enable_mail,
        RoutineStep::Guild => cfg.enable_guild,
        RoutineStep::Skill => cfg.enable_skill,
        RoutineStep::Mount => cfg.enable_mount,
        RoutineStep::Witch => cfg.enable_witch,
        RoutineStep::ArenaManager => cfg.enable_idle,
        RoutineStep::Arena => cfg.enable_arena,
        RoutineStep::Dungeon => cfg.enable_dungeon || cfg.enable_hellevator,
        RoutineStep::Pets => cfg.enable_pets,
        RoutineStep::Expedition => cfg.enable_expedition,
    }
}

/// Whether the feature switches let a step act.
pub fn routine_enabled(step: RoutineStep, cfg: &FeatureConfig) -> (r: bool)
    ensures
        r == spec_routine_enabled(step, *cfg),
{
    match step {
        RoutineStep::Update | RoutineStep::Recover | RoutineStep::Rest => true,
        RoutineStep::Unlock => cfg.enable_unlock,
        RoutineStep::Guard => cfg.enable_guard,
        RoutineStep::Shop => cfg.enable_shop,
        RoutineStep::Inventory => cfg.enable_inventory,
        RoutineStep::Fortress => cfg.enable_fortress,
        RoutineStep::Underworld => cfg.enable_underworld,
        RoutineStep::Daily => cfg.enable_daily,
        RoutineStep::Mail => cfg.enable_mail,
        RoutineStep::Guild => cfg.enable_guild,
        RoutineStep::Skill => cfg.enable_skill,
        RoutineStep::Mount => cfg.enable_mount,
        RoutineStep::Witch => cfg.enable_witch,
        RoutineStep::ArenaManager => cfg.enable_idle,
        RoutineStep::Arena => cfg.enable_arena,
        RoutineStep::Dungeon => cfg.enable_dungeon || cfg.enable_hellevator,
        RoutineStep::Pets => cfg.enable_pets,
        RoutineStep::Expedition => cfg.enable_expedition,
    }
}

/// With unlocking switched off, a pending feature unlock never holds up
/// the round: after an update the round goes on as if none were pending.
pub proof fn law_disabled_unlock_never_taken(done: RoutineStep, s: RoundState, cfg: FeatureConfig)
    requires
        !cfg.enable_unlock,
    ensures
        spec_next_routine_step(done, s, cfg) != RoutineStep::Unlock,
        spec_next_routine_step(RoutineStep::Update, s, cfg) == spec_next_routine_step(
            RoutineStep::Update,
            (RoundState { pending_unlock: false, ..s }),
            cfg,
        ),
{
}

/// Switching every feature off leaves only updating, recovering and
/// resting: no step that acts in the game runs.
pub proof fn law_all_disabled_acts_never(step: RoutineStep, cfg: FeatureConfig)
    requires
        !cfg.enable_unlock && !cfg.enable_guard && !cfg.enable_shop && !cfg.enable_inventory
            && !cfg.enable_fortress && !cfg.enable_underworld && !cfg.enable_daily && !cfg.enable_mail
            && !cfg.enable_guild && !cfg.enable_skill && !cfg.enable_mount && !cfg.enable_witch
            && !cfg.enable_idle && !cfg.enable_arena && !cfg.enable_dungeon && !cfg.enable_hellevator
            && !cfg.enable_pets && !cfg.enable_expedition,
        spec_routine_enabled(step, cfg),
    ensures
        step == RoutineStep::Update || step == RoutineStep::Recover || step == RoutineStep::Rest,
{
}

} // verus!
