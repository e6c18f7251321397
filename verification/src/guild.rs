//! The guild: skill upgrades, battles, the hydra and the portal.

use vstd::prelude::*;

use crate::constant::{GUILD_UPGRADE_MAX_MUSHROOM_RATIO, MIN_MUSHROOM_RESERVE};
use crate::model::{NormalCost, SECOND_NANOS};

verus! {

/// A guild skill a member upgrades.
#[derive(Debug, Clone, Copy, PartialEq, Eq, Structural)]
pub enum GuildSkill {
    Treasure,
    Instructor,
    Pet,
}

/// The battles a member has signed up for.
#[derive(Debug, Clone, Copy, PartialEq, Eq, Structural)]
pub enum BattlesJoined {
    Defense,
    Attack,
    Both,
}

/// The character's own entry in the member list.
#[derive(Debug, Clone, Copy, PartialEq, Eq, Structural)]
pub struct OwnMember {
    pub battles_joined: Option<BattlesJoined>,
    /// The local day (days since the common era) of the last portal fight.
    pub portal_fought_day: Option<i64>,
}

/// What the guild routine reads of the guild.
#[derive(Debug, Clone, Copy, PartialEq, Eq, Structural)]
pub struct GuildView {
    pub own_treasure_skill: u16,
    pub own_instructor_skill: u16,
    pub own_pet_lvl: u16,
    pub pet_max_lvl: u16,
    pub price_treasure: NormalCost,
    pub price_instructor: NormalCost,
    pub price_pet: NormalCost,
    /// When the character joined the guild.
    pub joined: Option<i64>,
    /// `None` when the character is missing from the member list.
    pub own_member: Option<OwnMember>,
    /// When the planned defence takes place.
    pub defending: Option<i64>,
    /// When the planned attack takes place.
    pub attacking: Option<i64>,
    pub hydra_remaining_fights: u16,
    pub hydra_current_life: u64,
    pub hydra_next_battle: Option<i64>,
    pub portal_life_percentage: u8,
}

/// What the guild routine reads of the character.
#[derive(Debug, Clone, Copy, PartialEq, Eq, Structural)]
pub struct GuildContext {
    pub level: u16,
    pub silver: u64,
    pub mushrooms: u32,
    pub now: i64,
    /// The local day (days since the common era) of `now`.
    pub today: i64,
}

/// The next step in the guild.
#[derive(Debug, Clone, Copy, PartialEq, Eq, Structural)]
pub enum GuildAction {
    IncreaseSkill { skill: GuildSkill, current: u16 },
    JoinDefense,
    JoinAttack,
    /// Fight the hydra.
    PetBattle,
    PortalBattle,
}

/// Whether a guild upgrade may be bought: the silver pays it and, if it
/// costs mushrooms, at least the reserve remains and the price is strictly
/// below the allowed share of all mushrooms.
pub open spec fn spec_can_afford_guild_skill(cost: NormalCost, silver: u64, mushrooms: u32) -> bool {
    cost.silver <= silver && (cost.mushrooms > 0 ==> (mushrooms - cost.mushrooms >= MIN_MUSHROOM_RESERVE
        && cost.mushrooms * 1000 < mushrooms * GUILD_UPGRADE_MAX_MUSHROOM_RATIO))
}

/// Whether a guild upgrade may be bought.
pub fn can_afford_guild_skill(cost: NormalCost, silver: u64, mushrooms: u32) -> (r: bool)
    ensures
        r == spec_can_afford_guild_skill(cost, silver, mushrooms),
{
    if cost.silver > silver {
        return false;
    }
    if cost.mushrooms > 0 {
        let cost_mushrooms = cost.mushrooms as u32;
        let left: u32 = if mushrooms > cost_mushrooms {
            mushrooms - cost_mushrooms
        } else {
            0
        };
        if left < MIN_MUSHROOM_RESERVE {
            return false;
        }
        if (cost.mushrooms as u64) * 1000 >= (mushrooms as u64) * GUILD_UPGRADE_MAX_MUSHROOM_RATIO {
            return false;
        }
    }
    true
}

/// `a` minus `b`, or 0 if `b` is larger.
pub open spec fn spec_saturating_sub(a: int, b: int) -> int {
    if a > b {
        a - b
    } else {
        0
    }
}

/// Whether two guild upgrades may be bought one after the other.
pub open spec fn spec_can_afford_both_guild_skills(c1: NormalCost, c2: NormalCost, silver: u64, mush: u32) -> bool {
    spec_can_afford_guild_skill(c1, silver, mush) && spec_can_afford_guild_skill(
        c2,
        spec_saturating_sub(silver as int, c1.silver as int) as u64,
        spec_saturating_sub(mush as int, c1.mushrooms as int) as u32,
    )
}

/// Whether two guild upgrades may be bought one after the other.
pub fn can_afford_both_guild_skills(c1: NormalCost, c2: NormalCost, silver: u64, mush: u32) -> (r: bool)
    ensures
        r == spec_can_afford_both_guild_skills(c1, c2, silver, mush),
{
    if !can_afford_guild_skill(c1, silver, mush) {
        return false;
    }
    let remaining_silver = if silver > c1.silver {
        silver - c1.silver
    } else {
        0
    };
    let rema_mus = if mush > c1.mushrooms as u32 {
        mush - c1.mushrooms as u32
    } else {
        0
    };
    can_afford_guild_skill(c2, remaining_silver, rema_mus)
}

pub open spec fn spec_price(g: GuildView, skill: GuildSkill) -> NormalCost {
    match skill {
        GuildSkill::Treasure => g.price_treasure,
        GuildSkill::Instructor => g.price_instructor,
        GuildSkill::Pet => g.price_pet,
    }
}

pub open spec fn spec_current(g: GuildView, skill: GuildSkill) -> u16 {
    match skill {
        GuildSkill::Treasure => g.own_treasure_skill,
        GuildSkill::Instructor => g.own_instructor_skill,
        GuildSkill::Pet => g.own_pet_lvl,
    }
}

/// The skills considered for an upgrade, in order: the lower of treasure
/// and instructor, then the pet; on a tie instructor goes first when both
/// treasure and instructor are affordable one after the other, otherwise
/// only the pet.
pub open spec fn spec_candidates(g: GuildView, ctx: GuildContext) -> Seq<GuildSkill> {
    if g.own_treasure_skill < g.own_instructor_skill {
        seq![GuildSkill::Treasure, GuildSkill::Pet]
    } else if g.own_treasure_skill > g.own_instructor_skill {
        seq![GuildSkill::Instructor, GuildSkill::Pet]
    } else if spec_can_afford_both_guild_skills(g.price_instructor, g.price_treasure, ctx.silver, ctx.mushrooms) {
        seq![GuildSkill::Instructor, GuildSkill::Pet]
    } else {
        seq![GuildSkill::Pet]
    }
}

/// Whether a candidate skill is upgraded: the pet only below its maximum,
/// and only what may be bought.
pub open spec fn spec_upgrades(g: GuildView, ctx: GuildContext, skill: GuildSkill) -> bool {
    !(skill == GuildSkill::Pet && !(g.pet_max_lvl > 0 && g.own_pet_lvl < g.pet_max_lvl))
        && spec_can_afford_guild_skill(spec_price(g, skill), ctx.silver, ctx.mushrooms)
}

pub open spec fn spec_skill_from(g: GuildView, ctx: GuildContext, cs: Seq<GuildSkill>, i: nat) -> Option<GuildSkill>
    decreases cs.len() - i,
{
    if i >= cs.len() {
        None
    } else if spec_upgrades(g, ctx, cs[i as int]) {
        Some(cs[i as int])
    } else {
        spec_skill_from(g, ctx, cs, i + 1)
    }
}

/// Whether the character's entry shows it signed up for the defence.
pub open spec fn spec_joined_defense(m: Option<OwnMember>) -> bool {
    m matches Some(om) && (om.battles_joined == Some(BattlesJoined::Defense) || om.battles_joined == Some(
        BattlesJoined::Both,
    ))
}

/// Whether the character's entry shows it signed up for the attack.
pub open spec fn spec_joined_attack(m: Option<OwnMember>) -> bool {
    m matches Some(om) && (om.battles_joined == Some(BattlesJoined::Attack) || om.battles_joined == Some(
        BattlesJoined::Both,
    ))
}

/// Whether the portal counts as fought today (also when the character is
/// missing from the member list).
pub open spec fn spec_fought_today(m: Option<OwnMember>, today: i64) -> bool {
    match m {
        None => true,
        Some(om) => om.portal_fought_day matches Some(d) && d >= today,
    }
}

/// A day, in nanoseconds.
pub const DAY_NANOS: i64 = 24 * 60 * 60 * SECOND_NANOS;

/// The next step in the guild: upgrade a skill; within a day of joining,
/// nothing else; sign up for a coming defence, then a coming attack; fight
/// the hydra while fights remain and it lives, once its next battle is due;
/// from level 99, fight the portal once a day while it has life.
pub open spec fn spec_guild_next(g: GuildView, ctx: GuildContext) -> Option<GuildAction> {
    let now = ctx.now;
    match spec_skill_from(g, ctx, spec_candidates(g, ctx), 0) {
        Some(skill) => Some(GuildAction::IncreaseSkill { skill, current: spec_current(g, skill) }),
        None => if g.joined matches Some(j) && now - j <= DAY_NANOS {
            None
        } else if g.defending matches Some(d) && now < d && !spec_joined_defense(g.own_member) {
            Some(GuildAction::JoinDefense)
        } else if g.attacking matches Some(a) && now < a && !spec_joined_attack(g.own_member) {
            Some(GuildAction::JoinAttack)
        } else if g.hydra_remaining_fights > 0 && g.hydra_current_life > 0 && (g.hydra_next_battle matches Some(
            n,
        ) ==> now >= n) {
            Some(GuildAction::PetBattle)
        } else if ctx.level >= 99 && g.portal_life_percentage > 0 && !spec_fought_today(g.own_member, ctx.today) {
            Some(GuildAction::PortalBattle)
        } else {
            None
        },
    }
}

fn price(g: &GuildView, skill: GuildSkill) -> (r: NormalCost)
    ensures
        r == spec_price(*g, skill),
{
    match skill {
        GuildSkill::Treasure => g.price_treasure,
        GuildSkill::Instructor => g.price_instructor,
        GuildSkill::Pet => g.price_pet,
    }
}

fn upgrades(g: &GuildView, ctx: &GuildContext, skill: GuildSkill) -> (r: bool)
    ensures
        r == spec_upgrades(*g, *ctx, skill),
{
    let can_pet = g.pet_max_lvl > 0 && g.own_pet_lvl < g.pet_max_lvl;
    if skill == GuildSkill::Pet && !can_pet {
        return false;
    }
    can_afford_guild_skill(price(g, skill), ctx.silver, ctx.mushrooms)
}

fn joined_defense(m: Option<OwnMember>) -> (r: bool)
    ensures
        r == spec_joined_defense(m),
{
    match m {
        Some(om) => om.battles_joined == Some(BattlesJoined::Defense) || om.battles_joined == Some(
            BattlesJoined::Both,
        ),
        None => false,
    }
}

fn joined_attack(m: Option<OwnMember>) -> (r: bool)
    ensures
        r == spec_joined_attack(m),
{
    match m {
        Some(om) => om.battles_joined == Some(BattlesJoined::Attack) || om.battles_joined == Some(
            BattlesJoined::Both,
        ),
        None => false,
    }
}

/// The next step in the guild.
pub fn guild_next(g: &GuildView, ctx: &GuildContext) -> (r: Option<GuildAction>)
    ensures
        r == spec_guild_next(*g, *ctx),
{
    let (ins, trs, pet) = (GuildSkill::Instructor, GuildSkill::Treasure, GuildSkill::Pet);
    let first: GuildSkill;
    let second: Option<GuildSkill>;
    if g.own_treasure_skill < g.own_instructor_skill {
        first = trs;
        second = Some(pet);
    } else if g.own_treasure_skill > g.own_instructor_skill {
        first = ins;
        second = Some(pet);
    } else if can_afford_both_guild_skills(g.price_instructor, g.price_treasure, ctx.silver, ctx.mushrooms) {
        first = ins;
        second = Some(pet);
    } else {
        first = pet;
        second = None;
    }
    let ghost cs = spec_candidates(*g, *ctx);
    assert(cs[0] == first);
    assert(second is Some ==> cs.len() == 2 && cs[1] == second.unwrap());
    assert(second is None ==> cs.len() == 1);
    let chosen = if upgrades(g, ctx, first) {
        Some(first)
    } else {
        match second {
            Some(s) => if upgrades(g, ctx, s) {
                Some(s)
            } else {
                None
            },
            None => None,
        }
    };
    assert(chosen == spec_skill_from(*g, *ctx, cs, 0)) by {
        if !spec_upgrades(*g, *ctx, first) && second is Some {
            assert(spec_skill_from(*g, *ctx, cs, 1) == (if spec_upgrades(*g, *ctx, second.unwrap()) {
                Some(second.unwrap())
            } else {
                spec_skill_from(*g, *ctx, cs, 2)
            }));
        }
    }
    if let Some(skill) = chosen {
        let current = match skill {
            GuildSkill::Treasure => g.own_treasure_skill,
            GuildSkill::Instructor => g.own_instructor_skill,
            GuildSkill::Pet => g.own_pet_lvl,
        };
        return Some(GuildAction::IncreaseSkill { skill, current });
    }
    let now = ctx.now;
    if let Some(j) = g.joined {
        if (now as i128) - (j as i128) <= DAY_NANOS as i128 {
            return None;
        }
    }
    if let Some(d) = g.defending {
        if now < d && !joined_defense(g.own_member) {
            return Some(GuildAction::JoinDefense);
        }
    }
    if let Some(a) = g.attacking {
        if now < a && !joined_attack(g.own_member) {
            return Some(GuildAction::JoinAttack);
        }
    }
    if g.hydra_remaining_fights > 0 && g.hydra_current_life > 0 {
        let can_fight = match g.hydra_next_battle {
            Some(n) => now >= n,
            None => true,
        };
        if can_fight {
            return Some(GuildAction::PetBattle);
        }
    }
    if ctx.level >= 99 && g.portal_life_percentage > 0 {
        let fought_today = match g.own_member {
            None => true,
            Some(om) => match om.portal_fought_day {
                Some(d) => d >= ctx.today,
                None => false,
            },
        };
        if !fought_today {
            return Some(GuildAction::PortalBattle);
        }
    }
    None
}

proof fn lemma_skill_from_upgrades(g: GuildView, ctx: GuildContext, cs: Seq<GuildSkill>, i: nat)
    ensures
        spec_skill_from(g, ctx, cs, i) matches Some(s) ==> spec_upgrades(g, ctx, s),
    decreases cs.len() - i,
{
    if i < cs.len() {
        lemma_skill_from_upgrades(g, ctx, cs, i + 1);
    }
}

/// A guild skill is raised only when the silver pays for it and, where it
/// costs mushrooms, at least `MIN_MUSHROOM_RESERVE` mushrooms remain and the
/// price is strictly less than the allowed share
/// (`GUILD_UPGRADE_MAX_MUSHROOM_RATIO` thousandths) of all mushrooms; the
/// pet is raised only below its maximum level.
pub proof fn law_guild_upgrade_keeps_reserve(g: GuildView, ctx: GuildContext)
    requires
        spec_guild_next(g, ctx) matches Some(GuildAction::IncreaseSkill { .. }),
    ensures
        ({
            let skill = spec_guild_next(g, ctx).unwrap()->IncreaseSkill_skill;
            let cost = spec_price(g, skill);
            &&& cost.silver <= ctx.silver
            &&& cost.mushrooms > 0 ==> ctx.mushrooms - cost.mushrooms >= MIN_MUSHROOM_RESERVE
            &&& cost.mushrooms > 0 ==> cost.mushrooms * 1000 < ctx.mushrooms * GUILD_UPGRADE_MAX_MUSHROOM_RATIO
            &&& skill == GuildSkill::Pet ==> g.own_pet_lvl < g.pet_max_lvl
            &&& spec_guild_next(g, ctx).unwrap()->IncreaseSkill_current == spec_current(g, skill)
        }),
{
    lemma_skill_from_upgrades(g, ctx, spec_candidates(g, ctx), 0);
}

/// Within a day of joining the guild, nothing but skill upgrades happens.
pub proof fn law_guild_new_member_waits(g: GuildView, ctx: GuildContext)
    requires
        g.joined matches Some(j) && ctx.now - j <= DAY_NANOS,
    ensures
        spec_guild_next(g, ctx) is None || spec_guild_next(g, ctx).unwrap() is IncreaseSkill,
{
}

/// The character signs up only for a battle still to come that its own
/// member entry does not already show it signed up for: never for an
/// attack when the entry says attack or both, never for a defence when it
/// says defence or both.
pub proof fn law_guild_joins_only_new_battles(g: GuildView, ctx: GuildContext)
    requires
        spec_guild_next(g, ctx) matches Some(a) && (a is JoinAttack || a is JoinDefense),
    ensures
        spec_guild_next(g, ctx) == Some(GuildAction::JoinAttack) ==> (g.attacking matches Some(t) && ctx.now < t)
            && !(g.own_member matches Some(om) && (om.battles_joined == Some(BattlesJoined::Attack)
            || om.battles_joined == Some(BattlesJoined::Both))),
        spec_guild_next(g, ctx) == Some(GuildAction::JoinDefense) ==> (g.defending matches Some(t) && ctx.now < t)
            && !(g.own_member matches Some(om) && (om.battles_joined == Some(BattlesJoined::Defense)
            || om.battles_joined == Some(BattlesJoined::Both))),
{
    lemma_skill_from_upgrades(g, ctx, spec_candidates(g, ctx), 0);
}

} // verus!
