use rsfb::guild::{
    can_afford_both_guild_skills, can_afford_guild_skill, guild_next, BattlesJoined, GuildAction, GuildContext,
    GuildSkill, GuildView, OwnMember, DAY_NANOS,
};
use rsfb::model::NormalCost;

fn cost(silver: u64, mushrooms: u16) -> NormalCost {
    NormalCost { silver, mushrooms }
}

fn view() -> GuildView {
    GuildView {
        own_treasure_skill: 10,
        own_instructor_skill: 10,
        own_pet_lvl: 5,
        pet_max_lvl: 5,
        price_treasure: cost(1_000_000, 0),
        price_instructor: cost(1_000_000, 0),
        price_pet: cost(1_000_000, 0),
        joined: Some(0),
        own_member: Some(OwnMember { battles_joined: Some(BattlesJoined::Both), portal_fought_day: Some(100) }),
        defending: None,
        attacking: None,
        hydra_remaining_fights: 0,
        hydra_current_life: 0,
        hydra_next_battle: None,
        portal_life_percentage: 0,
    }
}

fn ctx() -> GuildContext {
    GuildContext { level: 100, silver: 500, mushrooms: 50, now: 10 * DAY_NANOS, today: 100 }
}

#[test]
fn silver_must_pay() {
    assert!(can_afford_guild_skill(cost(100, 0), 100, 0));
    assert!(!can_afford_guild_skill(cost(101, 0), 100, 0));
}

#[test]
fn mushroom_reserve_is_kept() {
    // 34 - 3 leaves 31, at least the reserve of 30; 3 is below 10% of 34.
    assert!(can_afford_guild_skill(cost(0, 3), 0, 34));
    // 32 - 3 leaves 29, below the reserve.
    assert!(!can_afford_guild_skill(cost(0, 3), 0, 32));
    // More mushrooms than the character has.
    assert!(!can_afford_guild_skill(cost(0, 40), 0, 30));
}

#[test]
fn mushroom_share_is_strictly_below_ten_percent() {
    assert!(can_afford_guild_skill(cost(0, 99), 0, 1000));
    assert!(!can_afford_guild_skill(cost(0, 100), 0, 1000));
    assert!(!can_afford_guild_skill(cost(0, 10), 0, 60));
}

#[test]
fn both_upgrades_one_after_the_other() {
    assert!(can_afford_both_guild_skills(cost(100, 0), cost(100, 0), 200, 0));
    assert!(!can_afford_both_guild_skills(cost(100, 0), cost(101, 0), 200, 0));
    // The first takes 5 of 1000 mushrooms; the second must be below 10% of 995.
    assert!(can_afford_both_guild_skills(cost(0, 5), cost(0, 99), 0, 1000));
    assert!(!can_afford_both_guild_skills(cost(0, 5), cost(0, 100), 0, 1000));
}

#[test]
fn lower_of_treasure_and_instructor_is_raised() {
    let mut g = view();
    g.own_treasure_skill = 3;
    g.price_treasure = cost(100, 0);
    assert_eq!(
        guild_next(&g, &ctx()),
        Some(GuildAction::IncreaseSkill { skill: GuildSkill::Treasure, current: 3 })
    );
    let mut g = view();
    g.own_instructor_skill = 4;
    g.price_instructor = cost(100, 0);
    assert_eq!(
        guild_next(&g, &ctx()),
        Some(GuildAction::IncreaseSkill { skill: GuildSkill::Instructor, current: 4 })
    );
}

#[test]
fn tie_raises_instructor_only_when_both_are_affordable() {
    let mut g = view();
    g.price_treasure = cost(200, 0);
    g.price_instructor = cost(200, 0);
    assert_eq!(
        guild_next(&g, &ctx()),
        Some(GuildAction::IncreaseSkill { skill: GuildSkill::Instructor, current: 10 })
    );
    g.price_treasure = cost(400, 0);
    assert_eq!(guild_next(&g, &ctx()), None);
}

#[test]
fn pet_raised_below_its_maximum() {
    let mut g = view();
    g.pet_max_lvl = 6;
    g.price_pet = cost(100, 0);
    assert_eq!(guild_next(&g, &ctx()), Some(GuildAction::IncreaseSkill { skill: GuildSkill::Pet, current: 5 }));
    g.pet_max_lvl = 5;
    assert_eq!(guild_next(&g, &ctx()), None);
}

#[test]
fn new_member_waits_a_day() {
    let mut g = view();
    g.defending = Some(i64::MAX);
    g.own_member = Some(OwnMember { battles_joined: None, portal_fought_day: None });
    let mut c = ctx();
    g.joined = Some(c.now - DAY_NANOS);
    assert_eq!(guild_next(&g, &c), None);
    c.now += 1;
    assert_eq!(guild_next(&g, &c), Some(GuildAction::JoinDefense));
}

#[test]
fn battles_hydra_and_portal_in_order() {
    let mut g = view();
    g.own_member = Some(OwnMember { battles_joined: Some(BattlesJoined::Defense), portal_fought_day: Some(99) });
    g.defending = Some(i64::MAX);
    g.attacking = Some(i64::MAX);
    assert_eq!(guild_next(&g, &ctx()), Some(GuildAction::JoinAttack));
    g.attacking = None;
    g.portal_life_percentage = 10;
    g.hydra_remaining_fights = 1;
    g.hydra_current_life = 10;
    g.hydra_next_battle = Some(ctx().now + 1);
    assert_eq!(guild_next(&g, &ctx()), Some(GuildAction::PortalBattle));
    g.hydra_next_battle = Some(ctx().now);
    assert_eq!(guild_next(&g, &ctx()), Some(GuildAction::PetBattle));
}

#[test]
fn portal_once_a_day_from_level_99() {
    let mut g = view();
    g.portal_life_percentage = 50;
    g.own_member = Some(OwnMember { battles_joined: None, portal_fought_day: Some(99) });
    let mut c = ctx();
    assert_eq!(guild_next(&g, &c), Some(GuildAction::PortalBattle));
    c.level = 98;
    assert_eq!(guild_next(&g, &c), None);
    c.level = 99;
    g.own_member = Some(OwnMember { battles_joined: None, portal_fought_day: Some(100) });
    assert_eq!(guild_next(&g, &c), None);
    g.own_member = None;
    assert_eq!(guild_next(&g, &c), None);
}
