use rsfb::model::{AttributeType, Attributes, Class, Mount};
use rsfb::mount::{mount_next, MountView};
use rsfb::skill::{skill_next, SkillAction, SkillView};

fn mount_view(mount: Option<Mount>, mount_end: Option<i64>, silver: u64, mushrooms: u32) -> MountView {
    MountView { mount, mount_end, silver, mushrooms, now: 1000 }
}

#[test]
fn dragon_when_mushrooms_pay() {
    assert_eq!(mount_next(&mount_view(None, None, 0, 25)), Some(Mount::Dragon));
    assert_eq!(mount_next(&mount_view(None, None, 0, 24)), None);
}

#[test]
fn best_affordable_mount_without_mushrooms() {
    assert_eq!(mount_next(&mount_view(None, None, 1000, 0)), Some(Mount::Horse));
    assert_eq!(mount_next(&mount_view(None, None, 1000, 1)), Some(Mount::Tiger));
    assert_eq!(mount_next(&mount_view(None, None, 100, 0)), Some(Mount::Cow));
    assert_eq!(mount_next(&mount_view(None, None, 99, 0)), None);
}

#[test]
fn only_better_mounts_replace_a_running_rent() {
    assert_eq!(mount_next(&mount_view(Some(Mount::Horse), Some(2000), 1000, 0)), None);
    assert_eq!(mount_next(&mount_view(Some(Mount::Horse), None, 1000, 1)), Some(Mount::Tiger));
    assert_eq!(mount_next(&mount_view(Some(Mount::Dragon), Some(2000), 1_000_000, 1000)), None);
}

#[test]
fn expired_rent_counts_as_no_mount() {
    assert_eq!(mount_next(&mount_view(Some(Mount::Horse), Some(1000), 500, 0)), Some(Mount::Horse));
    assert_eq!(mount_next(&mount_view(Some(Mount::Horse), Some(1001), 500, 0)), None);
}

fn skill_view(class: Class, silver: u64, basis: Attributes, prices: Vec<u32>) -> SkillView {
    SkillView { class, silver, attribute_basis: basis, shop_prices: prices }
}

fn attrs(s: u32, d: u32, i: u32, c: u32, l: u32) -> Attributes {
    Attributes { strength: s, dexterity: d, intelligence: i, constitution: c, luck: l }
}

#[test]
fn skill_needs_ten_times_the_dearest_item() {
    let basis = attrs(100, 10, 10, 80, 40);
    assert_eq!(skill_next(&skill_view(Class::Warrior, 1000, basis, vec![50, 100])), None);
    assert!(skill_next(&skill_view(Class::Warrior, 1001, basis, vec![50, 100])).is_some());
    // Prices of u32::MAX mark nothing on offer.
    assert!(skill_next(&skill_view(Class::Warrior, 1001, basis, vec![100, u32::MAX])).is_some());
    // Nothing on offer: any silver above 0 will do.
    assert!(skill_next(&skill_view(Class::Warrior, 1, basis, vec![])).is_some());
    assert_eq!(skill_next(&skill_view(Class::Warrior, 0, basis, vec![])), None);
}

#[test]
fn skill_raises_attribute_furthest_below_target() {
    // Exactly on target everywhere: the first weighed (the main attribute) wins the tie.
    let basis = attrs(100, 10, 10, 80, 40);
    assert_eq!(
        skill_next(&skill_view(Class::Warrior, 10, basis, vec![])),
        Some(SkillAction { attribute: AttributeType::Strength, next_attribute: 101 })
    );
    // Luck lags behind.
    let basis = attrs(100, 10, 10, 80, 39);
    assert_eq!(
        skill_next(&skill_view(Class::Warrior, 10, basis, vec![])),
        Some(SkillAction { attribute: AttributeType::Luck, next_attribute: 40 })
    );
    // A mage's secondaries are strength and dexterity.
    let basis = attrs(9, 10, 100, 80, 40);
    assert_eq!(
        skill_next(&skill_view(Class::Mage, 10, basis, vec![])),
        Some(SkillAction { attribute: AttributeType::Strength, next_attribute: 10 })
    );
    // Constitution lags behind for a scout.
    let basis = attrs(10, 100, 10, 79, 40);
    assert_eq!(
        skill_next(&skill_view(Class::Scout, 10, basis, vec![])),
        Some(SkillAction { attribute: AttributeType::Constitution, next_attribute: 80 })
    );
}
