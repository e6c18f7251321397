//! The witch's enchantments for the character and its companions.

use vstd::prelude::*;

use crate::model::{
    companion_at, companion_worn, enchantment_at, enchantment_slot, spec_companion_at, spec_companion_equipment,
    spec_companion_index, spec_enchantment_at, spec_enchantment_slot, spec_worn, worn, CompanionClass, Companion,
    Enchantment, Gear, ENCHANTMENTS,
};

verus! {

/// What the witch routine reads of the game.
#[derive(Debug, Clone)]
pub struct WitchView {
    pub level: u16,
    pub silver: u64,
    pub gear: Gear,
    /// The price of an enchantment and, per enchantment in the game's order,
    /// whether it is unlocked; `None` without a witch.
    pub witch: Option<(u64, Vec<bool>)>,
}

/// An enchantment to apply.
#[derive(Debug, Clone, Copy, PartialEq, Eq, Structural)]
pub enum WitchAction {
    Enchant { enchantment: Enchantment },
    EnchantCompanion { enchantment: Enchantment, companion: CompanionClass },
}

/// The witch is there from level 66.
pub open spec fn spec_witch_unlocked(v: WitchView) -> bool {
    v.level >= 66 && v.witch is Some
}

/// Whether the witch has unlocked the enchantment at position `i`.
pub open spec fn spec_unlocked(unlocked: Seq<bool>, i: int) -> bool {
    0 <= i < unlocked.len() && unlocked[i]
}

/// The level of a companion, 0 where the list has no entry for it.
pub open spec fn spec_companion_level(cs: Seq<Companion>, c: CompanionClass) -> u16 {
    if spec_companion_index(c) < cs.len() {
        cs[spec_companion_index(c)].level
    } else {
        0
    }
}

/// The first companion, from position `k` on, that has a level and wears
/// an item in the enchantment's slot without it, when the silver pays.
pub open spec fn spec_companion_target(v: WitchView, price: u64, e: Enchantment, k: nat) -> Option<CompanionClass>
    decreases 3 - k,
{
    if k >= 3 || v.gear.companions is None {
        None
    } else {
        let cs = v.gear.companions.unwrap()@;
        let c = spec_companion_at(k as int);
        if spec_companion_level(cs, c) != 0 && (spec_worn(spec_companion_equipment(cs, c), spec_enchantment_slot(e))
            matches Some(item) && item.enchantment != Some(e) && v.silver >= price) {
            Some(c)
        } else {
            spec_companion_target(v, price, e, k + 1)
        }
    }
}

/// The enchantment step for the enchantment at position `i`, if any.
pub open spec fn spec_enchant_step(v: WitchView, price: u64, unlocked: Seq<bool>, i: int) -> Option<WitchAction> {
    let e = spec_enchantment_at(i);
    if !spec_unlocked(unlocked, i) {
        None
    } else if spec_worn(v.gear.equipment@, spec_enchantment_slot(e)) matches Some(item) && item.enchantment != Some(e)
        && v.silver >= price {
        Some(WitchAction::Enchant { enchantment: e })
    } else {
        match spec_companion_target(v, price, e, 0) {
            Some(c) => Some(WitchAction::EnchantCompanion { enchantment: e, companion: c }),
            None => None,
        }
    }
}

pub open spec fn spec_enchant_from(v: WitchView, price: u64, unlocked: Seq<bool>, i: nat) -> Option<WitchAction>
    decreases ENCHANTMENTS - i,
{
    if i >= ENCHANTMENTS {
        None
    } else {
        match spec_enchant_step(v, price, unlocked, i as int) {
            Some(a) => Some(a),
            None => spec_enchant_from(v, price, unlocked, i + 1),
        }
    }
}

/// The next enchantment: for each unlocked enchantment in the game's order,
/// the character's item in its slot if it lacks it, else the first companion
/// with a level whose item there lacks it; the silver must pay the price.
pub open spec fn spec_get_next_enchant_action(v: WitchView) -> Option<WitchAction> {
    match v.witch {
        None => None,
        Some((price, unlocked)) => spec_enchant_from(v, price, unlocked@, 0),
    }
}

/// The next enchantment, once the witch is there (from level 66).
pub open spec fn spec_witch_next(v: WitchView) -> Option<WitchAction> {
    if spec_witch_unlocked(v) {
        spec_get_next_enchant_action(v)
    } else {
        None
    }
}

fn companion_target(v: &WitchView, price: u64, e: Enchantment) -> (r: Option<CompanionClass>)
    ensures
        r == spec_companion_target(*v, price, e, 0),
{
    let cs = match &v.gear.companions {
        None => {
            return None;
        },
        Some(cs) => cs,
    };
    let slot = enchantment_slot(e);
    let mut k: usize = 0;
    while k < 3
        invariant
            k <= 3,
            v.gear.companions == Some(*cs),
            slot == spec_enchantment_slot(e),
            spec_companion_target(*v, price, e, 0) == spec_companion_target(*v, price, e, k as nat),
        decreases 3 - k,
    {
        let c = companion_at(k);
        let level = if k < cs.len() {
            cs[k].level
        } else {
            0
        };
        if level != 0 {
            if let Some(item) = companion_worn(cs, c, slot) {
                if item.enchantment != Some(e) && v.silver >= price {
                    return Some(c);
                }
            }
        }
        k = k + 1;
    }
    None
}

/// The next enchantment.
pub fn get_next_enchant_action(v: &WitchView) -> (r: Option<WitchAction>)
    ensures
        r == spec_get_next_enchant_action(*v),
{
    let (price, unlocked) = match &v.witch {
        None => {
            return None;
        },
        Some((p, u)) => (*p, u),
    };
    let mut i: usize = 0;
    while i < ENCHANTMENTS
        invariant
            i <= ENCHANTMENTS,
            v.witch == Some((price, *unlocked)),
            spec_enchant_from(*v, price, unlocked@, 0) == spec_enchant_from(*v, price, unlocked@, i as nat),
        decreases ENCHANTMENTS - i,
    {
        let e = enchantment_at(i);
        if i < unlocked.len() && unlocked[i] {
            let slot = enchantment_slot(e);
            if let Some(item) = worn(&v.gear.equipment, slot) {
                if item.enchantment != Some(e) && v.silver >= price {
                    return Some(WitchAction::Enchant { enchantment: e });
                }
            }
            if let Some(c) = companion_target(v, price, e) {
                return Some(WitchAction::EnchantCompanion { enchantment: e, companion: c });
            }
        }
        i = i + 1;
    }
    None
}

/// The next enchantment, once the witch is there.
pub fn witch_next(v: &WitchView) -> (r: Option<WitchAction>)
    ensures
        r == spec_witch_next(*v),
{
    if !(v.level >= 66 && v.witch.is_some()) {
        return None;
    }
    get_next_enchant_action(v)
}

proof fn lemma_enchant_from(v: WitchView, price: u64, unlocked: Seq<bool>, i: nat)
    ensures
        spec_enchant_from(v, price, unlocked, i) matches Some(a) ==> exists|k: int|
            i <= k < ENCHANTMENTS && #[trigger] spec_enchant_step(v, price, unlocked, k) == Some(a),
    decreases ENCHANTMENTS - i,
{
    if i < ENCHANTMENTS {
        lemma_enchant_from(v, price, unlocked, i + 1);
        if spec_enchant_step(v, price, unlocked, i as int) is Some {
            assert(spec_enchant_step(v, price, unlocked, i as int) == spec_enchant_from(v, price, unlocked, i));
        }
    }
}

/// The witch is paid only with silver the character has, and only for an
/// enchantment she offers, on a worn item that lacks it.
pub proof fn law_witch_enchants_what_lacks_it(v: WitchView)
    requires
        spec_witch_next(v) matches Some(WitchAction::Enchant { .. }),
    ensures
        ({
            let e = spec_witch_next(v).unwrap()->Enchant_enchantment;
            let (price, unlocked) = v.witch.unwrap();
            &&& v.silver >= price
            &&& exists|k: int| 0 <= k < ENCHANTMENTS && spec_enchantment_at(k) == e && #[trigger] spec_unlocked(unlocked@, k)
            &&& spec_worn(v.gear.equipment@, spec_enchantment_slot(e)) matches Some(item) && item.enchantment != Some(e)
        }),
{
    let (price, unlocked) = v.witch.unwrap();
    lemma_enchant_from(v, price, unlocked@, 0);
}

} // verus!
