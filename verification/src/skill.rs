//! Attribute upgrades: the attribute furthest below its target weight.

use vstd::prelude::*;

use crate::constant::{
    SKILL_GOLD_SAFETY_MULTIPLIER, SKILL_WEIGHT_CONSTITUTION, SKILL_WEIGHT_LUCK, SKILL_WEIGHT_MAIN_ATTRIBUTE,
    SKILL_WEIGHT_SECONDARY_ATTRIBUTE,
};
use crate::model::{main_attribute, spec_main_attribute, AttributeType, Attributes, Class};

verus! {

/// What the skill routine reads of the game.
#[derive(Debug, Clone)]
pub struct SkillView {
    pub class: Class,
    pub silver: u64,
    /// The attributes bought so far.
    pub attribute_basis: Attributes,
    /// The prices of all items offered in the shops.
    pub shop_prices: Vec<u32>,
}

/// An attribute to raise to its next value.
#[derive(Debug, Clone, Copy, PartialEq, Eq, Structural)]
pub struct SkillAction {
    pub attribute: AttributeType,
    pub next_attribute: u32,
}

/// The two attributes that are neither the main one, constitution nor luck.
pub open spec fn spec_secondaries(main: AttributeType) -> (AttributeType, AttributeType) {
    match main {
        AttributeType::Strength => (AttributeType::Dexterity, AttributeType::Intelligence),
        AttributeType::Dexterity => (AttributeType::Strength, AttributeType::Intelligence),
        _ => (AttributeType::Strength, AttributeType::Dexterity),
    }
}

/// The attributes in the order they are weighed, with their target weights.
pub open spec fn spec_weighted(class: Class) -> Seq<(AttributeType, u64)> {
    let main = spec_main_attribute(class);
    let (o1, o2) = spec_secondaries(main);
    seq![
        (main, SKILL_WEIGHT_MAIN_ATTRIBUTE),
        (AttributeType::Constitution, SKILL_WEIGHT_CONSTITUTION),
        (o1, SKILL_WEIGHT_SECONDARY_ATTRIBUTE),
        (o2, SKILL_WEIGHT_SECONDARY_ATTRIBUTE),
        (AttributeType::Luck, SKILL_WEIGHT_LUCK),
    ]
}

/// Whether attribute value `a` with weight `wa` is further below its target
/// than `b` with weight `wb` (`a / wa < b / wb`).
pub open spec fn spec_lower_score(a: u32, wa: u64, b: u32, wb: u64) -> bool {
    a * wb < b * wa
}

/// Walks the weighed attributes from `i` on and keeps the first one with
/// the lowest value for its weight.
pub open spec fn spec_lowest_from(basis: Attributes, ws: Seq<(AttributeType, u64)>, i: nat, best: Option<
    (AttributeType, u64),
>) -> Option<(AttributeType, u64)>
    decreases ws.len() - i,
{
    if i >= ws.len() {
        best
    } else {
        let (a, w) = ws[i as int];
        if best matches Some((ba, bw)) && !spec_lower_score(basis.spec_get(a), w, basis.spec_get(ba), bw) {
            spec_lowest_from(basis, ws, i + 1, best)
        } else {
            spec_lowest_from(basis, ws, i + 1, Some((a, w)))
        }
    }
}

/// The highest price of the shops (prices of `u32::MAX` mark nothing on
/// offer), from place `i` on.
pub open spec fn spec_max_price_from(prices: Seq<u32>, i: nat) -> u64
    decreases prices.len() - i,
{
    if i >= prices.len() {
        0
    } else {
        let rest = spec_max_price_from(prices, i + 1);
        if prices[i as int] != u32::MAX && prices[i as int] > rest {
            prices[i as int] as u64
        } else {
            rest
        }
    }
}

/// The next attribute upgrade: the attribute with the lowest value for its
/// target weight (main 100, constitution 80, the two others 10 each, luck
/// 40; the first on a tie), while the silver exceeds ten times the dearest
/// shop item.
pub open spec fn spec_skill_next(v: SkillView) -> Option<SkillAction> {
    if v.silver > SKILL_GOLD_SAFETY_MULTIPLIER * spec_max_price_from(v.shop_prices@, 0) {
        let best = spec_lowest_from(v.attribute_basis, spec_weighted(v.class), 0, None).unwrap().0;
        let value = v.attribute_basis.spec_get(best);
        Some(
            SkillAction {
                attribute: best,
                next_attribute: if value == u32::MAX {
                    0
                } else {
                    (value + 1) as u32
                },
            },
        )
    } else {
        None
    }
}

fn secondaries(main: AttributeType) -> (r: (AttributeType, AttributeType))
    ensures
        r == spec_secondaries(main),
{
    match main {
        AttributeType::Strength => (AttributeType::Dexterity, AttributeType::Intelligence),
        AttributeType::Dexterity => (AttributeType::Strength, AttributeType::Intelligence),
        _ => (AttributeType::Strength, AttributeType::Dexterity),
    }
}

fn lower_score(a: u32, wa: u64, b: u32, wb: u64) -> (r: bool)
    ensures
        r == spec_lower_score(a, wa, b, wb),
{
    assert((a as u128) * (wb as u128) <= 0xFFFF_FFFFu128 * 0xFFFF_FFFF_FFFF_FFFFu128) by (nonlinear_arith)
        requires
            a <= 0xFFFF_FFFFu32,
            wb <= 0xFFFF_FFFF_FFFF_FFFFu64,
    ;
    assert((b as u128) * (wa as u128) <= 0xFFFF_FFFFu128 * 0xFFFF_FFFF_FFFF_FFFFu128) by (nonlinear_arith)
        requires
            b <= 0xFFFF_FFFFu32,
            wa <= 0xFFFF_FFFF_FFFF_FFFFu64,
    ;
    (a as u128) * (wb as u128) < (b as u128) * (wa as u128)
}

/// The next attribute upgrade.
pub fn skill_next(v: &SkillView) -> (r: Option<SkillAction>)
    ensures
        r == spec_skill_next(*v),
{
    let main = main_attribute(v.class);
    let (o1, o2) = secondaries(main);
    let ghost ws = spec_weighted(v.class);
    let mut list: Vec<(AttributeType, u64)> = Vec::new();
    list.push((main, SKILL_WEIGHT_MAIN_ATTRIBUTE));
    list.push((AttributeType::Constitution, SKILL_WEIGHT_CONSTITUTION));
    list.push((o1, SKILL_WEIGHT_SECONDARY_ATTRIBUTE));
    list.push((o2, SKILL_WEIGHT_SECONDARY_ATTRIBUTE));
    list.push((AttributeType::Luck, SKILL_WEIGHT_LUCK));
    assert(list@ =~= ws);
    let mut best: Option<(AttributeType, u64)> = None;
    let mut i: usize = 0;
    while i < list.len()
        invariant
            i <= list@.len(),
            list@ == ws,
            i > 0 ==> best is Some,
            spec_lowest_from(v.attribute_basis, ws, 0, None) == spec_lowest_from(
                v.attribute_basis,
                ws,
                i as nat,
                best,
            ),
        decreases list@.len() - i,
    {
        let (a, w) = list[i];
        let replace = match best {
            None => true,
            Some((ba, bw)) => lower_score(v.attribute_basis.get(a), w, v.attribute_basis.get(ba), bw),
        };
        if replace {
            best = Some((a, w));
        }
        i = i + 1;
    }
    let mut max_price: u64 = 0;
    let mut k: usize = v.shop_prices.len();
    while k > 0
        invariant
            k <= v.shop_prices@.len(),
            max_price == spec_max_price_from(v.shop_prices@, k as nat),
            max_price <= 0xFFFF_FFFF,
        decreases k,
    {
        k = k - 1;
        let p = v.shop_prices[k];
        if p != u32::MAX && (p as u64) > max_price {
            max_price = p as u64;
        }
    }
    if v.silver > SKILL_GOLD_SAFETY_MULTIPLIER * max_price {
        let (attribute, _) = best.unwrap();
        let value = v.attribute_basis.get(attribute);
        let next_attribute = if value == u32::MAX {
            0
        } else {
            value + 1
        };
        Some(SkillAction { attribute, next_attribute })
    } else {
        None
    }
}

/// The target weight of an attribute for a class.
pub open spec fn spec_weight(class: Class, a: AttributeType) -> u64 {
    if a == spec_main_attribute(class) {
        SKILL_WEIGHT_MAIN_ATTRIBUTE
    } else if a == AttributeType::Constitution {
        SKILL_WEIGHT_CONSTITUTION
    } else if a == AttributeType::Luck {
        SKILL_WEIGHT_LUCK
    } else {
        SKILL_WEIGHT_SECONDARY_ATTRIBUTE
    }
}

proof fn lemma_max_price_bound(prices: Seq<u32>, i: nat, j: int)
    requires
        i <= j < prices.len(),
        prices[j] != u32::MAX,
    ensures
        spec_max_price_from(prices, i) >= prices[j],
    decreases prices.len() - i,
{
    if i < j {
        lemma_max_price_bound(prices, i + 1, j);
    }
}

/// Attribute upgrades are bought only while the silver exceeds
/// `SKILL_GOLD_SAFETY_MULTIPLIER` times the price of every item on offer.
pub proof fn law_skill_keeps_silver_buffer(v: SkillView, j: int)
    requires
        spec_skill_next(v) is Some,
        0 <= j < v.shop_prices@.len(),
        v.shop_prices@[j] != u32::MAX,
    ensures
        v.silver > SKILL_GOLD_SAFETY_MULTIPLIER * v.shop_prices@[j],
{
    lemma_max_price_bound(v.shop_prices@, 0, j);
}

proof fn lemma_ratio_transitive(y: int, wy: int, b: int, wb: int, x: int, wx: int)
    by (nonlinear_arith)
    requires
        wb > 0,
        wy >= 0,
        wx >= 0,
        y * wb >= b * wy,
        x * wb <= b * wx,
    ensures
        y * wx >= x * wy,
{
    assert(y * wb * wx >= b * wy * wx);
    assert(b * wx * wy >= x * wb * wy);
    assert(y * wx * wb >= x * wy * wb);
}

/// What the walk keeps: the kept attribute is an attribute of the list or
/// the one it started with, and none seen is further below its target.
proof fn lemma_lowest_from(basis: Attributes, ws: Seq<(AttributeType, u64)>, i: nat, best: Option<(AttributeType, u64)>)
    requires
        forall|k: int| 0 <= k < ws.len() ==> #[trigger] ws[k].1 > 0,
        best matches Some((_, bw)) ==> bw > 0,
    ensures
        (best is Some || i < ws.len()) ==> spec_lowest_from(basis, ws, i, best) is Some,
        spec_lowest_from(basis, ws, i, best) matches Some((ra, rw)) ==> {
            &&& (Some((ra, rw)) == best || exists|k: int| i <= k < ws.len() && ws[k] == (ra, rw))
            &&& forall|k: int|
                i <= k < ws.len() ==> !spec_lower_score(basis.spec_get(#[trigger] ws[k].0), ws[k].1, basis.spec_get(ra), rw)
            &&& best matches Some((ba, bw)) ==> !spec_lower_score(basis.spec_get(ba), bw, basis.spec_get(ra), rw)
        },
    decreases ws.len() - i,
{
    if i < ws.len() {
        let (a, w) = ws[i as int];
        assert(ws[i as int].1 > 0);
        let keep = match best {
            Some((ba, bw)) => !spec_lower_score(basis.spec_get(a), w, basis.spec_get(ba), bw),
            None => false,
        };
        if keep {
            let (ba, bw) = best.unwrap();
            lemma_lowest_from(basis, ws, i + 1, best);
            let (ra, rw) = spec_lowest_from(basis, ws, i, best).unwrap();
            if Some((ra, rw)) != best {
                let k0 = choose|k: int| i + 1 <= k < ws.len() && ws[k] == (ra, rw);
                assert(ws[k0].1 > 0);
                lemma_ratio_transitive(
                    basis.spec_get(a) as int,
                    w as int,
                    basis.spec_get(ba) as int,
                    bw as int,
                    basis.spec_get(ra) as int,
                    rw as int,
                );
            }
        } else {
            lemma_lowest_from(basis, ws, i + 1, Some((a, w)));
            let (ra, rw) = spec_lowest_from(basis, ws, i, best).unwrap();
            if best is Some && (ra, rw) != (a, w) {
                let (ba, bw) = best.unwrap();
                let k0 = choose|k: int| i + 1 <= k < ws.len() && ws[k] == (ra, rw);
                assert(ws[k0].1 > 0);
                lemma_ratio_transitive(
                    basis.spec_get(ba) as int,
                    bw as int,
                    basis.spec_get(a) as int,
                    w as int,
                    basis.spec_get(ra) as int,
                    rw as int,
                );
            }
        }
    }
}

/// The attribute raised is one furthest below its target weight: no
/// attribute has a lower value for its weight (`value / weight`, compared
/// by cross-multiplication) than it.
pub proof fn law_skill_raises_lowest(v: SkillView, other: AttributeType)
    requires
        spec_skill_next(v) is Some,
    ensures
        ({
            let chosen = spec_skill_next(v).unwrap().attribute;
            !spec_lower_score(
                v.attribute_basis.spec_get(other),
                spec_weight(v.class, other),
                v.attribute_basis.spec_get(chosen),
                spec_weight(v.class, chosen),
            )
        }),
{
    let ws = spec_weighted(v.class);
    let basis = v.attribute_basis;
    lemma_lowest_from(basis, ws, 0, None);
    let (ra, rw) = spec_lowest_from(basis, ws, 0, None).unwrap();
    let k0 = choose|k: int| 0 <= k < ws.len() && ws[k] == (ra, rw);
    assert(ws[k0].1 == spec_weight(v.class, ws[k0].0));
    let main = spec_main_attribute(v.class);
    let k1: int = if other == main {
        0
    } else if other == AttributeType::Constitution {
        1
    } else if other == AttributeType::Luck {
        4
    } else if other == spec_secondaries(main).0 {
        2
    } else {
        3
    };
    assert(ws[k1].0 == other);
    assert(ws[k1].1 == spec_weight(v.class, other));
}

} // verus!
