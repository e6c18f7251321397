//! The shops: buying potions worth drinking, hourglasses and equipment
//! worth wearing.

use vstd::prelude::*;

use crate::inventory::{is_equippable, spec_is_equippable, POTION_FULL_SECS};
use crate::model::{
    free_slot, main_attribute, potion_of, spec_first_free_from, spec_main_attribute, spec_potion_of, Gear,
    Item, ItemKind, Potion, PotionType,
};

verus! {

/// What the shop routine reads of the game.
#[derive(Debug, Clone)]
pub struct ShopView {
    pub gear: Gear,
    pub silver: u64,
    pub active_potions: Vec<Option<Potion>>,
    pub bag: Vec<Option<Item>>,
    /// The offer of each shop, in the game's order.
    pub shops: Vec<Vec<Item>>,
    /// The current second since the Unix epoch.
    pub now_secs: i64,
}

/// A purchase: the shop, the place in it, and the bag place it goes to.
#[derive(Debug, Clone, Copy, PartialEq, Eq, Structural)]
pub struct ShopAction {
    pub shop: usize,
    pub pos: usize,
    pub new_pos: usize,
}

/// The first active potion of a kind, from place `i` on.
pub open spec fn spec_active_from(actives: Seq<Option<Potion>>, typ: PotionType, i: nat) -> Option<Potion>
    decreases actives.len() - i,
{
    if i >= actives.len() {
        None
    } else if actives[i as int] matches Some(a) && a.typ == typ {
        actives[i as int]
    } else {
        spec_active_from(actives, typ, i + 1)
    }
}

/// A potion worth buying: of the main attribute, constitution or the
/// winged bottle, and larger than the active one of its kind, or as large
/// when that one runs out within twelve days, or with none active.
pub open spec fn spec_potion_worth_buying(v: ShopView, p: Potion) -> bool {
    let wanted = p.typ == spec_potion_of(spec_main_attribute(v.gear.class)) || p.typ == PotionType::Constitution
        || p.typ == PotionType::EternalLife;
    wanted && match spec_active_from(v.active_potions@, p.typ, 0) {
        None => true,
        Some(a) => a.size < p.size || (a.size == p.size && !(a.expires_secs matches Some(e) && e - v.now_secs
            >= POTION_FULL_SECS)),
    }
}

/// An item worth buying when it is paid in silver only and the silver
/// pays it: a potion worth buying, an hourglass, or equipment the character
/// or a companion should wear.
pub open spec fn spec_worth_buying(v: ShopView, item: Item) -> bool {
    v.silver >= item.price && item.mushroom_price == 0 && ((item.kind matches ItemKind::Potion(p)
        && spec_potion_worth_buying(v, p)) || item.kind == ItemKind::QuickSandGlass || spec_is_equippable(
        v.gear,
        item,
    ))
}

/// The first item worth buying in shop `s`, from place `j` on.
pub open spec fn spec_in_shop(v: ShopView, s: nat, j: nat) -> Option<nat>
    decreases v.shops@[s as int]@.len() - j,
{
    if j >= v.shops@[s as int]@.len() {
        None
    } else if spec_worth_buying(v, v.shops@[s as int]@[j as int]) {
        Some(j)
    } else {
        spec_in_shop(v, s, j + 1)
    }
}

/// The first purchase, from shop `s` on.
pub open spec fn spec_shops_from(v: ShopView, s: nat) -> Option<(nat, nat)>
    decreases v.shops@.len() - s,
{
    if s >= v.shops@.len() {
        None
    } else {
        match spec_in_shop(v, s, 0) {
            Some(j) => Some((s, j)),
            None => spec_shops_from(v, s + 1),
        }
    }
}

/// The next purchase: with a free bag place, the first item of the shops
/// worth buying, into the first free place.
pub open spec fn spec_shop_next(v: ShopView) -> Option<ShopAction> {
    match spec_first_free_from(v.bag@, 0) {
        None => None,
        Some(new_pos) => match spec_shops_from(v, 0) {
            Some((s, j)) => Some(ShopAction { shop: s as usize, pos: j as usize, new_pos: new_pos as usize }),
            None => None,
        },
    }
}

fn active_of(actives: &Vec<Option<Potion>>, typ: PotionType) -> (r: Option<Potion>)
    ensures
        r == spec_active_from(actives@, typ, 0),
{
    let mut i: usize = 0;
    while i < actives.len()
        invariant
            i <= actives@.len(),
            spec_active_from(actives@, typ, 0) == spec_active_from(actives@, typ, i as nat),
        decreases actives@.len() - i,
    {
        if let Some(a) = actives[i] {
            if a.typ == typ {
                return actives[i];
            }
        }
        i = i + 1;
    }
    None
}

fn potion_worth_buying(v: &ShopView, p: Potion) -> (r: bool)
    ensures
        r == spec_potion_worth_buying(*v, p),
{
    let wanted = p.typ == potion_of(main_attribute(v.gear.class)) || p.typ == PotionType::Constitution || p.typ
        == PotionType::EternalLife;
    if !wanted {
        return false;
    }
    match active_of(&v.active_potions, p.typ) {
        None => true,
        Some(a) => {
            let full = match a.expires_secs {
                Some(e) => (e as i128) - (v.now_secs as i128) >= POTION_FULL_SECS as i128,
                None => false,
            };
            a.size < p.size || (a.size == p.size && !full)
        },
    }
}

fn worth_buying(v: &ShopView, item: &Item) -> (r: bool)
    ensures
        r == spec_worth_buying(*v, *item),
{
    if !(v.silver >= item.price as u64 && item.mushroom_price == 0) {
        return false;
    }
    if let ItemKind::Potion(p) = item.kind {
        if potion_worth_buying(v, p) {
            return true;
        }
    }
    item.kind == ItemKind::QuickSandGlass || is_equippable(&v.gear, item)
}

/// The next purchase.
#[verifier::loop_isolation(false)]
pub fn shop_next(v: &ShopView) -> (r: Option<ShopAction>)
    ensures
        r == spec_shop_next(*v),
{
    let new_pos = match free_slot(&v.bag) {
        None => {
            return None;
        },
        Some(p) => p,
    };
    let mut s: usize = 0;
    while s < v.shops.len()
        invariant
            s <= v.shops@.len(),
            spec_shops_from(*v, 0) == spec_shops_from(*v, s as nat),
        decreases v.shops@.len() - s,
    {
        let shop = &v.shops[s];
        let mut j: usize = 0;
        while j < shop.len()
            invariant
                s < v.shops@.len(),
                shop == v.shops@[s as int],
                j <= shop@.len(),
                spec_in_shop(*v, s as nat, 0) == spec_in_shop(*v, s as nat, j as nat),
            decreases shop@.len() - j,
        {
            if worth_buying(v, &shop[j]) {
                return Some(ShopAction { shop: s, pos: j, new_pos });
            }
            j = j + 1;
        }
        s = s + 1;
    }
    None
}

proof fn lemma_first_free(bag: Seq<Option<Item>>, i: int)
    requires
        0 <= i,
    ensures
        spec_first_free_from(bag, i) matches Some(p) ==> i <= p < bag.len() && bag[p] is None,
    decreases bag.len() - i,
{
    if i < bag.len() {
        lemma_first_free(bag, i + 1);
    }
}

proof fn lemma_in_shop(v: ShopView, s: nat, j: nat)
    requires
        s < v.shops@.len(),
    ensures
        spec_in_shop(v, s, j) matches Some(k) ==> k < v.shops@[s as int]@.len() && spec_worth_buying(
            v,
            v.shops@[s as int]@[k as int],
        ),
    decreases v.shops@[s as int]@.len() - j,
{
    if j < v.shops@[s as int]@.len() {
        lemma_in_shop(v, s, j + 1);
    }
}

proof fn lemma_shops_from(v: ShopView, s: nat)
    ensures
        spec_shops_from(v, s) matches Some((t, k)) ==> t < v.shops@.len() && k < v.shops@[t as int]@.len()
            && spec_worth_buying(v, v.shops@[t as int]@[k as int]),
    decreases v.shops@.len() - s,
{
    if s < v.shops@.len() {
        lemma_in_shop(v, s, 0);
        lemma_shops_from(v, s + 1);
    }
}

/// A purchase is paid in silver only, with silver the character has, and
/// goes to an empty bag place.
pub proof fn law_shop_buys_affordable(v: ShopView)
    requires
        spec_shop_next(v) is Some,
    ensures
        ({
            let a = spec_shop_next(v).unwrap();
            &&& a.shop < v.shops@.len()
            &&& a.pos < v.shops@[a.shop as int]@.len()
            &&& v.shops@[a.shop as int]@[a.pos as int].price <= v.silver
            &&& v.shops@[a.shop as int]@[a.pos as int].mushroom_price == 0
            &&& a.new_pos < v.bag@.len()
            &&& v.bag@[a.new_pos as int] is None
        }),
{
    lemma_first_free(v.bag@, 0);
    lemma_shops_from(v, 0);
    assert(v.bag.len() == v.bag@.len());
    assert(v.shops.len() == v.shops@.len());
    let (t, k) = spec_shops_from(v, 0).unwrap();
    assert(v.shops@[t as int].len() == v.shops@[t as int]@.len());
}

proof fn lemma_free_place_found(bag: Seq<Option<Item>>, i: int, k: int)
    requires
        0 <= i <= k < bag.len(),
        bag[k] is None,
    ensures
        spec_first_free_from(bag, i) is Some,
    decreases k - i,
{
    if bag[i] is Some {
        lemma_free_place_found(bag, i + 1, k);
    }
}

proof fn lemma_active_smaller(actives: Seq<Option<Potion>>, p: Potion, i: nat)
    requires
        forall|k: int|
            0 <= k < actives.len() ==> (#[trigger] actives[k] matches Some(a) ==> (a.typ == p.typ ==> a.size < p.size)),
    ensures
        spec_active_from(actives, p.typ, i) matches Some(a) ==> a.size < p.size,
    decreases actives.len() - i,
{
    if i < actives.len() {
        lemma_active_smaller(actives, p, i + 1);
    }
}

proof fn lemma_in_shop_reaches(v: ShopView, s: nat, j: nat, target: nat)
    requires
        s < v.shops@.len(),
        j <= target < v.shops@[s as int]@.len(),
        spec_worth_buying(v, v.shops@[s as int]@[target as int]),
    ensures
        spec_in_shop(v, s, j) matches Some(k) && k <= target,
    decreases target - j,
{
    if j < target && !spec_worth_buying(v, v.shops@[s as int]@[j as int]) {
        lemma_in_shop_reaches(v, s, j + 1, target);
    }
}

proof fn lemma_shops_from_reaches(v: ShopView, s: nat, target_shop: nat, target_pos: nat)
    requires
        s <= target_shop < v.shops@.len(),
        target_pos < v.shops@[target_shop as int]@.len(),
        spec_worth_buying(v, v.shops@[target_shop as int]@[target_pos as int]),
    ensures
        spec_shops_from(v, s) matches Some((t, k)) && (t < target_shop || (t == target_shop && k <= target_pos)),
    decreases target_shop - s,
{
    if s == target_shop {
        lemma_in_shop_reaches(v, s, 0, target_pos);
    } else if spec_in_shop(v, s, 0) is None {
        lemma_shops_from_reaches(v, s + 1, target_shop, target_pos);
    }
}

/// A potion of the main attribute, of constitution or the winged bottle,
/// offered for silver the character has, larger than every active potion
/// of its kind (in particular with none active), is bought as soon as the
/// bag has a free place: the purchase is that potion or one offered before
/// it.
pub proof fn law_shop_buys_missing_potion(v: ShopView, s: nat, j: nat)
    requires
        s < v.shops@.len(),
        j < v.shops@[s as int]@.len(),
        v.shops@[s as int]@[j as int].kind matches ItemKind::Potion(p) && (p.typ == spec_potion_of(
            spec_main_attribute(v.gear.class),
        ) || p.typ == PotionType::Constitution || p.typ == PotionType::EternalLife) && forall|k: int|
            0 <= k < v.active_potions@.len() ==> (#[trigger] v.active_potions@[k] matches Some(a) ==> (a.typ
                == p.typ ==> a.size < p.size)),
        v.shops@[s as int]@[j as int].price <= v.silver,
        v.shops@[s as int]@[j as int].mushroom_price == 0,
        exists|k: int| 0 <= k < v.bag@.len() && v.bag@[k] is None,
    ensures
        spec_shop_next(v) matches Some(a) && (a.shop < s || (a.shop == s && a.pos <= j)),
{
    let item = v.shops@[s as int]@[j as int];
    let p = item.kind->Potion_0;
    lemma_active_smaller(v.active_potions@, p, 0);
    assert(spec_worth_buying(v, item));
    let k = choose|k: int| 0 <= k < v.bag@.len() && v.bag@[k] is None;
    lemma_free_place_found(v.bag@, 0, k);
    lemma_shops_from_reaches(v, 0, s, j);
}

} // verus!
