//! Pets: feeding fruit and fighting in the habitats.

use vstd::prelude::*;

use crate::model::SECOND_NANOS;

verus! {

/// A pet habitat, in the game's order.
#[derive(Debug, Clone, Copy, PartialEq, Eq, Structural)]
pub enum HabitatType {
    Shadow,
    Light,
    Earth,
    Fire,
    Water,
}

pub open spec fn spec_habitat_at(i: int) -> HabitatType {
    if i == 0 {
        HabitatType::Shadow
    } else if i == 1 {
        HabitatType::Light
    } else if i == 2 {
        HabitatType::Earth
    } else if i == 3 {
        HabitatType::Fire
    } else {
        HabitatType::Water
    }
}

fn habitat_at(i: usize) -> (r: HabitatType)
    ensures
        r == spec_habitat_at(i as int),
{
    if i == 0 {
        HabitatType::Shadow
    } else if i == 1 {
        HabitatType::Light
    } else if i == 2 {
        HabitatType::Earth
    } else if i == 3 {
        HabitatType::Fire
    } else {
        HabitatType::Water
    }
}

/// A pet.
#[derive(Debug, Clone, Copy, PartialEq, Eq, Structural)]
pub struct PetView {
    pub id: u32,
    pub level: u16,
    pub fruits_today: u16,
}

/// A habitat: its fruit, its pets, and while it is being explored the
/// fights won and the level of the next opponent.
#[derive(Debug, Clone)]
pub struct HabitatView {
    pub fruits: u16,
    pub exploring: Option<(u32, u16)>,
    pub pets: Vec<PetView>,
}

/// What the pet routine reads of the game.
#[derive(Debug, Clone)]
pub struct PetsView {
    /// The habitats in the game's order.
    pub habitats: Vec<HabitatView>,
    pub next_free_exploration: Option<i64>,
    pub now: i64,
}

/// The next step with the pets.
#[derive(Debug, Clone, Copy, PartialEq, Eq, Structural)]
pub enum PetsAction {
    Feed { pet_id: u32, total_fruit_count: u32 },
    Fight { habitat: HabitatType, enemy_pos: u32, player_pet_id: u32 },
}

/// The fruit of the first `n` habitats.
pub open spec fn spec_total_fruits(hs: Seq<HabitatView>, n: nat) -> int
    decreases n,
{
    if n == 0 || n > hs.len() {
        0
    } else {
        spec_total_fruits(hs, (n - 1) as nat) + hs[n - 1].fruits
    }
}

/// A pet that may still be fed today: hatched, below level 100, fed fewer
/// than three times.
pub open spec fn spec_hungry(p: PetView) -> bool {
    p.level > 0 && p.level < 100 && p.fruits_today < 3
}

/// Walks pets from `j` on and keeps the first hungry pet of the highest level.
pub open spec fn spec_feed_in(pets: Seq<PetView>, j: nat, best: Option<PetView>) -> Option<PetView>
    decreases pets.len() - j,
{
    if j >= pets.len() {
        best
    } else if spec_hungry(pets[j as int]) && (best matches Some(b) ==> pets[j as int].level > b.level) {
        spec_feed_in(pets, j + 1, Some(pets[j as int]))
    } else {
        spec_feed_in(pets, j + 1, best)
    }
}

/// Walks habitats with fruit from `i` on, continuing the search for the
/// pet to feed.
pub open spec fn spec_feed_from(hs: Seq<HabitatView>, i: nat, best: Option<PetView>) -> Option<PetView>
    decreases hs.len() - i,
{
    if i >= hs.len() {
        best
    } else if hs[i as int].fruits == 0 {
        spec_feed_from(hs, i + 1, best)
    } else {
        spec_feed_from(hs, i + 1, spec_feed_in(hs[i as int].pets@, 0, best))
    }
}

/// Walks pets from `j` on and keeps the last hatched pet of the highest level.
pub open spec fn spec_strongest(pets: Seq<PetView>, j: nat, best: Option<PetView>) -> Option<PetView>
    decreases pets.len() - j,
{
    if j >= pets.len() {
        best
    } else if pets[j as int].level > 0 && (best matches Some(b) ==> pets[j as int].level >= b.level) {
        spec_strongest(pets, j + 1, Some(pets[j as int]))
    } else {
        spec_strongest(pets, j + 1, best)
    }
}

/// The enemy after `won` fights won.
pub open spec fn spec_next_enemy(won: u32) -> u32 {
    if won == u32::MAX {
        0
    } else {
        (won + 1) as u32
    }
}

/// Walks habitats from `i` on and keeps the first explored habitat with
/// the weakest next opponent that has a hatched pet, with its strongest pet.
pub open spec fn spec_fight_from(hs: Seq<HabitatView>, i: nat, best: Option<(u16, u32, HabitatType, PetView)>) -> Option<
    (u16, u32, HabitatType, PetView),
>
    decreases hs.len() - i,
{
    if i >= hs.len() {
        best
    } else {
        match hs[i as int].exploring {
            Some((won, next_lvl)) => match spec_strongest(hs[i as int].pets@, 0, None) {
                Some(pet) => if (best matches Some((bl, _, _, _)) ==> next_lvl < bl) {
                    spec_fight_from(hs, i + 1, Some((next_lvl, spec_next_enemy(won), spec_habitat_at(i as int), pet)))
                } else {
                    spec_fight_from(hs, i + 1, best)
                },
                None => spec_fight_from(hs, i + 1, best),
            },
            None => spec_fight_from(hs, i + 1, best),
        }
    }
}

/// The next step with the pets: with fruit in any habitat, feed the
/// highest-level pet that may still eat (from habitats with fruit); else,
/// once the free exploration is due (five seconds after its time), fight in
/// the explored habitat with the weakest next opponent, with its strongest
/// pet.
pub open spec fn spec_pets_next(v: PetsView) -> Option<PetsAction> {
    let total = spec_total_fruits(v.habitats@, v.habitats@.len());
    if total > 0 && spec_feed_from(v.habitats@, 0, None) is Some {
        Some(
            PetsAction::Feed {
                pet_id: spec_feed_from(v.habitats@, 0, None).unwrap().id,
                total_fruit_count: #[verifier::truncate] (total as u32),
            },
        )
    } else if v.next_free_exploration matches Some(n) && v.now < n + 5 * SECOND_NANOS {
        None
    } else {
        match spec_fight_from(v.habitats@, 0, None) {
            Some((_, enemy_pos, habitat, pet)) => Some(
                PetsAction::Fight { habitat, enemy_pos, player_pet_id: pet.id },
            ),
            None => None,
        }
    }
}

fn feed_in(pets: &Vec<PetView>, start: Option<PetView>) -> (r: Option<PetView>)
    ensures
        r == spec_feed_in(pets@, 0, start),
{
    let mut best = start;
    let mut j: usize = 0;
    while j < pets.len()
        invariant
            j <= pets@.len(),
            spec_feed_in(pets@, 0, start) == spec_feed_in(pets@, j as nat, best),
        decreases pets@.len() - j,
    {
        let p = pets[j];
        let better = match best {
            Some(b) => p.level > b.level,
            None => true,
        };
        if p.level > 0 && p.level < 100 && p.fruits_today < 3 && better {
            best = Some(p);
        }
        j = j + 1;
    }
    best
}

fn strongest(pets: &Vec<PetView>) -> (r: Option<PetView>)
    ensures
        r == spec_strongest(pets@, 0, None),
{
    let mut best: Option<PetView> = None;
    let mut j: usize = 0;
    while j < pets.len()
        invariant
            j <= pets@.len(),
            spec_strongest(pets@, 0, None) == spec_strongest(pets@, j as nat, best),
        decreases pets@.len() - j,
    {
        let p = pets[j];
        let better = match best {
            Some(b) => p.level >= b.level,
            None => true,
        };
        if p.level > 0 && better {
            best = Some(p);
        }
        j = j + 1;
    }
    best
}

/// The next step with the pets.
pub fn pets_next(v: &PetsView) -> (r: Option<PetsAction>)
    ensures
        r == spec_pets_next(*v),
{
    let hs = &v.habitats;
    let mut total: u128 = 0;
    let mut i: usize = 0;
    while i < hs.len()
        invariant
            i <= hs@.len(),
            total == spec_total_fruits(hs@, i as nat),
            total <= i * 0xFFFF,
        decreases hs@.len() - i,
    {
        total = total + hs[i].fruits as u128;
        i = i + 1;
    }
    if total > 0 {
        let mut best: Option<PetView> = None;
        let mut k: usize = 0;
        while k < hs.len()
            invariant
                k <= hs@.len(),
                spec_feed_from(hs@, 0, None) == spec_feed_from(hs@, k as nat, best),
            decreases hs@.len() - k,
        {
            if hs[k].fruits != 0 {
                best = feed_in(&hs[k].pets, best);
            }
            k = k + 1;
        }
        if let Some(p) = best {
            return Some(PetsAction::Feed { pet_id: p.id, total_fruit_count: #[verifier::truncate] (total as u32) });
        }
    }
    if let Some(n) = v.next_free_exploration {
        if (v.now as i128) < (n as i128) + 5_000_000_000i128 {
            return None;
        }
    }
    let mut best: Option<(u16, u32, HabitatType, PetView)> = None;
    let mut k: usize = 0;
    while k < hs.len()
        invariant
            k <= hs@.len(),
            spec_fight_from(hs@, 0, None) == spec_fight_from(hs@, k as nat, best),
        decreases hs@.len() - k,
    {
        if let Some((won, next_lvl)) = hs[k].exploring {
            if let Some(pet) = strongest(&hs[k].pets) {
                let better = match best {
                    Some((bl, _, _, _)) => next_lvl < bl,
                    None => true,
                };
                if better {
                    let enemy: u32 = if won == u32::MAX {
                        0
                    } else {
                        won + 1
                    };
                    best = Some((next_lvl, enemy, habitat_at(k), pet));
                }
            }
        }
        k = k + 1;
    }
    match best {
        Some((_, enemy_pos, habitat, pet)) => Some(PetsAction::Fight { habitat, enemy_pos, player_pet_id: pet.id }),
        None => None,
    }
}

proof fn lemma_feed_in(pets: Seq<PetView>, j: nat, best: Option<PetView>)
    ensures
        best is Some ==> spec_feed_in(pets, j, best) is Some,
        spec_feed_in(pets, j, best) is None ==> forall|k: int| j <= k < pets.len() ==> !spec_hungry(#[trigger] pets[k]),
        spec_feed_in(pets, j, best) matches Some(p) ==> {
            &&& (Some(p) == best || exists|k: int| j <= k < pets.len() && pets[k] == p && spec_hungry(p))
            &&& forall|k: int| j <= k < pets.len() && spec_hungry(#[trigger] pets[k]) ==> pets[k].level <= p.level
            &&& best matches Some(b) ==> b.level <= p.level
        },
    decreases pets.len() - j,
{
    if j < pets.len() {
        if spec_hungry(pets[j as int]) && (best matches Some(b) ==> pets[j as int].level > b.level) {
            lemma_feed_in(pets, j + 1, Some(pets[j as int]));
        } else {
            lemma_feed_in(pets, j + 1, best);
        }
    }
}

/// Whether a pet may be fed: it is hungry and its habitat has fruit.
pub open spec fn spec_feedable(hs: Seq<HabitatView>, a: int, k: int) -> bool {
    0 <= a < hs.len() && hs[a].fruits > 0 && 0 <= k < hs[a].pets@.len() && spec_hungry(hs[a].pets@[k])
}

proof fn lemma_feed_from(hs: Seq<HabitatView>, i: nat, best: Option<PetView>)
    ensures
        spec_feed_from(hs, i, best) matches Some(p) ==> {
            &&& (Some(p) == best || exists|a: int, k: int|
                i <= a && spec_feedable(hs, a, k) && hs[a].pets@[k] == p)
            &&& forall|a: int, k: int|
                i <= a && #[trigger] spec_feedable(hs, a, k) ==> hs[a].pets@[k].level <= p.level
            &&& best matches Some(b) ==> b.level <= p.level
        },
    decreases hs.len() - i,
{
    if i < hs.len() {
        if hs[i as int].fruits == 0 {
            lemma_feed_from(hs, i + 1, best);
        } else {
            let pets = hs[i as int].pets@;
            let mid = spec_feed_in(pets, 0, best);
            lemma_feed_in(pets, 0, best);
            lemma_feed_from(hs, i + 1, mid);
            let r = spec_feed_from(hs, i, best);
            if r is Some {
                let p = r.unwrap();
                if mid is Some {
                    assert(mid.unwrap().level <= p.level);
                }
                assert forall|a: int, k: int| i <= a && #[trigger] spec_feedable(hs, a, k) implies hs[a].pets@[k].level
                    <= p.level by {
                    if a == i {
                        assert(spec_hungry(pets[k]));
                    }
                }
                if r != best && !(exists|a: int, k: int|
                    i + 1 <= a && spec_feedable(hs, a, k) && hs[a].pets@[k] == p) {
                    assert(r == mid);
                    if mid != best {
                        let k = choose|k: int| 0 <= k < pets.len() && pets[k] == p && spec_hungry(p);
                        assert(spec_feedable(hs, i as int, k));
                    }
                }
            }
        }
    }
}

/// The pet fed is a hungry pet (below level 100, fewer than three fruits
/// today) of a habitat with fruit, and no such pet has a higher level.
pub proof fn law_pets_feed_highest_hungry(v: PetsView)
    requires
        spec_pets_next(v) matches Some(PetsAction::Feed { .. }),
    ensures
        ({
            let id = spec_pets_next(v).unwrap()->Feed_pet_id;
            exists|a: int, k: int|
                #![trigger spec_feedable(v.habitats@, a, k)]
                spec_feedable(v.habitats@, a, k) && v.habitats@[a].pets@[k].id == id && forall|b: int, m: int|
                    #[trigger] spec_feedable(v.habitats@, b, m) ==> v.habitats@[b].pets@[m].level
                        <= v.habitats@[a].pets@[k].level
        }),
{
    lemma_feed_from(v.habitats@, 0, None);
}

proof fn lemma_strongest(pets: Seq<PetView>, j: nat, best: Option<PetView>)
    requires
        best matches Some(b) ==> b.level > 0,
    ensures
        best is Some ==> spec_strongest(pets, j, best) is Some,
        spec_strongest(pets, j, best) matches Some(p) ==> {
            &&& p.level > 0
            &&& (Some(p) == best || exists|k: int| j <= k < pets.len() && pets[k] == p)
            &&& forall|k: int| j <= k < pets.len() ==> (#[trigger] pets[k]).level <= p.level
            &&& best matches Some(b) ==> b.level <= p.level
        },
    decreases pets.len() - j,
{
    if j < pets.len() {
        if pets[j as int].level > 0 && (best matches Some(b) ==> pets[j as int].level >= b.level) {
            lemma_strongest(pets, j + 1, Some(pets[j as int]));
        } else {
            lemma_strongest(pets, j + 1, best);
        }
    }
}

/// Whether a habitat can be fought in: it is being explored and has a pet
/// above level 0.
pub open spec fn spec_can_fight(hs: Seq<HabitatView>, b: int) -> bool {
    0 <= b < hs.len() && hs[b].exploring is Some && spec_strongest(hs[b].pets@, 0, None) is Some
}

proof fn lemma_fight_from(hs: Seq<HabitatView>, i: nat, best: Option<(u16, u32, HabitatType, PetView)>)
    ensures
        spec_fight_from(hs, i, best) matches Some((l, e, h, p)) ==> {
            &&& (Some((l, e, h, p)) == best || exists|a: int|
                i <= a && #[trigger] spec_can_fight(hs, a) && hs[a].exploring.unwrap().1 == l && e
                    == spec_next_enemy(hs[a].exploring.unwrap().0) && h == spec_habitat_at(a) && p == spec_strongest(
                    hs[a].pets@,
                    0,
                    None,
                ).unwrap())
            &&& forall|b: int| i <= b && #[trigger] spec_can_fight(hs, b) ==> hs[b].exploring.unwrap().1 >= l
            &&& best matches Some((bl, _, _, _)) ==> bl >= l
        },
    decreases hs.len() - i,
{
    if i < hs.len() {
        let r = spec_fight_from(hs, i, best);
        match hs[i as int].exploring {
            Some((won, next_lvl)) => match spec_strongest(hs[i as int].pets@, 0, None) {
                Some(pet) => if (best matches Some((bl, _, _, _)) ==> next_lvl < bl) {
                    let nb = Some((next_lvl, spec_next_enemy(won), spec_habitat_at(i as int), pet));
                    lemma_fight_from(hs, i + 1, nb);
                    if r == nb {
                        assert(spec_can_fight(hs, i as int));
                    }
                } else {
                    lemma_fight_from(hs, i + 1, best);
                },
                None => lemma_fight_from(hs, i + 1, best),
            },
            None => lemma_fight_from(hs, i + 1, best),
        }
    }
}

/// Pets fight in a habitat being explored whose next fight has the lowest
/// level among all habitats that can be fought in, against the next enemy,
/// with the strongest pet of that habitat.
pub proof fn law_pets_fight_easiest(v: PetsView)
    requires
        spec_pets_next(v) matches Some(PetsAction::Fight { .. }),
    ensures
        ({
            let a = spec_pets_next(v).unwrap();
            exists|h: int|
                #![trigger spec_can_fight(v.habitats@, h)]
                {
                    &&& spec_can_fight(v.habitats@, h)
                    &&& a->Fight_habitat == spec_habitat_at(h)
                    &&& a->Fight_enemy_pos == spec_next_enemy(v.habitats@[h].exploring.unwrap().0)
                    &&& exists|k: int|
                        0 <= k < v.habitats@[h].pets@.len() && v.habitats@[h].pets@[k].id == a->Fight_player_pet_id
                            && v.habitats@[h].pets@[k].level > 0 && forall|m: int|
                            0 <= m < v.habitats@[h].pets@.len() ==> #[trigger] v.habitats@[h].pets@[m].level
                                <= v.habitats@[h].pets@[k].level
                    &&& forall|b: int|
                        #[trigger] spec_can_fight(v.habitats@, b) ==> v.habitats@[b].exploring.unwrap().1
                            >= v.habitats@[h].exploring.unwrap().1
                }
        }),
{
    lemma_fight_from(v.habitats@, 0, None);
    let (l, e, hab, p) = spec_fight_from(v.habitats@, 0, None).unwrap();
    let h = choose|a: int|
        0 <= a && #[trigger] spec_can_fight(v.habitats@, a) && v.habitats@[a].exploring.unwrap().1 == l && e
            == spec_next_enemy(v.habitats@[a].exploring.unwrap().0) && hab == spec_habitat_at(a) && p
            == spec_strongest(v.habitats@[a].pets@, 0, None).unwrap();
    lemma_strongest(v.habitats@[h].pets@, 0, None);
}

} // verus!
