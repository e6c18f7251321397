//! The arena: looking up the offered opponents and fighting the weakest.

use vstd::prelude::*;

use crate::model::SECOND_NANOS;

verus! {

/// An opponent offered by the arena: its player id and, once the bot has
/// looked at it, its name and level.
#[derive(Debug, Clone)]
pub struct ArenaEnemy {
    pub id: u32,
    pub known: Option<(String, u16)>,
}

/// What the arena routine reads of the game.
#[derive(Debug, Clone)]
pub struct ArenaView {
    pub fights_for_xp: u8,
    pub next_free_fight: Option<i64>,
    pub enemies: Vec<ArenaEnemy>,
    pub now: i64,
}

/// The next step in the arena.
#[derive(Debug, Clone, PartialEq, Eq)]
pub enum ArenaAction {
    ViewPlayer { id: u32 },
    Fight { name: String },
}

/// The arena gives experience for ten fights a day; a free fight is due five
/// seconds after its time.
pub open spec fn spec_arena_due(v: ArenaView) -> bool {
    v.fights_for_xp < 10 && !(v.next_free_fight matches Some(n) && v.now < n + 5 * SECOND_NANOS)
}

/// Whether the arena has a fight due.
pub fn arena_due(v: &ArenaView) -> (r: bool)
    ensures
        r == spec_arena_due(*v),
{
    if v.fights_for_xp >= 10 {
        return false;
    }
    match v.next_free_fight {
        Some(n) => !((v.now as i128) < (n as i128) + 5_000_000_000i128),
        None => true,
    }
}

/// The first offered opponent, from position `i` on, that has not been
/// looked at yet (id 0 marks an empty place).
pub open spec fn spec_missing_from(es: Seq<ArenaEnemy>, viewed: Seq<u32>, i: nat) -> Option<u32>
    decreases es.len() - i,
{
    if i >= es.len() {
        None
    } else {
        let e = es[i as int];
        if e.id != 0 && !viewed.contains(e.id) && e.known is None {
            Some(e.id)
        } else {
            spec_missing_from(es, viewed, i + 1)
        }
    }
}

/// Walks the looked-up opponents from `i` on and keeps the first one of
/// the lowest level.
pub open spec fn spec_weakest_from(es: Seq<ArenaEnemy>, i: nat, best: Option<(String, u16)>) -> Option<(String, u16)>
    decreases es.len() - i,
{
    if i >= es.len() {
        best
    } else {
        let e = es[i as int];
        if e.id != 0 && e.known is Some && (best matches Some((_, l)) ==> e.known.unwrap().1 < l) {
            spec_weakest_from(es, i + 1, e.known)
        } else {
            spec_weakest_from(es, i + 1, best)
        }
    }
}

/// The next step in the arena, given the players looked at already: when a
/// fight is due, look at the first opponent not known yet (unless already
/// looked at), else fight the known opponent of the lowest level.
pub open spec fn spec_arena_next(v: ArenaView, viewed: Seq<u32>) -> Option<ArenaAction> {
    if !spec_arena_due(v) {
        None
    } else {
        match spec_missing_from(v.enemies@, viewed, 0) {
            Some(id) => Some(ArenaAction::ViewPlayer { id }),
            None => match spec_weakest_from(v.enemies@, 0, None) {
                Some((name, _)) => Some(ArenaAction::Fight { name }),
                None => None,
            },
        }
    }
}

fn contains(viewed: &Vec<u32>, id: u32) -> (r: bool)
    ensures
        r == viewed@.contains(id),
{
    let mut i: usize = 0;
    while i < viewed.len()
        invariant
            i <= viewed@.len(),
            forall|k: int| 0 <= k < i ==> viewed@[k] != id,
        decreases viewed@.len() - i,
    {
        if viewed[i] == id {
            assert(viewed@[i as int] == id);
            return true;
        }
        i = i + 1;
    }
    false
}

/// The next step in the arena, given the players looked at already.
#[verifier::loop_isolation(false)]
pub fn arena_next(v: &ArenaView, viewed: &Vec<u32>) -> (r: Option<ArenaAction>)
    ensures
        r == spec_arena_next(*v, viewed@),
{
    if !arena_due(v) {
        return None;
    }
    let es = &v.enemies;
    let mut i: usize = 0;
    while i < es.len()
        invariant
            i <= es@.len(),
            spec_missing_from(es@, viewed@, 0) == spec_missing_from(es@, viewed@, i as nat),
        decreases es@.len() - i,
    {
        let e = &es[i];
        if e.id != 0 && !contains(viewed, e.id) && e.known.is_none() {
            return Some(ArenaAction::ViewPlayer { id: e.id });
        }
        i = i + 1;
    }
    let mut best: Option<usize> = None;
    let mut k: usize = 0;
    while k < es.len()
        invariant
            k <= es@.len(),
            best matches Some(b) ==> b < es@.len() && es@[b as int].known is Some,
            spec_weakest_from(es@, 0, None) == spec_weakest_from(
                es@,
                k as nat,
                match best {
                    Some(b) => es@[b as int].known,
                    None => None,
                },
            ),
        decreases es@.len() - k,
    {
        let e = &es[k];
        if e.id != 0 {
            if let Some((_, level)) = &e.known {
                let better = match best {
                    Some(b) => match &es[b].known {
                        Some((_, bl)) => *level < *bl,
                        None => true,
                    },
                    None => true,
                };
                if better {
                    best = Some(k);
                }
            }
        }
        k = k + 1;
    }
    match best {
        Some(b) => match &es[b].known {
            Some((name, _)) => Some(ArenaAction::Fight { name: name.clone() }),
            None => None,
        },
        None => None,
    }
}

proof fn lemma_weakest_from(es: Seq<ArenaEnemy>, i: nat, best: Option<(String, u16)>)
    ensures
        spec_weakest_from(es, i, best) matches Some((n, l)) ==> {
            &&& (Some((n, l)) == best || exists|k: int|
                i <= k < es.len() && es[k].id != 0 && es[k].known == Some((n, l)))
            &&& forall|k: int|
                i <= k < es.len() && #[trigger] es[k].id != 0 && es[k].known is Some ==> es[k].known.unwrap().1 >= l
            &&& best matches Some((_, bl)) ==> bl >= l
        },
    decreases es.len() - i,
{
    if i < es.len() {
        let e = es[i as int];
        if e.id != 0 && e.known is Some && (best matches Some((_, l)) ==> e.known.unwrap().1 < l) {
            lemma_weakest_from(es, i + 1, e.known);
        } else {
            lemma_weakest_from(es, i + 1, best);
        }
    }
}

/// The arena fights an opponent the bot has looked up, and one of the
/// lowest level among all looked-up opponents.
pub proof fn law_arena_fights_weakest(v: ArenaView, viewed: Seq<u32>)
    requires
        spec_arena_next(v, viewed) matches Some(ArenaAction::Fight { .. }),
    ensures
        ({
            let name = spec_arena_next(v, viewed).unwrap()->Fight_name;
            exists|k: int|
                #![trigger v.enemies@[k]]
                {
                    &&& 0 <= k < v.enemies@.len()
                    &&& v.enemies@[k].id != 0
                    &&& v.enemies@[k].known is Some
                    &&& v.enemies@[k].known.unwrap().0 == name
                    &&& forall|j: int|
                        0 <= j < v.enemies@.len() && #[trigger] v.enemies@[j].id != 0 && v.enemies@[j].known is Some
                            ==> v.enemies@[j].known.unwrap().1 >= v.enemies@[k].known.unwrap().1
                }
        }),
{
    lemma_weakest_from(v.enemies@, 0, None);
}

} // verus!
