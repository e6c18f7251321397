//! Tavern expeditions: choosing one, playing through its stages, and the
//! free beer.

use vstd::prelude::*;

use rand::Rng;

use crate::memory::NameMap;
use crate::model::{CurrentAction, Enchantment, Item};

verus! {

/// What a reward offered after an expedition's boss is.
#[derive(Debug, Clone, Copy, PartialEq, Eq, Structural)]
pub enum RewardKind {
    Mushrooms,
    /// A fruit or a fruit basket.
    Fruit,
    Other,
}

/// The stage the running expedition is in.
#[derive(Debug, Clone)]
pub enum ExpeditionStage {
    Boss,
    Rewards(Vec<RewardKind>),
    /// As many encounters to choose from.
    Encounters(usize),
    /// Waiting until an instant, also given in whole seconds.
    Waiting { busy_until: i64, busy_until_secs: i64 },
    Finished,
    Unknown,
}

/// Something special about an offered expedition.
#[derive(Debug, Clone, Copy, PartialEq, Eq, Structural)]
pub enum ExpeditionSpecial {
    Egg,
    DailyTask,
}

/// An expedition the tavern offers.
#[derive(Debug, Clone, Copy, PartialEq, Eq, Structural)]
pub struct ExpeditionTask {
    pub special: Option<ExpeditionSpecial>,
    pub thirst_for_adventure_sec: u32,
}

/// What decides whether a free beer can be had.
#[derive(Debug, Clone, Copy, PartialEq, Eq, Structural)]
pub struct BeerView {
    pub current_action: CurrentAction,
    pub beer_drunk: u8,
    pub beer_max: u8,
    pub thirst_for_adventure_sec: u32,
    /// Whether the "one beer, two beer, free beer" event runs.
    pub free_beer_event: bool,
    pub belt: Option<Item>,
}

/// What the expedition routine reads of the game.
#[derive(Debug, Clone)]
pub struct ExpeditionView {
    pub username: String,
    pub active_stage: Option<ExpeditionStage>,
    pub beer: BeerView,
    /// The offered expeditions; `None` when the tavern offers quests.
    pub available: Option<Vec<ExpeditionTask>>,
    pub now: i64,
}

/// The next step of an expedition.
#[derive(Debug, Clone, Copy, PartialEq, Eq, Structural)]
pub enum ExpeditionAction {
    Continue,
    PickReward { pos: usize },
    PickEncounter { pos: usize },
    BuyBeer,
    Start { pos: usize },
}

/// What the expedition routine reports beside its step.
#[derive(Debug, Clone, Copy, PartialEq, Eq, Structural)]
pub enum ExpeditionNote {
    Silent,
    /// A new waiting period, with the whole seconds that remain.
    Waiting { remaining_secs: i64 },
    NoExpeditions,
    EmptyList,
    /// Starting an expedition that costs this much thirst for adventure.
    Starting { thirst_secs: u32 },
    NotEnoughThirst,
}

/// When the bot last reported a waiting period, per character: the
/// waiting period's end, in whole seconds.
#[derive(Debug, Clone)]
pub struct WaitLog {
    pub waits: NameMap<i64>,
}

impl WaitLog {
    pub open spec fn wf(&self) -> bool {
        self.waits.wf()
    }

    /// Nothing reported yet.
    pub fn new() -> (r: WaitLog)
        ensures
            r.wf(),
            r.waits@ == Map::<Seq<char>, i64>::empty(),
    {
        WaitLog { waits: NameMap::new() }
    }
}

/// The waiting-period map of the log, to read or change.
pub fn get_waits_map(log: &mut WaitLog) -> (r: &mut NameMap<i64>)
    ensures
        *r == old(log).waits,
        final(log).waits == *final(r),
{
    &mut log.waits
}

/// The end of the last waiting period reported for a character, 0 if none.
pub open spec fn spec_last_wait(waits: Map<Seq<char>, i64>, username: Seq<char>) -> i64 {
    if waits.contains_key(username) {
        waits[username]
    } else {
        0
    }
}

/// The end of the last waiting period reported for a character, 0 if none.
pub fn get_last_wait(log: &WaitLog, username: &String) -> (r: i64)
    requires
        log.wf(),
    ensures
        r == spec_last_wait(log.waits@, username@),
{
    match log.waits.get(username) {
        Some(t) => t,
        None => 0,
    }
}

/// A free beer can be had while idle with beers left, thanks to the free
/// beer event or to the thirsty wanderer enchantment on the belt (for the
/// first and the eleventh beer), when the thirst for adventure stays within
/// its maximum.
pub open spec fn spec_can_drink_beer(b: BeerView) -> bool {
    let belt_free = (b.beer_drunk == 0 || b.beer_drunk == 10) && (b.belt matches Some(i) && i.enchantment
        == Some(Enchantment::ThirstyWanderer));
    b.current_action == CurrentAction::Idle && b.beer_drunk < b.beer_max && (b.free_beer_event || belt_free)
        && b.thirst_for_adventure_sec + 1200 <= 6000 + b.beer_max * 1200
}

/// Whether a free beer can be had.
pub fn can_drink_beer(b: &BeerView) -> (r: bool)
    ensures
        r == spec_can_drink_beer(*b),
{
    if b.current_action == CurrentAction::Idle && b.beer_drunk < b.beer_max {
        let event_free = b.free_beer_event;
        let mut belt_free = false;
        if b.beer_drunk == 0 || b.beer_drunk == 10 {
            belt_free = match b.belt {
                Some(i) => i.enchantment == Some(Enchantment::ThirstyWanderer),
                None => false,
            };
        }
        if event_free || belt_free {
            let max_thirst: u64 = 6000 + (b.beer_max as u64) * 1200;
            if (b.thirst_for_adventure_sec as u64) + 1200 <= max_thirst {
                return true;
            }
        }
    }
    false
}

/// The first reward of a kind, from position `i` on.
pub open spec fn spec_first_reward(rs: Seq<RewardKind>, kind: RewardKind, i: nat) -> Option<nat>
    decreases rs.len() - i,
{
    if i >= rs.len() {
        None
    } else if rs[i as int] == kind {
        Some(i)
    } else {
        spec_first_reward(rs, kind, i + 1)
    }
}

fn first_reward(rs: &Vec<RewardKind>, kind: RewardKind) -> (r: Option<usize>)
    ensures
        r matches Some(p) ==> spec_first_reward(rs@, kind, 0) == Some(p as nat),
        r is None ==> spec_first_reward(rs@, kind, 0) is None,
{
    let mut i: usize = 0;
    while i < rs.len()
        invariant
            i <= rs@.len(),
            spec_first_reward(rs@, kind, 0) == spec_first_reward(rs@, kind, i as nat),
        decreases rs@.len() - i,
    {
        if rs[i] == kind {
            return Some(i);
        }
        i = i + 1;
    }
    None
}

/// The reward picked after a boss: mushrooms, else fruit, else the first.
pub open spec fn spec_reward_pos(rs: Seq<RewardKind>) -> nat {
    match spec_first_reward(rs, RewardKind::Mushrooms, 0) {
        Some(p) => p,
        None => match spec_first_reward(rs, RewardKind::Fruit, 0) {
            Some(p) => p,
            None => 0,
        },
    }
}

/// Walks the offered expeditions from `i` on: the first with an egg wins;
/// otherwise the last with a daily task; otherwise the first.
pub open spec fn spec_task_scan(tasks: Seq<ExpeditionTask>, i: nat, pos: nat) -> nat
    decreases tasks.len() - i,
{
    if i >= tasks.len() {
        pos
    } else if tasks[i as int].special == Some(ExpeditionSpecial::Egg) {
        i
    } else if tasks[i as int].special == Some(ExpeditionSpecial::DailyTask) {
        spec_task_scan(tasks, i + 1, i)
    } else {
        spec_task_scan(tasks, i + 1, pos)
    }
}

fn task_pos(tasks: &Vec<ExpeditionTask>) -> (r: usize)
    ensures
        r == spec_task_scan(tasks@, 0, 0),
{
    let mut pos: usize = 0;
    let mut i: usize = 0;
    while i < tasks.len()
        invariant
            i <= tasks@.len(),
            spec_task_scan(tasks@, 0, 0) == spec_task_scan(tasks@, i as nat, pos as nat),
        decreases tasks@.len() - i,
    {
        if tasks[i].special == Some(ExpeditionSpecial::Egg) {
            return i;
        }
        if tasks[i].special == Some(ExpeditionSpecial::DailyTask) {
            pos = i;
        }
        i = i + 1;
    }
    pos
}

/// Whole seconds from `now` to `until`, or 0 once it has passed.
pub open spec fn spec_remaining_secs(until: i64, now: i64) -> int {
    crate::harvest::spec_elapsed_secs(now, until)
}

/// A waiting period is reported when its end differs by more than 15
/// seconds from the one last reported for the character.
pub open spec fn spec_new_wait(last: i64, until_secs: i64) -> bool {
    until_secs - last > 15 || last - until_secs > 15
}

/// The next step of an expedition, its note, and whether the waiting
/// period gets recorded, given the last reported waiting period and the
/// encounter to pick if there is a choice.
pub open spec fn spec_expedition_step(v: ExpeditionView, last_wait: i64, roll: usize) -> (
    Option<ExpeditionAction>,
    ExpeditionNote,
) {
    match v.active_stage {
        Some(ExpeditionStage::Boss) => (Some(ExpeditionAction::Continue), ExpeditionNote::Silent),
        Some(ExpeditionStage::Rewards(rs)) => (
            Some(ExpeditionAction::PickReward { pos: spec_reward_pos(rs@) as usize }),
            ExpeditionNote::Silent,
        ),
        Some(ExpeditionStage::Encounters(n)) => if n > 0 {
            (Some(ExpeditionAction::PickEncounter { pos: roll }), ExpeditionNote::Silent)
        } else {
            (None, ExpeditionNote::Silent)
        },
        Some(ExpeditionStage::Waiting { busy_until, busy_until_secs }) => if spec_new_wait(
            last_wait,
            busy_until_secs,
        ) {
            (None, ExpeditionNote::Waiting { remaining_secs: spec_remaining_secs(busy_until, v.now) as i64 })
        } else {
            (None, ExpeditionNote::Silent)
        },
        Some(_) => (None, ExpeditionNote::Silent),
        None => match v.beer.current_action {
            CurrentAction::Expedition => (Some(ExpeditionAction::Continue), ExpeditionNote::Silent),
            CurrentAction::Idle => if spec_can_drink_beer(v.beer) {
                (Some(ExpeditionAction::BuyBeer), ExpeditionNote::Silent)
            } else {
                match v.available {
                    None => (None, ExpeditionNote::NoExpeditions),
                    Some(tasks) => {
                        let pos = spec_task_scan(tasks@, 0, 0);
                        if pos >= tasks@.len() {
                            (None, ExpeditionNote::EmptyList)
                        } else if tasks@[pos as int].thirst_for_adventure_sec
                            <= v.beer.thirst_for_adventure_sec {
                            (
                                Some(ExpeditionAction::Start { pos: pos as usize }),
                                ExpeditionNote::Starting {
                                    thirst_secs: tasks@[pos as int].thirst_for_adventure_sec,
                                },
                            )
                        } else {
                            (None, ExpeditionNote::NotEnoughThirst)
                        }
                    },
                }
            },
            _ => (None, ExpeditionNote::Silent),
        },
    }
}

/// Whether the step records a new waiting period.
pub open spec fn spec_records_wait(v: ExpeditionView, last_wait: i64) -> bool {
    v.active_stage matches Some(ExpeditionStage::Waiting { busy_until_secs, .. }) && spec_new_wait(
        last_wait,
        busy_until_secs,
    )
}

/// The next step of an expedition when the encounter to pick is given:
/// continue past a boss; pick mushrooms, else fruit, else the first reward;
/// pick encounter `roll`; report a new waiting period once; continue an
/// expedition the tavern shows as running; drink a free beer; start the
/// offered expedition with an egg, else the last one with a daily task,
/// else the first, when the thirst for adventure pays for it.
pub fn expedition_step(v: &ExpeditionView, log: &mut WaitLog, roll: usize) -> (r: (
    Option<ExpeditionAction>,
    ExpeditionNote,
))
    requires
        old(log).wf(),
    ensures
        final(log).wf(),
        r == spec_expedition_step(*v, spec_last_wait(old(log).waits@, v.username@), roll),
        spec_records_wait(*v, spec_last_wait(old(log).waits@, v.username@)) ==> final(log).waits@ == old(
            log,
        ).waits@.insert(v.username@, v.active_stage.unwrap()->busy_until_secs),
        !spec_records_wait(*v, spec_last_wait(old(log).waits@, v.username@)) ==> final(log).waits@ == old(
            log,
        ).waits@,
{
    match &v.active_stage {
        Some(ExpeditionStage::Boss) => {
            return (Some(ExpeditionAction::Continue), ExpeditionNote::Silent);
        },
        Some(ExpeditionStage::Rewards(rs)) => {
            let pos = match first_reward(rs, RewardKind::Mushrooms) {
                Some(p) => p,
                None => match first_reward(rs, RewardKind::Fruit) {
                    Some(p) => p,
                    None => 0,
                },
            };
            return (Some(ExpeditionAction::PickReward { pos }), ExpeditionNote::Silent);
        },
        Some(ExpeditionStage::Encounters(n)) => {
            if *n > 0 {
                return (Some(ExpeditionAction::PickEncounter { pos: roll }), ExpeditionNote::Silent);
            }
            return (None, ExpeditionNote::Silent);
        },
        Some(ExpeditionStage::Waiting { busy_until, busy_until_secs }) => {
            let last = get_last_wait(log, &v.username);
            let d = (*busy_until_secs as i128) - (last as i128);
            if d > 15 || d < -15 {
                let waits = get_waits_map(log);
                waits.insert(&v.username, *busy_until_secs);
                let remaining = crate::harvest::elapsed_secs(v.now, *busy_until);
                assert(remaining <= 0x7FFF_FFFF_FFFF_FFFFu64) by {
                    assert(crate::harvest::spec_elapsed_secs(v.now, *busy_until) <= 0x1_0000_0000_0000_0000int
                        / 1_000_000_000);
                }
                return (None, ExpeditionNote::Waiting { remaining_secs: remaining as i64 });
            }
            return (None, ExpeditionNote::Silent);
        },
        Some(_) => {
            return (None, ExpeditionNote::Silent);
        },
        None => {},
    }
    match v.beer.current_action {
        CurrentAction::Expedition => {
            return (Some(ExpeditionAction::Continue), ExpeditionNote::Silent);
        },
        CurrentAction::Idle => {},
        _ => {
            return (None, ExpeditionNote::Silent);
        },
    }
    if can_drink_beer(&v.beer) {
        return (Some(ExpeditionAction::BuyBeer), ExpeditionNote::Silent);
    }
    let tasks = match &v.available {
        None => {
            return (None, ExpeditionNote::NoExpeditions);
        },
        Some(t) => t,
    };
    let pos = task_pos(tasks);
    if pos >= tasks.len() {
        return (None, ExpeditionNote::EmptyList);
    }
    let cost = tasks[pos].thirst_for_adventure_sec;
    if cost <= v.beer.thirst_for_adventure_sec {
        (Some(ExpeditionAction::Start { pos }), ExpeditionNote::Starting { thirst_secs: cost })
    } else {
        (None, ExpeditionNote::NotEnoughThirst)
    }
}

/// A number drawn uniformly from `0..n` by the thread's random generator
/// (`rand::Rng::gen_range`): it is below `n`; which one comes out is chance.
#[verifier::external_body]
fn random_below(n: usize) -> (r: usize)
    requires
        n > 0,
    ensures
        r < n,
{
    rand::thread_rng().gen_range(0..n)
}

/// The next step of an expedition; among several encounters one is picked
/// at random. Apart from that pick, it is `expedition_step`.
pub fn expedition_next(v: &ExpeditionView, log: &mut WaitLog) -> (r: (Option<ExpeditionAction>, ExpeditionNote))
    requires
        old(log).wf(),
    ensures
        final(log).wf(),
        v.active_stage matches Some(ExpeditionStage::Encounters(n)) ==> (n > 0 ==> r.1
            == ExpeditionNote::Silent && r.0 is Some && r.0.unwrap() is PickEncounter && r.0.unwrap()->PickEncounter_pos < n),
        !(v.active_stage matches Some(ExpeditionStage::Encounters(n)) && n > 0) ==> r
            == spec_expedition_step(*v, spec_last_wait(old(log).waits@, v.username@), 0),
        spec_records_wait(*v, spec_last_wait(old(log).waits@, v.username@)) ==> final(log).waits@ == old(
            log,
        ).waits@.insert(v.username@, v.active_stage.unwrap()->busy_until_secs),
        !spec_records_wait(*v, spec_last_wait(old(log).waits@, v.username@)) ==> final(log).waits@ == old(
            log,
        ).waits@,
{
    let roll = match &v.active_stage {
        Some(ExpeditionStage::Encounters(n)) => if *n > 0 {
            random_below(*n)
        } else {
            0
        },
        _ => 0,
    };
    expedition_step(v, log, roll)
}

/// A waiting period is reported once: after a step that records it, the
/// next step for the same character and the same waiting period is silent
/// and records nothing.
pub proof fn law_wait_reported_once(v: ExpeditionView, waits: Map<Seq<char>, i64>, roll: usize)
    requires
        spec_records_wait(v, spec_last_wait(waits, v.username@)),
    ensures
        ({
            let after = waits.insert(v.username@, v.active_stage.unwrap()->busy_until_secs);
            &&& !spec_records_wait(v, spec_last_wait(after, v.username@))
            &&& spec_expedition_step(v, spec_last_wait(after, v.username@), roll) == (
                None::<ExpeditionAction>,
                ExpeditionNote::Silent,
            )
        }),
{
}

} // verus!
