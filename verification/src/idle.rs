//! The idle game (arena manager): sacrificing runes and upgrading the
//! cheapest building. Its amounts grow beyond any machine integer and are
//! kept as base-2^32 digits.

use vstd::prelude::*;

verus! {

/// The base of an amount's digits.
pub open spec fn base() -> int {
    0x1_0000_0000
}

/// The value of little-endian base-2^32 digits.
pub open spec fn spec_digits_value(d: Seq<u32>) -> nat
    decreases d.len(),
{
    if d.len() == 0 {
        0
    } else {
        (d[0] + base() * spec_digits_value(d.drop_first())) as nat
    }
}

/// A whole amount of the idle game: a sign and little-endian base-2^32
/// digits of the magnitude.
#[derive(Debug, Clone)]
pub struct Amount {
    pub negative: bool,
    pub digits: Vec<u32>,
}

impl Amount {
    /// The amount's value.
    pub open spec fn spec_value(&self) -> int {
        if self.negative {
            -(spec_digits_value(self.digits@) as int)
        } else {
            spec_digits_value(self.digits@) as int
        }
    }
}

/// The lowest digit, 0 for no digits.
pub open spec fn spec_head(d: Seq<u32>) -> u32 {
    if d.len() == 0 {
        0
    } else {
        d[0]
    }
}

/// The digits above the lowest.
pub open spec fn spec_tail(d: Seq<u32>) -> Seq<u32> {
    if d.len() == 0 {
        d
    } else {
        d.drop_first()
    }
}

proof fn lemma_head_tail(d: Seq<u32>)
    ensures
        spec_digits_value(d) == spec_head(d) + base() * spec_digits_value(spec_tail(d)),
        spec_tail(d).len() <= d.len(),
        d.len() > 0 ==> spec_tail(d).len() < d.len(),
{
}

/// Compares magnitudes from the top digit down: -1, 0 or 1.
pub open spec fn spec_order_digits(a: Seq<u32>, b: Seq<u32>) -> int
    decreases a.len() + b.len(),
{
    if a.len() == 0 && b.len() == 0 {
        0
    } else {
        let c = spec_order_digits(spec_tail(a), spec_tail(b));
        if c != 0 {
            c
        } else if spec_head(a) < spec_head(b) {
            -1
        } else if spec_head(a) > spec_head(b) {
            1
        } else {
            0
        }
    }
}

proof fn lemma_order_digits(a: Seq<u32>, b: Seq<u32>)
    ensures
        spec_order_digits(a, b) == -1 <==> spec_digits_value(a) < spec_digits_value(b),
        spec_order_digits(a, b) == 0 <==> spec_digits_value(a) == spec_digits_value(b),
        spec_order_digits(a, b) == 1 <==> spec_digits_value(a) > spec_digits_value(b),
    decreases a.len() + b.len(),
{
    if a.len() == 0 && b.len() == 0 {
    } else {
        lemma_head_tail(a);
        lemma_head_tail(b);
        lemma_order_digits(spec_tail(a), spec_tail(b));
        let va = spec_digits_value(spec_tail(a)) as int;
        let vb = spec_digits_value(spec_tail(b)) as int;
        let ha = spec_head(a) as int;
        let hb = spec_head(b) as int;
        if va < vb {
            assert(ha + base() * va < hb + base() * vb) by (nonlinear_arith)
                requires
                    va < vb,
                    0 <= ha < base(),
                    0 <= hb,
                    base() > 0,
            ;
        } else if va > vb {
            assert(ha + base() * va > hb + base() * vb) by (nonlinear_arith)
                requires
                    va > vb,
                    0 <= hb < base(),
                    0 <= ha,
                    base() > 0,
            ;
        }
    }
}

/// The digits from position `i` on (none past the end).
pub open spec fn spec_suffix(d: Seq<u32>, i: int) -> Seq<u32> {
    if i < d.len() {
        d.skip(i)
    } else {
        Seq::empty()
    }
}

fn order_digits_from(a: &Vec<u32>, b: &Vec<u32>, i: usize) -> (r: i8)
    ensures
        r as int == spec_order_digits(spec_suffix(a@, i as int), spec_suffix(b@, i as int)),
    decreases (if a@.len() > i {
        a@.len() - i
    } else {
        0
    }) + (if b@.len() > i {
        b@.len() - i
    } else {
        0
    }),
{
    let ghost sa = spec_suffix(a@, i as int);
    let ghost sb = spec_suffix(b@, i as int);
    if i >= a.len() && i >= b.len() {
        return 0;
    }
    let c = order_digits_from(a, b, i + 1);
    let ha: u32 = if i < a.len() {
        a[i]
    } else {
        0
    };
    let hb: u32 = if i < b.len() {
        b[i]
    } else {
        0
    };
    proof {
        if i < a.len() {
            assert(spec_tail(sa) =~= spec_suffix(a@, i + 1));
            assert(spec_head(sa) == ha);
        } else {
            assert(spec_tail(sa) =~= spec_suffix(a@, i + 1));
        }
        if i < b.len() {
            assert(spec_tail(sb) =~= spec_suffix(b@, i + 1));
            assert(spec_head(sb) == hb);
        } else {
            assert(spec_tail(sb) =~= spec_suffix(b@, i + 1));
        }
    }
    if c != 0 {
        c
    } else if ha < hb {
        -1
    } else if ha > hb {
        1
    } else {
        0
    }
}

/// Compares two amounts by value: -1, 0 or 1.
pub fn compare(a: &Amount, b: &Amount) -> (r: i8)
    ensures
        r == -1 <==> a.spec_value() < b.spec_value(),
        r == 0 <==> a.spec_value() == b.spec_value(),
        r == 1 <==> a.spec_value() > b.spec_value(),
{
    let m = order_digits_from(&a.digits, &b.digits, 0);
    proof {
        if a.digits@.len() > 0 {
            assert(spec_suffix(a.digits@, 0) == a.digits@);
        } else {
            assert(spec_suffix(a.digits@, 0) =~= a.digits@);
        }
        if b.digits@.len() > 0 {
            assert(spec_suffix(b.digits@, 0) == b.digits@);
        } else {
            assert(spec_suffix(b.digits@, 0) =~= b.digits@);
        }
        lemma_order_digits(a.digits@, b.digits@);
    }
    let za = is_zero_digits(&a.digits);
    let zb = is_zero_digits(&b.digits);
    let neg_a = a.negative && !za;
    let neg_b = b.negative && !zb;
    if !neg_a && !neg_b {
        m
    } else if neg_a && neg_b {
        -m
    } else if neg_a {
        -1
    } else {
        1
    }
}

proof fn lemma_zero_digits(d: Seq<u32>)
    ensures
        spec_digits_value(d) == 0 <==> forall|i: int| 0 <= i < d.len() ==> d[i] == 0,
    decreases d.len(),
{
    if d.len() > 0 {
        lemma_zero_digits(d.drop_first());
        if spec_digits_value(d) == 0 {
            assert(d[0] == 0 && spec_digits_value(d.drop_first()) == 0) by (nonlinear_arith)
                requires
                    d[0] + base() * spec_digits_value(d.drop_first()) == 0,
                    d[0] >= 0,
                    spec_digits_value(d.drop_first()) >= 0,
                    base() > 0,
            ;
            assert forall|i: int| 0 <= i < d.len() implies d[i] == 0 by {
                if i > 0 {
                    assert(d[i] == d.drop_first()[i - 1]);
                }
            }
        }
        if forall|i: int| 0 <= i < d.len() ==> d[i] == 0 {
            assert forall|i: int| 0 <= i < d.drop_first().len() implies d.drop_first()[i] == 0 by {
                assert(d.drop_first()[i] == d[i + 1]);
            }
        }
    }
}

fn is_zero_digits(d: &Vec<u32>) -> (r: bool)
    ensures
        r == (spec_digits_value(d@) == 0),
{
    proof {
        lemma_zero_digits(d@);
    }
    let mut i: usize = 0;
    while i < d.len()
        invariant
            i <= d@.len(),
            forall|k: int| 0 <= k < i ==> d@[k] == 0,
        decreases d@.len() - i,
    {
        if d[i] != 0 {
            proof {
                lemma_zero_digits(d@);
            }
            assert(d@[i as int] != 0);
            return false;
        }
        i = i + 1;
    }
    true
}

/// Whether an amount is zero.
pub fn is_zero(a: &Amount) -> (r: bool)
    ensures
        r == (a.spec_value() == 0),
{
    is_zero_digits(&a.digits)
}

/// The digits of twice a magnitude plus a carry, lowest first.
pub open spec fn spec_double_digits(d: Seq<u32>, carry: nat) -> Seq<u32>
    decreases d.len(),
{
    if d.len() == 0 {
        if carry > 0 {
            seq![carry as u32]
        } else {
            Seq::empty()
        }
    } else {
        let t = 2 * d[0] + carry;
        seq![(t % base()) as u32] + spec_double_digits(d.drop_first(), (t / base()) as nat)
    }
}

proof fn lemma_double_digits(d: Seq<u32>, carry: nat)
    requires
        carry <= 1,
    ensures
        spec_digits_value(spec_double_digits(d, carry)) == 2 * spec_digits_value(d) + carry,
    decreases d.len(),
{
    if d.len() == 0 {
        if carry > 0 {
            let s = seq![carry as u32];
            assert(s.drop_first() =~= Seq::<u32>::empty());
            assert(spec_digits_value(Seq::<u32>::empty()) == 0);
            assert(spec_digits_value(s) == carry);
        }
    } else {
        let t: int = 2 * d[0] + carry;
        let q = t / base();
        let r = t % base();
        assert(t == q * base() + r && 0 <= r < base() && 0 <= q <= 1) by (nonlinear_arith)
            requires
                0 <= t < 2 * base(),
                q == t / base(),
                r == t % base(),
                base() > 0,
        ;
        lemma_double_digits(d.drop_first(), q as nat);
        let s = spec_double_digits(d, carry);
        let rest = spec_double_digits(d.drop_first(), q as nat);
        assert(s.drop_first() =~= rest);
        let vt = spec_digits_value(d.drop_first()) as int;
        assert(r + base() * (2 * vt + q) == 2 * (d[0] + base() * vt) + carry) by (nonlinear_arith)
            requires
                t == q * base() + r,
                t == 2 * d[0] + carry,
        ;
    }
}

/// Twice an amount.
pub fn double(a: &Amount) -> (r: Amount)
    ensures
        r.spec_value() == 2 * a.spec_value(),
{
    let mut out: Vec<u32> = Vec::new();
    let mut carry: u64 = 0;
    let mut i: usize = 0;
    proof {
        assert(a.digits@.skip(0) == a.digits@);
    }
    while i < a.digits.len()
        invariant
            i <= a.digits@.len(),
            carry <= 1,
            out@ + spec_double_digits(a.digits@.skip(i as int), carry as nat) == spec_double_digits(
                a.digits@,
                0,
            ),
        decreases a.digits@.len() - i,
    {
        let t: u64 = 2 * (a.digits[i] as u64) + carry;
        let low = (t % 0x1_0000_0000) as u32;
        let ghost before = out@;
        let ghost old_carry = carry;
        out.push(low);
        carry = t / 0x1_0000_0000;
        proof {
            let sfx = a.digits@.skip(i as int);
            assert(sfx.drop_first() =~= a.digits@.skip(i + 1));
            assert(sfx[0] == a.digits@[i as int]);
            assert(spec_double_digits(sfx, old_carry as nat) == seq![low] + spec_double_digits(
                a.digits@.skip(i + 1),
                carry as nat,
            ));
            assert(out@ + spec_double_digits(a.digits@.skip(i + 1), carry as nat) =~= before + (seq![low]
                + spec_double_digits(a.digits@.skip(i + 1), carry as nat)));
        }
        i = i + 1;
    }
    let ghost before = out@;
    if carry > 0 {
        out.push(carry as u32);
    }
    proof {
        assert(a.digits@.skip(i as int).len() == 0);
        if carry > 0 {
            assert(out@ =~= before + seq![carry as u32]);
        } else {
            assert(out@ =~= before + Seq::<u32>::empty());
        }
        lemma_double_digits(a.digits@, 0);
    }
    Amount { negative: a.negative, digits: out }
}

/// An upgrade of one level, or of ten at once.
#[derive(Debug, Clone, Copy, PartialEq, Eq, Structural)]
pub enum UpgradeAmount {
    One,
    Ten,
}

/// A building of the idle game: its level and the price of one and of ten
/// levels.
#[derive(Debug, Clone)]
pub struct IdleBuilding {
    pub level: u32,
    pub upgrade_cost: Amount,
    pub upgrade_cost_10x: Amount,
}

/// What the idle routines read of the idle game.
#[derive(Debug, Clone)]
pub struct IdleView {
    pub current_money: Amount,
    pub current_runes: Amount,
    pub sacrifice_runes: Amount,
    /// The buildings in the game's order.
    pub buildings: Vec<IdleBuilding>,
}

/// The runes a sacrifice must yield before it is made: twice the current
/// runes, or 2 while there are none.
pub open spec fn spec_required_runes(v: IdleView) -> int {
    if v.current_runes.spec_value() == 0 {
        2
    } else {
        2 * v.current_runes.spec_value()
    }
}

/// Whether to sacrifice: the sacrifice yields at least the required runes.
pub fn should_sacrifice(v: &IdleView) -> (r: bool)
    ensures
        r == (v.sacrifice_runes.spec_value() >= spec_required_runes(*v)),
{
    let required = if is_zero(&v.current_runes) {
        let mut d: Vec<u32> = Vec::new();
        d.push(2);
        let two = Amount { negative: false, digits: d };
        assert(two.digits@.drop_first() =~= Seq::<u32>::empty());
        assert(spec_digits_value(Seq::<u32>::empty()) == 0);
        assert(two.spec_value() == 2);
        two
    } else {
        double(&v.current_runes)
    };
    compare(&v.sacrifice_runes, &required) >= 0
}

/// The upgrade a building is offered for: ten levels from level 10 on,
/// one before.
pub open spec fn spec_offer(b: IdleBuilding) -> (UpgradeAmount, int) {
    if b.level >= 10 {
        (UpgradeAmount::Ten, b.upgrade_cost_10x.spec_value())
    } else {
        (UpgradeAmount::One, b.upgrade_cost.spec_value())
    }
}

/// Walks the buildings from `i` on and keeps the first one whose offered
/// upgrade is the cheapest.
pub open spec fn spec_cheapest_from(bs: Seq<IdleBuilding>, i: nat, best: Option<(nat, UpgradeAmount, int)>) -> Option<
    (nat, UpgradeAmount, int),
>
    decreases bs.len() - i,
{
    if i >= bs.len() {
        best
    } else {
        let (amount, cost) = spec_offer(bs[i as int]);
        if best matches Some((_, _, c)) && !(cost < c) {
            spec_cheapest_from(bs, i + 1, best)
        } else {
            spec_cheapest_from(bs, i + 1, Some((i, amount, cost)))
        }
    }
}

/// The next upgrade: the cheapest offered one (the first on a tie), if the
/// money pays it.
pub open spec fn spec_idle_upgrade_next(v: IdleView) -> Option<(usize, UpgradeAmount)> {
    match spec_cheapest_from(v.buildings@, 0, None) {
        None => None,
        Some((i, amount, cost)) => if cost > v.current_money.spec_value() {
            None
        } else {
            Some((i as usize, amount))
        },
    }
}

/// The next upgrade of the idle game, by building position.
pub fn idle_upgrade_next(v: &IdleView) -> (r: Option<(usize, UpgradeAmount)>)
    ensures
        r == spec_idle_upgrade_next(*v),
{
    let bs = &v.buildings;
    let mut best: Option<(usize, UpgradeAmount)> = None;
    let ghost mut best_cost: int = 0;
    let mut i: usize = 0;
    while i < bs.len()
        invariant
            i <= bs@.len(),
            best matches Some((k, _)) ==> k < i,
            spec_cheapest_from(bs@, 0, None) == spec_cheapest_from(
                bs@,
                i as nat,
                match best {
                    Some((k, a)) => Some((k as nat, a, best_cost)),
                    None => None,
                },
            ),
            best matches Some((k, a)) ==> spec_offer(bs@[k as int]) == (a, best_cost),
        decreases bs@.len() - i,
    {
        let b = &bs[i];
        let (amount, cost) = if b.level >= 10 {
            (UpgradeAmount::Ten, &b.upgrade_cost_10x)
        } else {
            (UpgradeAmount::One, &b.upgrade_cost)
        };
        let replace = match best {
            None => true,
            Some((k, _)) => {
                let current = &bs[k];
                let current_cost = if current.level >= 10 {
                    &current.upgrade_cost_10x
                } else {
                    &current.upgrade_cost
                };
                compare(cost, current_cost) < 0
            },
        };
        if replace {
            best = Some((i, amount));
            proof {
                best_cost = cost.spec_value();
            }
        }
        i = i + 1;
    }
    match best {
        None => None,
        Some((k, amount)) => {
            let b = &bs[k];
            let cost = if b.level >= 10 {
                &b.upgrade_cost_10x
            } else {
                &b.upgrade_cost
            };
            if compare(cost, &v.current_money) > 0 {
                None
            } else {
                Some((k, amount))
            }
        },
    }
}

proof fn lemma_cheapest_from(bs: Seq<IdleBuilding>, i: nat, best: Option<(nat, UpgradeAmount, int)>)
    requires
        best matches Some((k, a, c)) ==> k < bs.len() && spec_offer(bs[k as int]) == (a, c),
    ensures
        (best is Some || i < bs.len()) ==> spec_cheapest_from(bs, i, best) is Some,
        spec_cheapest_from(bs, i, best) matches Some((k, a, c)) ==> {
            &&& k < bs.len()
            &&& spec_offer(bs[k as int]) == (a, c)
            &&& forall|j: int| i <= j < bs.len() ==> #[trigger] spec_offer(bs[j]).1 >= c
            &&& best matches Some((_, _, bc)) ==> bc >= c
        },
    decreases bs.len() - i,
{
    if i < bs.len() {
        let (amount, cost) = spec_offer(bs[i as int]);
        let keep = match best {
            Some((_, _, c)) => !(cost < c),
            None => false,
        };
        if keep {
            lemma_cheapest_from(bs, i + 1, best);
        } else {
            lemma_cheapest_from(bs, i + 1, Some((i, amount, cost)));
        }
    }
}

/// The idle game upgrades a building whose offered upgrade is the cheapest
/// of all buildings, and only when the money pays for it.
pub proof fn law_idle_upgrades_cheapest(v: IdleView)
    requires
        spec_idle_upgrade_next(v) is Some,
    ensures
        ({
            let (k, amount) = spec_idle_upgrade_next(v).unwrap();
            let (a, cost) = spec_offer(v.buildings@[k as int]);
            &&& k < v.buildings@.len()
            &&& a == amount
            &&& cost <= v.current_money.spec_value()
            &&& forall|j: int| 0 <= j < v.buildings@.len() ==> #[trigger] spec_offer(v.buildings@[j]).1 >= cost
        }),
{
    lemma_cheapest_from(v.buildings@, 0, None);
    assert(v.buildings.len() == v.buildings@.len());
}

} // verus!
