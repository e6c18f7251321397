//! What the bot remembers between two decisions, per character name.

use vstd::prelude::*;

verus! {

/// A set of character names.
#[derive(Debug, Clone)]
pub struct NameSet {
    names: Vec<String>,
}

impl View for NameSet {
    type V = Set<Seq<char>>;

    closed spec fn view(&self) -> Set<Seq<char>> {
        Set::new(|n: Seq<char>| exists|i: int| 0 <= i < self.names@.len() && self.names@[i]@ == n)
    }
}

impl NameSet {
    /// An empty set.
    pub fn new() -> (r: NameSet)
        ensures
            r@ == Set::<Seq<char>>::empty(),
    {
        let r = NameSet { names: Vec::new() };
        assert(r@ =~= Set::<Seq<char>>::empty());
        r
    }

    /// Whether the set holds `name`.
    pub fn contains(&self, name: &String) -> (r: bool)
        ensures
            r == self@.contains(name@),
    {
        let mut i: usize = 0;
        while i < self.names.len()
            invariant
                i <= self.names@.len(),
                forall|j: int| 0 <= j < i ==> self.names@[j]@ != name@,
            decreases self.names@.len() - i,
        {
            if self.names[i] == *name {
                assert(self@.contains(name@));
                return true;
            }
            i = i + 1;
        }
        false
    }

    /// Adds `name`; tells whether it was new.
    pub fn insert(&mut self, name: &String) -> (r: bool)
        ensures
            r == !old(self)@.contains(name@),
            final(self)@ == old(self)@.insert(name@),
    {
        if self.contains(name) {
            assert(self@ =~= self@.insert(name@));
            return false;
        }
        let ghost before = self.names@;
        self.names.push(name.clone());
        assert forall|n: Seq<char>| self@.contains(n) == old(self)@.insert(name@).contains(n) by {
            if self@.contains(n) {
                let j = choose|j: int| 0 <= j < self.names@.len() && self.names@[j]@ == n;
                if j < before.len() {
                    assert(before[j]@ == n);
                }
            }
            if old(self)@.contains(n) {
                let j = choose|j: int| 0 <= j < before.len() && before[j]@ == n;
                assert(self.names@[j]@ == n);
            }
            if n == name@ {
                assert(self.names@[before.len() as int]@ == n);
            }
        }
        assert(self@ =~= old(self)@.insert(name@));
        true
    }
}

/// A map from character names to values.
#[derive(Debug, Clone)]
pub struct NameMap<V> {
    entries: Vec<(String, V)>,
}

impl<V> NameMap<V> {
    /// No two entries have the same name.
    pub closed spec fn wf(&self) -> bool {
        forall|i: int, j: int|
            0 <= i < j < self.entries@.len() ==> (#[trigger] self.entries@[i]).0@ != (
            #[trigger] self.entries@[j]).0@
    }
}

impl<V> View for NameMap<V> {
    type V = Map<Seq<char>, V>;

    closed spec fn view(&self) -> Map<Seq<char>, V> {
        Map::new(
            |n: Seq<char>| exists|i: int| 0 <= i < self.entries@.len() && self.entries@[i].0@ == n,
            |n: Seq<char>|
                self.entries@[choose|i: int| 0 <= i < self.entries@.len() && self.entries@[i].0@ == n].1,
        )
    }
}

impl<V: Copy> NameMap<V> {
    /// An empty map.
    pub fn new() -> (r: NameMap<V>)
        ensures
            r.wf(),
            r@ == Map::<Seq<char>, V>::empty(),
    {
        let r = NameMap { entries: Vec::new() };
        assert(r@ =~= Map::<Seq<char>, V>::empty());
        r
    }

    fn find(&self, name: &String) -> (r: Option<usize>)
        requires
            self.wf(),
        ensures
            r matches Some(i) ==> i < self.entries@.len() && self.entries@[i as int].0@ == name@,
            r is None ==> forall|i: int| 0 <= i < self.entries@.len() ==> self.entries@[i].0@ != name@,
    {
        let mut i: usize = 0;
        while i < self.entries.len()
            invariant
                i <= self.entries@.len(),
                forall|j: int| 0 <= j < i ==> self.entries@[j].0@ != name@,
            decreases self.entries@.len() - i,
        {
            if self.entries[i].0 == *name {
                return Some(i);
            }
            i = i + 1;
        }
        None
    }

    /// The value kept for `name`, if any.
    pub fn get(&self, name: &String) -> (r: Option<V>)
        requires
            self.wf(),
        ensures
            r matches Some(x) ==> self@.contains_key(name@) && self@[name@] == x,
            r is None ==> !self@.contains_key(name@),
    {
        match self.find(name) {
            Some(i) => {
                proof {
                    let k = choose|k: int| 0 <= k < self.entries@.len() && self.entries@[k].0@ == name@;
                    if k != i {
                        if k < i {
                            assert(self.entries@[k].0@ != self.entries@[i as int].0@);
                        } else {
                            assert(self.entries@[i as int].0@ != self.entries@[k].0@);
                        }
                    }
                }
                Some(self.entries[i].1)
            },
            None => None,
        }
    }

    /// Keeps `value` for `name`, replacing what was kept before.
    pub fn insert(&mut self, name: &String, value: V)
        requires
            old(self).wf(),
        ensures
            final(self).wf(),
            final(self)@ == old(self)@.insert(name@, value),
    {
        let ghost before = self.entries@;
        match self.find(name) {
            Some(i) => {
                let key = self.entries[i].0.clone();
                self.entries.set(i, (key, value));
                proof {
                    assert forall|a: int, b: int|
                        0 <= a < b < self.entries@.len() implies (#[trigger] self.entries@[a]).0@ != (
                        #[trigger] self.entries@[b]).0@ by {
                        assert(before[a].0@ != before[b].0@);
                    }
                    assert forall|n: Seq<char>| #[trigger] self@.contains_key(n) == old(self)@.insert(
                        name@,
                        value,
                    ).contains_key(n) by {
                        if self@.contains_key(n) {
                            let j = choose|j: int| 0 <= j < self.entries@.len() && self.entries@[j].0@ == n;
                            if j != i {
                                assert(before[j].0@ == n);
                            }
                        }
                        if old(self)@.contains_key(n) {
                            let j = choose|j: int| 0 <= j < before.len() && before[j].0@ == n;
                            assert(self.entries@[j].0@ == n);
                        }
                        if n == name@ {
                            assert(self.entries@[i as int].0@ == n);
                        }
                    }
                    assert forall|n: Seq<char>| #[trigger] self@.contains_key(n) implies self@[n]
                        == old(self)@.insert(name@, value)[n] by {
                        let j = choose|j: int| 0 <= j < self.entries@.len() && self.entries@[j].0@ == n;
                        if n == name@ {
                            if j != i {
                                if j < i {
                                    assert(self.entries@[j].0@ != self.entries@[i as int].0@);
                                } else {
                                    assert(self.entries@[i as int].0@ != self.entries@[j].0@);
                                }
                            }
                        } else {
                            let k = choose|k: int| 0 <= k < before.len() && before[k].0@ == n;
                            if k != j {
                                if k < j {
                                    assert(before[k].0@ != before[j].0@);
                                } else {
                                    assert(before[j].0@ != before[k].0@);
                                }
                            }
                        }
                    }
                    assert(self@ =~= old(self)@.insert(name@, value));
                }
            },
            None => {
                self.entries.push((name.clone(), value));
                proof {
                    assert forall|a: int, b: int|
                        0 <= a < b < self.entries@.len() implies (#[trigger] self.entries@[a]).0@ != (
                        #[trigger] self.entries@[b]).0@ by {
                        if b < before.len() {
                            assert(before[a].0@ != before[b].0@);
                        }
                    }
                    assert forall|n: Seq<char>| #[trigger] self@.contains_key(n) == old(self)@.insert(
                        name@,
                        value,
                    ).contains_key(n) by {
                        if self@.contains_key(n) {
                            let j = choose|j: int| 0 <= j < self.entries@.len() && self.entries@[j].0@ == n;
                            if j < before.len() {
                                assert(before[j].0@ == n);
                            }
                        }
                        if old(self)@.contains_key(n) {
                            let j = choose|j: int| 0 <= j < before.len() && before[j].0@ == n;
                            assert(self.entries@[j].0@ == n);
                        }
                        if n == name@ {
                            assert(self.entries@[before.len() as int].0@ == n);
                        }
                    }
                    assert forall|n: Seq<char>| #[trigger] self@.contains_key(n) implies self@[n]
                        == old(self)@.insert(name@, value)[n] by {
                        let j = choose|j: int| 0 <= j < self.entries@.len() && self.entries@[j].0@ == n;
                        if n == name@ {
                            if j != before.len() {
                                assert(before[j].0@ == n);
                            }
                        } else {
                            let k = choose|k: int| 0 <= k < before.len() && before[k].0@ == n;
                            if k != j {
                                if j == before.len() {
                                    assert(self.entries@[j].0@ == name@);
                                } else if k < j {
                                    assert(before[k].0@ != before[j].0@);
                                } else {
                                    assert(before[j].0@ != before[k].0@);
                                }
                            }
                        }
                    }
                    assert(self@ =~= old(self)@.insert(name@, value));
                }
            },
        }
    }
}

} // verus!
