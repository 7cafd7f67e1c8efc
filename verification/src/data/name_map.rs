//! A small map from names to values, kept in insertion order.

use vstd::prelude::*;

verus! {

/// A finite map keyed by name. No name occurs twice.
pub struct NameMap<V> {
    entries: Vec<(String, V)>,
}

impl<V> View for NameMap<V> {
    type V = Map<Seq<char>, V>;

    closed spec fn view(&self) -> Map<Seq<char>, V> {
        Map::new(|name: Seq<char>| self.has(name), |name: Seq<char>| self.entries[self.slot(name)].1)
    }
}

impl<V> NameMap<V> {
    #[verifier::type_invariant]
    spec fn well_formed(self) -> bool {
        Self::distinct(self.entries@)
    }

    spec fn distinct(entries: Seq<(String, V)>) -> bool {
        forall|i: int, j: int|
            0 <= i < j < entries.len() ==> (#[trigger] entries[i]).0@ != (#[trigger] entries[j]).0@
    }

    spec fn has(self, name: Seq<char>) -> bool {
        exists|i: int| 0 <= i < self.entries.len() && (#[trigger] self.entries[i]).0@ == name
    }

    spec fn slot(self, name: Seq<char>) -> int {
        choose|i: int| 0 <= i < self.entries.len() && (#[trigger] self.entries[i]).0@ == name
    }

    /// The number of names in the map.
    pub closed spec fn count(self) -> nat {
        self.entries.len() as nat
    }

    /// The names of the map in the order in which they were first
    /// inserted.
    pub closed spec fn ordered_names(self) -> Seq<Seq<char>> {
        Seq::new(self.entries.len() as nat, |i: int| self.entries[i].0@)
    }

    proof fn lemma_slot(self, i: int)
        requires
            Self::distinct(self.entries@),
            0 <= i < self.entries.len(),
        ensures
            self.has(self.entries[i].0@),
            self.slot(self.entries[i].0@) == i,
            self@.contains_key(self.entries[i].0@),
            self@[self.entries[i].0@] == self.entries[i].1,
    {
        let name = self.entries[i].0@;
        assert(self.has(name));
        let k = self.slot(name);
        assert(0 <= k < self.entries.len() && self.entries[k].0@ == name);
        if k < i {
            assert(self.entries[k].0@ != self.entries[i].0@);
        }
        if i < k {
            assert(self.entries[i].0@ != self.entries[k].0@);
        }
    }

    /// The ordered names are exactly the names of the map, each once.
    pub proof fn lemma_ordered_names(self)
        ensures
            self.ordered_names().len() == self.count(),
            forall|name: Seq<char>|
                self@.contains_key(name) <==> self.ordered_names().contains(name),
    {
        assert forall|name: Seq<char>| self@.contains_key(name) implies self.ordered_names().contains(
            name,
        ) by {
            let i = self.slot(name);
            assert(self.ordered_names()[i] == name);
        }
        assert forall|name: Seq<char>| self.ordered_names().contains(name) implies self@.contains_key(
            name,
        ) by {
            let i = choose|i: int|
                0 <= i < self.ordered_names().len() && self.ordered_names()[i] == name;
            assert(self.entries[i].0@ == name);
        }
    }

    /// The empty map.
    pub fn new() -> (map: Self)
        ensures
            map@ == Map::<Seq<char>, V>::empty(),
            map.count() == 0,
    {
        let map = NameMap { entries: Vec::new() };
        assert(map@ =~= Map::<Seq<char>, V>::empty());
        map
    }

    pub fn len(&self) -> (len: usize)
        ensures
            len == self.count(),
    {
        self.entries.len()
    }

    fn find(&self, name: &String) -> (found: Option<usize>)
        ensures
            match found {
                Some(i) => i < self.entries.len() && self.entries[i as int].0@ == name@,
                None => !self.has(name@),
            },
    {
        let mut i: usize = 0;
        while i < self.entries.len()
            invariant
                i <= self.entries.len(),
                forall|k: int| 0 <= k < i ==> (#[trigger] self.entries[k]).0@ != name@,
            decreases self.entries.len() - i,
        {
            if self.entries[i].0 == *name {
                return Some(i);
            }
            i += 1;
        }
        None
    }

    /// Whether the map has the name.
    pub fn contains(&self, name: &String) -> (yes: bool)
        ensures
            yes == self@.contains_key(name@),
    {
        self.find(name).is_some()
    }

    /// The value stored under the name.
    pub fn get(&self, name: &String) -> (value: Option<&V>)
        ensures
            value.is_some() == self@.contains_key(name@),
            value.is_some() ==> *value.unwrap() == self@[name@],
    {
        match self.find(name) {
            Some(i) => {
                proof {
                    use_type_invariant(self);
                    self.lemma_slot(i as int);
                }
                Some(&self.entries[i].1)
            },
            None => None,
        }
    }

    /// The name at a position of the insertion order.
    pub fn name_at(&self, index: usize) -> (name: &String)
        requires
            index < self.count(),
        ensures
            name@ == self.ordered_names()[index as int],
            self@.contains_key(name@),
    {
        proof {
            use_type_invariant(self);
            self.lemma_slot(index as int);
        }
        &self.entries[index].0
    }

    /// Stores the value under the name, in place of what was there.
    pub fn insert(&mut self, name: String, value: V)
        ensures
            final(self)@ == old(self)@.insert(name@, value),
            final(self).count() == if old(self)@.contains_key(name@) {
                old(self).count()
            } else {
                old(self).count() + 1
            },
    {
        proof {
            use_type_invariant(&*self);
        }
        let ghost before = *self;
        let ghost key = name@;
        match self.find(&name) {
            Some(i) => {
                proof {
                    before.lemma_slot(i as int);
                    let after = before.entries@.update(i as int, (name, value));
                    assert(Self::distinct(after)) by {
                        assert forall|a: int, b: int| 0 <= a < b < after.len() implies (
                        #[trigger] after[a]).0@ != (#[trigger] after[b]).0@ by {
                            assert(before.entries[a].0@ != before.entries[b].0@);
                        }
                    }
                }
                let mut entries: Vec<(String, V)> = Vec::new();
                std::mem::swap(&mut self.entries, &mut entries);
                entries[i] = (name, value);
                std::mem::swap(&mut self.entries, &mut entries);
                proof {
                    let now = *self;
                    assert forall|n: Seq<char>| now.has(n) == before@.insert(key, value).contains_key(
                        n,
                    ) by {
                        if now.has(n) {
                            let k = now.slot(n);
                            assert(before.entries[k].0@ == n);
                        }
                        if before.has(n) {
                            let k = before.slot(n);
                            assert(now.entries[k].0@ == n);
                        }
                    }
                    assert forall|n: Seq<char>| now.has(n) implies now@[n] == before@.insert(
                        key,
                        value,
                    )[n] by {
                        let k = now.slot(n);
                        now.lemma_slot(k);
                        if n != key {
                            assert(before.entries[k].0@ == n);
                            before.lemma_slot(k);
                        }
                    }
                    assert(now@ =~= before@.insert(key, value));
                }
            },
            None => {
                proof {
                    let after = before.entries@.push((name, value));
                    assert(Self::distinct(after)) by {
                        assert forall|a: int, b: int| 0 <= a < b < after.len() implies (
                        #[trigger] after[a]).0@ != (#[trigger] after[b]).0@ by {
                            if b < before.entries.len() {
                                assert(before.entries[a].0@ != before.entries[b].0@);
                            } else {
                                assert(before.entries[a].0@ != key);
                            }
                        }
                    }
                }
                let mut entries: Vec<(String, V)> = Vec::new();
                std::mem::swap(&mut self.entries, &mut entries);
                entries.push((name, value));
                std::mem::swap(&mut self.entries, &mut entries);
                proof {
                    let now = *self;
                    let last = before.entries.len() as int;
                    assert(now.entries[last].0@ == key);
                    assert forall|n: Seq<char>| now.has(n) == before@.insert(key, value).contains_key(
                        n,
                    ) by {
                        if now.has(n) {
                            let k = now.slot(n);
                            if k < last {
                                assert(before.entries[k].0@ == n);
                            }
                        }
                        if before.has(n) {
                            let k = before.slot(n);
                            assert(now.entries[k].0@ == n);
                        }
                    }
                    assert forall|n: Seq<char>| now.has(n) implies now@[n] == before@.insert(
                        key,
                        value,
                    )[n] by {
                        let k = now.slot(n);
                        now.lemma_slot(k);
                        if n != key {
                            assert(before.entries[k].0@ == n);
                            before.lemma_slot(k);
                        }
                    }
                    assert(now@ =~= before@.insert(key, value));
                }
            },
        }
    }

    /// Takes the name and its value out of the map.
    pub fn remove(&mut self, name: &String) -> (removed: Option<V>)
        ensures
            final(self)@ == old(self)@.remove(name@),
            removed.is_some() == old(self)@.contains_key(name@),
            removed.is_some() ==> removed.unwrap() == old(self)@[name@],
            final(self).count() == if old(self)@.contains_key(name@) {
                old(self).count() - 1
            } else {
                old(self).count() as int
            },
    {
        proof {
            use_type_invariant(&*self);
        }
        let ghost before = *self;
        let ghost key = name@;
        match self.find(name) {
            Some(i) => {
                proof {
                    before.lemma_slot(i as int);
                    let after = before.entries@.remove(i as int);
                    assert(Self::distinct(after)) by {
                        assert forall|a: int, b: int| 0 <= a < b < after.len() implies (
                        #[trigger] after[a]).0@ != (#[trigger] after[b]).0@ by {
                            let a0 = if a < i { a } else { a + 1 };
                            let b0 = if b < i { b } else { b + 1 };
                            assert(before.entries[a0].0@ != before.entries[b0].0@);
                        }
                    }
                }
                let mut entries: Vec<(String, V)> = Vec::new();
                std::mem::swap(&mut self.entries, &mut entries);
                let entry = entries.remove(i);
                std::mem::swap(&mut self.entries, &mut entries);
                proof {
                    let now = *self;
                    assert forall|n: Seq<char>| now.has(n) == before@.remove(key).contains_key(
                        n,
                    ) by {
                        if now.has(n) {
                            let k = now.slot(n);
                            let k0 = if k < i { k } else { k + 1 };
                            assert(before.entries[k0].0@ == n);
                            if n == key {
                                if k0 < i {
                                    assert(before.entries[k0].0@ != before.entries[i as int].0@);
                                } else {
                                    assert(before.entries[i as int].0@ != before.entries[k0].0@);
                                }
                            }
                        }
                        if before.has(n) && n != key {
                            let k0 = before.slot(n);
                            let k = if k0 < i { k0 } else { k0 - 1 };
                            assert(now.entries[k].0@ == n);
                        }
                    }
                    assert forall|n: Seq<char>| now.has(n) implies now@[n] == before@.remove(
                        key,
                    )[n] by {
                        let k = now.slot(n);
                        now.lemma_slot(k);
                        let k0 = if k < i { k } else { k + 1 };
                        assert(before.entries[k0].0@ == n);
                        before.lemma_slot(k0);
                    }
                    assert(now@ =~= before@.remove(key));
                }
                Some(entry.1)
            },
            None => {
                assert(self@ =~= before@.remove(key));
                None
            },
        }
    }
}

} // verus!
