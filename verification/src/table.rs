//! A small map that keeps its entries in a list.

use vstd::prelude::*;

verus! {

/// A key of a [`Table`]: something that can be told apart by what it stands
/// for.
pub trait Key {
    /// What a key stands for.
    type Name;

    spec fn name(&self) -> Self::Name;

    /// Whether both stand for the same.
    fn same_key(&self, other: &Self) -> (same: bool)
        ensures
            same == (self.name() == other.name()),
    ;
}

impl Key for String {
    type Name = Seq<char>;

    open spec fn name(&self) -> Seq<char> {
        self@
    }

    fn same_key(&self, other: &Self) -> (same: bool) {
        *self == *other
    }
}

impl Key for Option<String> {
    type Name = Option<Seq<char>>;

    open spec fn name(&self) -> Option<Seq<char>> {
        match self {
            Some(text) => Some(text@),
            None => None,
        }
    }

    fn same_key(&self, other: &Self) -> (same: bool) {
        match (self, other) {
            (Some(a), Some(b)) => *a == *b,
            (None, None) => true,
            _ => false,
        }
    }
}

/// Values under distinct keys.
#[derive(Debug)]
pub struct Table<K, V> {
    entries: Vec<(K, V)>,
}

impl<K: Key, V> View for Table<K, V> {
    type V = Map<K::Name, V>;

    closed spec fn view(&self) -> Map<K::Name, V> {
        Map::new(
            |key: K::Name| exists|i: int| self.holds_at(i, key),
            |key: K::Name| self.entries@[choose|i: int| self.holds_at(i, key)].1,
        )
    }
}

impl<K: Key, V> Table<K, V> {
    closed spec fn holds_at(&self, i: int, key: K::Name) -> bool {
        0 <= i < self.entries@.len() && self.entries@[i].0.name() == key
    }

    /// No key occurs twice.
    pub closed spec fn wf(&self) -> bool {
        forall|i: int, j: int|
            #![trigger self.entries@[i], self.entries@[j]]
            0 <= i < j < self.entries@.len() ==> self.entries@[i].0.name()
                != self.entries@[j].0.name()
    }

    proof fn lemma_entry(&self, i: int)
        requires
            self.wf(),
            0 <= i < self.entries@.len(),
        ensures
            self@.contains_key(self.entries@[i].0.name()),
            self@[self.entries@[i].0.name()] == self.entries@[i].1,
    {
        let key = self.entries@[i].0.name();
        assert(self.holds_at(i, key));
        let j = choose|j: int| self.holds_at(j, key);
        assert(i == j);
    }

    proof fn lemma_replaced(before: Self, after: Self, i: int, value: V)
        requires
            before.wf(),
            0 <= i < before.entries@.len(),
            after.entries@ == before.entries@.update(i, (before.entries@[i].0, value)),
        ensures
            after.wf(),
            after@ == before@.insert(before.entries@[i].0.name(), value),
    {
        before.lemma_entry(i);
        assert forall|k: K::Name| after@.contains_key(k) <==> before@.contains_key(k) by {
            if after@.contains_key(k) {
                let j = choose|j: int| after.holds_at(j, k);
                before.lemma_entry(j);
            }
            if before@.contains_key(k) {
                let j = choose|j: int| before.holds_at(j, k);
                after.lemma_entry(j);
            }
        }
    }

    proof fn lemma_added(before: Self, after: Self, key: K, value: V)
        requires
            before.wf(),
            !before@.contains_key(key.name()),
            after.entries@ == before.entries@.push((key, value)),
        ensures
            after.wf(),
            after@ == before@.insert(key.name(), value),
    {
        let n = before.entries@.len() as int;
        assert forall|a: int, b: int|
            #![trigger after.entries@[a], after.entries@[b]]
            0 <= a < b < after.entries@.len() implies after.entries@[a].0.name()
            != after.entries@[b].0.name() by {
            if b == n {
                before.lemma_entry(a);
            }
        }
        after.lemma_entry(n);
        assert forall|k: K::Name|
            after@.contains_key(k) <==> (k == key.name() || before@.contains_key(k)) by {
            if after@.contains_key(k) {
                let j = choose|j: int| after.holds_at(j, k);
                if j < n {
                    before.lemma_entry(j);
                }
            }
            if before@.contains_key(k) {
                let j = choose|j: int| before.holds_at(j, k);
                after.lemma_entry(j);
            }
        }
    }

    /// The keys, in the order in which they were first inserted.
    pub closed spec fn names(&self) -> Seq<K::Name> {
        self.entries@.map_values(|entry: (K, V)| entry.0.name())
    }

    /// The keys in order are just the keys of the map.
    pub proof fn lemma_names(&self)
        requires
            self.wf(),
        ensures
            forall|key: K::Name| self@.contains_key(key) <==> #[trigger] self.names().contains(key),
    {
        assert forall|key: K::Name|
            self@.contains_key(key) <==> #[trigger] self.names().contains(key) by {
            if self@.contains_key(key) {
                let i = choose|i: int| self.holds_at(i, key);
                assert(self.names()[i] == key);
            }
            if self.names().contains(key) {
                let i = choose|i: int| 0 <= i < self.names().len() && self.names()[i] == key;
                self.lemma_entry(i);
            }
        }
    }

    /// How many entries there are.
    pub fn len(&self) -> (len: usize)
        ensures
            len == self.names().len(),
    {
        self.entries.len()
    }

    /// The entry of the key at an index.
    pub fn entry(&self, i: usize) -> (entry: (&K, &V))
        requires
            self.wf(),
            i < self.names().len(),
        ensures
            entry.0.name() == self.names()[i as int],
            *entry.1 == self@[self.names()[i as int]],
    {
        proof {
            self.lemma_entry(i as int);
        }
        (&self.entries[i].0, &self.entries[i].1)
    }

    /// No entries.
    pub fn new() -> (table: Self)
        ensures
            table.wf(),
            table@ == Map::<K::Name, V>::empty(),
    {
        let table = Table { entries: Vec::new() };
        proof {
            assert forall|key: K::Name| !table@.contains_key(key) by {
                assert forall|i: int| !table.holds_at(i, key) by {}
            }
        }
        table
    }

    /// Where the key stands, if it does.
    fn position(&self, key: &K) -> (found: Option<usize>)
        requires
            self.wf(),
        ensures
            match found {
                Some(i) => self.holds_at(i as int, key.name()) && self@.contains_key(key.name())
                    && self@[key.name()] == self.entries@[i as int].1,
                None => !self@.contains_key(key.name()),
            },
    {
        let mut i: usize = 0;
        while i < self.entries.len()
            invariant
                self.wf(),
                i <= self.entries@.len(),
                forall|j: int| 0 <= j < i ==> !self.holds_at(j, key.name()),
            decreases self.entries@.len() - i,
        {
            if self.entries[i].0.same_key(key) {
                proof {
                    self.lemma_entry(i as int);
                }
                return Some(i);
            }
            i = i + 1;
        }
        None
    }

    /// The value of a key.
    pub fn get(&self, key: &K) -> (value: Option<&V>)
        requires
            self.wf(),
        ensures
            value is Some <==> self@.contains_key(key.name()),
            value matches Some(v) ==> *v == self@[key.name()],
    {
        match self.position(key) {
            Some(i) => Some(&self.entries[i].1),
            None => None,
        }
    }

    /// The value of a key, to change in place.
    pub fn get_mut(&mut self, key: &K) -> (value: Option<&mut V>)
        requires
            old(self).wf(),
        ensures
            final(self).wf(),
            value is Some <==> old(self)@.contains_key(key.name()),
            match value {
                Some(v) => *v == old(self)@[key.name()] && final(self)@ == old(self)@.insert(
                    key.name(),
                    *final(v),
                ),
                None => *final(self) == *old(self),
            },
    {
        match self.position(key) {
            Some(i) => {
                let ghost after = *final(self);
                let slot = &mut self.entries[i].1;
                proof {
                    Self::lemma_replaced(*old(self), after, i as int, *final(slot));
                }
                Some(slot)
            },
            None => None,
        }
    }

    /// Gives a key a value, in place of the one it had.
    pub fn insert(&mut self, key: K, value: V)
        requires
            old(self).wf(),
        ensures
            final(self).wf(),
            final(self)@ == old(self)@.insert(key.name(), value),
    {
        match self.position(&key) {
            Some(i) => {
                self.entries[i].1 = value;
                proof {
                    Self::lemma_replaced(*old(self), *self, i as int, value);
                }
            },
            None => {
                self.entries.push((key, value));
                proof {
                    Self::lemma_added(*old(self), *self, key, value);
                }
            },
        }
    }
}

} // verus!
