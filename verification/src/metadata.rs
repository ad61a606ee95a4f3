//! Metadata that travels with endpoints and packets: values under string keys.

use crate::table::Table;
use vstd::prelude::*;

verus! {

/// A value of some key.
#[derive(Debug)]
pub enum Value {
    Bool(bool),
    Number(u64),
    String(String),
    Bytes(Vec<u8>),
}

/// What a [`Value`] stands for.
pub enum ValueView {
    Bool(bool),
    Number(u64),
    String(Seq<char>),
    Bytes(Seq<u8>),
}

impl View for Value {
    type V = ValueView;

    open spec fn view(&self) -> ValueView {
        match self {
            Value::Bool(b) => ValueView::Bool(*b),
            Value::Number(n) => ValueView::Number(*n),
            Value::String(s) => ValueView::String(s@),
            Value::Bytes(b) => ValueView::Bytes(b@),
        }
    }
}

/// Whether both hold the same bytes in the same order.
pub fn same_bytes(a: &Vec<u8>, b: &Vec<u8>) -> (same: bool)
    ensures
        same == (a@ == b@),
{
    if a.len() != b.len() {
        return false;
    }
    let mut i: usize = 0;
    while i < a.len()
        invariant
            i <= a.len(),
            a.len() == b.len(),
            forall|j: int| 0 <= j < i ==> a@[j] == b@[j],
        decreases a.len() - i,
    {
        if a[i] != b[i] {
            return false;
        }
        i = i + 1;
    }
    assert(a@ =~= b@);
    true
}

impl Value {
    /// Whether both are the same value of the same kind.
    pub fn same(&self, other: &Value) -> (same: bool)
        ensures
            same == (self@ == other@),
    {
        match (self, other) {
            (Value::Bool(a), Value::Bool(b)) => *a == *b,
            (Value::Number(a), Value::Number(b)) => *a == *b,
            (Value::String(a), Value::String(b)) => *a == *b,
            (Value::Bytes(a), Value::Bytes(b)) => same_bytes(a, b),
            _ => false,
        }
    }

    /// The text of a string value, to change in place; `None` of any other
    /// value.
    pub fn as_mut_string(&mut self) -> (text: Option<&mut String>)
        ensures
            text is Some <==> old(self)@ is String,
            match text {
                Some(s) => old(self)@ == ValueView::String(s@) && final(self)@
                    == ValueView::String(final(s)@),
                None => final(self)@ == old(self)@,
            },
    {
        match self {
            Value::String(s) => Some(s),
            _ => None,
        }
    }
}

/// Values under distinct string keys.
#[derive(Debug)]
pub struct Metadata {
    table: Table<String, Value>,
}

impl View for Metadata {
    type V = Map<Seq<char>, ValueView>;

    closed spec fn view(&self) -> Map<Seq<char>, ValueView> {
        self.table@.map_values(|value: Value| value@)
    }
}

impl Metadata {
    /// No key occurs twice.
    pub closed spec fn wf(&self) -> bool {
        self.table.wf()
    }

    /// No entries.
    pub fn new() -> (metadata: Self)
        ensures
            metadata.wf(),
            metadata@ == Map::<Seq<char>, ValueView>::empty(),
    {
        Metadata { table: Table::new() }
    }

    /// The value of a key.
    pub fn get(&self, key: &String) -> (value: Option<&Value>)
        requires
            self.wf(),
        ensures
            value is Some <==> self@.contains_key(key@),
            value matches Some(v) ==> v@ == self@[key@],
    {
        self.table.get(key)
    }

    /// The value of a key, to change in place.
    pub fn get_mut(&mut self, key: &String) -> (value: Option<&mut Value>)
        requires
            old(self).wf(),
        ensures
            final(self).wf(),
            value is Some <==> old(self)@.contains_key(key@),
            match value {
                Some(v) => v@ == old(self)@[key@] && final(self)@ == old(self)@.insert(
                    key@,
                    final(v)@,
                ),
                None => final(self)@ == old(self)@,
            },
    {
        self.table.get_mut(key)
    }

    /// Gives a key a value, in place of the one it had.
    pub fn insert(&mut self, key: String, value: Value)
        requires
            old(self).wf(),
        ensures
            final(self).wf(),
            final(self)@ == old(self)@.insert(key@, value@),
    {
        self.table.insert(key, value);
    }

    /// Whether every entry of `self` is one of `other`.
    fn within(&self, other: &Metadata) -> (within: bool)
        requires
            self.wf(),
            other.wf(),
        ensures
            within == self@.submap_of(other@),
    {
        let ghost names = self.table.names();
        proof {
            self.table.lemma_names();
        }
        let mut i: usize = 0;
        while i < self.table.len()
            invariant
                self.wf(),
                other.wf(),
                names == self.table.names(),
                i <= names.len(),
                forall|key: Seq<char>| self@.contains_key(key) <==> #[trigger] names.contains(key),
                forall|j: int|
                    #![trigger names[j]]
                    0 <= j < i ==> other@.contains_key(names[j]) && other@[names[j]]
                        == self@[names[j]],
            decreases names.len() - i,
        {
            assert(names.contains(names[i as int]));
            let (key, mine) = self.table.entry(i);
            match other.get(key) {
                Some(theirs) => {
                    if !theirs.same(mine) {
                        return false;
                    }
                },
                None => {
                    return false;
                },
            }
            i = i + 1;
        }
        proof {
            assert forall|key: Seq<char>| #[trigger]
                self@.dom().contains(key) implies other@.dom().contains(key) && self@[key]
                == other@[key] by {
                assert(names.contains(key));
            }
        }
        true
    }

    /// Whether both hold the same values under the same keys.
    pub fn same(&self, other: &Metadata) -> (same: bool)
        requires
            self.wf(),
            other.wf(),
        ensures
            same == (self@ == other@),
    {
        let same = self.within(other) && other.within(self);
        proof {
            self@.lemma_submap_eq_iff(other@);
        }
        same
    }
}

} // verus!
