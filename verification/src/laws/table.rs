//! Laws of tables: what was put in is found again.

use crate::table::{Key, Table};
use vstd::prelude::*;

verus! {

/// Keys are told apart by their texts, and a key without a text from all others.
pub proof fn law_keys(a: String, b: String, c: Option<String>, d: Option<String>)
    ensures
        a.name() == b.name() <==> a@ == b@,
        c.name() == d.name() <==> match (c, d) {
            (Some(x), Some(y)) => x@ == y@,
            (None, None) => true,
            _ => false,
        },
{
}

/// A new table has no value under any key.
pub proof fn law_new_table_is_empty<K: Key, V>(table: Table<K, V>, key: K, found: Option<&V>)
    requires
        call_ensures(Table::<K, V>::new, (), table),
        call_ensures(Table::<K, V>::get, (&table, &key), found),
    ensures
        call_requires(Table::<K, V>::get, (&table, &key)),
        found is None,
{
}

/// A key that was given a value is found with that value. Every other key is found
/// as before.
pub proof fn law_inserted_entry_is_found<K: Key, V>(
    table: &mut Table<K, V>,
    key: K,
    value: V,
    wanted: K,
    before: Option<&V>,
    after: Option<&V>,
)
    requires
        old(table).wf(),
        call_ensures(Table::<K, V>::insert, (table, key, value), ()),
        call_ensures(Table::<K, V>::get, (&*old(table), &wanted), before),
        call_ensures(Table::<K, V>::get, (&*final(table), &wanted), after),
    ensures
        call_requires(Table::<K, V>::insert, (table, key, value)),
        call_requires(Table::<K, V>::get, (&*final(table), &wanted)),
        wanted.name() == key.name() ==> after == Some(&value),
        wanted.name() != key.name() ==> after == before,
{
}

/// A value that is changed in place is found as it was changed. Every other key is
/// found as before.
pub proof fn law_changed_entry_is_found<K: Key, V>(
    table: &mut Table<K, V>,
    key: K,
    value: Option<&mut V>,
    wanted: K,
    before: Option<&V>,
    after: Option<&V>,
)
    requires
        old(table).wf(),
        call_ensures(Table::<K, V>::get_mut, (table, &key), value),
        call_ensures(Table::<K, V>::get, (&*old(table), &wanted), before),
        call_ensures(Table::<K, V>::get, (&*final(table), &wanted), after),
    ensures
        call_requires(Table::<K, V>::get_mut, (table, &key)),
        wanted.name() == key.name() ==> match value {
            Some(v) => before == Some(&*v) && after == Some(&*final(v)),
            None => before is None && after is None,
        },
        wanted.name() != key.name() ==> after == before,
{
}

/// Two keys are found to be the same if and only if they stand for the same.
pub proof fn law_same_keys<K: Key>(a: K, b: K, same: bool)
    requires
        call_ensures(K::same_key, (&a, &b), same),
    ensures
        same <==> a.name() == b.name(),
{
}

/// There is an entry at every index below the length, and its key is found with its
/// value.
pub proof fn law_entries_are_found<K: Key, V>(
    table: Table<K, V>,
    len: usize,
    i: usize,
    entry: (&K, &V),
    found: Option<&V>,
)
    requires
        table.wf(),
        i < len,
        call_ensures(Table::<K, V>::len, (&table,), len),
        call_ensures(Table::<K, V>::entry, (&table, i), entry),
        call_ensures(Table::<K, V>::get, (&table, entry.0), found),
    ensures
        call_requires(Table::<K, V>::entry, (&table, i)),
        found == Some(entry.1),
{
    table.lemma_names();
    assert(table.names().contains(table.names()[i as int]));
}

/// Every key that is found has an entry at some index below the length.
pub proof fn law_found_keys_have_entries<K: Key, V>(
    table: Table<K, V>,
    len: usize,
    key: K,
    found: Option<&V>,
) -> (i: usize)
    requires
        table.wf(),
        found is Some,
        call_ensures(Table::<K, V>::len, (&table,), len),
        call_ensures(Table::<K, V>::get, (&table, &key), found),
    ensures
        i < len,
        forall|entry: (&K, &V)| #[trigger]
            call_ensures(Table::<K, V>::entry, (&table, i), entry) ==> entry.0.name()
                == key.name(),
{
    table.lemma_names();
    assert(table.names().contains(key.name()));
    let i = choose|i: int| 0 <= i < table.names().len() && table.names()[i] == key.name();
    i as usize
}

} // verus!
