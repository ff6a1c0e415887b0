//! Rows of named things: the keys of such a row, the search for a key, and
//! what it means to bind a key.
//!
//! Dicts, named arguments and the tables of the objects are rows of pairs
//! of a name and a value, in the order in which the names were first
//! bound. The first entry with a name is the one that counts.

use vstd::prelude::*;

verus! {

/// The first index at which `key` stands in `keys`.
pub open spec fn key_index(keys: Seq<Seq<char>>, key: Seq<char>) -> Option<int>
    decreases keys.len(),
{
    if keys.len() == 0 {
        None
    } else if keys[0] == key {
        Some(0)
    } else {
        match key_index(keys.drop_first(), key) {
            Some(i) => Some(i + 1),
            None => None,
        }
    }
}

/// What `key_index` finds is the first place of the key; where it finds
/// nothing, the key stands nowhere.
pub proof fn lemma_key_index(keys: Seq<Seq<char>>, key: Seq<char>)
    ensures
        match key_index(keys, key) {
            Some(i) => 0 <= i < keys.len() && keys[i] == key && forall|j: int|
                0 <= j < i ==> keys[j] != key,
            None => forall|j: int| 0 <= j < keys.len() ==> keys[j] != key,
        },
    decreases keys.len(),
{
    if keys.len() == 0 {
    } else if keys[0] == key {
    } else {
        let rest = keys.drop_first();
        lemma_key_index(rest, key);
        match key_index(rest, key) {
            Some(i) => {
                assert forall|j: int| 0 <= j < i + 1 implies keys[j] != key by {
                    if j > 0 {
                        assert(rest[j - 1] == keys[j]);
                    }
                }
            },
            None => {
                assert forall|j: int| 0 <= j < keys.len() implies keys[j] != key by {
                    if j > 0 {
                        assert(rest[j - 1] == keys[j]);
                    }
                }
            },
        }
    }
}

/// The index that stands first with the key is the one `key_index` gives.
pub proof fn lemma_key_index_is(keys: Seq<Seq<char>>, key: Seq<char>, i: int)
    requires
        0 <= i < keys.len(),
        keys[i] == key,
        forall|j: int| 0 <= j < i ==> keys[j] != key,
    ensures
        key_index(keys, key) == Some(i),
{
    lemma_key_index(keys, key);
}

/// A key that stands nowhere is not found.
pub proof fn lemma_key_index_none(keys: Seq<Seq<char>>, key: Seq<char>)
    requires
        forall|j: int| 0 <= j < keys.len() ==> keys[j] != key,
    ensures
        key_index(keys, key) is None,
{
    lemma_key_index(keys, key);
}

/// The names of a row of pairs.
pub open spec fn names<V>(entries: Seq<(Seq<char>, V)>) -> Seq<Seq<char>> {
    Seq::new(entries.len(), |i: int| entries[i].0)
}

/// The value bound to `key`.
pub open spec fn lookup<V>(entries: Seq<(Seq<char>, V)>, key: Seq<char>) -> Option<V> {
    match key_index(names(entries), key) {
        Some(i) => Some(entries[i].1),
        None => None,
    }
}

/// Whether `key` is bound.
pub open spec fn has_key<V>(entries: Seq<(Seq<char>, V)>, key: Seq<char>) -> bool {
    key_index(names(entries), key) is Some
}

/// The row with `key` bound to `value`: in the place of the entry that had
/// the key, or at the end.
pub open spec fn upsert<V>(entries: Seq<(Seq<char>, V)>, key: Seq<char>, value: V) -> Seq<
    (Seq<char>, V),
> {
    match key_index(names(entries), key) {
        Some(i) => entries.update(i, (key, value)),
        None => entries.push((key, value)),
    }
}

/// Whether no name stands twice.
pub open spec fn distinct_names(keys: Seq<Seq<char>>) -> bool {
    forall|i: int, j: int| 0 <= i < j < keys.len() ==> keys[i] != keys[j]
}

/// Binding a key keeps the names distinct, and the key is bound to the
/// value afterwards.
pub proof fn upsert_binds_the_key<V>(entries: Seq<(Seq<char>, V)>, key: Seq<char>, value: V)
    ensures
        lookup(upsert(entries, key, value), key) == Some(value),
        distinct_names(names(entries)) ==> distinct_names(names(upsert(entries, key, value))),
        forall|other: Seq<char>|
            other != key ==> lookup(upsert(entries, key, value), other) == lookup(entries, other),
{
    let keys = names(entries);
    let after = upsert(entries, key, value);
    lemma_key_index(keys, key);
    match key_index(keys, key) {
        Some(i) => {
            assert(names(after) =~= keys);
        },
        None => {
            assert(names(after) =~= keys.push(key));
            lemma_key_index_is(names(after), key, keys.len() as int);
        },
    }
    assert forall|other: Seq<char>| other != key implies lookup(after, other) == lookup(
        entries,
        other,
    ) by {
        lemma_key_index(keys, other);
        lemma_key_index(names(after), other);
        match key_index(keys, other) {
            Some(i) => {
                lemma_key_index_is(names(after), other, i);
            },
            None => {
                lemma_key_index_none(names(after), other);
            },
        }
    }
}

/// The names of a row of pairs whose names are strings.
pub open spec fn string_names<X>(entries: Seq<(String, X)>) -> Seq<Seq<char>> {
    Seq::new(entries.len(), |i: int| entries[i].0@)
}

/// Searches a row of pairs for the first entry with the name `key`.
pub fn find_key<X>(entries: &Vec<(String, X)>, key: &str) -> (r: Option<usize>)
    ensures
        match r {
            Some(i) => key_index(string_names(entries@), key@) == Some(i as int) && i
                < entries.len(),
            None => key_index(string_names(entries@), key@) is None,
        },
{
    let wanted = String::from_str(key);
    let mut i: usize = 0;
    while i < entries.len()
        invariant
            i <= entries.len(),
            wanted@ == key@,
            forall|j: int| 0 <= j < i ==> string_names(entries@)[j] != key@,
        decreases entries.len() - i,
    {
        if entries[i].0 == wanted {
            proof {
                lemma_key_index_is(string_names(entries@), key@, i as int);
            }
            return Some(i);
        }
        i += 1;
    }
    proof {
        lemma_key_index_none(string_names(entries@), key@);
    }
    None
}

} // verus!
