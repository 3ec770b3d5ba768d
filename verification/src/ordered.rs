//! The ordered key-value store: what it holds, as a sequence of entries, and
//! the `indexmap` calls that fill and read it.

use crate::text::newline;
use indexmap::IndexMap;
use vstd::prelude::*;

verus! {

/// Entries in their order: each a key with the text of its value.
pub type Entries = Seq<(Seq<char>, Seq<char>)>;

/// No two entries share a key.
pub open spec fn unique_keys(entries: Entries) -> bool {
    forall|i: int, j: int|
        0 <= i < j < entries.len() ==> (#[trigger] entries[i]).0 != (#[trigger] entries[j]).0
}

/// The place of the first entry under `key`.
pub open spec fn position(entries: Entries, key: Seq<char>) -> Option<int>
    decreases entries.len(),
{
    if entries.len() == 0 {
        None
    } else {
        match position(entries.drop_last(), key) {
            Some(i) => Some(i),
            None => if entries.last().0 == key {
                Some(entries.len() - 1)
            } else {
                None
            },
        }
    }
}

/// The value under `key`.
pub open spec fn value_of(entries: Entries, key: Seq<char>) -> Option<Seq<char>> {
    match position(entries, key) {
        Some(i) => Some(entries[i].1),
        None => None,
    }
}

/// `entries` after `value` was put under `key`: an entry under that key keeps
/// its place and takes the value, a new key goes last.
pub open spec fn upsert(entries: Entries, key: Seq<char>, value: Seq<char>) -> Entries {
    match position(entries, key) {
        Some(i) => entries.update(i, (key, value)),
        None => entries.push((key, value)),
    }
}

/// `base` after each entry of `extra` was put into it, in order.
pub open spec fn merge(base: Entries, extra: Entries) -> Entries
    decreases extra.len(),
{
    if extra.len() == 0 {
        base
    } else {
        upsert(merge(base, extra.drop_last()), extra.last().0, extra.last().1)
    }
}

/// The line that shows one entry.
pub open spec fn line(entry: (Seq<char>, Seq<char>)) -> Seq<char> {
    entry.0 + seq![':', ' '] + entry.1 + newline()
}

/// One line for each entry, in order.
pub open spec fn lines(entries: Entries) -> Seq<char>
    decreases entries.len(),
{
    if entries.len() == 0 {
        Seq::empty()
    } else {
        lines(entries.drop_last()) + line(entries.last())
    }
}

/// `position` finds the first entry under the key, and finds none only where
/// there is none.
pub proof fn position_is_first(entries: Entries, key: Seq<char>)
    ensures
        match position(entries, key) {
            Some(i) => {
                &&& 0 <= i < entries.len()
                &&& entries[i].0 == key
                &&& forall|j: int| 0 <= j < i ==> (#[trigger] entries[j]).0 != key
            },
            None => forall|j: int| 0 <= j < entries.len() ==> (#[trigger] entries[j]).0 != key,
        },
    decreases entries.len(),
{
    if entries.len() > 0 {
        let front = entries.drop_last();
        position_is_first(front, key);
        assert(forall|j: int| 0 <= j < front.len() ==> front[j] == entries[j]);
    }
}

/// Putting a value under a key keeps the keys unique.
pub proof fn upsert_keeps_keys_unique(entries: Entries, key: Seq<char>, value: Seq<char>)
    requires
        unique_keys(entries),
    ensures
        unique_keys(upsert(entries, key, value)),
{
    position_is_first(entries, key);
}

/// Putting a value under a key that is present keeps the key's place and the
/// number of entries; under a new key it adds one entry, last. Either way the
/// key then holds the value.
pub proof fn upsert_places_value(entries: Entries, key: Seq<char>, value: Seq<char>)
    ensures
        position(entries, key) is Some ==> {
            &&& position(upsert(entries, key, value), key) == position(entries, key)
            &&& upsert(entries, key, value).len() == entries.len()
        },
        position(entries, key) is None ==> {
            &&& position(upsert(entries, key, value), key) == Some(entries.len() as int)
            &&& upsert(entries, key, value) == entries.push((key, value))
        },
        value_of(upsert(entries, key, value), key) == Some(value),
{
    let after = upsert(entries, key, value);
    position_is_first(entries, key);
    position_is_first(after, key);
    if let Some(i) = position(entries, key) {
        assert(after[i].0 == key);
    }
}

/// Putting a value under a key leaves every other key in its place with its
/// value.
pub proof fn upsert_leaves_others(
    entries: Entries,
    key: Seq<char>,
    value: Seq<char>,
    other: Seq<char>,
)
    requires
        other != key,
    ensures
        position(upsert(entries, key, value), other) == position(entries, other),
        value_of(upsert(entries, key, value), other) == value_of(entries, other),
{
    let after = upsert(entries, key, value);
    position_is_first(entries, key);
    position_is_first(entries, other);
    position_is_first(after, other);
    assert(forall|j: int|
        0 <= j < entries.len() ==> ((#[trigger] after[j]).0 == other <==> entries[j].0 == other));
    assert(forall|j: int|
        0 <= j < entries.len() && entries[j].0 == other ==> #[trigger] after[j] == entries[j]);
    if let Some(i) = position(entries, other) {
        assert(after[i].0 == other);
    }
}

/// Merging keeps the keys unique.
pub proof fn merge_keeps_keys_unique(base: Entries, extra: Entries)
    requires
        unique_keys(base),
    ensures
        unique_keys(merge(base, extra)),
    decreases extra.len(),
{
    if extra.len() > 0 {
        merge_keeps_keys_unique(base, extra.drop_last());
        upsert_keeps_keys_unique(
            merge(base, extra.drop_last()),
            extra.last().0,
            extra.last().1,
        );
    }
}

/// Merging loses nothing and invents nothing: a key is present afterwards
/// exactly if either side held it; a key of `base` keeps its place; a key
/// that `extra` holds takes the value from there, and every other key keeps
/// its value.
pub proof fn merge_is_cumulative(base: Entries, extra: Entries, key: Seq<char>)
    requires
        unique_keys(extra),
    ensures
        position(merge(base, extra), key) is Some <==> position(base, key) is Some || position(
            extra,
            key,
        ) is Some,
        position(base, key) is Some ==> position(merge(base, extra), key) == position(base, key),
        merge(base, extra).len() >= base.len(),
        value_of(merge(base, extra), key) == match value_of(extra, key) {
            Some(value) => Some(value),
            None => value_of(base, key),
        },
    decreases extra.len(),
{
    if extra.len() > 0 {
        let front = extra.drop_last();
        let last = extra.last();
        let before = merge(base, front);
        merge_is_cumulative(base, front, key);
        position_is_first(front, key);
        position_is_first(extra, key);
        upsert_places_value(before, last.0, last.1);
        if key != last.0 {
            upsert_leaves_others(before, last.0, last.1, key);
        }
    }
}

/// `indexmap::IndexMap`, held as it is: nothing inside it is read here but
/// through the calls below.
#[verifier::external_type_specification]
#[verifier::external_body]
#[verifier::reject_recursive_types(K)]
#[verifier::reject_recursive_types(V)]
#[verifier::reject_recursive_types(S)]
pub struct ExIndexMap<K, V, S>(IndexMap<K, V, S>);

/// What a map holds: its entries in the order in which `IndexMap` keeps and
/// walks them, each key and value by its characters. Keys are compared as
/// `str` compares them, by their characters.
pub uninterp spec fn entries(map: IndexMap<&'static str, String>) -> Entries;

/// `IndexMap::new`: a map that holds nothing.
#[verifier::external_body]
pub(crate) fn map_new() -> (map: IndexMap<&'static str, String>)
    ensures
        entries(map) == Seq::<(Seq<char>, Seq<char>)>::empty(),
{
    IndexMap::new()
}

/// `IndexMap::clone`: a map with the same entries in the same order.
#[verifier::external_body]
pub(crate) fn map_clone(map: &IndexMap<&'static str, String>) -> (copy: IndexMap<
    &'static str,
    String,
>)
    ensures
        entries(copy) == entries(*map),
{
    map.clone()
}

/// `IndexMap::is_empty`: whether the map holds no entry.
#[verifier::external_body]
pub(crate) fn map_is_empty(map: &IndexMap<&'static str, String>) -> (empty: bool)
    ensures
        empty == (entries(*map).len() == 0),
{
    map.is_empty()
}

/// `IndexMap::insert`: an equal key keeps its place and takes the new value;
/// a new key goes last.
#[verifier::external_body]
pub(crate) fn map_insert(map: &mut IndexMap<&'static str, String>, key: &'static str, value: String)
    ensures
        entries(*final(map)) == upsert(entries(*old(map)), key@, value@),
{
    map.insert(key, value);
}

/// `IndexMap::extend`: the same as inserting each entry of `extra`, in its
/// order.
#[verifier::external_body]
pub(crate) fn map_extend(
    map: &mut IndexMap<&'static str, String>,
    extra: IndexMap<&'static str, String>,
)
    ensures
        entries(*final(map)) == merge(entries(*old(map)), entries(extra)),
{
    map.extend(extra);
}

/// `IndexMap::iter`: the entries in their order.
#[verifier::external_body]
pub(crate) fn map_iter<'a>(map: &'a IndexMap<&'static str, String>) -> (items: Vec<
    (&'static str, &'a String),
>)
    ensures
        items.len() == entries(*map).len(),
        forall|i: int|
            0 <= i < items.len() ==> ((#[trigger] items[i]).0@, items[i].1@) == entries(*map)[i],
{
    map.iter().map(|(key, value)| (*key, value)).collect()
}

} // verus!
