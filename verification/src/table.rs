//! Records that are kept under a number and an identity.

use vstd::prelude::*;
use crate::pubkey::Pubkey;

verus! {

/// A record with the number and the identity that it is kept under.
#[derive(Clone, Copy, Debug, PartialEq, Eq)]
pub struct Entry<V> {
    pub id: u64,
    pub owner: Pubkey,
    pub value: V,
}

/// Records of one kind, at most one for each pair of a number and an
/// identity.
///
/// Its view is the map from each pair that has a record to that record.
#[derive(Clone, Debug, PartialEq, Eq)]
pub struct Table<V> {
    entries: Vec<Entry<V>>,
}

/// Whether the entry at `at` is the first that is kept under `key`.
pub closed spec fn is_first<V>(entries: Seq<Entry<V>>, key: (u64, Seq<u8>), at: int) -> bool {
    &&& 0 <= at < entries.len()
    &&& (entries[at].id, entries[at].owner@) == key
    &&& forall|j: int| 0 <= j < at ==> (#[trigger] entries[j].id, entries[j].owner@) != key
}

/// The map that the entries stand for: each key goes to the first record
/// that is kept under it.
pub closed spec fn entries_map<V>(entries: Seq<Entry<V>>) -> Map<(u64, Seq<u8>), V> {
    Map::new(
        |key: (u64, Seq<u8>)| exists|at: int| is_first(entries, key, at),
        |key: (u64, Seq<u8>)| entries[choose|at: int| is_first(entries, key, at)].value,
    )
}

proof fn lemma_first_is_unique<V>(entries: Seq<Entry<V>>, key: (u64, Seq<u8>), a: int, b: int)
    requires
        is_first(entries, key, a),
        is_first(entries, key, b),
    ensures
        a == b,
{
    if a < b {
        assert((entries[a].id, entries[a].owner@) != key);
    } else if b < a {
        assert((entries[b].id, entries[b].owner@) != key);
    }
}

proof fn lemma_found<V>(entries: Seq<Entry<V>>, key: (u64, Seq<u8>), at: int)
    requires
        is_first(entries, key, at),
    ensures
        entries_map(entries).contains_key(key),
        entries_map(entries)[key] == entries[at].value,
{
    let chosen = choose|i: int| is_first(entries, key, i);
    lemma_first_is_unique(entries, key, at, chosen);
}

proof fn lemma_absent<V>(entries: Seq<Entry<V>>, key: (u64, Seq<u8>))
    requires
        forall|j: int| 0 <= j < entries.len() ==> (#[trigger] entries[j].id, entries[j].owner@) != key,
    ensures
        !entries_map(entries).contains_key(key),
{
    if exists|at: int| is_first(entries, key, at) {
        let at = choose|at: int| is_first(entries, key, at);
        assert((entries[at].id, entries[at].owner@) != key);
    }
}

proof fn lemma_replaced_elsewhere<V>(
    entries: Seq<Entry<V>>,
    key: (u64, Seq<u8>),
    at: int,
    entry: Entry<V>,
    other: (u64, Seq<u8>),
)
    requires
        is_first(entries, key, at),
        (entry.id, entry.owner@) == key,
        other != key,
    ensures
        entries_map(entries.update(at, entry)).contains_key(other) == entries_map(
            entries,
        ).contains_key(other),
        entries_map(entries).contains_key(other) ==> entries_map(entries.update(at, entry))[other]
            == entries_map(entries)[other],
{
    let after = entries.update(at, entry);
    if entries_map(entries).contains_key(other) {
        let i = choose|i: int| is_first(entries, other, i);
        assert(i != at);
        assert forall|j: int| 0 <= j < i implies (#[trigger] after[j].id, after[j].owner@)
            != other by {
            if j != at {
                assert((entries[j].id, entries[j].owner@) != other);
            }
        }
        assert(is_first(after, other, i));
        lemma_found(after, other, i);
        lemma_found(entries, other, i);
    }
    if entries_map(after).contains_key(other) {
        let i = choose|i: int| is_first(after, other, i);
        assert(i != at);
        assert forall|j: int| 0 <= j < i implies (#[trigger] entries[j].id, entries[j].owner@)
            != other by {
            if j != at {
                assert((after[j].id, after[j].owner@) != other);
            }
        }
        assert(is_first(entries, other, i));
        lemma_found(entries, other, i);
    }
}

proof fn lemma_replaced<V>(entries: Seq<Entry<V>>, key: (u64, Seq<u8>), at: int, entry: Entry<V>)
    requires
        is_first(entries, key, at),
        (entry.id, entry.owner@) == key,
    ensures
        entries_map(entries.update(at, entry)) == entries_map(entries).insert(key, entry.value),
{
    let after = entries.update(at, entry);
    let left = entries_map(after);
    let right = entries_map(entries).insert(key, entry.value);
    assert(is_first(after, key, at));
    lemma_found(after, key, at);
    assert forall|k: (u64, Seq<u8>)| left.dom().contains(k) == right.dom().contains(k) by {
        if k != key {
            lemma_replaced_elsewhere(entries, key, at, entry, k);
        }
    }
    assert forall|k: (u64, Seq<u8>)| left.dom().contains(k) implies left[k] == right[k] by {
        if k != key {
            lemma_replaced_elsewhere(entries, key, at, entry, k);
        }
    }
    assert(left =~= right);
}

proof fn lemma_appended_elsewhere<V>(
    entries: Seq<Entry<V>>,
    key: (u64, Seq<u8>),
    entry: Entry<V>,
    other: (u64, Seq<u8>),
)
    requires
        (entry.id, entry.owner@) == key,
        other != key,
    ensures
        entries_map(entries.push(entry)).contains_key(other) == entries_map(entries).contains_key(
            other,
        ),
        entries_map(entries).contains_key(other) ==> entries_map(entries.push(entry))[other]
            == entries_map(entries)[other],
{
    let after = entries.push(entry);
    let last = entries.len() as int;
    if entries_map(entries).contains_key(other) {
        let i = choose|i: int| is_first(entries, other, i);
        assert forall|j: int| 0 <= j < i implies (#[trigger] after[j].id, after[j].owner@)
            != other by {
            assert((entries[j].id, entries[j].owner@) != other);
        }
        assert(is_first(after, other, i));
        lemma_found(after, other, i);
        lemma_found(entries, other, i);
    }
    if entries_map(after).contains_key(other) {
        let i = choose|i: int| is_first(after, other, i);
        assert(i != last);
        assert forall|j: int| 0 <= j < i implies (#[trigger] entries[j].id, entries[j].owner@)
            != other by {
            assert((after[j].id, after[j].owner@) != other);
        }
        assert(is_first(entries, other, i));
        lemma_found(entries, other, i);
    }
}

proof fn lemma_appended<V>(entries: Seq<Entry<V>>, key: (u64, Seq<u8>), entry: Entry<V>)
    requires
        !entries_map(entries).contains_key(key),
        (entry.id, entry.owner@) == key,
    ensures
        entries_map(entries.push(entry)) == entries_map(entries).insert(key, entry.value),
{
    let after = entries.push(entry);
    let last = entries.len() as int;
    let left = entries_map(after);
    let right = entries_map(entries).insert(key, entry.value);
    assert forall|j: int| 0 <= j < last implies (#[trigger] after[j].id, after[j].owner@)
        != key by {
        if (entries[j].id, entries[j].owner@) == key {
            lemma_has_first(entries, key, j);
        }
    }
    assert(is_first(after, key, last));
    lemma_found(after, key, last);
    assert forall|k: (u64, Seq<u8>)| left.dom().contains(k) == right.dom().contains(k) by {
        if k != key {
            lemma_appended_elsewhere(entries, key, entry, k);
        }
    }
    assert forall|k: (u64, Seq<u8>)| left.dom().contains(k) implies left[k] == right[k] by {
        if k != key {
            lemma_appended_elsewhere(entries, key, entry, k);
        }
    }
    assert(left =~= right);
}

proof fn lemma_has_first<V>(entries: Seq<Entry<V>>, key: (u64, Seq<u8>), at: int)
    requires
        0 <= at < entries.len(),
        (entries[at].id, entries[at].owner@) == key,
    ensures
        entries_map(entries).contains_key(key),
    decreases at,
{
    if forall|j: int| 0 <= j < at ==> (#[trigger] entries[j].id, entries[j].owner@) != key {
        assert(is_first(entries, key, at));
    } else {
        let j = choose|j: int| 0 <= j < at && (#[trigger] entries[j].id, entries[j].owner@) == key;
        lemma_has_first(entries, key, j);
    }
}

impl<V: Copy> View for Table<V> {
    type V = Map<(u64, Seq<u8>), V>;

    closed spec fn view(&self) -> Map<(u64, Seq<u8>), V> {
        entries_map(self.entries@)
    }
}

impl<V: Copy> Table<V> {
    /// The table without a record.
    pub fn new() -> (table: Table<V>)
        ensures
            table@ == Map::<(u64, Seq<u8>), V>::empty(),
    {
        let table = Table { entries: Vec::new() };
        proof {
            assert forall|key: (u64, Seq<u8>)| !table@.contains_key(key) by {
                lemma_absent(table.entries@, key);
            }
            assert(table@ =~= Map::<(u64, Seq<u8>), V>::empty());
        }
        table
    }

    /// Where the record of `id` and `owner` is kept, if there is one.
    fn position(&self, id: u64, owner: &Pubkey) -> (r: Option<usize>)
        ensures
            match r {
                Some(at) => is_first(self.entries@, (id, owner@), at as int),
                None => !self@.contains_key((id, owner@)),
            },
    {
        let n = self.entries.len();
        let mut i: usize = 0;
        while i < n
            invariant
                i <= n,
                n == self.entries@.len(),
                forall|j: int|
                    0 <= j < i ==> (#[trigger] self.entries@[j].id, self.entries@[j].owner@) != (
                        id,
                        owner@,
                    ),
            decreases n - i,
        {
            if self.entries[i].id == id && self.entries[i].owner == *owner {
                return Some(i);
            }
            i += 1;
        }
        proof {
            lemma_absent(self.entries@, (id, owner@));
        }
        None
    }

    /// The record of `id` and `owner`, if there is one.
    pub fn get(&self, id: u64, owner: &Pubkey) -> (r: Option<V>)
        ensures
            r == (if self@.contains_key((id, owner@)) {
                Some(self@[(id, owner@)])
            } else {
                None::<V>
            }),
    {
        match self.position(id, owner) {
            Some(at) => {
                proof {
                    lemma_found(self.entries@, (id, owner@), at as int);
                }
                Some(self.entries[at].value)
            },
            None => None,
        }
    }

    /// Whether there is a record of `id` and `owner`.
    pub fn contains(&self, id: u64, owner: &Pubkey) -> (r: bool)
        ensures
            r == self@.contains_key((id, owner@)),
    {
        match self.position(id, owner) {
            Some(at) => {
                proof {
                    lemma_found(self.entries@, (id, owner@), at as int);
                }
                true
            },
            None => false,
        }
    }

    /// Makes `value` the record of `id` and `owner`.
    pub fn set(&mut self, id: u64, owner: &Pubkey, value: V)
        ensures
            final(self)@ == old(self)@.insert((id, owner@), value),
    {
        let entry = Entry { id, owner: *owner, value };
        match self.position(id, owner) {
            Some(at) => {
                proof {
                    lemma_replaced(self.entries@, (id, owner@), at as int, entry);
                }
                self.entries[at] = entry;
            },
            None => {
                proof {
                    lemma_appended(self.entries@, (id, owner@), entry);
                }
                self.entries.push(entry);
            },
        }
    }
}

} // verus!
