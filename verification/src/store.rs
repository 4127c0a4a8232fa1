//! A small map from addresses to values, kept as a list of entries in which
//! no address occurs twice.

use crate::address::Address;
use vstd::prelude::*;

verus! {

/// Whether entry `i` of `entries` is stored under `key`.
pub open spec fn holds_key<V>(entries: Seq<(Address, V)>, i: int, key: Address) -> bool {
    0 <= i < entries.len() && entries[i].0 == key
}

/// Whether no address occurs twice among `entries`.
pub open spec fn distinct_keys<V>(entries: Seq<(Address, V)>) -> bool {
    forall|i: int, j: int|
        0 <= i < j < entries.len() ==> (#[trigger] entries[i]).0 != (#[trigger] entries[j]).0
}

/// The map that `entries` stand for.
pub open spec fn entries_map<V>(entries: Seq<(Address, V)>) -> Map<Address, V> {
    Map::new(
        |key: Address| exists|i: int| holds_key(entries, i, key),
        |key: Address| entries[choose|i: int| holds_key(entries, i, key)].1,
    )
}

/// With distinct keys, the entry found under a key is the one the map holds.
pub proof fn lemma_entry_is_mapped<V>(entries: Seq<(Address, V)>, i: int)
    requires
        distinct_keys(entries),
        0 <= i < entries.len(),
    ensures
        entries_map(entries).contains_key(entries[i].0),
        entries_map(entries)[entries[i].0] == entries[i].1,
{
    let key = entries[i].0;
    assert(holds_key(entries, i, key));
    let chosen = choose|c: int| holds_key(entries, c, key);
    assert(holds_key(entries, chosen, key));
    assert(chosen == i);
}

/// Replacing the value of entry `i` is an insertion under that entry's key.
pub proof fn lemma_update_is_insert<V>(entries: Seq<(Address, V)>, i: int, value: V)
    requires
        distinct_keys(entries),
        0 <= i < entries.len(),
    ensures
        distinct_keys(entries.update(i, (entries[i].0, value))),
        entries_map(entries.update(i, (entries[i].0, value))) == entries_map(entries).insert(
            entries[i].0,
            value,
        ),
{
    let key = entries[i].0;
    let after = entries.update(i, (key, value));
    assert forall|a: int, b: int| 0 <= a < b < after.len() implies (#[trigger] after[a]).0 != (
    #[trigger] after[b]).0 by {
        assert(after[a].0 == entries[a].0);
        assert(after[b].0 == entries[b].0);
    }
    let lhs = entries_map(after);
    let rhs = entries_map(entries).insert(key, value);
    assert forall|k: Address| lhs.contains_key(k) <==> rhs.contains_key(k) by {
        if lhs.contains_key(k) {
            let c = choose|c: int| holds_key(after, c, k);
            assert(holds_key(entries, c, k));
        }
        if rhs.contains_key(k) {
            if k == key {
                assert(holds_key(after, i, k));
            } else {
                let c = choose|c: int| holds_key(entries, c, k);
                assert(holds_key(after, c, k));
            }
        }
    }
    assert forall|k: Address| lhs.contains_key(k) implies lhs[k] == rhs[k] by {
        let c = choose|c: int| holds_key(after, c, k);
        assert(holds_key(after, c, k));
        lemma_entry_is_mapped(after, c);
        if k != key {
            assert(c != i);
            lemma_entry_is_mapped(entries, c);
        } else {
            lemma_entry_is_mapped(after, i);
        }
    }
    assert(lhs =~= rhs);
}

/// Appending an entry under a key that is not yet stored is an insertion.
pub proof fn lemma_push_is_insert<V>(entries: Seq<(Address, V)>, key: Address, value: V)
    requires
        distinct_keys(entries),
        forall|i: int| 0 <= i < entries.len() ==> (#[trigger] entries[i]).0 != key,
    ensures
        distinct_keys(entries.push((key, value))),
        entries_map(entries.push((key, value))) == entries_map(entries).insert(key, value),
{
    let after = entries.push((key, value));
    let last = entries.len() as int;
    assert forall|a: int, b: int| 0 <= a < b < after.len() implies (#[trigger] after[a]).0 != (
    #[trigger] after[b]).0 by {
        assert(after[a] == entries[a]);
        if b < last {
            assert(after[b] == entries[b]);
        }
    }
    let lhs = entries_map(after);
    let rhs = entries_map(entries).insert(key, value);
    assert forall|k: Address| lhs.contains_key(k) <==> rhs.contains_key(k) by {
        if lhs.contains_key(k) {
            let c = choose|c: int| holds_key(after, c, k);
            if c < last {
                assert(after[c] == entries[c]);
                assert(holds_key(entries, c, k));
            }
        }
        if rhs.contains_key(k) {
            if k == key {
                assert(holds_key(after, last, k));
            } else {
                let c = choose|c: int| holds_key(entries, c, k);
                assert(after[c] == entries[c]);
                assert(holds_key(after, c, k));
            }
        }
    }
    assert forall|k: Address| lhs.contains_key(k) implies lhs[k] == rhs[k] by {
        let c = choose|c: int| holds_key(after, c, k);
        assert(holds_key(after, c, k));
        lemma_entry_is_mapped(after, c);
        if c < last {
            assert(after[c] == entries[c]);
            lemma_entry_is_mapped(entries, c);
        }
    }
    assert(lhs =~= rhs);
}

/// A map from addresses to values.
pub struct AddressMap<V> {
    entries: Vec<(Address, V)>,
}

impl<V> View for AddressMap<V> {
    type V = Map<Address, V>;

    closed spec fn view(&self) -> Map<Address, V> {
        entries_map(self.entries@)
    }
}

impl<V> AddressMap<V> {
    #[verifier::type_invariant]
    spec fn well_formed(self) -> bool {
        distinct_keys(self.entries@)
    }
}

impl<V: Copy> AddressMap<V> {
    /// The empty map.
    pub fn new() -> (map: Self)
        ensures
            map@ == Map::<Address, V>::empty(),
    {
        let map = AddressMap { entries: Vec::new() };
        assert(map@ =~= Map::<Address, V>::empty());
        map
    }

    /// The index of the entry stored under `key`, if there is one.
    fn position(&self, key: &Address) -> (found: Option<usize>)
        ensures
            found matches Some(i) ==> holds_key(self.entries@, i as int, *key),
            found is None ==> forall|i: int|
                0 <= i < self.entries@.len() ==> (#[trigger] self.entries@[i]).0 != *key,
    {
        let mut i: usize = 0;
        while i < self.entries.len()
            invariant
                i <= self.entries@.len(),
                forall|j: int| 0 <= j < i ==> (#[trigger] self.entries@[j]).0 != *key,
            decreases self.entries@.len() - i,
        {
            if self.entries[i].0.same(key) {
                return Some(i);
            }
            i += 1;
        }
        None
    }

    /// The value stored under `key`, if there is one.
    pub fn get(&self, key: &Address) -> (value: Option<V>)
        ensures
            value == (if self@.contains_key(*key) {
                Some(self@[*key])
            } else {
                None
            }),
    {
        proof {
            use_type_invariant(self);
        }
        match self.position(key) {
            Some(i) => {
                proof {
                    lemma_entry_is_mapped(self.entries@, i as int);
                }
                Some(self.entries[i].1)
            },
            None => {
                assert(!self@.contains_key(*key)) by {
                    if self@.contains_key(*key) {
                        let c = choose|c: int| holds_key(self.entries@, c, *key);
                        assert(holds_key(self.entries@, c, *key));
                    }
                }
                None
            },
        }
    }

    /// Stores `value` under `key`, in place of what was stored there.
    pub fn insert(&mut self, key: Address, value: V)
        ensures
            final(self)@ == old(self)@.insert(key, value),
    {
        proof {
            use_type_invariant(&*self);
        }
        let found = self.position(&key);
        let mut entries: Vec<(Address, V)> = Vec::new();
        core::mem::swap(&mut self.entries, &mut entries);
        match found {
            Some(i) => {
                proof {
                    lemma_update_is_insert(entries@, i as int, value);
                }
                entries.set(i, (key, value));
            },
            None => {
                proof {
                    lemma_push_is_insert(entries@, key, value);
                }
                entries.push((key, value));
            },
        }
        self.entries = entries;
    }
}

} // verus!
