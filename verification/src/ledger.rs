use crate::account::AccountId;
use vstd::prelude::*;

verus! {

/// The association that a sequence of (identity, amount) entries describes,
/// as a mathematical map: later entries shadow earlier ones with the same
/// key. The ledger keeps its keys pairwise distinct, so each key's value is
/// simply the amount stored beside it.
pub open spec fn map_of(entries: Seq<(AccountId, u128)>) -> Map<AccountId, u128>
    decreases entries.len(),
{
    if entries.len() == 0 {
        Map::empty()
    } else {
        map_of(entries.drop_last()).insert(entries.last().0, entries.last().1)
    }
}

/// No two entries of the sequence carry the same identity.
pub open spec fn keys_unique(entries: Seq<(AccountId, u128)>) -> bool {
    forall|i: int, j: int|
        0 <= i < j < entries.len() ==> (#[trigger] entries[i]).0 != (#[trigger] entries[j]).0
}

/// A key that occurs beside no entry is absent from the map.
proof fn lemma_map_of_absent(entries: Seq<(AccountId, u128)>, key: AccountId)
    requires
        forall|j: int| 0 <= j < entries.len() ==> (#[trigger] entries[j]).0 != key,
    ensures
        !map_of(entries).contains_key(key),
    decreases entries.len(),
{
    if entries.len() > 0 {
        lemma_map_of_absent(entries.drop_last(), key);
        assert(entries[entries.len() - 1].0 != key);
    }
}

/// The map holds, for `key`, the amount of its last entry with that key.
proof fn lemma_map_of_found(entries: Seq<(AccountId, u128)>, key: AccountId, i: int)
    requires
        0 <= i < entries.len(),
        entries[i].0 == key,
        forall|j: int| i < j < entries.len() ==> (#[trigger] entries[j]).0 != key,
    ensures
        map_of(entries).contains_key(key),
        map_of(entries)[key] == entries[i].1,
    decreases entries.len(),
{
    if i < entries.len() - 1 {
        lemma_map_of_found(entries.drop_last(), key, i);
        assert(entries[entries.len() - 1].0 != key);
    }
}

/// Overwriting the one entry that carries `key` updates the map at `key`.
proof fn lemma_map_of_update(entries: Seq<(AccountId, u128)>, i: int, key: AccountId, bal: u128)
    requires
        keys_unique(entries),
        0 <= i < entries.len(),
        entries[i].0 == key,
    ensures
        map_of(entries.update(i, (key, bal))) == map_of(entries).insert(key, bal),
    decreases entries.len(),
{
    let updated = entries.update(i, (key, bal));
    if i == entries.len() - 1 {
        assert(updated.drop_last() =~= entries.drop_last());
        assert(map_of(updated) =~= map_of(entries).insert(key, bal));
    } else {
        assert(updated.drop_last() =~= entries.drop_last().update(i, (key, bal)));
        lemma_map_of_update(entries.drop_last(), i, key, bal);
        assert(entries.last().0 != key);
        assert(map_of(updated) =~= map_of(entries).insert(key, bal));
    }
}

/// Appending an entry with a fresh key inserts it into the map.
proof fn lemma_map_of_push(entries: Seq<(AccountId, u128)>, key: AccountId, bal: u128)
    ensures
        map_of(entries.push((key, bal))) == map_of(entries).insert(key, bal),
{
    assert(entries.push((key, bal)).drop_last() =~= entries);
    assert(entries.push((key, bal)).last() == (key, bal));
}

/// The identity-keyed balance store: insert-or-overwrite and lookup, seen
/// through a `Map` view. Entries are kept with pairwise-distinct keys.
pub struct Ledger {
    entries: Vec<(AccountId, u128)>,
}

impl View for Ledger {
    type V = Map<AccountId, u128>;

    closed spec fn view(&self) -> Map<AccountId, u128> {
        map_of(self.entries@)
    }
}

impl Ledger {
    #[verifier::type_invariant]
    closed spec fn wf(self) -> bool {
        keys_unique(self.entries@)
    }

    /// An empty ledger: no identity has an amount.
    pub fn new() -> (r: Ledger)
        ensures
            r@ == Map::<AccountId, u128>::empty(),
    {
        Ledger { entries: Vec::new() }
    }

    /// The index of the entry carrying `key`, if one does.
    fn index_of(entries: &Vec<(AccountId, u128)>, key: AccountId) -> (r: Option<usize>)
        ensures
            r matches Some(i) ==> i < entries@.len() && entries@[i as int].0 == key,
            r is None ==> forall|j: int|
                0 <= j < entries@.len() ==> (#[trigger] entries@[j]).0 != key,
    {
        let n = entries.len();
        let mut i: usize = 0;
        while i < n
            invariant
                i <= n,
                n == entries@.len(),
                forall|j: int| 0 <= j < i ==> (#[trigger] entries@[j]).0 != key,
            decreases n - i,
        {
            if entries[i].0 == key {
                return Some(i);
            }
            i = i + 1;
        }
        None
    }

    /// Store `bal` under `key`, overwriting any amount stored before.
    pub fn insert(&mut self, key: AccountId, bal: u128)
        ensures
            final(self)@ == old(self)@.insert(key, bal),
    {
        proof {
            use_type_invariant(&*self);
        }
        let mut entries: Vec<(AccountId, u128)> = Vec::new();
        core::mem::swap(&mut entries, &mut self.entries);
        let ghost orig = entries@;
        match Self::index_of(&entries, key) {
            Some(i) => {
                entries[i] = (key, bal);
                proof {
                    lemma_map_of_update(orig, i as int, key, bal);
                    assert forall|p: int, q: int|
                        0 <= p < q < entries@.len() implies (#[trigger] entries@[p]).0 != (
                    #[trigger] entries@[q]).0 by {
                        assert(entries@[p].0 == orig[p].0);
                        assert(entries@[q].0 == orig[q].0);
                    }
                }
            },
            None => {
                entries.push((key, bal));
                proof {
                    lemma_map_of_push(orig, key, bal);
                    assert forall|p: int, q: int|
                        0 <= p < q < entries@.len() implies (#[trigger] entries@[p]).0 != (
                    #[trigger] entries@[q]).0 by {
                        if q < orig.len() {
                            assert(orig[p].0 != orig[q].0);
                        } else {
                            assert(orig[p].0 != key);
                        }
                    }
                }
            },
        }
        self.entries = entries;
    }

    /// The amount stored under `key`, or nothing when no entry carries it.
    pub fn get(&self, key: AccountId) -> (r: Option<u128>)
        ensures
            r == (if self@.contains_key(key) {
                Some(self@[key])
            } else {
                None::<u128>
            }),
    {
        proof {
            use_type_invariant(&*self);
        }
        match Self::index_of(&self.entries, key) {
            Some(i) => {
                proof {
                    assert forall|j: int|
                        i < j < self.entries@.len() implies (#[trigger] self.entries@[j]).0
                        != key by {
                        assert(self.entries@[i as int].0 != self.entries@[j].0);
                    }
                    lemma_map_of_found(self.entries@, key, i as int);
                }
                Some(self.entries[i].1)
            },
            None => {
                proof {
                    lemma_map_of_absent(self.entries@, key);
                }
                None
            },
        }
    }
}

} // verus!
