//! The process-local challenge store: an association list with unique keys,
//! viewed as a map from key text to challenge records. It provides the
//! put/get/delete contract the challenge lifecycle needs; consumption is a
//! get immediately followed by a delete, so a second attempt on the same
//! key observes "not found".

use vstd::prelude::*;

use crate::challenge::Challenge;
use crate::error::Error;
use crate::text::str_eq;

verus! {

/// The map an entry list denotes: later entries would win, and the store's
/// invariant keeps keys unique so each key has one binding.
pub open spec fn map_of_entries(entries: Seq<(String, Challenge)>) -> Map<Seq<char>, Challenge>
    decreases entries.len(),
{
    if entries.len() == 0 {
        Map::empty()
    } else {
        map_of_entries(entries.drop_last()).insert(entries.last().0@, entries.last().1)
    }
}

/// Keys are pairwise distinct, as character sequences.
pub open spec fn distinct_keys(entries: Seq<(String, Challenge)>) -> bool {
    forall|i: int, j: int|
        0 <= i < j < entries.len() ==> (#[trigger] entries[i]).0@ != (#[trigger] entries[j]).0@
}

/// A key is in the denoted map exactly when some entry holds it.
proof fn lemma_map_of_contains(entries: Seq<(String, Challenge)>, k: Seq<char>)
    ensures
        map_of_entries(entries).contains_key(k) <==> exists|i: int|
            0 <= i < entries.len() && (#[trigger] entries[i]).0@ == k,
    decreases entries.len(),
{
    if entries.len() > 0 {
        lemma_map_of_contains(entries.drop_last(), k);
        if entries.last().0@ != k {
            if map_of_entries(entries).contains_key(k) {
                let i = choose|i: int|
                    0 <= i < entries.drop_last().len() && (#[trigger] entries.drop_last()[i]).0@
                        == k;
                assert(entries[i].0@ == k);
            }
            if exists|i: int| 0 <= i < entries.len() && (#[trigger] entries[i]).0@ == k {
                let i = choose|i: int| 0 <= i < entries.len() && (#[trigger] entries[i]).0@ == k;
                assert(entries.drop_last()[i].0@ == k);
            }
        } else {
            assert(entries[entries.len() - 1].0@ == k);
        }
    }
}

/// With distinct keys, the entry holding a key gives its binding.
proof fn lemma_map_of_index(entries: Seq<(String, Challenge)>, i: int)
    requires
        distinct_keys(entries),
        0 <= i < entries.len(),
    ensures
        map_of_entries(entries).contains_key(entries[i].0@),
        map_of_entries(entries)[entries[i].0@] == entries[i].1,
    decreases entries.len(),
{
    if i < entries.len() - 1 {
        lemma_map_of_index(entries.drop_last(), i);
    }
}

/// Removing the entry that holds a key removes exactly that key.
proof fn lemma_map_of_remove(entries: Seq<(String, Challenge)>, i: int)
    requires
        distinct_keys(entries),
        0 <= i < entries.len(),
    ensures
        distinct_keys(entries.remove(i)),
        map_of_entries(entries.remove(i)) =~= map_of_entries(entries).remove(entries[i].0@),
    decreases entries.len(),
{
    lemma_map_of_contains(entries, entries[i].0@);
    lemma_map_of_contains(entries.remove(i), entries[i].0@);
    if entries.len() > 0 {
        if i == entries.len() - 1 {
            assert(entries.remove(i) =~= entries.drop_last());
            lemma_map_of_contains(entries.drop_last(), entries[i].0@);
            if map_of_entries(entries.drop_last()).contains_key(entries[i].0@) {
                let j = choose|j: int|
                    0 <= j < entries.drop_last().len() && (#[trigger] entries.drop_last()[j]).0@
                        == entries[i].0@;
                assert(entries[j].0@ == entries[i].0@);
                assert(false);
            }
        } else {
            lemma_map_of_remove(entries.drop_last(), i);
            assert(entries.remove(i).drop_last() =~= entries.drop_last().remove(i));
            assert(entries.remove(i).last() == entries.last());
        }
    }
}

/// Updating the entry that holds a key rebinds exactly that key.
proof fn lemma_map_of_update(entries: Seq<(String, Challenge)>, i: int, v: (String, Challenge))
    requires
        distinct_keys(entries),
        0 <= i < entries.len(),
        v.0@ == entries[i].0@,
    ensures
        distinct_keys(entries.update(i, v)),
        map_of_entries(entries.update(i, v)) =~= map_of_entries(entries).insert(v.0@, v.1),
    decreases entries.len(),
{
    if i == entries.len() - 1 {
        assert(entries.update(i, v).drop_last() =~= entries.drop_last());
    } else {
        lemma_map_of_update(entries.drop_last(), i, v);
        assert(entries.update(i, v).drop_last() =~= entries.drop_last().update(i, v));
        assert(entries.update(i, v).last() == entries.last());
        assert(entries.last().0@ != v.0@);
    }
}

/// The contract any challenge backend must satisfy: an upserting `put`, a
/// `get` that reports exactly what a successful `put` left behind, and an
/// idempotent `delete`. A backend may fail (a storage error), but a failed
/// operation leaves the stored contents unchanged. Consumption is a get
/// immediately followed by a delete on the same key.
pub trait ChallengeStore: Sized {
    /// The stored challenges, as a map from key text to records.
    spec fn contents(&self) -> Map<Seq<char>, Challenge>;

    /// The backend's internal invariant.
    spec fn inv(&self) -> bool;

    /// Stores a challenge with the given key, overwriting any previous
    /// binding of that key.
    fn store_challenge(&mut self, key: &str, challenge: &Challenge) -> (r: Result<(), Error>)
        requires
            old(self).inv(),
        ensures
            final(self).inv(),
            r is Ok ==> final(self).contents() == old(self).contents().insert(key@, *challenge),
            r is Err ==> final(self).contents() == old(self).contents(),
    ;

    /// Retrieves the challenge stored under the given key, if any.
    fn retrieve_challenge(&self, key: &str) -> (r: Result<Option<Challenge>, Error>)
        requires
            self.inv(),
        ensures
            r matches Ok(o) ==> ((o is Some <==> self.contents().contains_key(key@)) && (
            o matches Some(c) ==> c == self.contents()[key@])),
    ;

    /// Deletes the challenge stored under the given key; deleting an absent
    /// key is not an error.
    fn delete_challenge(&mut self, key: &str) -> (r: Result<(), Error>)
        requires
            old(self).inv(),
        ensures
            final(self).inv(),
            r is Ok ==> final(self).contents() == old(self).contents().remove(key@),
            r is Err ==> final(self).contents() == old(self).contents(),
    ;
}

/// In-memory challenge store for testing and local serving.
pub struct InMemoryStore {
    entries: Vec<(String, Challenge)>,
}

impl ChallengeStore for InMemoryStore {
    /// The stored challenges: the store's map view.
    open spec fn contents(&self) -> Map<Seq<char>, Challenge> {
        self@
    }

    /// The backend's invariant: the store's well-formedness.
    open spec fn inv(&self) -> bool {
        self.wf()
    }

    fn store_challenge(&mut self, key: &str, challenge: &Challenge) -> (r: Result<(), Error>) {
        self.store(key, challenge)
    }

    fn retrieve_challenge(&self, key: &str) -> (r: Result<Option<Challenge>, Error>) {
        self.retrieve(key)
    }

    fn delete_challenge(&mut self, key: &str) -> (r: Result<(), Error>) {
        self.delete(key)
    }
}

impl View for InMemoryStore {
    type V = Map<Seq<char>, Challenge>;

    /// The store, seen as a map from key text to challenge records.
    closed spec fn view(&self) -> Map<Seq<char>, Challenge> {
        map_of_entries(self.entries@)
    }
}

impl Default for InMemoryStore {
    /// An empty store.
    fn default() -> (r: Self)
        ensures
            r.wf(),
            r@ == Map::<Seq<char>, Challenge>::empty(),
    {
        Self::new()
    }
}

impl InMemoryStore {
    /// The store's invariant: entry keys are pairwise distinct.
    pub closed spec fn wf(self) -> bool {
        distinct_keys(self.entries@)
    }

    /// Creates an empty store.
    pub fn new() -> (r: Self)
        ensures
            r.wf(),
            r@ == Map::<Seq<char>, Challenge>::empty(),
    {
        InMemoryStore { entries: Vec::new() }
    }

    /// The position of the entry holding `key`, if any.
    fn find(&self, key: &str) -> (r: Option<usize>)
        ensures
            match r {
                Some(i) => i < self.entries@.len() && self.entries@[i as int].0@ == key@,
                None => forall|i: int|
                    0 <= i < self.entries@.len() ==> (#[trigger] self.entries@[i]).0@ != key@,
            },
    {
        let n = self.entries.len();
        for i in 0..n
            invariant
                n == self.entries@.len(),
                forall|j: int| 0 <= j < i ==> (#[trigger] self.entries@[j]).0@ != key@,
        {
            if str_eq(self.entries[i].0.as_str(), key) {
                return Some(i);
            }
        }
        None
    }

    /// Stores a challenge under the given key, overwriting any previous
    /// binding of that key.
    pub fn store(&mut self, key: &str, challenge: &Challenge) -> (r: Result<(), Error>)
        requires
            old(self).wf(),
        ensures
            final(self).wf(),
            final(self)@ == old(self)@.insert(key@, *challenge),
            r is Ok,
    {
        let c = challenge.clone();
        match self.find(key) {
            Some(i) => {
                let k = String::from_str(key);
                proof {
                    lemma_map_of_update(self.entries@, i as int, (k, c));
                }
                self.entries.set(i, (k, c));
            },
            None => {
                let k = String::from_str(key);
                proof {
                    assert(self.entries@.push((k, c)).drop_last() =~= self.entries@);
                }
                self.entries.push((k, c));
            },
        }
        Ok(())
    }

    /// Retrieves the challenge stored under the given key, if any.
    pub fn retrieve(&self, key: &str) -> (r: Result<Option<Challenge>, Error>)
        requires
            self.wf(),
        ensures
            r matches Ok(o) && (o is Some <==> self@.contains_key(key@)) && (o matches Some(c)
                ==> c == self@[key@]),
    {
        proof {
            lemma_map_of_contains(self.entries@, key@);
        }
        match self.find(key) {
            Some(i) => {
                proof {
                    lemma_map_of_index(self.entries@, i as int);
                }
                Ok(Some(self.entries[i].1.clone()))
            },
            None => Ok(None),
        }
    }

    /// Deletes the challenge stored under the given key; deleting an absent
    /// key is not an error.
    pub fn delete(&mut self, key: &str) -> (r: Result<(), Error>)
        requires
            old(self).wf(),
        ensures
            final(self).wf(),
            final(self)@ == old(self)@.remove(key@),
            r is Ok,
    {
        proof {
            lemma_map_of_contains(self.entries@, key@);
        }
        match self.find(key) {
            Some(i) => {
                proof {
                    lemma_map_of_remove(self.entries@, i as int);
                }
                self.entries.remove(i);
            },
            None => {
                proof {
                    assert(self@ =~= self@.remove(key@));
                }
            },
        }
        Ok(())
    }
}

} // verus!
