//! The key store of the plaintext EID implementation: an identity-keyed store
//! for serialized key material. It is an external capability the protocol
//! relies on, not part of the transition system.

use vstd::prelude::*;

use crate::bytes::{bytes_eq, clone_bytes};

verus! {

/// Errors thrown by the key store.
#[derive(Debug, Copy, Clone, PartialEq, Eq, Structural)]
pub enum Error {
    UnsupportedValueTypeBytes,
    UnsupportedMethod,
    SerializationError,
    DeserializationError,
}

impl Error {
    /// The human-readable message of the error.
    pub fn message(&self) -> (r: &'static str) {
        match self {
            Error::UnsupportedValueTypeBytes => "The key store does not allow storing serialized values.",
            Error::UnsupportedMethod => "Updating is not supported by this key store.",
            Error::SerializationError => "Error serializing value.",
            Error::DeserializationError => "Error deserializing value.",
        }
    }
}

/// The contents of a list of entries, key and value as byte strings.
pub open spec fn entries_view(s: Seq<(Vec<u8>, Vec<u8>)>) -> Seq<(Seq<u8>, Seq<u8>)> {
    s.map_values(|e: (Vec<u8>, Vec<u8>)| (e.0@, e.1@))
}

/// The store a list of entries stands for: later entries shadow earlier ones
/// with the same key.
pub open spec fn store_map(entries: Seq<(Seq<u8>, Seq<u8>)>) -> Map<Seq<u8>, Seq<u8>>
    decreases entries.len(),
{
    if entries.len() == 0 {
        Map::empty()
    } else {
        store_map(entries.drop_last()).insert(entries.last().0, entries.last().1)
    }
}

/// The entries of the list whose key is not `k`, in order.
pub open spec fn without_key(entries: Seq<(Seq<u8>, Seq<u8>)>, k: Seq<u8>) -> Seq<
    (Seq<u8>, Seq<u8>),
> {
    entries.filter(|e: (Seq<u8>, Seq<u8>)| e.0 != k)
}

/// Dropping a key distributes over appending one entry.
proof fn lemma_without_key_push(s: Seq<(Seq<u8>, Seq<u8>)>, k: Seq<u8>, e: (Seq<u8>, Seq<u8>))
    ensures
        without_key(s.push(e), k) == if e.0 != k {
            without_key(s, k).push(e)
        } else {
            without_key(s, k)
        },
{
    reveal(Seq::filter);
    assert(s.push(e).drop_last() =~= s);
    assert(s.push(e).last() == e);
}

/// Dropping a key from the empty list leaves it empty.
proof fn lemma_without_key_empty(k: Seq<u8>)
    ensures
        without_key(Seq::<(Seq<u8>, Seq<u8>)>::empty(), k) == Seq::<(Seq<u8>, Seq<u8>)>::empty(),
{
    reveal(Seq::filter);
}

/// A plaintext key-value store for key material, keyed by byte strings. It
/// models a process-wide store: `store` shadows any earlier value of the key,
/// `read` returns the latest one, `delete` drops the key.
pub struct EidDummyKeystore {
    entries: Vec<(Vec<u8>, Vec<u8>)>,
}

impl View for EidDummyKeystore {
    type V = Map<Seq<u8>, Seq<u8>>;

    closed spec fn view(&self) -> Map<Seq<u8>, Seq<u8>> {
        store_map(entries_view(self.entries@))
    }
}

impl Default for EidDummyKeystore {
    /// An empty store.
    fn default() -> (r: Self)
        ensures
            r@ == Map::<Seq<u8>, Seq<u8>>::empty(),
    {
        EidDummyKeystore { entries: Vec::new() }
    }
}

impl EidDummyKeystore {
    /// Store a value under a key, shadowing any earlier value; never fails.
    pub fn store(&mut self, k: &Vec<u8>, v: &Vec<u8>) -> (r: Result<(), Error>)
        ensures
            r is Ok,
            final(self)@ == old(self)@.insert(k@, v@),
    {
        let entry = (clone_bytes(k), clone_bytes(v));
        self.entries.push(entry);
        proof {
            assert(entries_view(self.entries@).drop_last() =~= entries_view(old(self).entries@));
            assert(entries_view(self.entries@).last().0 == k@);
            assert(entries_view(self.entries@).last().1 == v@);
        }
        Ok(())
    }

    /// Read the latest value stored under a key, if any.
    pub fn read(&self, k: &Vec<u8>) -> (r: Option<Vec<u8>>)
        ensures
            match r {
                Some(v) => self@.contains_key(k@) && v@ == self@[k@],
                None => !self@.contains_key(k@),
            },
    {
        let ghost all = entries_view(self.entries@);
        let mut i: usize = self.entries.len();
        proof {
            assert(all.take(all.len() as int) =~= all);
        }
        while i > 0
            invariant
                i <= self.entries@.len(),
                all == entries_view(self.entries@),
                all.len() == self.entries@.len(),
                store_map(all).contains_key(k@) == store_map(all.take(i as int)).contains_key(k@),
                store_map(all).contains_key(k@) ==> store_map(all)[k@] == store_map(
                    all.take(i as int),
                )[k@],
            decreases i,
        {
            i = i - 1;
            proof {
                assert(all.take(i + 1).drop_last() =~= all.take(i as int));
                assert(all.take(i + 1).last() == all[i as int]);
            }
            let entry_key = &self.entries[i].0;
            if bytes_eq(entry_key, k) {
                proof {
                    assert(all[i as int].0 == k@);
                    assert(store_map(all.take(i + 1))[k@] == all[i as int].1);
                }
                return Some(clone_bytes(&self.entries[i].1));
            }
            proof {
                assert(all[i as int].0 != k@);
            }
        }
        proof {
            assert(all.take(0) =~= Seq::<(Seq<u8>, Seq<u8>)>::empty());
        }
        None
    }

    /// Delete every value stored under a key; never fails.
    pub fn delete(&mut self, k: &Vec<u8>) -> (r: Result<(), Error>)
        ensures
            r is Ok,
            final(self)@ == old(self)@.remove(k@),
    {
        let ghost all = entries_view(self.entries@);
        let mut kept: Vec<(Vec<u8>, Vec<u8>)> = Vec::new();
        let mut i: usize = 0;
        proof {
            lemma_without_key_empty(k@);
            assert(all.take(0) =~= Seq::<(Seq<u8>, Seq<u8>)>::empty());
        }
        while i < self.entries.len()
            invariant
                i <= self.entries@.len(),
                all == entries_view(self.entries@),
                all.len() == self.entries@.len(),
                entries_view(kept@) == without_key(all.take(i as int), k@),
            decreases self.entries@.len() - i,
        {
            let ghost prev = all.take(i as int);
            proof {
                assert(all.take(i + 1) =~= prev.push(all[i as int]));
                lemma_without_key_push(prev, k@, all[i as int]);
            }
            let keep = !bytes_eq(&self.entries[i].0, k);
            if keep {
                let entry = (clone_bytes(&self.entries[i].0), clone_bytes(&self.entries[i].1));
                kept.push(entry);
                proof {
                    assert(all[i as int].0 != k@);
                    assert(entries_view(kept@).drop_last() =~= entries_view(kept@.drop_last()));
                    assert(entries_view(kept@).last() == all[i as int]);
                    assert(entries_view(kept@) =~= without_key(all.take(i + 1), k@));
                }
            } else {
                proof {
                    assert(all[i as int].0 == k@);
                }
            }
            i = i + 1;
        }
        proof {
            assert(all.take(all.len() as int) =~= all);
            lemma_store_map_drop_key(all, k@);
        }
        self.entries = kept;
        Ok(())
    }
}

/// Dropping a key's entries from the list removes exactly that key from the
/// store the list stands for.
proof fn lemma_store_map_drop_key(entries: Seq<(Seq<u8>, Seq<u8>)>, k: Seq<u8>)
    ensures
        store_map(without_key(entries, k)) == store_map(entries).remove(k),
    decreases entries.len(),
{
    if entries.len() == 0 {
        lemma_without_key_empty(k);
        assert(store_map(without_key(entries, k)) =~= store_map(entries).remove(k));
    } else {
        let d = entries.drop_last();
        let last = entries.last();
        lemma_store_map_drop_key(d, k);
        assert(d.push(last) =~= entries);
        lemma_without_key_push(d, k, last);
        assert(store_map(entries) == store_map(d).insert(last.0, last.1));
        if last.0 != k {
            let kept_d = without_key(d, k);
            assert(kept_d.push(last).drop_last() =~= kept_d);
            assert(kept_d.push(last).last() == last);
            assert(store_map(kept_d.push(last)) == store_map(kept_d).insert(last.0, last.1));
            assert(store_map(d).remove(k).insert(last.0, last.1) =~= store_map(d).insert(
                last.0,
                last.1,
            ).remove(k));
        } else {
            assert(store_map(d).remove(k) =~= store_map(d).insert(last.0, last.1).remove(k));
        }
    }
}

} // verus!
