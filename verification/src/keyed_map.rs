//! A hash map whose keys are small structured values.
//!
//! The map is a [`std::collections::HashMap`] keyed by an integer code of the
//! key. Contracts speak of its view, a `Map` from keys to values.

use std::collections::hash_map;
use std::collections::HashMap;

use vstd::prelude::*;
use vstd::std_specs::iter::IteratorSpec;

verus! {

broadcast use vstd::std_specs::hash::group_hash_axioms;

/// A key that is determined by an integer code.
pub trait MapKey: Copy {
    /// The code of the key.
    spec fn key_code(self) -> u128;

    /// Two keys with the same code are the same key.
    proof fn key_code_injective(a: Self, b: Self)
        requires
            a.key_code() == b.key_code(),
        ensures
            a == b,
    ;

    /// Computes the code of the key.
    fn code(&self) -> (c: u128)
        ensures
            c == self.key_code(),
    ;
}

/// `s` lists the entries of `m`, each exactly once, in some order.
pub open spec fn enumerates<K, V>(s: Seq<(K, V)>, m: Map<K, V>) -> bool {
    &&& forall|i: int|
        0 <= i < s.len() ==> m.contains_key((#[trigger] s[i]).0) && m[s[i].0] == s[i].1
    &&& forall|i: int, j: int|
        0 <= i < j < s.len() ==> (#[trigger] s[i]).0 != (#[trigger] s[j]).0
    &&& forall|k: K| #[trigger] m.contains_key(k) ==> s.contains((k, m[k]))
}

/// Finitely many codes belong to finitely many keys.
proof fn lemma_finitely_many_keys<K: MapKey>(codes: Set<u128>)
    requires
        codes.finite(),
    ensures
        Set::new(|k: K| codes.contains(k.key_code())).finite(),
    decreases codes.len(),
{
    let keys = Set::new(|k: K| codes.contains(k.key_code()));
    if codes.len() == 0 {
        assert(keys =~= Set::empty());
    } else {
        let c = codes.choose();
        let fewer = Set::new(|k: K| codes.remove(c).contains(k.key_code()));
        lemma_finitely_many_keys::<K>(codes.remove(c));
        if exists|k: K| k.key_code() == c {
            let own = choose|k: K| k.key_code() == c;
            assert forall|k: K| k.key_code() == c implies k == own by {
                K::key_code_injective(k, own);
            }
            assert(keys =~= fewer.insert(own));
        } else {
            assert(keys =~= fewer);
        }
    }
}

/// The entries that a walk over the underlying hash map hands out.
pub open spec fn walked<K, V>(items: Seq<(&u128, &(K, V))>) -> Seq<(K, V)> {
    Seq::new(items.len(), |i: int| *items[i].1)
}

/// A hash map from `K` to `V`.
#[derive(Debug)]
pub struct KeyedMap<K: MapKey, V> {
    entries: HashMap<u128, (K, V)>,
}

impl<K: MapKey, V> View for KeyedMap<K, V> {
    type V = Map<K, V>;

    closed spec fn view(&self) -> Map<K, V> {
        Map::new(
            |k: K| self.entries@.contains_key(k.key_code()),
            |k: K| self.entries@[k.key_code()].1,
        )
    }
}

impl<K: MapKey, V> KeyedMap<K, V> {
    /// Each entry is filed under the code of its own key.
    #[verifier::type_invariant]
    spec fn filed_by_code(self) -> bool {
        forall|c: u128| #[trigger]
            self.entries@.contains_key(c) ==> self.entries@[c].0.key_code() == c
    }

    /// A map lists finitely many keys.
    pub proof fn lemma_finite(self)
        ensures
            self@.dom().finite(),
    {
        lemma_finitely_many_keys::<K>(self.entries@.dom());
        assert(self@.dom() =~= Set::new(
            |k: K| self.entries@.dom().contains(k.key_code()),
        ));
    }

    /// Makes an empty map.
    pub fn new() -> (m: Self)
        ensures
            m@ == Map::<K, V>::empty(),
    {
        let m = KeyedMap { entries: HashMap::new() };
        assert(m@ =~= Map::<K, V>::empty());
        m
    }

    /// Files `value` under `key`, and returns the value that stood there before.
    pub fn insert(&mut self, key: K, value: V) -> (previous: Option<V>)
        ensures
            final(self)@ == old(self)@.insert(key, value),
            previous == (if old(self)@.contains_key(key) {
                Some(old(self)@[key])
            } else {
                None
            }),
    {
        proof {
            use_type_invariant(&*self);
        }
        let mut entries: HashMap<u128, (K, V)> = HashMap::new();
        std::mem::swap(&mut entries, &mut self.entries);
        let previous = entries.insert(key.code(), (key, value));
        self.entries = entries;
        proof {
            assert forall|k: K| k.key_code() == key.key_code() implies k == key by {
                K::key_code_injective(k, key);
            }
            assert(self@ =~= old(self)@.insert(key, value));
        }
        match previous {
            Some(entry) => Some(entry.1),
            None => None,
        }
    }

    /// Looks up the value filed under `key`.
    pub fn get(&self, key: &K) -> (value: Option<&V>)
        ensures
            value == (if self@.contains_key(*key) {
                Some(&self@[*key])
            } else {
                None
            }),
    {
        match self.entries.get(&key.code()) {
            Some(entry) => Some(&entry.1),
            None => None,
        }
    }

    /// Walks over the entries, each once, in no particular order.
    pub(crate) fn iter(&self) -> (it: hash_map::Iter<'_, u128, (K, V)>)
        ensures
            enumerates(walked(it.remaining()), self@),
            it.remaining().len() <= usize::MAX,
            IteratorSpec::decrease(&it) is Some,
            IteratorSpec::initial_value_relation(&it, &it),
            it.obeys_prophetic_iter_laws(),
    {
        proof {
            use_type_invariant(self);
        }
        let size: usize = self.entries.len();
        let it = self.entries.iter();
        proof {
            let items = it.remaining();
            let listed = walked(items);
            assert(size == items.len());
            assert forall|i: int| 0 <= i < listed.len() implies self@.contains_key(
                (#[trigger] listed[i]).0,
            ) && self@[listed[i].0] == listed[i].1 && listed[i].0.key_code() == *items[i].0 by {
                assert(self.entries@.contains_key(*items[i].0));
            }
            assert forall|i: int, j: int| 0 <= i < j < listed.len() implies (#[trigger] listed[i]).0
                != (#[trigger] listed[j]).0 by {
                assert(items[i] != items[j]);
            }
            assert forall|k: K| #[trigger] self@.contains_key(k) implies listed.contains(
                (k, self@[k]),
            ) by {
                let c = k.key_code();
                assert(self.entries@.contains_key(c));
                assert(items.contains((&c, &self.entries@[c])));
                let i = choose|i: int|
                    0 <= i < items.len() && items[i] == (&c, &self.entries@[c]);
                K::key_code_injective(self.entries@[c].0, k);
                assert(listed[i] == (k, self@[k]));
            }
        }
        it
    }
}

impl<K: MapKey, V> Default for KeyedMap<K, V> {
    fn default() -> (m: Self)
        ensures
            m@ == Map::<K, V>::empty(),
    {
        KeyedMap::new()
    }
}

} // verus!
