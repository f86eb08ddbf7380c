//! A small map keyed by text that remembers the order of insertion.
//!
//! vstd specifies the standard hash map for keys that are integers; of one
//! whose keys are texts nothing can be proved, and the order in which it is
//! walked changes from run to run. This map is a pair of vectors, with the
//! invariant that a hash map has by construction: no key occurs twice.

use vstd::prelude::*;
use crate::text::same_text;

verus! {

/// The first position at which `k` stands in `keys`, if it stands there.
pub open spec fn first_index(keys: Seq<Seq<char>>, k: Seq<char>) -> Option<int>
    decreases keys.len(),
{
    if keys.len() == 0 {
        None
    } else {
        match first_index(keys.drop_last(), k) {
            Some(i) => Some(i),
            None => if keys.last() == k {
                Some(keys.len() - 1)
            } else {
                None
            },
        }
    }
}

/// No text stands at two positions of `keys`.
pub open spec fn distinct(keys: Seq<Seq<char>>) -> bool {
    forall|i: int, j: int| 0 <= i < j < keys.len() ==> keys[i] != keys[j]
}

/// What `first_index` finds is a position of `k`, and it finds one
/// whenever there is one.
pub proof fn lemma_first_index(keys: Seq<Seq<char>>, k: Seq<char>)
    ensures
        match first_index(keys, k) {
            Some(i) => 0 <= i < keys.len() && keys[i] == k && forall|j: int|
                0 <= j < i ==> keys[j] != k,
            None => forall|j: int| 0 <= j < keys.len() ==> keys[j] != k,
        },
    decreases keys.len(),
{
    if keys.len() > 0 {
        lemma_first_index(keys.drop_last(), k);
        match first_index(keys.drop_last(), k) {
            Some(i) => {
                assert(keys.drop_last()[i] == keys[i]);
                assert forall|j: int| 0 <= j < i implies keys[j] != k by {
                    assert(keys.drop_last()[j] == keys[j]);
                }
            },
            None => {
                assert forall|j: int| 0 <= j < keys.len() - 1 implies keys[j] != k by {
                    assert(keys.drop_last()[j] == keys[j]);
                }
            },
        }
    }
}

/// A map from text to `V` in which the keys keep the order in which they
/// first came.
pub struct NameMap<V> {
    names: Vec<String>,
    values: Vec<V>,
}

impl<V> NameMap<V> {
    /// The keys, in order of insertion.
    pub closed spec fn keys(&self) -> Seq<Seq<char>> {
        self.names.deep_view()
    }

    /// The values, each at the position of its key.
    pub closed spec fn values(&self) -> Seq<V> {
        self.values@
    }

    /// Every key has one value and no key occurs twice.
    pub closed spec fn wf(&self) -> bool {
        &&& self.names.len() == self.values.len()
        &&& distinct(self.keys())
    }

    /// Whether `k` is a key.
    pub open spec fn has(&self, k: Seq<char>) -> bool {
        first_index(self.keys(), k) is Some
    }

    /// The value under `k`.
    pub open spec fn value_of(&self, k: Seq<char>) -> V
        recommends
            self.has(k),
    {
        self.values()[first_index(self.keys(), k)->0]
    }

    /// The value under `k`, if `k` is a key.
    pub open spec fn lookup(&self, k: Seq<char>) -> Option<V> {
        match first_index(self.keys(), k) {
            Some(i) => Some(self.values()[i]),
            None => None,
        }
    }

    /// In a well-formed map the keys are distinct and as many as the values.
    pub proof fn lemma_wf(&self)
        requires
            self.wf(),
        ensures
            self.keys().len() == self.values().len(),
            distinct(self.keys()),
    {
    }

    /// A map without entries.
    pub fn new() -> (m: Self)
        ensures
            m.wf(),
            m.keys() == Seq::<Seq<char>>::empty(),
            m.values() == Seq::<V>::empty(),
            forall|p: Seq<char>| (#[trigger] m.lookup(p)) is None,
    {
        let m = NameMap { names: Vec::new(), values: Vec::new() };
        assert(m.names.deep_view() =~= Seq::<Seq<char>>::empty());
        m
    }

    /// The number of entries.
    pub fn len(&self) -> (n: usize)
        requires
            self.wf(),
        ensures
            n == self.keys().len(),
            n == self.values().len(),
    {
        self.names.len()
    }

    /// The position of `k` among the keys.
    pub fn find(&self, k: &str) -> (r: Option<usize>)
        requires
            self.wf(),
        ensures
            match r {
                Some(i) => first_index(self.keys(), k@) == Some(i as int) && i < self.keys().len(),
                None => first_index(self.keys(), k@) is None,
            },
    {
        let mut i: usize = 0;
        while i < self.names.len()
            invariant
                i <= self.names.len(),
                forall|j: int| 0 <= j < i ==> self.keys()[j] != k@,
            decreases self.names.len() - i,
        {
            if same_text(self.names[i].as_str(), k) {
                proof {
                    assert(self.keys()[i as int] == k@);
                    lemma_first_index(self.keys(), k@);
                }
                return Some(i);
            }
            i += 1;
        }
        proof {
            lemma_first_index(self.keys(), k@);
        }
        None
    }

    /// Whether `k` is a key.
    pub fn contains_key(&self, k: &str) -> (r: bool)
        requires
            self.wf(),
        ensures
            r == self.has(k@),
    {
        self.find(k).is_some()
    }

    /// The value under `k`, if `k` is a key.
    pub fn get(&self, k: &str) -> (r: Option<&V>)
        requires
            self.wf(),
        ensures
            match r {
                Some(v) => self.has(k@) && *v == self.value_of(k@),
                None => !self.has(k@),
            },
            match r {
                Some(v) => self.lookup(k@) == Some(*v),
                None => self.lookup(k@) is None,
            },
    {
        match self.find(k) {
            Some(i) => Some(&self.values[i]),
            None => None,
        }
    }

    /// The key at position `i`.
    pub fn key_at(&self, i: usize) -> (k: &String)
        requires
            self.wf(),
            i < self.keys().len(),
        ensures
            k@ == self.keys()[i as int],
    {
        &self.names[i]
    }

    /// The value at position `i`.
    pub fn value_at(&self, i: usize) -> (v: &V)
        requires
            self.wf(),
            i < self.values().len(),
        ensures
            *v == self.values()[i as int],
    {
        &self.values[i]
    }

    /// Puts `v` under `k`: in place of the value that was there, or as a
    /// new last entry.
    pub fn insert(&mut self, k: String, v: V)
        requires
            old(self).wf(),
        ensures
            final(self).wf(),
            match first_index(old(self).keys(), k@) {
                Some(i) => {
                    &&& final(self).keys() == old(self).keys()
                    &&& final(self).values() == old(self).values().update(i, v)
                },
                None => {
                    &&& final(self).keys() == old(self).keys().push(k@)
                    &&& final(self).values() == old(self).values().push(v)
                },
            },
            forall|p: Seq<char>| #[trigger]
                final(self).lookup(p) == if p == k@ {
                    Some(v)
                } else {
                    old(self).lookup(p)
                },
    {
        match self.find(k.as_str()) {
            Some(i) => {
                self.values[i] = v;
                proof {
                    assert forall|p: Seq<char>| #[trigger]
                        self.lookup(p) == if p == k@ {
                            Some(v)
                        } else {
                            old(self).lookup(p)
                        } by {
                        lemma_first_index(self.keys(), p);
                        lemma_first_index(self.keys(), k@);
                        assert(self.keys() == old(self).keys());
                        assert(self.values() == old(self).values().update(i as int, v));
                    }
                }
            },
            None => {
                proof {
                    lemma_first_index(self.keys(), k@);
                }
                self.names.push(k);
                self.values.push(v);
                assert(self.names.deep_view() =~= old(self).names.deep_view().push(k@));
                proof {
                    assert(self.keys().drop_last() =~= old(self).keys());
                    assert forall|p: Seq<char>| #[trigger]
                        self.lookup(p) == if p == k@ {
                            Some(v)
                        } else {
                            old(self).lookup(p)
                        } by {
                        lemma_first_index(old(self).keys(), p);
                    }
                }
            },
        }
    }

    /// Removes every entry.
    pub fn clear(&mut self)
        ensures
            final(self).wf(),
            final(self).keys() == Seq::<Seq<char>>::empty(),
            final(self).values() == Seq::<V>::empty(),
            forall|p: Seq<char>| (#[trigger] final(self).lookup(p)) is None,
    {
        self.names.clear();
        self.values.clear();
        assert(self.names.deep_view() =~= Seq::<Seq<char>>::empty());
    }
}

} // verus!
