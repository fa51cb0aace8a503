//! Association lists keyed by address strings.
//!
//! The persistent byte-keyed store of the host is out of scope here; each
//! contract instead keeps its keyed data in a `KvList`, a vector of entries
//! with pairwise-distinct keys.  `lookup` is the mathematical content of the
//! list; every operation is specified against it.

use vstd::prelude::*;

verus! {

pub struct Entry<V> {
    pub key: String,
    pub value: V,
}

/// No two entries share a key.
pub open spec fn unique_keys<V>(s: Seq<Entry<V>>) -> bool {
    forall|i: int, j: int| 0 <= i < j < s.len() ==> s[i].key@ != s[j].key@
}

/// The value stored under `k`, if any; a later entry shadows an earlier one.
pub open spec fn lookup<V>(s: Seq<Entry<V>>, k: Seq<char>) -> Option<V>
    decreases s.len(),
{
    if s.len() == 0 {
        None
    } else if s.last().key@ == k {
        Some(s.last().value)
    } else {
        lookup(s.drop_last(), k)
    }
}

pub proof fn lemma_lookup_at_index<V>(s: Seq<Entry<V>>, i: int)
    requires
        unique_keys(s),
        0 <= i < s.len(),
    ensures
        lookup(s, s[i].key@) == Some(s[i].value),
    decreases s.len(),
{
    if i < s.len() - 1 {
        assert(s.drop_last()[i] == s[i]);
        lemma_lookup_at_index(s.drop_last(), i);
    }
}

pub proof fn lemma_lookup_absent<V>(s: Seq<Entry<V>>, k: Seq<char>)
    requires
        forall|i: int| 0 <= i < s.len() ==> s[i].key@ != k,
    ensures
        lookup(s, k) is None,
    decreases s.len(),
{
    if s.len() > 0 {
        lemma_lookup_absent(s.drop_last(), k);
    }
}

pub proof fn lemma_lookup_push<V>(s: Seq<Entry<V>>, e: Entry<V>, k: Seq<char>)
    ensures
        lookup(s.push(e), k) == if k == e.key@ {
            Some(e.value)
        } else {
            lookup(s, k)
        },
{
    assert(s.push(e).drop_last() =~= s);
}

pub proof fn lemma_lookup_update<V>(s: Seq<Entry<V>>, i: int, e: Entry<V>, k: Seq<char>)
    requires
        unique_keys(s),
        0 <= i < s.len(),
        e.key@ == s[i].key@,
    ensures
        lookup(s.update(i, e), k) == if k == e.key@ {
            Some(e.value)
        } else {
            lookup(s, k)
        },
    decreases s.len(),
{
    let t = s.update(i, e);
    if i == s.len() - 1 {
        assert(t.last() == e);
        assert(t.drop_last() =~= s.drop_last());
    } else {
        assert(t.last() == s.last());
        assert(t.drop_last() =~= s.drop_last().update(i, e));
        assert(s.drop_last()[i] == s[i]);
        lemma_lookup_update(s.drop_last(), i, e, k);
    }
}

/// A keyed store with pairwise-distinct keys.
pub struct KvList<V> {
    pub entries: Vec<Entry<V>>,
}

impl<V> KvList<V> {
    pub open spec fn wf(self) -> bool {
        unique_keys(self.entries@)
    }

    pub open spec fn spec_lookup(self, k: Seq<char>) -> Option<V> {
        lookup(self.entries@, k)
    }

    pub fn new() -> (r: Self)
        ensures
            r.wf(),
            forall|k: Seq<char>| r.spec_lookup(k) is None,
            r.entries@.len() == 0,
    {
        KvList { entries: Vec::new() }
    }

    /// The position of the entry keyed `k`, if one exists.
    pub fn index_of(&self, k: &String) -> (r: Option<usize>)
        requires
            self.wf(),
        ensures
            match r {
                Some(i) => {
                    &&& i < self.entries@.len()
                    &&& self.entries@[i as int].key@ == k@
                    &&& self.spec_lookup(k@) == Some(self.entries@[i as int].value)
                },
                None => self.spec_lookup(k@) is None,
            },
    {
        let n = self.entries.len();
        for i in 0..n
            invariant
                n == self.entries@.len(),
                self.wf(),
                forall|j: int| 0 <= j < i ==> self.entries@[j].key@ != k@,
        {
            if self.entries[i].key.eq(k) {
                proof {
                    lemma_lookup_at_index(self.entries@, i as int);
                }
                return Some(i);
            }
        }
        proof {
            lemma_lookup_absent(self.entries@, k@);
        }
        None
    }

    /// Stores `value` under `key`, replacing any previous value.  Returns the
    /// position of the replaced entry when one existed.
    pub fn insert(&mut self, key: String, value: V) -> (replaced: Option<usize>)
        requires
            old(self).wf(),
        ensures
            final(self).wf(),
            final(self).spec_lookup(key@) == Some(value),
            forall|k: Seq<char>| k != key@ ==> final(self).spec_lookup(k) == old(
                self,
            ).spec_lookup(k),
            match replaced {
                Some(i) => {
                    &&& i < old(self).entries@.len()
                    &&& old(self).entries@[i as int].key@ == key@
                    &&& final(self).entries@ == old(self).entries@.update(
                        i as int,
                        (Entry { key, value }),
                    )
                },
                None => {
                    &&& old(self).spec_lookup(key@) is None
                    &&& final(self).entries@ == old(self).entries@.push((Entry { key, value }))
                },
            },
    {
        let found = self.index_of(&key);
        match found {
            Some(i) => {
                let ghost s = self.entries@;
                let e = Entry { key, value };
                proof {
                    lemma_lookup_update(s, i as int, e, e.key@);
                }
                self.entries.set(i, e);
                proof {
                    assert forall|k: Seq<char>| k != s[i as int].key@ implies lookup(
                        self.entries@,
                        k,
                    ) == lookup(s, k) by {
                        lemma_lookup_update(s, i as int, self.entries@[i as int], k);
                    }
                }
                Some(i)
            },
            None => {
                let ghost s = self.entries@;
                let e = Entry { key, value };
                self.entries.push(e);
                proof {
                    assert forall|k: Seq<char>| true implies lookup(self.entries@, k) == (if k
                        == s.push(e).last().key@ {
                        Some(s.push(e).last().value)
                    } else {
                        lookup(s, k)
                    }) by {
                        lemma_lookup_push(s, self.entries@.last(), k);
                    }
                    assert forall|i: int, j: int|
                        0 <= i < j < self.entries@.len() implies self.entries@[i].key@
                        != self.entries@[j].key@ by {
                        if j == self.entries@.len() - 1 {
                            assert(lookup(s, s[i].key@) == Some(s[i].value)) by {
                                lemma_lookup_at_index(s, i);
                            }
                        }
                    }
                }
                None
            },
        }
    }
}

impl<V: Copy> KvList<V> {
    /// The value stored under `k`, if any.
    pub fn get(&self, k: &String) -> (r: Option<V>)
        requires
            self.wf(),
        ensures
            r == self.spec_lookup(k@),
    {
        match self.index_of(k) {
            Some(i) => Some(self.entries[i].value),
            None => None,
        }
    }
}

} // verus!
