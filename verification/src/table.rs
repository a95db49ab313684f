//! A string-keyed association table, viewed in specifications as a
//! `Map` from key characters to value views.

use vstd::prelude::*;
use vstd::string::*;
use crate::text::str_eq;

verus! {

/// An association table with unique string keys, kept in insertion order.
pub struct Table<V> {
    pub entries: Vec<(String, V)>,
}

/// The map a sequence of key-value pairs denotes; a later pair with the
/// same key would win, though well-formed tables never hold one.
pub open spec fn assoc_view<V: View>(s: Seq<(String, V)>) -> Map<Seq<char>, V::V>
    decreases s.len(),
{
    if s.len() == 0 {
        Map::empty()
    } else {
        assoc_view(s.drop_last()).insert(s.last().0@, s.last().1@)
    }
}

/// No two pairs share a key.
pub open spec fn unique_keys<V>(s: Seq<(String, V)>) -> bool {
    forall|i: int, j: int| 0 <= i < j < s.len() ==> s[i].0@ != s[j].0@
}

impl<V: View> View for Table<V> {
    type V = Map<Seq<char>, V::V>;

    open spec fn view(&self) -> Map<Seq<char>, V::V> {
        assoc_view(self.entries@)
    }
}

/// A key is in the denoted map exactly when some pair holds it.
pub proof fn lemma_assoc_contains<V: View>(s: Seq<(String, V)>, k: Seq<char>)
    ensures
        assoc_view(s).contains_key(k) <==> exists|i: int| 0 <= i < s.len() && s[i].0@ == k,
    decreases s.len(),
{
    if s.len() > 0 {
        lemma_assoc_contains(s.drop_last(), k);
        if assoc_view(s).contains_key(k) {
            if s.last().0@ == k {
                assert(s[s.len() - 1].0@ == k);
            } else {
                let i = choose|i: int| 0 <= i < s.drop_last().len() && s.drop_last()[i].0@ == k;
                assert(s[i].0@ == k);
            }
        }
        if exists|i: int| 0 <= i < s.len() && s[i].0@ == k {
            let i = choose|i: int| 0 <= i < s.len() && s[i].0@ == k;
            if i < s.len() - 1 {
                assert(s.drop_last()[i].0@ == k);
            }
        }
    }
}

/// With unique keys, the pair at index `i` gives the map's value at its key.
pub proof fn lemma_assoc_index<V: View>(s: Seq<(String, V)>, i: int)
    requires
        unique_keys(s),
        0 <= i < s.len(),
    ensures
        assoc_view(s).contains_key(s[i].0@),
        assoc_view(s)[s[i].0@] == s[i].1@,
    decreases s.len(),
{
    if i == s.len() - 1 {
    } else {
        assert(s.drop_last()[i] == s[i]);
        lemma_assoc_index(s.drop_last(), i);
        assert(s[i].0@ != s.last().0@);
    }
}

/// Replacing the pair at index `i` by one with the same key updates the
/// map at that key.
pub proof fn lemma_assoc_update<V: View>(s: Seq<(String, V)>, i: int, p: (String, V))
    requires
        unique_keys(s),
        0 <= i < s.len(),
        p.0@ == s[i].0@,
    ensures
        assoc_view(s.update(i, p)) == assoc_view(s).insert(p.0@, p.1@),
        unique_keys(s.update(i, p)),
    decreases s.len(),
{
    let t = s.update(i, p);
    assert(unique_keys(t));
    if i == s.len() - 1 {
        assert(t.drop_last() =~= s.drop_last());
        assert(t.last() == p);
        assert(assoc_view(s.drop_last()).insert(s.last().0@, s.last().1@).insert(p.0@, p.1@)
            =~= assoc_view(s.drop_last()).insert(p.0@, p.1@));
    } else {
        assert(t.drop_last() =~= s.drop_last().update(i, p));
        assert(t.last() == s.last());
        lemma_assoc_update(s.drop_last(), i, p);
        assert(s[i].0@ != s.last().0@);
        assert(assoc_view(s.drop_last()).insert(p.0@, p.1@).insert(s.last().0@, s.last().1@)
            =~= assoc_view(s.drop_last()).insert(s.last().0@, s.last().1@).insert(p.0@, p.1@));
    }
}

/// Removing the pair at index `i` removes exactly its key from the map.
pub proof fn lemma_assoc_remove<V: View>(s: Seq<(String, V)>, i: int)
    requires
        unique_keys(s),
        0 <= i < s.len(),
    ensures
        assoc_view(s.remove(i)) == assoc_view(s).remove(s[i].0@),
        unique_keys(s.remove(i)),
    decreases s.len(),
{
    let k = s[i].0@;
    let t = s.remove(i);
    assert(forall|a: int| 0 <= a < t.len() ==> t[a] == (if a < i {
        s[a]
    } else {
        s[a + 1]
    }));
    assert(unique_keys(t));
    if i == s.len() - 1 {
        assert(t =~= s.drop_last());
        lemma_assoc_contains(s.drop_last(), k);
        assert(!assoc_view(s.drop_last()).contains_key(k));
        assert(assoc_view(s.drop_last()).insert(k, s.last().1@).remove(k)
            =~= assoc_view(s.drop_last()));
    } else {
        assert(t.drop_last() =~= s.drop_last().remove(i));
        assert(t.last() == s.last());
        assert(s.drop_last()[i] == s[i]);
        lemma_assoc_remove(s.drop_last(), i);
        assert(s[i].0@ != s.last().0@);
        assert(assoc_view(s.drop_last()).remove(k).insert(s.last().0@, s.last().1@)
            =~= assoc_view(s.drop_last()).insert(s.last().0@, s.last().1@).remove(k));
    }
}

/// Appending a pair with a fresh key inserts its key into the map.
pub proof fn lemma_assoc_push<V: View>(s: Seq<(String, V)>, p: (String, V))
    ensures
        assoc_view(s.push(p)) == assoc_view(s).insert(p.0@, p.1@),
{
    assert(s.push(p).drop_last() =~= s);
    assert(s.push(p).last() == p);
}

impl<V: View> Table<V> {
    /// All keys are distinct; every operation preserves this.
    pub open spec fn wf(&self) -> bool {
        unique_keys(self.entries@)
    }

    /// Creates an empty table.
    pub fn new() -> (r: Table<V>)
        ensures
            r.wf(),
            r@ == Map::<Seq<char>, V::V>::empty(),
            r.entries@.len() == 0,
    {
        Table { entries: Vec::new() }
    }

    /// The index of the pair holding key `k`, if any.
    fn index_of(&self, k: &str) -> (r: Option<usize>)
        ensures
            match r {
                Some(i) => i < self.entries@.len() && self.entries@[i as int].0@ == k@,
                None => forall|i: int|
                    0 <= i < self.entries@.len() ==> self.entries@[i].0@ != k@,
            },
    {
        let n = self.entries.len();
        let mut i: usize = 0;
        while i < n
            invariant
                n == self.entries@.len(),
                i <= n,
                forall|j: int| 0 <= j < i ==> self.entries@[j].0@ != k@,
            decreases n - i,
        {
            if str_eq(self.entries[i].0.as_str(), k) {
                return Some(i);
            }
            i = i + 1;
        }
        None
    }

    /// Looks the key up, returning a reference to the stored value.
    /// Returns `Some` exactly when the key is present.
    pub fn get(&self, k: &str) -> (r: Option<&V>)
        requires
            self.wf(),
        ensures
            match r {
                Some(v) => self@.contains_key(k@) && v@ == self@[k@],
                None => !self@.contains_key(k@),
            },
    {
        proof {
            lemma_assoc_contains(self.entries@, k@);
        }
        match self.index_of(k) {
            Some(i) => {
                proof {
                    lemma_assoc_index(self.entries@, i as int);
                }
                Some(&self.entries[i].1)
            },
            None => None,
        }
    }

    /// Binds `k` to `v`, replacing any previous binding in place and
    /// otherwise appending a fresh pair.
    pub fn set(&mut self, k: &str, v: V)
        requires
            old(self).wf(),
        ensures
            final(self).wf(),
            final(self)@ == old(self)@.insert(k@, v@),
    {
        proof {
            lemma_assoc_contains(self.entries@, k@);
        }
        match self.index_of(k) {
            Some(i) => {
                let p = (k.to_owned(), v);
                proof {
                    lemma_assoc_update(self.entries@, i as int, p);
                }
                self.entries[i] = p;
            },
            None => {
                let p = (k.to_owned(), v);
                proof {
                    lemma_assoc_push(self.entries@, p);
                }
                self.entries.push(p);
                proof {
                    lemma_assoc_contains(old(self).entries@, k@);
                    assert(unique_keys(self.entries@));
                }
            },
        }
    }

    /// Drops the binding of `k`; a table without it is left unchanged.
    pub fn remove(&mut self, k: &str)
        requires
            old(self).wf(),
        ensures
            final(self).wf(),
            final(self)@ == old(self)@.remove(k@),
    {
        proof {
            lemma_assoc_contains(self.entries@, k@);
        }
        match self.index_of(k) {
            Some(i) => {
                proof {
                    lemma_assoc_remove(self.entries@, i as int);
                }
                self.entries.remove(i);
            },
            None => {
                proof {
                    assert(self@.remove(k@) =~= self@);
                }
            },
        }
    }
}

} // verus!
