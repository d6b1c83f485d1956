//! A string-keyed map backed by an association vector with unique keys,
//! viewed as a `Map<Seq<char>, V>`. The command registry and the alias table
//! are instances of it.

use vstd::prelude::*;

verus! {

/// First-match lookup in an association sequence.
pub open spec fn assoc_get<V>(es: Seq<(String, V)>, k: Seq<char>) -> Option<V>
    decreases es.len(),
{
    if es.len() == 0 {
        None
    } else if es[0].0@ == k {
        Some(es[0].1)
    } else {
        assoc_get(es.drop_first(), k)
    }
}

/// A map from strings to values, keyed by the strings' character sequences.
pub struct StrMap<V> {
    entries: Vec<(String, V)>,
}

impl<V> StrMap<V> {
    /// No two entries share a key, so first-match lookup is lookup.
    pub closed spec fn wf(self) -> bool {
        forall|i: int, j: int|
            0 <= i < j < self.entries@.len() ==> (#[trigger] self.entries@[i]).0@ != (
            #[trigger] self.entries@[j]).0@
    }

    /// The map this association vector denotes.
    pub closed spec fn view(self) -> Map<Seq<char>, V> {
        Map::new(
            |k: Seq<char>| assoc_get(self.entries@, k) is Some,
            |k: Seq<char>| assoc_get(self.entries@, k)->Some_0,
        )
    }

    /// An empty map.
    pub fn new() -> (m: StrMap<V>)
        ensures
            m.wf(),
            m@ == Map::<Seq<char>, V>::empty(),
    {
        let m = StrMap { entries: Vec::new() };
        proof {
            assert(m@ =~= Map::<Seq<char>, V>::empty());
        }
        m
    }

    /// The stored value under `k`, or nothing.
    pub fn get(&self, k: &str) -> (r: Option<&V>)
        ensures
            match r {
                Some(v) => self@.contains_key(k@) && *v == self@[k@],
                None => !self@.contains_key(k@),
            },
    {
        let n = self.entries.len();
        let mut i: usize = 0;
        while i < n
            invariant
                i <= n,
                n == self.entries@.len(),
                forall|j: int| 0 <= j < i ==> (#[trigger] self.entries@[j]).0@ != k@,
            decreases n - i,
        {
            if crate::strutil::str_eq(self.entries[i].0.as_str(), k) {
                proof {
                    lemma_assoc_get_at(self.entries@, k@, i as int);
                }
                return Some(&self.entries[i].1);
            }
            i = i + 1;
        }
        proof {
            lemma_assoc_get_absent(self.entries@, k@);
        }
        None
    }

    /// Whether a value is stored under `k`.
    pub fn contains(&self, k: &str) -> (r: bool)
        ensures
            r == self@.contains_key(k@),
    {
        self.get(k).is_some()
    }

    /// Stores `v` under `k`, overwriting any existing entry.
    #[verifier::loop_isolation(false)]
    pub fn insert(&mut self, k: String, v: V)
        requires
            old(self).wf(),
        ensures
            final(self).wf(),
            final(self)@ == old(self)@.insert(k@, v),
    {
        let n = self.entries.len();
        let mut i: usize = 0;
        while i < n
            invariant
                i <= n,
                n == self.entries@.len(),
                self.entries@ == old(self).entries@,
                forall|j: int| 0 <= j < i ==> (#[trigger] self.entries@[j]).0@ != k@,
            decreases n - i,
        {
            if crate::strutil::str_eq(self.entries[i].0.as_str(), k.as_str()) {
                let ghost es = self.entries@;
                self.entries.set(i, (k, v));
                proof {
                    assert(es == old(self).entries@);
                    assert forall|a: int, b: int|
                        0 <= a < b < self.entries@.len() implies (
                    #[trigger] self.entries@[a]).0@ != (
                    #[trigger] self.entries@[b]).0@ by {
                        assert(old(self).entries@[a] == es[a]);
                        assert(old(self).entries@[b] == es[b]);
                        assert(es[a].0@ != es[b].0@);
                    }
                    lemma_assoc_get_update(es, i as int, (k, v));
                    assert(self@ =~= old(self)@.insert(k@, v));
                }
                return ;
            }
            i = i + 1;
        }
        let ghost es = self.entries@;
        self.entries.push((k, v));
        proof {
            assert forall|a: int, b: int|
                0 <= a < b < self.entries@.len() implies (
            #[trigger] self.entries@[a]).0@ != (#[trigger] self.entries@[b]).0@ by {
                if b < es.len() {
                    assert(old(self).entries@[a] == es[a]);
                    assert(old(self).entries@[b] == es[b]);
                    assert(es[a].0@ != es[b].0@);
                } else {
                    assert(old(self).entries@[a] == es[a]);
                    assert(self.entries@[b].0@ == k@);
                    assert(es[a].0@ != k@);
                }
            }
            lemma_assoc_get_at(self.entries@, k@, es.len() as int);
            assert forall|k2: Seq<char>| k2 != k@ implies assoc_get(self.entries@, k2)
                == assoc_get(es, k2) by {
                lemma_assoc_get_push_other(es, (k, v), k2);
            }
            assert(self@ =~= old(self)@.insert(k@, v));
        }
    }

    /// Removes the entry under `k`; reports whether one was there.
    #[verifier::loop_isolation(false)]
    pub fn remove(&mut self, k: &str) -> (existed: bool)
        requires
            old(self).wf(),
        ensures
            final(self).wf(),
            existed == old(self)@.contains_key(k@),
            final(self)@ == old(self)@.remove(k@),
    {
        let n = self.entries.len();
        let mut i: usize = 0;
        while i < n
            invariant
                i <= n,
                n == self.entries@.len(),
                self.entries@ == old(self).entries@,
                forall|j: int| 0 <= j < i ==> (#[trigger] self.entries@[j]).0@ != k@,
            decreases n - i,
        {
            if crate::strutil::str_eq(self.entries[i].0.as_str(), k) {
                let ghost es = self.entries@;
                proof {
                    assert(es == old(self).entries@);
                    lemma_assoc_get_at(es, k@, i as int);
                }
                self.entries.remove(i);
                proof {
                    assert forall|a: int, b: int|
                        0 <= a < b < self.entries@.len() implies (
                    #[trigger] self.entries@[a]).0@ != (
                    #[trigger] self.entries@[b]).0@ by {
                        let a0 = if a < i { a } else { a + 1 };
                        let b0 = if b < i { b } else { b + 1 };
                        assert(self.entries@[a] == es[a0]);
                        assert(self.entries@[b] == es[b0]);
                        assert(old(self).entries@[a0] == es[a0]);
                        assert(old(self).entries@[b0] == es[b0]);
                        assert(es[a0].0@ != es[b0].0@);
                    }
                    assert forall|j: int|
                        0 <= j < self.entries@.len() implies (
                    #[trigger] self.entries@[j]).0@ != k@ by {
                        let j0 = if j < i { j } else { j + 1 };
                        assert(self.entries@[j] == es[j0]);
                        if j0 != i {
                            assert(old(self).entries@[j0] == es[j0]);
                            assert(old(self).entries@[i as int] == es[i as int]);
                            assert(es[j0].0@ != es[i as int].0@);
                        }
                    }
                    lemma_assoc_get_absent(self.entries@, k@);
                    assert forall|k2: Seq<char>| k2 != k@ implies assoc_get(
                        self.entries@,
                        k2,
                    ) == assoc_get(es, k2) by {
                        lemma_assoc_get_remove_other(es, i as int, k2);
                    }
                    assert(self@ =~= old(self)@.remove(k@));
                }
                return true;
            }
            i = i + 1;
        }
        proof {
            lemma_assoc_get_absent(self.entries@, k@);
            assert(self@ =~= old(self)@.remove(k@));
        }
        false
    }
}

proof fn lemma_assoc_get_at<V>(es: Seq<(String, V)>, k: Seq<char>, i: int)
    requires
        0 <= i < es.len(),
        es[i].0@ == k,
        forall|j: int| 0 <= j < i ==> (#[trigger] es[j]).0@ != k,
    ensures
        assoc_get(es, k) == Some(es[i].1),
    decreases i,
{
    if i > 0 {
        assert(es[0].0@ != k);
        let tail = es.drop_first();
        assert(tail[i - 1] == es[i]);
        assert forall|j: int| 0 <= j < i - 1 implies (#[trigger] tail[j]).0@ != k by {
            assert(tail[j] == es[j + 1]);
        }
        lemma_assoc_get_at(tail, k, i - 1);
    }
}

proof fn lemma_assoc_get_absent<V>(es: Seq<(String, V)>, k: Seq<char>)
    requires
        forall|j: int| 0 <= j < es.len() ==> (#[trigger] es[j]).0@ != k,
    ensures
        assoc_get(es, k) is None,
    decreases es.len(),
{
    if es.len() > 0 {
        let tail = es.drop_first();
        assert forall|j: int| 0 <= j < tail.len() implies (#[trigger] tail[j]).0@ != k by {
            assert(tail[j] == es[j + 1]);
        }
        lemma_assoc_get_absent(tail, k);
    }
}

proof fn lemma_assoc_get_update<V>(es: Seq<(String, V)>, i: int, e: (String, V))
    requires
        0 <= i < es.len(),
        es[i].0@ == e.0@,
        forall|j: int| 0 <= j < i ==> (#[trigger] es[j]).0@ != e.0@,
    ensures
        forall|k2: Seq<char>|
            #![auto]
            assoc_get(es.update(i, e), k2) == if k2 == e.0@ {
                Some(e.1)
            } else {
                assoc_get(es, k2)
            },
{
    let upd = es.update(i, e);
    assert forall|j: int| 0 <= j < i implies (#[trigger] upd[j]).0@ != e.0@ by {
        assert(upd[j] == es[j]);
    }
    lemma_assoc_get_at(upd, e.0@, i);
    assert forall|k2: Seq<char>| k2 != e.0@ implies assoc_get(upd, k2) == assoc_get(es, k2) by {
        lemma_assoc_get_update_other(es, i, e, k2);
    }
}

proof fn lemma_assoc_get_update_other<V>(es: Seq<(String, V)>, i: int, e: (String, V), k2: Seq<char>)
    requires
        0 <= i < es.len(),
        es[i].0@ == e.0@,
        es[i].0@ != k2,
    ensures
        assoc_get(es.update(i, e), k2) == assoc_get(es, k2),
    decreases i,
{
    let upd = es.update(i, e);
    if i == 0 {
        assert(upd[0].0@ == es[0].0@);
        assert(upd.drop_first() =~= es.drop_first());
    } else {
        assert(upd[0] == es[0]);
        if es[0].0@ != k2 {
            let tail = es.drop_first();
            assert(upd.drop_first() =~= tail.update(i - 1, e));
            lemma_assoc_get_update_other(tail, i - 1, e, k2);
        }
    }
}

proof fn lemma_assoc_get_push_other<V>(es: Seq<(String, V)>, e: (String, V), k2: Seq<char>)
    requires
        e.0@ != k2,
    ensures
        assoc_get(es.push(e), k2) == assoc_get(es, k2),
    decreases es.len(),
{
    if es.len() == 0 {
        assert(es.push(e)[0] == e);
        assert(es.push(e).drop_first() =~= Seq::<(String, V)>::empty());
        assert(assoc_get(es.push(e), k2) is None);
    } else {
        assert(es.push(e)[0] == es[0]);
        if es[0].0@ == k2 {
            assert(assoc_get(es.push(e), k2) == Some(es.push(e)[0].1));
        } else {
            assert(es.push(e).drop_first() =~= es.drop_first().push(e));
            lemma_assoc_get_push_other(es.drop_first(), e, k2);
            assert(assoc_get(es.push(e), k2) == assoc_get(es.push(e).drop_first(), k2));
        }
    }
}

proof fn lemma_assoc_get_remove_other<V>(es: Seq<(String, V)>, i: int, k2: Seq<char>)
    requires
        0 <= i < es.len(),
        es[i].0@ != k2,
    ensures
        assoc_get(es.remove(i), k2) == assoc_get(es, k2),
    decreases i,
{
    let rem = es.remove(i);
    if i == 0 {
        assert(rem =~= es.drop_first());
    } else {
        assert(rem[0] == es[0]);
        if es[0].0@ != k2 {
            assert(rem.drop_first() =~= es.drop_first().remove(i - 1));
            lemma_assoc_get_remove_other(es.drop_first(), i - 1, k2);
        }
    }
}

} // verus!
