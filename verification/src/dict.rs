//! A name-keyed map stored as a vector of pairs with pairwise distinct
//! keys. Specifications see it as a `Map<Seq<char>, _>`; listing
//! operations additionally see the stored order through `key_at` /
//! `value_at`.

use vstd::prelude::*;
use vstd::pervasive::VecAdditionalExecFns;
use crate::strutil::str_eq;

verus! {

/// A map from names to values.
pub struct Dict<V> {
    pairs: Vec<(String, V)>,
}

/// A map with every pair whose value equals `gone` dropped.
pub open spec fn scrub_map(m: Map<Seq<char>, Seq<char>>, gone: Seq<char>) -> Map<
    Seq<char>,
    Seq<char>,
> {
    Map::new(|k: Seq<char>| m.contains_key(k) && m[k] != gone, |k: Seq<char>| m[k])
}

impl<V: View> Dict<V> {
    /// The stored pairs, in order.
    pub closed spec fn entries(&self) -> Seq<(String, V)> {
        self.pairs@
    }

    /// Keys are pairwise distinct.
    pub open spec fn wf(&self) -> bool {
        forall|i: int, j: int|
            0 <= i < j < self.entries().len() ==> self.entries()[i].0@ != self.entries()[j].0@
    }

    /// Whether some pair holds key `k`.
    pub open spec fn spec_contains(&self, k: Seq<char>) -> bool {
        exists|i: int| 0 <= i < self.entries().len() && self.entries()[i].0@ == k
    }

    /// The index of the pair holding key `k`.
    pub open spec fn index_of(&self, k: Seq<char>) -> int {
        choose|i: int| 0 <= i < self.entries().len() && self.entries()[i].0@ == k
    }

    /// The value stored under key `k`.
    pub open spec fn spec_at(&self, k: Seq<char>) -> V {
        self.entries()[self.index_of(k)].1
    }
}

impl<V: View> View for Dict<V> {
    type V = Map<Seq<char>, V::V>;

    open spec fn view(&self) -> Map<Seq<char>, V::V> {
        Map::new(|k: Seq<char>| self.spec_contains(k), |k: Seq<char>| self.spec_at(k)@)
    }
}

/// Whether some pair of `s` holds key `k`.
pub open spec fn pairs_has_key(s: Seq<(String, String)>, k: Seq<char>) -> bool {
    exists|i: int| 0 <= i < s.len() && s[i].0@ == k
}

/// The map a listing of (key, value) pairs denotes.
pub open spec fn pairs_map(s: Seq<(String, String)>) -> Map<Seq<char>, Seq<char>> {
    Map::new(
        |k: Seq<char>| pairs_has_key(s, k),
        |k: Seq<char>| s[choose|i: int| 0 <= i < s.len() && s[i].0@ == k].1@,
    )
}

/// A pair listing that matches a dictionary's entries pointwise denotes
/// that dictionary's map.
pub proof fn lemma_pairs_map_of_entries(d: Dict<String>, v: Seq<(String, String)>)
    requires
        d.wf(),
        v.len() == d.entries().len(),
        forall|i: int|
            0 <= i < v.len() ==> v[i].0@ == d.entries()[i].0@ && v[i].1@ == d.entries()[i].1@,
    ensures
        pairs_map(v) == d@,
{
    assert(pairs_map(v) =~= d@) by {
        assert forall|k: Seq<char>| #[trigger] pairs_map(v).contains_key(k)
            implies d@.contains_key(k) && pairs_map(v)[k] == d@[k] by {
            let j = choose|i: int| 0 <= i < v.len() && v[i].0@ == k;
            assert(d.entries()[j].0@ == k);
            lemma_at(d, k, j);
        }
        assert forall|k: Seq<char>| #[trigger] d@.contains_key(k)
            implies pairs_map(v).contains_key(k) by {
            let i0 = d.index_of(k);
            assert(0 <= i0 < d.entries().len() && d.entries()[i0].0@ == k);
            assert(v[i0].0@ == k);
        }
    }
}

/// A pair with key `k` stands at index `i`: then `i` is the index the
/// specification functions pick, and the map view agrees with the pair.
pub proof fn lemma_at<V: View>(d: Dict<V>, k: Seq<char>, i: int)
    requires
        d.wf(),
        0 <= i < d.entries().len(),
        d.entries()[i].0@ == k,
    ensures
        d.spec_contains(k),
        d.index_of(k) == i,
        d.spec_at(k) == d.entries()[i].1,
        d@.contains_key(k),
        d@[k] == d.entries()[i].1@,
{
    assert(d.spec_contains(k));
    let j = d.index_of(k);
    assert(0 <= j < d.entries().len() && d.entries()[j].0@ == k);
    if i != j {
        assert(d.entries()[i].0@ != d.entries()[j].0@);
    }
}

/// Replacing the pair at index `i` by one with the same key acts as a
/// map insert.
proof fn lemma_update_entry<V: View>(pre: Dict<V>, post: Dict<V>, i: int, k: String, v: V)
    requires
        pre.wf(),
        0 <= i < pre.entries().len(),
        pre.entries()[i].0@ == k@,
        post.entries() == pre.entries().update(i, (k, v)),
    ensures
        post.wf(),
        post@ == pre@.insert(k@, v@),
        forall|c: Seq<char>| post.spec_contains(c) <==> pre.spec_contains(c),
        post.spec_contains(k@),
        post.spec_at(k@) == v,
        forall|c: Seq<char>|
            pre.spec_contains(c) && c != k@ ==> post.spec_at(c) == pre.spec_at(c),
{
    assert(post.entries().len() == pre.entries().len());
    assert forall|c: Seq<char>| post.spec_contains(c) <==> pre.spec_contains(c) by {
        if post.spec_contains(c) {
            let j = post.index_of(c);
            assert(pre.entries()[j].0@ == post.entries()[j].0@);
            assert(pre.spec_contains(c));
        }
        if pre.spec_contains(c) {
            let j = pre.index_of(c);
            assert(post.entries()[j].0@ == pre.entries()[j].0@);
            assert(post.spec_contains(c));
        }
    }
    assert(post.wf()) by {
        assert forall|p: int, q: int| 0 <= p < q < post.entries().len() implies post.entries()[p].0@
            != post.entries()[q].0@ by {
            assert(post.entries()[p].0@ == pre.entries()[p].0@);
            assert(post.entries()[q].0@ == pre.entries()[q].0@);
        }
    }
    lemma_at(post, k@, i);
    assert forall|c: Seq<char>|
        pre.spec_contains(c) && c != k@ implies post.spec_at(c) == pre.spec_at(c) by {
        let j = pre.index_of(c);
        lemma_at(pre, c, j);
        assert(post.entries()[j].0@ == c);
        lemma_at(post, c, j);
    }
    assert(post@ =~= pre@.insert(k@, v@)) by {
        assert forall|c: Seq<char>| #[trigger] post@.contains_key(c) implies pre@.insert(
            k@,
            v@,
        ).contains_key(c) && post@[c] == pre@.insert(k@, v@)[c] by {
            if c != k@ {
                let j = pre.index_of(c);
                lemma_at(pre, c, j);
            }
        }
        assert forall|c: Seq<char>| #[trigger] pre@.insert(k@, v@).contains_key(c)
            implies post@.contains_key(c) by {}
    }
}

/// Appending a pair with a fresh key acts as a map insert.
proof fn lemma_push_entry<V: View>(pre: Dict<V>, post: Dict<V>, k: String, v: V)
    requires
        pre.wf(),
        !pre.spec_contains(k@),
        post.entries() == pre.entries().push((k, v)),
    ensures
        post.wf(),
        post@ == pre@.insert(k@, v@),
        forall|c: Seq<char>| post.spec_contains(c) <==> (pre.spec_contains(c) || c == k@),
        post.spec_at(k@) == v,
        forall|c: Seq<char>|
            pre.spec_contains(c) && c != k@ ==> post.spec_at(c) == pre.spec_at(c),
{
    let n = pre.entries().len() as int;
    assert(post.entries().len() == n + 1);
    assert(post.entries()[n] == (k, v));
    assert forall|c: Seq<char>|
        post.spec_contains(c) <==> (pre.spec_contains(c) || c == k@) by {
        if post.spec_contains(c) {
            let j = post.index_of(c);
            if j < n {
                assert(pre.entries()[j].0@ == post.entries()[j].0@);
                assert(pre.spec_contains(c));
            }
        }
        if pre.spec_contains(c) {
            let j = pre.index_of(c);
            assert(post.entries()[j].0@ == c);
            assert(post.spec_contains(c));
        }
        if c == k@ {
            assert(post.entries()[n].0@ == c);
            assert(post.spec_contains(c));
        }
    }
    assert(post.wf()) by {
        assert forall|p: int, q: int| 0 <= p < q < post.entries().len() implies post.entries()[p].0@
            != post.entries()[q].0@ by {
            if q < n {
                assert(post.entries()[p].0@ == pre.entries()[p].0@);
                assert(post.entries()[q].0@ == pre.entries()[q].0@);
            } else {
                assert(post.entries()[q].0@ == k@);
                assert(post.entries()[p].0@ == pre.entries()[p].0@);
                lemma_at(pre, pre.entries()[p].0@, p);
            }
        }
    }
    lemma_at(post, k@, n);
    assert forall|c: Seq<char>|
        pre.spec_contains(c) && c != k@ implies post.spec_at(c) == pre.spec_at(c) by {
        let j = pre.index_of(c);
        lemma_at(pre, c, j);
        assert(post.entries()[j].0@ == c);
        lemma_at(post, c, j);
    }
    assert(post@ =~= pre@.insert(k@, v@)) by {
        assert forall|c: Seq<char>| #[trigger] post@.contains_key(c) implies pre@.insert(
            k@,
            v@,
        ).contains_key(c) && post@[c] == pre@.insert(k@, v@)[c] by {
            if c != k@ {
                let j = pre.index_of(c);
                lemma_at(pre, c, j);
            }
        }
    }
}

/// Dropping the pair at index `i` acts as a map remove, and shifts the
/// indices of the later pairs down by one.
proof fn lemma_remove_entry<V: View>(pre: Dict<V>, post: Dict<V>, i: int)
    requires
        pre.wf(),
        0 <= i < pre.entries().len(),
        post.entries() == pre.entries().remove(i),
    ensures
        post.wf(),
        post@ == pre@.remove(pre.entries()[i].0@),
        forall|c: Seq<char>|
            post.spec_contains(c) <==> (pre.spec_contains(c) && c != pre.entries()[i].0@),
        forall|c: Seq<char>|
            post.spec_contains(c) ==> post.spec_at(c) == pre.spec_at(c) && post.index_of(c) == (
            if pre.index_of(c) < i {
                pre.index_of(c)
            } else {
                pre.index_of(c) - 1
            }),
{
    let n = pre.entries().len() as int;
    let gone = pre.entries()[i].0@;
    assert(post.entries().len() == n - 1);
    assert forall|p: int| 0 <= p < n - 1 implies post.entries()[p] == (if p < i {
        pre.entries()[p]
    } else {
        pre.entries()[p + 1]
    }) by {}
    assert(post.wf()) by {
        assert forall|p: int, q: int| 0 <= p < q < post.entries().len() implies post.entries()[p].0@
            != post.entries()[q].0@ by {}
    }
    assert forall|c: Seq<char>|
        post.spec_contains(c) <==> (pre.spec_contains(c) && c != gone) by {
        if post.spec_contains(c) {
            let j = post.index_of(c);
            let j0 = if j < i { j } else { j + 1 };
            assert(pre.entries()[j0].0@ == c);
            assert(pre.spec_contains(c));
            lemma_at(pre, c, j0);
            lemma_at(pre, gone, i);
            assert(c != gone);
        }
        if pre.spec_contains(c) && c != gone {
            let j = pre.index_of(c);
            lemma_at(pre, c, j);
            assert(j != i);
            let j1 = if j < i { j } else { j - 1 };
            assert(post.entries()[j1].0@ == c);
            assert(post.spec_contains(c));
        }
    }
    assert forall|c: Seq<char>| post.spec_contains(c) implies post.spec_at(c) == pre.spec_at(c)
        && post.index_of(c) == (if pre.index_of(c) < i {
        pre.index_of(c)
    } else {
        pre.index_of(c) - 1
    }) by {
        let j = pre.index_of(c);
        lemma_at(pre, c, j);
        assert(j != i);
        let j1 = if j < i { j } else { j - 1 };
        assert(post.entries()[j1].0@ == c);
        lemma_at(post, c, j1);
    }
    assert(post@ =~= pre@.remove(gone)) by {
        assert forall|c: Seq<char>| #[trigger] post@.contains_key(c) implies pre@.remove(
            gone,
        ).contains_key(c) && post@[c] == pre@.remove(gone)[c] by {
            let j = pre.index_of(c);
            lemma_at(pre, c, j);
        }
    }
}

impl<V: View> Dict<V> {
    /// An empty map.
    pub fn new() -> (d: Dict<V>)
        ensures
            d.wf(),
            d@ == Map::<Seq<char>, V::V>::empty(),
            d.entries().len() == 0,
    {
        let d = Dict { pairs: Vec::new() };
        proof {
            assert(d@ =~= Map::<Seq<char>, V::V>::empty());
        }
        d
    }

    /// How many pairs are stored.
    pub fn len(&self) -> (n: usize)
        ensures
            n == self.entries().len(),
    {
        self.pairs.len()
    }

    /// The key of the pair at index `i`.
    pub fn key_at(&self, i: usize) -> (r: &String)
        requires
            i < self.entries().len(),
        ensures
            *r == self.entries()[i as int].0,
    {
        &self.pairs[i].0
    }

    /// The value of the pair at index `i`.
    pub fn value_at(&self, i: usize) -> (r: &V)
        requires
            i < self.entries().len(),
        ensures
            *r == self.entries()[i as int].1,
    {
        &self.pairs[i].1
    }

    /// The index of the pair holding key `k`, if any.
    fn find(&self, k: &str) -> (r: Option<usize>)
        ensures
            match r {
                Some(i) => 0 <= i < self.entries().len() && self.entries()[i as int].0@ == k@,
                None => !self.spec_contains(k@),
            },
    {
        let n = self.pairs.len();
        let mut i: usize = 0;
        while i < n
            invariant
                n == self.entries().len(),
                i <= n,
                forall|j: int| 0 <= j < i ==> self.entries()[j].0@ != k@,
            decreases n - i,
        {
            let p = &self.pairs[i];
            if str_eq(p.0.as_str(), k) {
                return Some(i);
            }
            i = i + 1;
        }
        None
    }

    /// Whether key `k` is present.
    pub fn contains(&self, k: &str) -> (r: bool)
        requires
            self.wf(),
        ensures
            r == self@.contains_key(k@),
            r == self.spec_contains(k@),
    {
        match self.find(k) {
            Some(i) => {
                proof {
                    lemma_at(*self, k@, i as int);
                }
                true
            },
            None => false,
        }
    }

    /// The value under key `k`, if any.
    pub fn get(&self, k: &str) -> (r: Option<&V>)
        requires
            self.wf(),
        ensures
            match r {
                Some(v) => self.spec_contains(k@) && *v == self.spec_at(k@) && self@.contains_key(
                    k@,
                ) && v@ == self@[k@],
                None => !self.spec_contains(k@) && !self@.contains_key(k@),
            },
    {
        match self.find(k) {
            Some(i) => {
                proof {
                    lemma_at(*self, k@, i as int);
                }
                Some(&self.pairs[i].1)
            },
            None => None,
        }
    }

    /// Binds `v` to key `k`, replacing any earlier binding.
    pub fn insert(&mut self, k: String, v: V)
        requires
            old(self).wf(),
        ensures
            final(self).wf(),
            final(self)@ == old(self)@.insert(k@, v@),
            forall|c: Seq<char>|
                final(self).spec_contains(c) <==> (old(self).spec_contains(c) || c == k@),
            final(self).spec_contains(k@),
            final(self).spec_at(k@) == v,
            forall|c: Seq<char>|
                old(self).spec_contains(c) && c != k@ ==> final(self).spec_at(c) == old(
                    self,
                ).spec_at(c),
    {
        let ghost pre = *self;
        match self.find(k.as_str()) {
            Some(i) => {
                self.pairs.set(i, (k, v));
                proof {
                    lemma_update_entry(pre, *self, i as int, k, v);
                }
            },
            None => {
                self.pairs.push((k, v));
                proof {
                    lemma_push_entry(pre, *self, k, v);
                }
            },
        }
    }

    /// Unbinds key `k` and returns the value it was bound to, if any.
    pub fn remove(&mut self, k: &str) -> (r: Option<V>)
        requires
            old(self).wf(),
        ensures
            final(self).wf(),
            final(self)@ == old(self)@.remove(k@),
            forall|c: Seq<char>|
                final(self).spec_contains(c) <==> (old(self).spec_contains(c) && c != k@),
            forall|c: Seq<char>|
                final(self).spec_contains(c) ==> final(self).spec_at(c) == old(self).spec_at(c),
            match r {
                Some(v) => old(self).spec_contains(k@) && v == old(self).spec_at(k@),
                None => !old(self).spec_contains(k@),
            },
    {
        let ghost pre = *self;
        match self.find(k) {
            Some(i) => {
                proof {
                    lemma_at(pre, k@, i as int);
                }
                let (_, v) = self.pairs.remove(i);
                proof {
                    lemma_remove_entry(pre, *self, i as int);
                }
                Some(v)
            },
            None => {
                proof {
                    assert(final(self)@ =~= old(self)@.remove(k@));
                }
                None
            },
        }
    }
}

impl Dict<String> {
    /// Drops every pair whose value equals `val`.
    pub fn remove_value(&mut self, val: &str)
        requires
            old(self).wf(),
        ensures
            final(self).wf(),
            final(self)@ == scrub_map(old(self)@, val@),
            forall|c: Seq<char>|
                final(self).spec_contains(c) <==> (old(self).spec_contains(c) && old(
                    self,
                ).spec_at(c)@ != val@),
            forall|c: Seq<char>|
                final(self).spec_contains(c) ==> final(self).spec_at(c) == old(self).spec_at(c),
    {
        let ghost pre = *self;
        let mut j: usize = 0;
        while j < self.pairs.len()
            invariant
                self.wf(),
                j <= self.entries().len(),
                forall|p: int| 0 <= p < j ==> self.entries()[p].1@ != val@,
                forall|c: Seq<char>|
                    self.spec_contains(c) ==> pre.spec_contains(c) && self.spec_at(c)
                        == pre.spec_at(c),
                forall|c: Seq<char>|
                    pre.spec_contains(c) && pre.spec_at(c)@ != val@ ==> self.spec_contains(c),
                forall|c: Seq<char>|
                    self.spec_contains(c) && self.spec_at(c)@ == val@ ==> j <= self.index_of(c),
            decreases self.entries().len() - j,
        {
            let hit = str_eq(self.pairs[j].1.as_str(), val);
            if hit {
                let ghost mid = *self;
                let _ = self.pairs.remove(j);
                proof {
                    lemma_remove_entry(mid, *self, j as int);
                    let gone = mid.entries()[j as int].0@;
                    lemma_at(mid, gone, j as int);
                    assert forall|c: Seq<char>|
                        self.spec_contains(c) && self.spec_at(c)@ == val@ implies j
                        <= self.index_of(c) by {
                        assert(mid.spec_contains(c) && c != gone);
                        assert(mid.spec_at(c) == self.spec_at(c));
                        assert(j <= mid.index_of(c));
                        assert(mid.index_of(c) != j as int);
                    }
                }
            } else {
                proof {
                    lemma_at(*self, self.entries()[j as int].0@, j as int);
                    assert forall|c: Seq<char>|
                        self.spec_contains(c) && self.spec_at(c)@ == val@ implies j + 1
                        <= self.index_of(c) by {
                        if self.index_of(c) == j as int {
                            lemma_at(*self, c, j as int);
                        }
                    }
                }
                j = j + 1;
            }
        }
        proof {
            assert forall|c: Seq<char>|
                self.spec_contains(c) implies self.spec_at(c)@ != val@ by {
                let i = self.index_of(c);
                assert(0 <= i < self.entries().len() && self.entries()[i].0@ == c);
                assert(self.entries()[i].1@ != val@);
                lemma_at(*self, c, i);
            }
            assert(self@ =~= scrub_map(pre@, val@)) by {
                assert forall|c: Seq<char>| #[trigger] self@.contains_key(c)
                    implies scrub_map(pre@, val@).contains_key(c) && self@[c] == scrub_map(
                    pre@,
                    val@,
                )[c] by {
                    assert(pre.spec_contains(c));
                    assert(self.spec_at(c) == pre.spec_at(c));
                }
                assert forall|c: Seq<char>| #[trigger] scrub_map(pre@, val@).contains_key(c)
                    implies self@.contains_key(c) by {
                    assert(pre.spec_contains(c) && pre.spec_at(c)@ != val@);
                }
            }
        }
    }
}

} // verus!
