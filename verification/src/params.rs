//! `ParamMap`: the request parameter mapping from option names to string
//! values. Backed by a vector of key/value pairs with unique keys; viewed
//! as a `Map<Seq<char>, Seq<char>>`, so insertion order never shows in a
//! contract.

use vstd::prelude::*;
use crate::strutil::str_eq;

verus! {

/// The map described by a sequence of key/value pairs, later entries
/// overriding earlier ones.
pub open spec fn assoc_view(s: Seq<(String, String)>) -> Map<Seq<char>, Seq<char>>
    decreases s.len(),
{
    if s.len() == 0 {
        Map::empty()
    } else {
        assoc_view(s.drop_last()).insert(s.last().0@, s.last().1@)
    }
}

/// A key of the map is the view of some entry's first component.
proof fn lemma_assoc_dom(s: Seq<(String, String)>, k: Seq<char>)
    ensures
        assoc_view(s).contains_key(k) <==> exists|i: int| 0 <= i < s.len() && s[i].0@ == k,
    decreases s.len(),
{
    if s.len() > 0 {
        lemma_assoc_dom(s.drop_last(), k);
        if s.last().0@ == k {
            assert(s[s.len() - 1].0@ == k);
        } else if assoc_view(s).contains_key(k) {
            let i = choose|i: int| 0 <= i < s.len() - 1 && s.drop_last()[i].0@ == k;
            assert(s[i].0@ == k);
        } else {
            assert forall|i: int| 0 <= i < s.len() && s[i].0@ == k implies false by {
                if i < s.len() - 1 {
                    assert(s.drop_last()[i].0@ == k);
                }
            }
        }
    }
}

/// With unique keys, the entry at index `i` gives the key's value.
proof fn lemma_assoc_get(s: Seq<(String, String)>, i: int)
    requires
        0 <= i < s.len(),
        forall|p: int, q: int| 0 <= p < q < s.len() ==> s[p].0@ != s[q].0@,
    ensures
        assoc_view(s).contains_key(s[i].0@),
        assoc_view(s)[s[i].0@] == s[i].1@,
    decreases s.len(),
{
    lemma_assoc_dom(s, s[i].0@);
    if i < s.len() - 1 {
        assert(s.last().0@ != s[i].0@);
        assert(s.drop_last()[i] == s[i]);
        lemma_assoc_get(s.drop_last(), i);
    }
}

/// With unique keys, removing the entry at index `i` removes exactly that
/// key from the map.
proof fn lemma_assoc_remove(s: Seq<(String, String)>, i: int)
    requires
        0 <= i < s.len(),
        forall|p: int, q: int| 0 <= p < q < s.len() ==> s[p].0@ != s[q].0@,
    ensures
        assoc_view(s.remove(i)) =~= assoc_view(s).remove(s[i].0@),
    decreases s.len(),
{
    lemma_assoc_dom(s, s[i].0@);
    if i == s.len() - 1 {
        assert(s.remove(i) =~= s.drop_last());
        assert forall|k: Seq<char>| assoc_view(s.drop_last()).contains_key(k) implies k != s[i].0@ by {
            lemma_assoc_dom(s.drop_last(), k);
            let j = choose|j: int| 0 <= j < s.len() - 1 && s.drop_last()[j].0@ == k;
            assert(s[j].0@ == k);
        }
        assert(assoc_view(s.drop_last()) =~= assoc_view(s).remove(s[i].0@));
    } else {
        lemma_assoc_remove(s.drop_last(), i);
        assert(s.remove(i).drop_last() =~= s.drop_last().remove(i));
        assert(s.remove(i).last() == s.last());
        assert(s[i].0@ != s.last().0@);
        assert(assoc_view(s.remove(i)) =~= assoc_view(s.drop_last().remove(i)).insert(
            s.last().0@,
            s.last().1@,
        ));
    }
}

/// With unique keys, the map holds exactly one key per entry.
proof fn lemma_assoc_len(s: Seq<(String, String)>)
    requires
        forall|p: int, q: int| 0 <= p < q < s.len() ==> s[p].0@ != s[q].0@,
    ensures
        assoc_view(s).dom().finite(),
        assoc_view(s).dom().len() == s.len(),
    decreases s.len(),
{
    if s.len() > 0 {
        lemma_assoc_len(s.drop_last());
        lemma_assoc_dom(s.drop_last(), s.last().0@);
        assert forall|j: int| 0 <= j < s.len() - 1 implies s.drop_last()[j].0@ != s.last().0@ by {
            assert(s[j].0@ != s[s.len() - 1].0@);
        }
        assert(!assoc_view(s.drop_last()).contains_key(s.last().0@));
    }
}

/// Mapping from request option names to their string values.
#[derive(Debug)]
pub struct ParamMap {
    entries: Vec<(String, String)>,
}

impl View for ParamMap {
    type V = Map<Seq<char>, Seq<char>>;

    closed spec fn view(&self) -> Map<Seq<char>, Seq<char>> {
        assoc_view(self.entries@)
    }
}

impl ParamMap {
    /// Well-formed: no two entries share a key.
    pub closed spec fn wf(&self) -> bool {
        forall|p: int, q: int|
            0 <= p < q < self.entries@.len() ==> self.entries@[p].0@ != self.entries@[q].0@
    }

    /// The empty mapping.
    pub fn new() -> (r: Self)
        ensures
            r.wf(),
            r@ == Map::<Seq<char>, Seq<char>>::empty(),
    {
        ParamMap { entries: Vec::new() }
    }

    /// Number of distinct keys.
    pub fn len(&self) -> (r: usize)
        requires
            self.wf(),
        ensures
            r == self@.dom().len(),
            self@.dom().finite(),
    {
        proof {
            lemma_assoc_len(self.entries@);
        }
        self.entries.len()
    }

    /// The mapping holds no key at all.
    pub fn is_empty(&self) -> (r: bool)
        requires
            self.wf(),
        ensures
            r == (self@ =~= Map::<Seq<char>, Seq<char>>::empty()),
    {
        proof {
            lemma_assoc_len(self.entries@);
            if self.entries@.len() == 0 {
                assert(self@ =~= Map::<Seq<char>, Seq<char>>::empty());
            } else {
                lemma_assoc_get(self.entries@, 0);
                assert(self@.contains_key(self.entries@[0].0@));
            }
        }
        self.entries.len() == 0
    }

    /// Index of the entry holding `k`, if any.
    fn find(&self, k: &str) -> (r: Option<usize>)
        ensures
            match r {
                Some(i) => 0 <= i < self.entries@.len() && self.entries@[i as int].0@ == k@,
                None => forall|i: int| 0 <= i < self.entries@.len() ==> self.entries@[i].0@ != k@,
            },
    {
        let n = self.entries.len();
        let mut i: usize = 0;
        while i < n
            invariant
                0 <= i <= n,
                n == self.entries@.len(),
                forall|j: int| 0 <= j < i ==> self.entries@[j].0@ != k@,
            decreases n - i,
        {
            if str_eq(self.entries[i].0.as_str(), k) {
                return Some(i);
            }
            i += 1;
        }
        None
    }

    /// Whether `k` is present.
    pub fn contains_key(&self, k: &str) -> (r: bool)
        ensures
            r == self@.contains_key(k@),
    {
        proof {
            lemma_assoc_dom(self.entries@, k@);
        }
        match self.find(k) {
            Some(_) => true,
            None => false,
        }
    }

    /// The value stored under `k`, if any.
    pub fn get(&self, k: &str) -> (r: Option<&String>)
        requires
            self.wf(),
        ensures
            match r {
                Some(v) => self@.contains_key(k@) && v@ == self@[k@],
                None => !self@.contains_key(k@),
            },
    {
        proof {
            lemma_assoc_dom(self.entries@, k@);
        }
        match self.find(k) {
            Some(i) => {
                proof {
                    lemma_assoc_get(self.entries@, i as int);
                }
                Some(&self.entries[i].1)
            },
            None => None,
        }
    }

    /// Store `v` under `k`, replacing any earlier value.
    pub fn insert(&mut self, k: String, v: String)
        requires
            old(self).wf(),
        ensures
            final(self).wf(),
            final(self)@ == old(self)@.insert(k@, v@),
    {
        let ghost pre = self.entries@;
        match self.find(k.as_str()) {
            Some(i) => {
                proof {
                    lemma_assoc_remove(pre, i as int);
                }
                self.entries.remove(i);
                let ghost mid = self.entries@;
                self.entries.push((k, v));
                proof {
                    assert(self.entries@.drop_last() =~= mid);
                    assert(assoc_view(self.entries@) =~= pre_insert_view(pre, k@, v@)) by {
                        assert(assoc_view(self.entries@) =~= assoc_view(mid).insert(k@, v@));
                        assert(assoc_view(mid) =~= assoc_view(pre).remove(k@));
                        assert(assoc_view(pre).remove(k@).insert(k@, v@) =~= assoc_view(
                            pre,
                        ).insert(k@, v@));
                    }
                    assert forall|p: int, q: int|
                        0 <= p < q < self.entries@.len() implies self.entries@[p].0@
                        != self.entries@[q].0@ by {
                        if q == self.entries@.len() - 1 {
                            assert(mid[p] == pre.remove(i as int)[p]);
                        }
                    }
                }
            },
            None => {
                self.entries.push((k, v));
                proof {
                    assert(self.entries@.drop_last() =~= pre);
                    assert(self@ =~= old(self)@.insert(k@, v@));
                }
            },
        }
    }

    /// Remove `k`, handing back the value it held.
    pub fn remove(&mut self, k: &str) -> (r: Option<String>)
        requires
            old(self).wf(),
        ensures
            final(self).wf(),
            final(self)@ == old(self)@.remove(k@),
            match r {
                Some(v) => old(self)@.contains_key(k@) && v@ == old(self)@[k@],
                None => !old(self)@.contains_key(k@) && final(self)@ == old(self)@,
            },
    {
        let ghost pre = self.entries@;
        proof {
            lemma_assoc_dom(pre, k@);
        }
        match self.find(k) {
            Some(i) => {
                proof {
                    lemma_assoc_get(pre, i as int);
                    lemma_assoc_remove(pre, i as int);
                }
                let (_, v) = self.entries.remove(i);
                proof {
                    assert forall|p: int, q: int|
                        0 <= p < q < self.entries@.len() implies self.entries@[p].0@
                        != self.entries@[q].0@ by {
                        assert(self.entries@[p] == pre.remove(i as int)[p]);
                        assert(self.entries@[q] == pre.remove(i as int)[q]);
                    }
                    assert(self@ =~= old(self)@.remove(k@));
                }
                Some(v)
            },
            None => {
                proof {
                    assert(self@ =~= old(self)@.remove(k@));
                }
                None
            },
        }
    }

    /// Merge `other` into `self`; on a shared key, `other`'s value wins.
    pub fn extend(&mut self, other: ParamMap)
        requires
            old(self).wf(),
            other.wf(),
        ensures
            final(self).wf(),
            final(self)@ == old(self)@.union_prefer_right(other@),
    {
        let n = other.entries.len();
        let mut i: usize = 0;
        let ov = other.entries;
        while i < n
            invariant
                0 <= i <= n,
                n == ov@.len(),
                self.wf(),
                forall|p: int, q: int| 0 <= p < q < ov@.len() ==> ov@[p].0@ != ov@[q].0@,
                self@ == old(self)@.union_prefer_right(assoc_view(ov@.take(i as int))),
            decreases n - i,
        {
            let ghost prefix = ov@.take(i as int);
            let (k, v) = (ov[i].0.clone(), ov[i].1.clone());
            self.insert(k, v);
            proof {
                assert(ov@.take(i + 1).drop_last() =~= prefix);
                assert(assoc_view(ov@.take(i + 1)) =~= assoc_view(prefix).insert(
                    ov@[i as int].0@,
                    ov@[i as int].1@,
                ));
                assert(self@ =~= old(self)@.union_prefer_right(assoc_view(ov@.take(i + 1))));
            }
            i += 1;
        }
        proof {
            assert(ov@.take(n as int) =~= ov@);
        }
    }

    /// The stored key/value pairs; every pair is in the map, and every key
    /// of the map appears exactly once.
    pub fn pairs(&self) -> (r: &Vec<(String, String)>)
        requires
            self.wf(),
        ensures
            assoc_view(r@) == self@,
            forall|i: int|
                0 <= i < r@.len() ==> self@.contains_key(#[trigger] r@[i].0@) && self@[r@[i].0@]
                    == r@[i].1@,
            forall|k: Seq<char>|
                self@.contains_key(k) ==> exists|i: int| 0 <= i < r@.len() && r@[i].0@ == k,
    {
        proof {
            assert forall|i: int| 0 <= i < self.entries@.len() implies self@.contains_key(
                #[trigger] self.entries@[i].0@,
            ) && self@[self.entries@[i].0@] == self.entries@[i].1@ by {
                lemma_assoc_get(self.entries@, i);
            }
            assert forall|k: Seq<char>| self@.contains_key(k) implies exists|i: int|
                0 <= i < self.entries@.len() && self.entries@[i].0@ == k by {
                lemma_assoc_dom(self.entries@, k);
            }
        }
        &self.entries
    }
}

/// Helper naming the inserted view, to keep the `insert` proof readable.
spec fn pre_insert_view(pre: Seq<(String, String)>, k: Seq<char>, v: Seq<char>) -> Map<
    Seq<char>,
    Seq<char>,
> {
    assoc_view(pre).insert(k, v)
}

} // verus!
