//! String-keyed association maps with mathematical `Map` views.
//!
//! The handler's routing table, link graph, secrets cache and configuration
//! snapshot are all maps keyed by short identifier strings.  They are held
//! here as association lists with a distinct-keys invariant, so that every
//! operation is verified against a `Map<Seq<char>, _>` abstraction.

use vstd::prelude::*;

verus! {

/// Map from `String` keys to values of type `V`, abstracted as
/// `Map<Seq<char>, V::V>`.
pub struct StrMap<V> {
    entries: Vec<(String, V)>,
}

/// The map denoted by an association list; on duplicate keys the later entry
/// wins (well-formed maps have no duplicates).
pub open spec fn entries_map<V: DeepView>(s: Seq<(String, V)>) -> Map<Seq<char>, V::V>
    decreases s.len(),
{
    if s.len() == 0 {
        Map::empty()
    } else {
        entries_map(s.drop_last()).insert(s.last().0@, s.last().1.deep_view())
    }
}

/// Some entry of `s` has key `k`.
pub open spec fn has_key<V>(s: Seq<(String, V)>, k: Seq<char>) -> bool {
    exists|i: int| 0 <= i < s.len() && (#[trigger] s[i]).0@ == k
}

/// No two entries of `s` share a key.
pub open spec fn distinct_keys<V>(s: Seq<(String, V)>) -> bool {
    forall|i: int, j: int|
        0 <= i < j < s.len() ==> (#[trigger] s[i]).0@ != (#[trigger] s[j]).0@
}

proof fn lemma_entries_map_domain<V: DeepView>(s: Seq<(String, V)>)
    ensures
        forall|k: Seq<char>| #[trigger] entries_map(s).contains_key(k) <==> has_key(s, k),
    decreases s.len(),
{
    if s.len() == 0 {
    } else {
        let t = s.drop_last();
        lemma_entries_map_domain(t);
        assert forall|k: Seq<char>| #[trigger] entries_map(s).contains_key(k) implies has_key(
            s,
            k,
        ) by {
            if k == s.last().0@ {
                assert((s[s.len() - 1]).0@ == k);
            } else {
                assert(entries_map(t).contains_key(k));
                assert(has_key(t, k));
                let i = choose|i: int| 0 <= i < t.len() && (#[trigger] t[i]).0@ == k;
                assert((s[i]).0@ == k);
            }
        }
        assert forall|k: Seq<char>| has_key(s, k) implies #[trigger] entries_map(
            s,
        ).contains_key(k) by {
            let i = choose|i: int| 0 <= i < s.len() && (#[trigger] s[i]).0@ == k;
            if i < s.len() - 1 {
                assert((t[i]).0@ == k);
                assert(has_key(t, k));
                assert(entries_map(t).contains_key(k));
            } else {
                assert(k == s.last().0@);
            }
        }
    }
}

proof fn lemma_entries_map_get<V: DeepView>(s: Seq<(String, V)>, i: int)
    requires
        distinct_keys(s),
        0 <= i < s.len(),
    ensures
        entries_map(s).contains_key(s[i].0@),
        entries_map(s)[s[i].0@] == s[i].1.deep_view(),
    decreases s.len(),
{
    if i == s.len() - 1 {
    } else {
        let t = s.drop_last();
        assert((t[i]).0@ == (s[i]).0@ && (t[i]).1 == (s[i]).1);
        lemma_entries_map_get(t, i);
        assert(s[i].0@ != s.last().0@);
    }
}

impl<V: DeepView> View for StrMap<V> {
    type V = Map<Seq<char>, V::V>;

    closed spec fn view(&self) -> Map<Seq<char>, V::V> {
        entries_map(self.entries@)
    }
}

impl<V: DeepView> DeepView for StrMap<V> {
    type V = Map<Seq<char>, V::V>;

    open spec fn deep_view(&self) -> Map<Seq<char>, V::V> {
        self.view()
    }
}

impl<V: DeepView> StrMap<V> {
    /// Well-formed: the underlying list holds each key at most once.
    pub closed spec fn wf(&self) -> bool {
        distinct_keys(self.entries@)
    }

    /// The underlying entry list, for iteration-order contracts.
    pub closed spec fn entry_seq(&self) -> Seq<(String, V)> {
        self.entries@
    }

    /// The map view and well-formedness are those of the entry list.
    pub proof fn lemma_view_entries(&self)
        ensures
            self@ == entries_map(self.entry_seq()),
            self.wf() == distinct_keys(self.entry_seq()),
    {
    }

    pub fn new() -> (r: Self)
        ensures
            r.wf(),
            r@ == Map::<Seq<char>, V::V>::empty(),
            r.entry_seq() == Seq::<(String, V)>::empty(),
    {
        StrMap { entries: Vec::new() }
    }

    pub fn len(&self) -> (n: usize)
        requires
            self.wf(),
        ensures
            n == self.entry_seq().len(),
            n == self@.len(),
    {
        proof {
            lemma_entries_map_len(self.entries@);
        }
        self.entries.len()
    }

    pub fn is_empty(&self) -> (b: bool)
        requires
            self.wf(),
        ensures
            b <==> self@ == Map::<Seq<char>, V::V>::empty(),
    {
        proof {
            lemma_entries_map_len(self.entries@);
            if self.entries@.len() == 0 {
                assert(self@ =~= Map::<Seq<char>, V::V>::empty());
            } else {
                assert(self@.len() != 0);
            }
        }
        self.entries.is_empty()
    }

    pub fn contains_key(&self, k: &String) -> (b: bool)
        requires
            self.wf(),
        ensures
            b == self@.contains_key(k@),
    {
        self.get(k).is_some()
    }

    pub fn get<'a>(&'a self, k: &String) -> (r: Option<&'a V>)
        requires
            self.wf(),
        ensures
            match r {
                Some(v) => self@.contains_key(k@) && v.deep_view() == self@[k@]
                    && exists|i: int|
                    0 <= i < self.entry_seq().len() && (#[trigger] self.entry_seq()[i]).0@ == k@
                        && *v == self.entry_seq()[i].1,
                None => !self@.contains_key(k@),
            },
    {
        proof {
            lemma_entries_map_domain(self.entries@);
        }
        let n = self.entries.len();
        let mut i: usize = 0;
        while i < n
            invariant
                n == self.entries@.len(),
                0 <= i <= n,
                self.wf(),
                forall|j: int| 0 <= j < i ==> (#[trigger] self.entries@[j]).0@ != k@,
            decreases n - i,
        {
            if self.entries[i].0 == *k {
                proof {
                    lemma_entries_map_get(self.entries@, i as int);
                    assert((self.entry_seq()[i as int]).0@ == k@);
                }
                return Some(&self.entries[i].1);
            }
            i += 1;
        }
        proof {
            assert(!has_key(self.entries@, k@));
        }
        None
    }

    pub fn insert(&mut self, k: String, v: V)
        requires
            old(self).wf(),
        ensures
            final(self).wf(),
            final(self)@ == old(self)@.insert(k@, v.deep_view()),
            forall|j: int|
                0 <= j < final(self).entry_seq().len() ==> (#[trigger] final(self).entry_seq()[j])
                    == (k, v) || exists|j2: int|
                    0 <= j2 < old(self).entry_seq().len() && final(self).entry_seq()[j]
                        == old(self).entry_seq()[j2],
    {
        let n = self.entries.len();
        let mut i: usize = 0;
        while i < n
            invariant
                n == self.entries@.len(),
                0 <= i <= n,
                self.wf(),
                self.entries@ == old(self).entries@,
                forall|j: int| 0 <= j < i ==> (#[trigger] self.entries@[j]).0@ != k@,
            decreases n - i,
        {
            if self.entries[i].0 == k {
                proof {
                    lemma_entries_map_update(self.entries@, i as int, k@, v.deep_view());
                }
                self.entries.set(i, (k, v));
                proof {
                    assert forall|j: int|
                        0 <= j < self.entry_seq().len() implies (#[trigger] self.entry_seq()[j])
                        == (k, v) || exists|j2: int|
                        0 <= j2 < old(self).entry_seq().len() && self.entry_seq()[j]
                            == old(self).entry_seq()[j2] by {
                        if j != i {
                            assert(self.entry_seq()[j] == old(self).entry_seq()[j]);
                        }
                    }
                }
                return ;
            }
            i += 1;
        }
        proof {
            let s = self.entries@;
            let s2 = s.push((k, v));
            assert(s2.drop_last() =~= s);
            assert(!has_key(s, k@));
            lemma_entries_map_domain(s);
            assert(forall|j: int|
                0 <= j < s.len() ==> (#[trigger] s2[j]).0@ == (s[j]).0@);
        }
        self.entries.push((k, v));
        proof {
            assert forall|j: int|
                0 <= j < self.entry_seq().len() implies (#[trigger] self.entry_seq()[j]) == (k, v)
                    || exists|j2: int|
                    0 <= j2 < old(self).entry_seq().len() && self.entry_seq()[j]
                        == old(self).entry_seq()[j2] by {
                if j < old(self).entry_seq().len() {
                    assert(self.entry_seq()[j] == old(self).entry_seq()[j]);
                }
            }
        }
    }

    pub fn remove(&mut self, k: &String)
        requires
            old(self).wf(),
        ensures
            final(self).wf(),
            final(self)@ == old(self)@.remove(k@),
            forall|j: int|
                0 <= j < final(self).entry_seq().len() ==> exists|j2: int|
                    0 <= j2 < old(self).entry_seq().len() && (#[trigger] final(self).entry_seq()[j])
                        == old(self).entry_seq()[j2],
    {
        proof {
            lemma_entries_map_domain(self.entries@);
        }
        let n = self.entries.len();
        let mut i: usize = 0;
        while i < n
            invariant
                n == self.entries@.len(),
                0 <= i <= n,
                self.wf(),
                self.entries@ == old(self).entries@,
                forall|j: int| 0 <= j < i ==> (#[trigger] self.entries@[j]).0@ != k@,
            decreases n - i,
        {
            if self.entries[i].0 == *k {
                proof {
                    lemma_entries_map_remove(self.entries@, i as int);
                }
                self.entries.remove(i);
                proof {
                    assert forall|j: int| 0 <= j < self.entry_seq().len() implies exists|j2: int|
                        0 <= j2 < old(self).entry_seq().len() && (#[trigger] self.entry_seq()[j])
                            == old(self).entry_seq()[j2] by {
                        if j < i {
                            assert(self.entry_seq()[j] == old(self).entry_seq()[j]);
                        } else {
                            assert(self.entry_seq()[j] == old(self).entry_seq()[j + 1]);
                        }
                    }
                }
                return ;
            }
            i += 1;
        }
        proof {
            assert(!has_key(self.entries@, k@));
            assert(!self@.contains_key(k@));
            assert(self@.remove(k@) =~= self@);
            assert forall|j: int| 0 <= j < self.entry_seq().len() implies exists|j2: int|
                0 <= j2 < old(self).entry_seq().len() && (#[trigger] self.entry_seq()[j])
                    == old(self).entry_seq()[j2] by {
                assert(self.entry_seq()[j] == old(self).entry_seq()[j]);
            }
        }
    }
}

proof fn lemma_entries_map_len<V: DeepView>(s: Seq<(String, V)>)
    requires
        distinct_keys(s),
    ensures
        entries_map(s).dom().finite(),
        entries_map(s).len() == s.len(),
    decreases s.len(),
{
    if s.len() == 0 {
        assert(entries_map(s).dom() =~= Set::<Seq<char>>::empty());
    } else {
        let t = s.drop_last();
        lemma_entries_map_len(t);
        lemma_entries_map_domain(t);
        assert(!has_key(t, s.last().0@));
        assert(!entries_map(t).contains_key(s.last().0@));
    }
}

proof fn lemma_entries_map_update<V: DeepView>(
    s: Seq<(String, V)>,
    i: int,
    k: Seq<char>,
    v: V::V,
)
    requires
        distinct_keys(s),
        0 <= i < s.len(),
        s[i].0@ == k,
    ensures
        forall|kv: (String, V)|
            kv.0@ == k && kv.1.deep_view() == v ==> entries_map(#[trigger] s.update(i, kv))
                == entries_map(s).insert(k, v),
{
    assert forall|kv: (String, V)|
        kv.0@ == k && kv.1.deep_view() == v implies entries_map(#[trigger] s.update(i, kv))
        == entries_map(s).insert(k, v) by {
        lemma_entries_map_update_one(s, i, kv);
        assert(entries_map(s.update(i, kv)) =~= entries_map(s).insert(k, v));
    }
}

proof fn lemma_entries_map_update_one<V: DeepView>(s: Seq<(String, V)>, i: int, kv: (String, V))
    requires
        distinct_keys(s),
        0 <= i < s.len(),
        kv.0@ == s[i].0@,
    ensures
        entries_map(s.update(i, kv)) =~= entries_map(s).insert(kv.0@, kv.1.deep_view()),
    decreases s.len(),
{
    let s2 = s.update(i, kv);
    if i == s.len() - 1 {
        assert(s2.drop_last() =~= s.drop_last());
        assert(s2.last() == kv);
    } else {
        let t = s.drop_last();
        assert(s2.drop_last() =~= t.update(i, kv));
        assert((t[i]).0@ == (s[i]).0@);
        lemma_entries_map_update_one(t, i, kv);
        assert(s2.last() == s.last());
        assert(kv.0@ != s.last().0@);
    }
}

impl<V: DeepView> StrMap<V> {
    /// The underlying entry list, shared with sibling modules that build
    /// value-specific clones.
    pub(crate) fn entries_vec(&self) -> (r: &Vec<(String, V)>)
        ensures
            r@ == self.entry_seq(),
    {
        &self.entries
    }

    /// Wrap an entry list.
    pub(crate) fn from_entries(e: Vec<(String, V)>) -> (r: Self)
        ensures
            r.wf() == distinct_keys(e@),
            r.entry_seq() == e@,
            r@ == entries_map(e@),
    {
        StrMap { entries: e }
    }
}

/// Two entry lists with pointwise equal keys and value views denote the same
/// map.
pub proof fn lemma_entries_map_congruence<V: DeepView>(s1: Seq<(String, V)>, s2: Seq<(String, V)>)
    requires
        s1.len() == s2.len(),
        forall|i: int|
            0 <= i < s1.len() ==> (#[trigger] s1[i]).0@ == (#[trigger] s2[i]).0@
                && s1[i].1.deep_view() == s2[i].1.deep_view(),
    ensures
        entries_map(s1) == entries_map(s2),
    decreases s1.len(),
{
    if s1.len() == 0 {
        assert(entries_map(s1) =~= entries_map(s2));
    } else {
        let t1 = s1.drop_last();
        let t2 = s2.drop_last();
        assert forall|i: int|
            0 <= i < t1.len() implies (#[trigger] t1[i]).0@ == (#[trigger] t2[i]).0@
            && t1[i].1.deep_view() == t2[i].1.deep_view() by {
            assert(t1[i] == s1[i]);
            assert(t2[i] == s2[i]);
        }
        lemma_entries_map_congruence(t1, t2);
        assert((s1[s1.len() - 1]).0@ == (s2[s2.len() - 1]).0@ && s1[s1.len() - 1].1.deep_view()
            == s2[s2.len() - 1].1.deep_view());
    }
}

impl StrMap<String> {
    /// The key/value pairs in entry order, for snapshot reads.
    pub fn to_pairs(&self) -> (r: Vec<(String, String)>)
        requires
            self.wf(),
        ensures
            r@.len() == self.entry_seq().len(),
            r@.len() == self@.len(),
            forall|i: int| 0 <= i < r@.len() ==> #[trigger] r@[i] == self.entry_seq()[i],
            forall|i: int|
                0 <= i < r@.len() ==> self@.contains_key((#[trigger] r@[i]).0@) && self@[r@[i].0@]
                    == r@[i].1@,
            forall|i: int, j: int|
                0 <= i < j < r@.len() ==> (#[trigger] r@[i]).0@ != (#[trigger] r@[j]).0@,
    {
        proof {
            lemma_entries_map_len(self.entries@);
        }
        let n = self.entries.len();
        let mut r: Vec<(String, String)> = Vec::new();
        let mut i: usize = 0;
        while i < n
            invariant
                n == self.entries@.len(),
                0 <= i <= n,
                self.wf(),
                r@.len() == i,
                forall|j: int| 0 <= j < i ==> #[trigger] r@[j] == self.entries@[j],
            decreases n - i,
        {
            let k = self.entries[i].0.clone();
            let v = self.entries[i].1.clone();
            r.push((k, v));
            i += 1;
        }
        proof {
            assert forall|j: int|
                0 <= j < r@.len() implies self@.contains_key((#[trigger] r@[j]).0@)
                && self@[r@[j].0@] == r@[j].1@ by {
                lemma_entries_map_get(self.entries@, j);
            }
        }
        r
    }
}

impl Clone for StrMap<String> {
    /// Cloning copies every entry exactly.
    fn clone(&self) -> (r: Self)
        ensures
            r@ == self@,
            r.wf() == self.wf(),
            r.entry_seq() == self.entry_seq(),
    {
        let n = self.entries.len();
        let mut e: Vec<(String, String)> = Vec::new();
        let mut i: usize = 0;
        while i < n
            invariant
                n == self.entries@.len(),
                0 <= i <= n,
                e@.len() == i,
                forall|j: int| 0 <= j < i ==> #[trigger] e@[j] == self.entries@[j],
            decreases n - i,
        {
            let k = self.entries[i].0.clone();
            let v = self.entries[i].1.clone();
            e.push((k, v));
            i += 1;
        }
        proof {
            assert(e@ =~= self.entries@);
        }
        StrMap { entries: e }
    }
}

/// Entry lists with pointwise equal keys agree on key distinctness.
pub proof fn lemma_distinct_congruence<V1: DeepView, V2: DeepView>(
    s1: Seq<(String, V1)>,
    s2: Seq<(String, V2)>,
)
    requires
        s1.len() == s2.len(),
        forall|i: int| 0 <= i < s1.len() ==> (#[trigger] s1[i]).0@ == (#[trigger] s2[i]).0@,
    ensures
        distinct_keys(s1) == distinct_keys(s2),
{
    if distinct_keys(s1) {
        assert forall|i: int, j: int|
            0 <= i < j < s2.len() implies (#[trigger] s2[i]).0@ != (#[trigger] s2[j]).0@ by {
            assert((s1[i]).0@ != (s1[j]).0@);
        }
    }
    if distinct_keys(s2) {
        assert forall|i: int, j: int|
            0 <= i < j < s1.len() implies (#[trigger] s1[i]).0@ != (#[trigger] s1[j]).0@ by {
            assert((s2[i]).0@ != (s2[j]).0@);
        }
    }
}

impl Clone for StrMap<StrMap<String>> {
    /// Cloning keeps keys exactly and values up to their map views.
    fn clone(&self) -> (r: Self)
        ensures
            r@ == self@,
            r.wf() == self.wf(),
            r.entry_seq().len() == self.entry_seq().len(),
            forall|i: int|
                0 <= i < r.entry_seq().len() ==> (#[trigger] r.entry_seq()[i]).0 == (
                #[trigger] self.entry_seq()[i]).0 && r.entry_seq()[i].1@ == self.entry_seq()[i].1@
                    && r.entry_seq()[i].1.wf() == self.entry_seq()[i].1.wf(),
    {
        let n = self.entries.len();
        let mut e: Vec<(String, StrMap<String>)> = Vec::new();
        let mut i: usize = 0;
        while i < n
            invariant
                n == self.entries@.len(),
                0 <= i <= n,
                e@.len() == i,
                forall|j: int|
                    0 <= j < i ==> (#[trigger] e@[j]).0 == (#[trigger] self.entries@[j]).0
                        && e@[j].1@ == self.entries@[j].1@ && e@[j].1.wf()
                        == self.entries@[j].1.wf(),
            decreases n - i,
        {
            let k = self.entries[i].0.clone();
            let v = self.entries[i].1.clone();
            e.push((k, v));
            i += 1;
        }
        proof {
            lemma_distinct_congruence(e@, self.entries@);
            lemma_entries_map_congruence(e@, self.entries@);
        }
        StrMap { entries: e }
    }
}

/// Set of identifier strings, abstracted as `Set<Seq<char>>`; used for the
/// locally hosted component ids and for the link names that hold a live
/// pub/sub connection.
pub struct StrSet {
    m: StrMap<bool>,
}

impl View for StrSet {
    type V = Set<Seq<char>>;

    closed spec fn view(&self) -> Set<Seq<char>> {
        self.m@.dom()
    }
}

impl StrSet {
    pub closed spec fn wf(&self) -> bool {
        self.m.wf()
    }

    pub fn new() -> (r: Self)
        ensures
            r.wf(),
            r@ == Set::<Seq<char>>::empty(),
    {
        let m = StrMap::<bool>::new();
        proof {
            assert(m@.dom() =~= Set::<Seq<char>>::empty());
        }
        StrSet { m }
    }

    pub fn contains(&self, k: &String) -> (b: bool)
        requires
            self.wf(),
        ensures
            b == self@.contains(k@),
    {
        self.m.contains_key(k)
    }

    pub fn insert(&mut self, k: String)
        requires
            old(self).wf(),
        ensures
            final(self).wf(),
            final(self)@ == old(self)@.insert(k@),
    {
        let ghost pre = self.m@;
        self.m.insert(k, true);
        proof {
            assert(self.m@.dom() =~= pre.dom().insert(k@));
        }
    }

    pub fn remove(&mut self, k: &String)
        requires
            old(self).wf(),
        ensures
            final(self).wf(),
            final(self)@ == old(self)@.remove(k@),
    {
        let ghost pre = self.m@;
        self.m.remove(k);
        proof {
            assert(self.m@.dom() =~= pre.dom().remove(k@));
        }
    }
}

impl Clone for StrSet {
    /// Cloning keeps the set of strings exactly.
    fn clone(&self) -> (r: Self)
        ensures
            r@ == self@,
            r.wf() == self.wf(),
    {
        let src = self.m.entries_vec();
        let n = src.len();
        let mut e: Vec<(String, bool)> = Vec::new();
        let mut i: usize = 0;
        while i < n
            invariant
                n == src@.len(),
                0 <= i <= n,
                e@.len() == i,
                forall|j: int| 0 <= j < i ==> #[trigger] e@[j] == src@[j],
            decreases n - i,
        {
            let k = src[i].0.clone();
            let v = src[i].1;
            e.push((k, v));
            i += 1;
        }
        proof {
            assert(e@ =~= src@);
        }
        StrSet { m: StrMap { entries: e } }
    }
}

proof fn lemma_entries_map_remove<V: DeepView>(s: Seq<(String, V)>, i: int)
    requires
        distinct_keys(s),
        0 <= i < s.len(),
    ensures
        entries_map(s.remove(i)) == entries_map(s).remove(s[i].0@),
    decreases s.len(),
{
    let s2 = s.remove(i);
    if i == s.len() - 1 {
        assert(s2 =~= s.drop_last());
        lemma_entries_map_domain(s2);
        assert(!has_key(s2, s[i].0@));
        assert(!entries_map(s2).contains_key(s[i].0@));
        assert(entries_map(s2) =~= entries_map(s).remove(s[i].0@));
    } else {
        let t = s.drop_last();
        assert(s2.drop_last() =~= t.remove(i));
        assert((t[i]).0@ == (s[i]).0@);
        lemma_entries_map_remove(t, i);
        assert(s2.last() == s.last());
        assert((s[i]).0@ != s.last().0@);
        assert(entries_map(s2) =~= entries_map(s).remove(s[i].0@));
    }
}

} // verus!
