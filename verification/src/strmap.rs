//! A small map keyed by strings, kept as a list of distinct keys in insertion order.
//!
//! The chat protocol keeps user lists, reactions, replacements and room settings in
//! string-keyed maps. This type gives them a mathematical view as a `Map` from the
//! key's characters to the value, while iteration follows insertion order.
use vstd::prelude::*;

use crate::text::str_equal;

verus! {

/// The mathematical map that a list of entries with distinct keys stands for.
pub open spec fn entries_to_map<V>(s: Seq<(Seq<char>, V)>) -> Map<Seq<char>, V> {
    Map::new(
        |k: Seq<char>| exists|i: int| 0 <= i < s.len() && s[i].0 == k,
        |k: Seq<char>| s[choose|i: int| 0 <= i < s.len() && s[i].0 == k].1,
    )
}

/// No key occurs twice in the list of entries.
pub open spec fn keys_distinct<V>(s: Seq<(Seq<char>, V)>) -> bool {
    forall|i: int, j: int|
        0 <= i < s.len() && 0 <= j < s.len() && i != j ==> #[trigger] s[i].0 != #[trigger] s[j].0
}

/// In a list with distinct keys, the map holds each entry's value under its key.
pub proof fn lemma_entry_in_map<V>(s: Seq<(Seq<char>, V)>, i: int)
    requires
        keys_distinct(s),
        0 <= i < s.len(),
    ensures
        entries_to_map(s).contains_key(s[i].0),
        entries_to_map(s)[s[i].0] == s[i].1,
{
    let k = s[i].0;
    assert(exists|j: int| 0 <= j < s.len() && s[j].0 == k);
    let j = choose|j: int| 0 <= j < s.len() && s[j].0 == k;
    assert(j == i);
}

/// A key absent from every entry is absent from the map.
pub proof fn lemma_absent_key<V>(s: Seq<(Seq<char>, V)>, k: Seq<char>)
    requires
        forall|i: int| 0 <= i < s.len() ==> s[i].0 != k,
    ensures
        !entries_to_map(s).contains_key(k),
{
}

/// The entries with each key taken by its characters.
pub open spec fn view_entries<V>(s: Seq<(String, V)>) -> Seq<(Seq<char>, V)> {
    s.map_values(|e: (String, V)| (e.0@, e.1))
}

/// A map keyed by strings whose entries keep their insertion order.
#[derive(Debug)]
pub struct StrMap<V> {
    entries: Vec<(String, V)>,
}

impl<V> StrMap<V> {
    /// The entries, each key taken by its characters, in insertion order.
    pub closed spec fn entries_view(&self) -> Seq<(Seq<char>, V)> {
        view_entries(self.entries@)
    }

    #[verifier::type_invariant]
    closed spec fn distinct_keys(&self) -> bool {
        keys_distinct(self.entries_view())
    }

    /// The map from each key to its value.
    pub open spec fn view(&self) -> Map<Seq<char>, V> {
        entries_to_map(self.entries_view())
    }

    /// The number of entries.
    pub open spec fn spec_len(&self) -> nat {
        self.entries_view().len()
    }

    /// Creates an empty map.
    pub fn new() -> (m: Self)
        ensures
            m.entries_view() == Seq::<(Seq<char>, V)>::empty(),
            m@ == Map::<Seq<char>, V>::empty(),
    {
        let m = StrMap { entries: Vec::new() };
        assert(m.entries_view() =~= Seq::<(Seq<char>, V)>::empty());
        assert(m@ =~= Map::<Seq<char>, V>::empty());
        m
    }

    /// The number of entries.
    pub fn len(&self) -> (n: usize)
        ensures
            n == self.spec_len(),
            keys_distinct(self.entries_view()),
    {
        proof {
            use_type_invariant(self);
        }
        self.entries.len()
    }

    /// Whether the map holds no entry.
    pub fn is_empty(&self) -> (b: bool)
        ensures
            b == (self.spec_len() == 0),
            b == (self@ == Map::<Seq<char>, V>::empty()),
    {
        proof {
            if self.spec_len() != 0 {
                use_type_invariant(self);
                lemma_entry_in_map(self.entries_view(), 0);
                assert(self@.contains_key(self.entries_view()[0].0));
            } else {
                assert(self@ =~= Map::<Seq<char>, V>::empty());
            }
        }
        self.entries.len() == 0
    }

    /// The key and value of the entry at position `i`.
    pub fn entry_at(&self, i: usize) -> (e: (&String, &V))
        requires
            i < self.spec_len(),
        ensures
            e.0@ == self.entries_view()[i as int].0,
            *e.1 == self.entries_view()[i as int].1,
    {
        let e = &self.entries[i];
        (&e.0, &e.1)
    }

    /// The position of the entry with the given key, if there is one.
    pub fn find(&self, key: &str) -> (r: Option<usize>)
        ensures
            match r {
                Some(i) => i < self.spec_len() && self.entries_view()[i as int].0 == key@,
                None => forall|j: int|
                    0 <= j < self.spec_len() ==> self.entries_view()[j].0 != key@,
            },
            r is Some <==> self@.contains_key(key@),
    {
        let mut i: usize = 0;
        while i < self.entries.len()
            invariant
                i <= self.spec_len(),
                self.spec_len() == self.entries@.len(),
                forall|j: int| 0 <= j < i ==> self.entries_view()[j].0 != key@,
            decreases self.entries.len() - i,
        {
            if str_equal(self.entries[i].0.as_str(), key) {
                proof {
                    use_type_invariant(self);
                    lemma_entry_in_map(self.entries_view(), i as int);
                }
                return Some(i);
            }
            i = i + 1;
        }
        None
    }

    /// Whether the map holds the key.
    pub fn contains_key(&self, key: &str) -> (b: bool)
        ensures
            b == self@.contains_key(key@),
    {
        self.find(key).is_some()
    }

    /// The value stored under the key, if there is one.
    pub fn get(&self, key: &str) -> (r: Option<&V>)
        ensures
            match r {
                Some(v) => self@.contains_key(key@) && *v == self@[key@],
                None => !self@.contains_key(key@),
            },
    {
        match self.find(key) {
            Some(i) => {
                proof {
                    use_type_invariant(self);
                    lemma_entry_in_map(self.entries_view(), i as int);
                }
                Some(&self.entries[i].1)
            },
            None => None,
        }
    }

    /// Stores the value under the key. An existing entry keeps its position;
    /// a new key is appended. Returns the value that was replaced.
    pub fn insert(&mut self, key: String, value: V) -> (old_value: Option<V>)
        ensures
            final(self)@ == old(self)@.insert(key@, value),
            match old_value {
                Some(v) => old(self)@.contains_key(key@) && v == old(self)@[key@],
                None => !old(self)@.contains_key(key@),
            },
            old(self)@.contains_key(key@) ==> final(self).spec_len() == old(self).spec_len(),
            !old(self)@.contains_key(key@) ==> final(self).entries_view() == old(
                self,
            ).entries_view().push((key@, value)),
    {
        proof {
            use_type_invariant(&*self);
        }
        let ghost s = self.entries_view();
        let ghost k = key@;
        match self.find(key.as_str()) {
            Some(i) => {
                proof {
                    lemma_entry_in_map(s, i as int);
                }
                let mut entries: Vec<(String, V)> = Vec::new();
                std::mem::swap(&mut entries, &mut self.entries);
                let (_, prev) = entries.remove(i);
                entries.insert(i, (key, value));
                let ghost s2 = view_entries(entries@);
                proof {
                    assert(s2 =~= s.update(i as int, (k, value)));
                    assert(keys_distinct(s2));
                }
                self.entries = entries;
                proof {
                    assert(self.entries_view() == s2);
                    assert forall|k2: Seq<char>|
                        entries_to_map(s2).contains_key(k2) == entries_to_map(s).insert(
                            k,
                            value,
                        ).contains_key(k2) by {
                        if k2 == k {
                            assert(s2[i as int].0 == k2);
                        }
                        if entries_to_map(s).contains_key(k2) {
                            let j = choose|j: int| 0 <= j < s.len() && s[j].0 == k2;
                            assert(s2[j].0 == k2 || j == i);
                        }
                        if entries_to_map(s2).contains_key(k2) {
                            let j = choose|j: int| 0 <= j < s2.len() && s2[j].0 == k2;
                            if j != i {
                                assert(s[j].0 == k2);
                            }
                        }
                    }
                    assert forall|k2: Seq<char>| #[trigger]
                        entries_to_map(s2).contains_key(k2) implies entries_to_map(s2)[k2]
                        == entries_to_map(s).insert(k, value)[k2] by {
                        let j = choose|j: int| 0 <= j < s2.len() && s2[j].0 == k2;
                        lemma_entry_in_map(s2, j);
                        if j != i {
                            assert(s[j] == s2[j]);
                            lemma_entry_in_map(s, j);
                        }
                    }
                    assert(entries_to_map(s2) =~= entries_to_map(s).insert(k, value));
                }
                Some(prev)
            },
            None => {
                let mut entries: Vec<(String, V)> = Vec::new();
                std::mem::swap(&mut entries, &mut self.entries);
                entries.push((key, value));
                let ghost s2 = view_entries(entries@);
                proof {
                    assert(s2 =~= s.push((k, value)));
                    lemma_absent_key(s, k);
                    assert(keys_distinct(s2));
                }
                self.entries = entries;
                proof {
                    assert(self.entries_view() == s2);
                    assert forall|k2: Seq<char>|
                        entries_to_map(s2).contains_key(k2) == entries_to_map(s).insert(
                            k,
                            value,
                        ).contains_key(k2) by {
                        if k2 == k {
                            assert(s2[s.len() as int].0 == k2);
                        }
                        if entries_to_map(s).contains_key(k2) {
                            let j = choose|j: int| 0 <= j < s.len() && s[j].0 == k2;
                            assert(s2[j].0 == k2);
                        }
                        if entries_to_map(s2).contains_key(k2) {
                            let j = choose|j: int| 0 <= j < s2.len() && s2[j].0 == k2;
                            if j != s.len() {
                                assert(s[j].0 == k2);
                            }
                        }
                    }
                    assert forall|k2: Seq<char>| #[trigger]
                        entries_to_map(s2).contains_key(k2) implies entries_to_map(s2)[k2]
                        == entries_to_map(s).insert(k, value)[k2] by {
                        let j = choose|j: int| 0 <= j < s2.len() && s2[j].0 == k2;
                        lemma_entry_in_map(s2, j);
                        if j != s.len() {
                            assert(s[j] == s2[j]);
                            lemma_entry_in_map(s, j);
                        }
                    }
                    assert(entries_to_map(s2) =~= entries_to_map(s).insert(k, value));
                }
                None
            },
        }
    }

    /// Removes the entry with the key and returns its value. The other entries
    /// keep their order.
    pub fn remove(&mut self, key: &str) -> (removed: Option<V>)
        ensures
            final(self)@ == old(self)@.remove(key@),
            match removed {
                Some(v) => old(self)@.contains_key(key@) && v == old(self)@[key@],
                None => !old(self)@.contains_key(key@) && *final(self) == *old(self),
            },
    {
        proof {
            use_type_invariant(&*self);
        }
        let ghost s = self.entries_view();
        let ghost k = key@;
        match self.find(key) {
            Some(i) => {
                proof {
                    lemma_entry_in_map(s, i as int);
                }
                let mut entries: Vec<(String, V)> = Vec::new();
                std::mem::swap(&mut entries, &mut self.entries);
                let (_, prev) = entries.remove(i);
                let ghost s2 = view_entries(entries@);
                proof {
                    assert(s2 =~= s.remove(i as int));
                    assert(keys_distinct(s2));
                }
                self.entries = entries;
                proof {
                    assert(self.entries_view() == s2);
                    assert forall|k2: Seq<char>|
                        entries_to_map(s2).contains_key(k2) == entries_to_map(s).remove(
                            k,
                        ).contains_key(k2) by {
                        if entries_to_map(s).contains_key(k2) && k2 != k {
                            let j = choose|j: int| 0 <= j < s.len() && s[j].0 == k2;
                            if j < i {
                                assert(s2[j].0 == k2);
                            } else {
                                assert(j != i);
                                assert(s2[j - 1].0 == k2);
                            }
                        }
                        if entries_to_map(s2).contains_key(k2) {
                            let j = choose|j: int| 0 <= j < s2.len() && s2[j].0 == k2;
                            if j < i {
                                assert(s[j].0 == k2);
                            } else {
                                assert(s[j + 1].0 == k2);
                            }
                        }
                    }
                    assert forall|k2: Seq<char>| #[trigger]
                        entries_to_map(s2).contains_key(k2) implies entries_to_map(s2)[k2]
                        == entries_to_map(s).remove(k)[k2] by {
                        let j = choose|j: int| 0 <= j < s2.len() && s2[j].0 == k2;
                        lemma_entry_in_map(s2, j);
                        if j < i {
                            lemma_entry_in_map(s, j);
                        } else {
                            lemma_entry_in_map(s, j + 1);
                        }
                    }
                    assert(entries_to_map(s2) =~= entries_to_map(s).remove(k));
                }
                Some(prev)
            },
            None => {
                proof {
                    assert(entries_to_map(s) =~= entries_to_map(s).remove(k));
                }
                None
            },
        }
    }
}


/// The map built by inserting the pairs one after another; a later pair wins.
pub open spec fn pairs_to_map<V>(s: Seq<(Seq<char>, V)>) -> Map<Seq<char>, V>
    decreases s.len(),
{
    if s.len() == 0 {
        Map::empty()
    } else {
        pairs_to_map(s.drop_last()).insert(s.last().0, s.last().1)
    }
}

impl<V> StrMap<V> {
    /// Builds a map from key and value pairs; a later pair replaces an earlier
    /// one with the same key.
    pub fn from_pairs(pairs: Vec<(String, V)>) -> (m: Self)
        ensures
            m@ == pairs_to_map(view_entries(pairs@)),
    {
        let ghost all = view_entries(pairs@);
        let mut rest = pairs;
        let mut m = StrMap::new();
        let ghost mut n: int = 0;
        while rest.len() > 0
            invariant
                0 <= n <= all.len(),
                view_entries(rest@) == all.subrange(n, all.len() as int),
                m@ == pairs_to_map(all.take(n)),
            decreases rest.len(),
        {
            let ghost before = view_entries(rest@);
            let ghost old_rest = rest@;
            proof {
                assert(before =~= all.subrange(n, all.len() as int));
                assert(before.len() == rest@.len());
                assert(n < all.len());
            }
            let (k, v) = rest.remove(0);
            proof {
                assert(before[0] == all[n]);
                assert(all.take(n + 1).drop_last() =~= all.take(n));
                assert forall|j: int| 0 <= j < view_entries(rest@).len() implies view_entries(
                    rest@,
                )[j] == all.subrange(n + 1, all.len() as int)[j] by {
                    assert(rest@[j] == old_rest[j + 1]);
                    assert(before[j + 1] == all[n + 1 + j]);
                }
                assert(view_entries(rest@) =~= all.subrange(n + 1, all.len() as int));
            }
            m.insert(k, v);
            proof {
                n = n + 1;
            }
        }
        proof {
            assert(all.take(n) =~= all);
        }
        m
    }
}

impl<V: Copy> StrMap<V> {
    /// A copy of the map with the same entries in the same order.
    pub fn copy(&self) -> (r: Self)
        ensures
            r.entries_view() == self.entries_view(),
            r@ == self@,
    {
        proof {
            use_type_invariant(self);
        }
        let mut entries: Vec<(String, V)> = Vec::new();
        let mut i: usize = 0;
        while i < self.entries.len()
            invariant
                i <= self.entries@.len(),
                entries@.len() == i,
                view_entries(entries@) == self.entries_view().take(
                    i as int,
                ),
            decreases self.entries.len() - i,
        {
            let k = self.entries[i].0.clone();
            let v = self.entries[i].1;
            let ghost prev = entries@;
            entries.push((k, v));
            proof {
                assert(entries@[i as int] == (k, v));
                assert(self.entries_view()[i as int] == (k@, v));
                assert(forall|j: int| 0 <= j < i ==> entries@[j] == prev[j]);
                assert(view_entries(entries@) =~= self.entries_view().take(
                    (i + 1) as int,
                ));
            }
            i = i + 1;
        }
        proof {
            assert(self.entries_view().take(i as int) =~= self.entries_view());
        }
        StrMap { entries }
    }
}

impl StrMap<i32> {
    /// Whether both maps hold the same keys with the same values.
    pub fn same_as(&self, other: &StrMap<i32>) -> (r: bool)
        ensures
            r == (self@ == other@),
    {
        proof {
            use_type_invariant(self);
            use_type_invariant(other);
        }
        let mut i: usize = 0;
        while i < self.entries.len()
            invariant
                i <= self.entries@.len(),
                keys_distinct(self.entries_view()),
                forall|j: int|
                    0 <= j < i ==> #[trigger] other@.contains_key(self.entries_view()[j].0)
                        && other@[self.entries_view()[j].0] == self.entries_view()[j].1,
            decreases self.entries.len() - i,
        {
            let (k, v) = (&self.entries[i].0, self.entries[i].1);
            proof {
                assert(self.entries_view()[i as int] == (k@, v));
            }
            match other.get(k.as_str()) {
                Some(w) => {
                    proof {
                        assert(other@.contains_key(k@));
                        assert(other@[k@] == *w);
                    }
                    if *w != v {
                        proof {
                            lemma_entry_in_map(self.entries_view(), i as int);
                            assert(self@[k@] != other@[k@]);
                        }
                        return false;
                    }
                },
                None => {
                    proof {
                        lemma_entry_in_map(self.entries_view(), i as int);
                        assert(self@.contains_key(k@));
                    }
                    return false;
                },
            }
            proof {
                assert(other@.contains_key(self.entries_view()[i as int].0));
                assert(other@[self.entries_view()[i as int].0] == self.entries_view()[i as int].1);
            }
            i = i + 1;
        }
        let mut j: usize = 0;
        while j < other.entries.len()
            invariant
                j <= other.entries@.len(),
                keys_distinct(other.entries_view()),
                forall|l: int|
                    0 <= l < j ==> #[trigger] self@.contains_key(other.entries_view()[l].0),
            decreases other.entries.len() - j,
        {
            let k = &other.entries[j].0;
            if !self.contains_key(k.as_str()) {
                proof {
                    lemma_entry_in_map(other.entries_view(), j as int);
                }
                return false;
            }
            j = j + 1;
        }
        proof {
            assert forall|k: Seq<char>| #[trigger] self@.contains_key(k) implies other@.contains_key(
                k,
            ) && other@[k] == self@[k] by {
                let l = choose|l: int|
                    0 <= l < self.entries_view().len() && self.entries_view()[l].0 == k;
                lemma_entry_in_map(self.entries_view(), l);
            }
            assert forall|k: Seq<char>| #[trigger] other@.contains_key(k) implies self@.contains_key(
                k,
            ) by {
                let l = choose|l: int|
                    0 <= l < other.entries_view().len() && other.entries_view()[l].0 == k;
                assert(self@.contains_key(other.entries_view()[l].0));
            }
            assert(self@ =~= other@);
        }
        true
    }
}

impl<V: Copy> Clone for StrMap<V> {
    fn clone(&self) -> (r: Self)
        ensures
            r@ == self@,
    {
        self.copy()
    }
}

impl PartialEq for StrMap<i32> {
    fn eq(&self, other: &Self) -> (r: bool) {
        self.same_as(other)
    }
}

impl vstd::std_specs::cmp::PartialEqSpecImpl for StrMap<i32> {
    open spec fn obeys_eq_spec() -> bool {
        true
    }

    open spec fn eq_spec(&self, other: &Self) -> bool {
        self@ == other@
    }
}

impl Eq for StrMap<i32> {

}

impl<V> Default for StrMap<V> {
    fn default() -> (r: Self)
        ensures
            r@ == Map::<Seq<char>, V>::empty(),
    {
        StrMap::new()
    }
}

} // verus!
