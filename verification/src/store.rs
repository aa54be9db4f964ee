//! A string-keyed store: entries in a vector, viewed as a map from key text
//! to value. Keys are unique.

use vstd::prelude::*;

verus! {

/// The map a sequence of (key, value) entries stands for.
pub open spec fn seq_to_map<V>(s: Seq<(Seq<char>, V)>) -> Map<Seq<char>, V> {
    Map::new(
        |k: Seq<char>| exists|i: int| 0 <= i < s.len() && s[i].0 == k,
        |k: Seq<char>| s[choose|i: int| 0 <= i < s.len() && s[i].0 == k].1,
    )
}

/// No key occurs twice.
pub open spec fn unique_keys<V>(s: Seq<(Seq<char>, V)>) -> bool {
    forall|i: int, j: int| 0 <= i < s.len() && 0 <= j < s.len() && i != j ==> s[i].0 != s[j].0
}

/// With unique keys, every entry is what the map holds for its key.
pub proof fn lemma_entry_in_map<V>(s: Seq<(Seq<char>, V)>, j: int)
    requires
        unique_keys(s),
        0 <= j < s.len(),
    ensures
        seq_to_map(s).contains_key(s[j].0),
        seq_to_map(s)[s[j].0] == s[j].1,
{
    let k = s[j].0;
    assert(exists|i: int| 0 <= i < s.len() && s[i].0 == k);
    let c = choose|i: int| 0 <= i < s.len() && s[i].0 == k;
    assert(c == j);
}

/// Two entry sequences with unique keys that hold the same entries stand for
/// the same map when every key of one is found at some index in the other.
pub proof fn lemma_map_of_entries<V>(s: Seq<(Seq<char>, V)>)
    requires
        unique_keys(s),
    ensures
        forall|k: Seq<char>| #[trigger] seq_to_map(s).contains_key(k) ==> exists|i: int|
            0 <= i < s.len() && s[i].0 == k && seq_to_map(s)[k] == s[i].1,
{
    assert forall|k: Seq<char>| #[trigger] seq_to_map(s).contains_key(k) implies exists|i: int|
        0 <= i < s.len() && s[i].0 == k && seq_to_map(s)[k] == s[i].1 by {
        let c = choose|i: int| 0 <= i < s.len() && s[i].0 == k;
        lemma_entry_in_map(s, c);
    }
}

/// With unique keys, the map has one key per entry.
pub proof fn lemma_map_len<V>(s: Seq<(Seq<char>, V)>)
    requires
        unique_keys(s),
    ensures
        seq_to_map(s).dom().finite(),
        seq_to_map(s).dom().len() == s.len(),
    decreases s.len(),
{
    if s.len() == 0 {
        assert(seq_to_map(s).dom() =~= Set::<Seq<char>>::empty());
    } else {
        let p = s.drop_last();
        assert(unique_keys(p)) by {
            assert forall|i: int, j: int| 0 <= i < p.len() && 0 <= j < p.len() && i != j implies p[i].0 != p[j].0 by {
                assert(p[i] == s[i] && p[j] == s[j]);
            }
        }
        lemma_map_len(p);
        let k = s.last().0;
        assert(!seq_to_map(p).contains_key(k)) by {
            if seq_to_map(p).contains_key(k) {
                let j = choose|j: int| 0 <= j < p.len() && p[j].0 == k;
                assert(s[j].0 == s[s.len() - 1].0);
            }
        }
        assert(seq_to_map(s).dom() =~= seq_to_map(p).dom().insert(k)) by {
            assert forall|q: Seq<char>| seq_to_map(s).dom().contains(q) implies seq_to_map(p).dom().insert(k).contains(q) by {
                let j = choose|j: int| 0 <= j < s.len() && s[j].0 == q;
                if j < p.len() {
                    assert(p[j].0 == q);
                }
            }
            assert forall|q: Seq<char>| seq_to_map(p).dom().insert(k).contains(q) implies seq_to_map(s).dom().contains(q) by {
                if q == k {
                    assert(s[s.len() - 1].0 == q);
                } else {
                    let j = choose|j: int| 0 <= j < p.len() && p[j].0 == q;
                    assert(s[j].0 == q);
                }
            }
        }
    }
}

/// A string-keyed store.
#[derive(Debug)]
pub struct KeyedStore<V> {
    entries: Vec<(String, V)>,
}

impl<V> KeyedStore<V> {
    /// The entries with their keys as text, in storage order.
    pub closed spec fn entry_seq(self) -> Seq<(Seq<char>, V)> {
        self.entries@.map_values(|e: (String, V)| (e.0@, e.1))
    }

    /// The map from key text to value that the store holds.
    pub open spec fn model(self) -> Map<Seq<char>, V> {
        seq_to_map(self.entry_seq())
    }

    #[verifier::type_invariant]
    spec fn keys_are_unique(self) -> bool {
        unique_keys(self.entry_seq())
    }

    /// Establishes, at no run-time cost, the facts about the entries that
    /// callers iterating by index need.
    pub fn entry_facts(&self)
        ensures
            unique_keys(self.entry_seq()),
            self.model().dom().finite(),
            self.model().len() == self.entry_seq().len(),
            forall|j: int| 0 <= j < self.entry_seq().len() ==> #[trigger] self.model().contains_key(
                self.entry_seq()[j].0,
            ) && self.model()[self.entry_seq()[j].0] == self.entry_seq()[j].1,
            forall|k: Seq<char>| #[trigger] self.model().contains_key(k) ==> exists|i: int|
                0 <= i < self.entry_seq().len() && self.entry_seq()[i].0 == k && self.model()[k]
                    == self.entry_seq()[i].1,
    {
        proof {
            use_type_invariant(self);
            assert forall|j: int| 0 <= j < self.entry_seq().len() implies #[trigger] self.model().contains_key(
                self.entry_seq()[j].0,
            ) && self.model()[self.entry_seq()[j].0] == self.entry_seq()[j].1 by {
                lemma_entry_in_map(self.entry_seq(), j);
            }
            lemma_map_of_entries(self.entry_seq());
            lemma_map_len(self.entry_seq());
        }
    }

    /// An empty store.
    pub fn new() -> (s: Self)
        ensures
            s.model() == Map::<Seq<char>, V>::empty(),
            s.entry_seq().len() == 0,
    {
        let s = KeyedStore { entries: Vec::new() };
        assert(s.model() =~= Map::<Seq<char>, V>::empty());
        s
    }

    /// Number of entries.
    pub fn len(&self) -> (n: usize)
        ensures
            n == self.entry_seq().len(),
            n == self.model().len(),
            self.model().dom().finite(),
    {
        self.entry_facts();
        self.entries.len()
    }

    /// The key of entry `i`.
    pub fn key_at(&self, i: usize) -> (k: &String)
        requires
            i < self.entry_seq().len(),
        ensures
            k@ == self.entry_seq()[i as int].0,
    {
        &self.entries[i].0
    }

    /// The value of entry `i`.
    pub fn value_at(&self, i: usize) -> (v: &V)
        requires
            i < self.entry_seq().len(),
        ensures
            *v == self.entry_seq()[i as int].1,
    {
        &self.entries[i].1
    }

    /// Index of the entry with key `key`.
    pub fn index_of(&self, key: &str) -> (r: Option<usize>)
        ensures
            r matches Some(i) ==> i < self.entry_seq().len() && self.entry_seq()[i as int].0 == key@,
            r is None ==> !self.model().contains_key(key@),
    {
        let mut i: usize = 0;
        while i < self.entries.len()
            invariant
                i <= self.entries@.len(),
                forall|j: int| 0 <= j < i ==> self.entry_seq()[j].0 != key@,
            decreases self.entries.len() - i,
        {
            if crate::text::str_eq(self.entries[i].0.as_str(), key) {
                return Some(i);
            }
            i = i + 1;
        }
        None
    }

    /// The value stored under `key`.
    pub fn get(&self, key: &str) -> (r: Option<&V>)
        ensures
            r matches Some(v) ==> self.model().contains_key(key@) && self.model()[key@] == *v,
            r is None ==> !self.model().contains_key(key@),
    {
        self.entry_facts();
        match self.index_of(key) {
            Some(i) => Some(&self.entries[i].1),
            None => None,
        }
    }

    /// Whether `key` is stored.
    pub fn contains_key(&self, key: &str) -> (r: bool)
        ensures
            r == self.model().contains_key(key@),
    {
        self.entry_facts();
        self.index_of(key).is_some()
    }

    /// Stores `value` under `key`, replacing any previous value.
    pub fn insert(&mut self, key: String, value: V)
        ensures
            final(self).model() == old(self).model().insert(key@, value),
    {
        proof { use_type_invariant(&*self); }
        let ghost old_s = self.entry_seq();
        match self.index_of(key.as_str()) {
            Some(i) => {
                let ghost k = key@;
                let mut entries: Vec<(String, V)> = Vec::new();
                std::mem::swap(&mut entries, &mut self.entries);
                entries.set(i, (key, value));
                proof {
                    let s2 = entries@.map_values(|e: (String, V)| (e.0@, e.1));
                    assert(s2 =~= old_s.update(i as int, (k, value)));
                    assert forall|a: int, b: int| 0 <= a < s2.len() && 0 <= b < s2.len() && a != b implies s2[a].0 != s2[b].0 by {
                        if a != i && b != i {
                        }
                    }
                    assert(seq_to_map(s2) =~= seq_to_map(old_s).insert(k, value)) by {
                        lemma_map_of_entries(old_s);
                        lemma_map_of_entries(s2);
                        assert forall|q: Seq<char>| seq_to_map(s2).contains_key(q) <==> seq_to_map(old_s).insert(k, value).contains_key(q) by {
                            if seq_to_map(old_s).contains_key(q) {
                                let j = choose|j: int| 0 <= j < old_s.len() && old_s[j].0 == q && seq_to_map(old_s)[q] == old_s[j].1;
                                if j != i {
                                    assert(s2[j].0 == q);
                                } else {
                                    assert(s2[j].0 == k);
                                }
                            }
                            if q == k {
                                assert(s2[i as int].0 == k);
                            }
                            if seq_to_map(s2).contains_key(q) {
                                let j = choose|j: int| 0 <= j < s2.len() && s2[j].0 == q && seq_to_map(s2)[q] == s2[j].1;
                                if j != i {
                                    assert(old_s[j].0 == q);
                                }
                            }
                        }
                        assert forall|q: Seq<char>| seq_to_map(s2).contains_key(q) implies seq_to_map(s2)[q] == seq_to_map(old_s).insert(k, value)[q] by {
                            let j = choose|j: int| 0 <= j < s2.len() && s2[j].0 == q && seq_to_map(s2)[q] == s2[j].1;
                            if j != i {
                                assert(old_s[j].0 == q);
                                lemma_entry_in_map(old_s, j);
                            }
                        }
                    }
                }
                self.entries = entries;
            },
            None => {
                let ghost k = key@;
                let mut entries: Vec<(String, V)> = Vec::new();
                std::mem::swap(&mut entries, &mut self.entries);
                entries.push((key, value));
                proof {
                    let s2 = entries@.map_values(|e: (String, V)| (e.0@, e.1));
                    assert(s2 =~= old_s.push((k, value)));
                    assert(!seq_to_map(old_s).contains_key(k));
                    assert forall|j: int| 0 <= j < old_s.len() implies old_s[j].0 != k by {
                        if old_s[j].0 == k {
                            assert(seq_to_map(old_s).contains_key(k));
                        }
                    }
                    assert(unique_keys(s2));
                    assert(seq_to_map(s2) =~= seq_to_map(old_s).insert(k, value)) by {
                        lemma_map_of_entries(old_s);
                        lemma_map_of_entries(s2);
                        assert forall|q: Seq<char>| seq_to_map(s2).contains_key(q) <==> seq_to_map(old_s).insert(k, value).contains_key(q) by {
                            if seq_to_map(old_s).contains_key(q) {
                                let j = choose|j: int| 0 <= j < old_s.len() && old_s[j].0 == q && seq_to_map(old_s)[q] == old_s[j].1;
                                assert(s2[j].0 == q);
                            }
                            if q == k {
                                assert(s2[old_s.len() as int].0 == k);
                            }
                            if seq_to_map(s2).contains_key(q) {
                                let j = choose|j: int| 0 <= j < s2.len() && s2[j].0 == q && seq_to_map(s2)[q] == s2[j].1;
                                if j < old_s.len() {
                                    assert(old_s[j].0 == q);
                                }
                            }
                        }
                        assert forall|q: Seq<char>| seq_to_map(s2).contains_key(q) implies seq_to_map(s2)[q] == seq_to_map(old_s).insert(k, value)[q] by {
                            let j = choose|j: int| 0 <= j < s2.len() && s2[j].0 == q && seq_to_map(s2)[q] == s2[j].1;
                            if j < old_s.len() {
                                assert(old_s[j].0 == q);
                                lemma_entry_in_map(old_s, j);
                            }
                        }
                    }
                }
                self.entries = entries;
            },
        }
    }

    /// Removes the entry at index `i`, returning its key and value.
    pub fn remove_at(&mut self, i: usize) -> (r: (String, V))
        requires
            i < old(self).entry_seq().len(),
        ensures
            r.0@ == old(self).entry_seq()[i as int].0,
            r.1 == old(self).entry_seq()[i as int].1,
            final(self).model() == old(self).model().remove(r.0@),
            final(self).entry_seq() == old(self).entry_seq().remove(i as int),
    {
        proof { use_type_invariant(&*self); }
        let ghost old_s = self.entry_seq();
        let mut entries: Vec<(String, V)> = Vec::new();
                std::mem::swap(&mut entries, &mut self.entries);
        let r = entries.remove(i);
        proof {
            let k = old_s[i as int].0;
            let s2 = entries@.map_values(|e: (String, V)| (e.0@, e.1));
            assert(s2 =~= old_s.remove(i as int));
            assert forall|a: int, b: int| 0 <= a < s2.len() && 0 <= b < s2.len() && a != b implies s2[a].0 != s2[b].0 by {
                let a2 = if a < i { a } else { a + 1 };
                let b2 = if b < i { b } else { b + 1 };
                assert(s2[a] == old_s[a2]);
                assert(s2[b] == old_s[b2]);
            }
            assert(seq_to_map(s2) =~= seq_to_map(old_s).remove(k)) by {
                lemma_map_of_entries(old_s);
                lemma_map_of_entries(s2);
                assert forall|q: Seq<char>| seq_to_map(s2).contains_key(q) <==> seq_to_map(old_s).remove(k).contains_key(q) by {
                    if seq_to_map(old_s).contains_key(q) && q != k {
                        let j = choose|j: int| 0 <= j < old_s.len() && old_s[j].0 == q && seq_to_map(old_s)[q] == old_s[j].1;
                        if j < i {
                            assert(s2[j].0 == q);
                        } else {
                            assert(j != i);
                            assert(s2[j - 1].0 == q);
                        }
                    }
                    if seq_to_map(s2).contains_key(q) {
                        let j = choose|j: int| 0 <= j < s2.len() && s2[j].0 == q && seq_to_map(s2)[q] == s2[j].1;
                        let j2 = if j < i { j } else { j + 1 };
                        assert(old_s[j2].0 == q);
                        assert(j2 != i);
                    }
                }
                assert forall|q: Seq<char>| seq_to_map(s2).contains_key(q) implies seq_to_map(s2)[q] == seq_to_map(old_s).remove(k)[q] by {
                    let j = choose|j: int| 0 <= j < s2.len() && s2[j].0 == q && seq_to_map(s2)[q] == s2[j].1;
                    let j2 = if j < i { j } else { j + 1 };
                    assert(old_s[j2].0 == q);
                    lemma_entry_in_map(old_s, j2);
                }
            }
        }
        self.entries = entries;
        r
    }

    /// Removes the entry with key `key`, if any.
    pub fn remove(&mut self, key: &str) -> (r: Option<V>)
        ensures
            final(self).model() == old(self).model().remove(key@),
            r matches Some(v) ==> old(self).model().contains_key(key@) && old(self).model()[key@] == v,
            r is None ==> !old(self).model().contains_key(key@),
    {
        self.entry_facts();
        match self.index_of(key) {
            Some(i) => {
                let (_, v) = self.remove_at(i);
                Some(v)
            },
            None => {
                assert(old(self).model().remove(key@) =~= old(self).model());
                None
            },
        }
    }

    /// Removes every entry.
    pub fn clear(&mut self)
        ensures
            final(self).model() == Map::<Seq<char>, V>::empty(),
            final(self).entry_seq().len() == 0,
    {
        self.entries = Vec::new();
        assert(self.model() =~= Map::<Seq<char>, V>::empty());
    }

    /// Whether the store is empty.
    pub fn is_empty(&self) -> (r: bool)
        ensures
            r == (self.model() == Map::<Seq<char>, V>::empty()),
    {
        self.entry_facts();
        let r = self.entries.len() == 0;
        proof {
            if r {
                assert(self.model() =~= Map::<Seq<char>, V>::empty());
            } else {
                assert(self.model().contains_key(self.entry_seq()[0].0));
            }
        }
        r
    }
}

impl KeyedStore<u64> {
    /// A copy of a store of counts.
    pub fn copy(&self) -> (r: Self)
        ensures
            r.model() == self.model(),
            r.entry_seq() == self.entry_seq(),
    {
        proof {
            use_type_invariant(self);
        }
        let mut out: Vec<(String, u64)> = Vec::new();
        let mut i: usize = 0;
        while i < self.entries.len()
            invariant
                i <= self.entries@.len(),
                out@.len() == i,
                forall|k: int| 0 <= k < i ==> #[trigger] out@[k] == self.entries@[k],
            decreases self.entries.len() - i,
        {
            out.push((self.entries[i].0.clone(), self.entries[i].1));
            i = i + 1;
        }
        assert(out@ =~= self.entries@);
        assert(out@.map_values(|e: (String, u64)| (e.0@, e.1)) =~= self.entry_seq());
        let r = KeyedStore { entries: out };
        r
    }
}

impl KeyedStore<String> {
    /// A copy of a store of texts.
    pub fn copy(&self) -> (r: Self)
        ensures
            r.model() == self.model(),
            r.entry_seq() == self.entry_seq(),
    {
        proof {
            use_type_invariant(self);
        }
        let mut out: Vec<(String, String)> = Vec::new();
        let mut i: usize = 0;
        while i < self.entries.len()
            invariant
                i <= self.entries@.len(),
                out@.len() == i,
                forall|k: int| 0 <= k < i ==> #[trigger] out@[k] == self.entries@[k],
            decreases self.entries.len() - i,
        {
            out.push((self.entries[i].0.clone(), self.entries[i].1.clone()));
            i = i + 1;
        }
        assert(out@ =~= self.entries@);
        assert(out@.map_values(|e: (String, String)| (e.0@, e.1)) =~= self.entry_seq());
        let r = KeyedStore { entries: out };
        r
    }
}

} // verus!
