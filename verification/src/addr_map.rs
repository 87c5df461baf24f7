//! Maps from addresses (strings) or from batch ids to values that keep their entries in order.
//!
//! The contracts keep their per-address records in key-value stores. A value of this
//! type holds such a store's entries: it is built from them in the order in which the
//! store lists them, and a new key is appended at the end. Its model is the sequence of
//! `(key, value)` pairs, whose keys are pairwise distinct. The spec functions on such
//! sequences below are stated for any key type.
use vstd::prelude::*;

verus! {

/// The keys of `s` are pairwise distinct.
pub open spec fn distinct_keys<K, V>(s: Seq<(K, V)>) -> bool {
    forall|i: int, j: int| 0 <= i < s.len() && 0 <= j < s.len() && i != j ==> s[i].0 != s[j].0
}

/// Some entry of `s` has key `k`.
pub open spec fn has_key<K, V>(s: Seq<(K, V)>, k: K) -> bool {
    exists|i: int| 0 <= i < s.len() && s[i].0 == k
}

/// The position of the entry with key `k` (meaningful when `has_key(s, k)`).
pub open spec fn key_index<K, V>(s: Seq<(K, V)>, k: K) -> int {
    choose|i: int| 0 <= i < s.len() && s[i].0 == k
}

/// The value stored under `k`, if any.
pub open spec fn lookup<K, V>(s: Seq<(K, V)>, k: K) -> Option<V> {
    if has_key(s, k) {
        Some(s[key_index(s, k)].1)
    } else {
        None
    }
}

/// `s` after storing `v` under `k`: an existing entry is overwritten in place, a new
/// key is appended.
pub open spec fn insert_pair<K, V>(s: Seq<(K, V)>, k: K, v: V) -> Seq<(K, V)> {
    if has_key(s, k) {
        s.update(key_index(s, k), (k, v))
    } else {
        s.push((k, v))
    }
}

/// `s` without the entry with key `k`.
pub open spec fn remove_key<K, V>(s: Seq<(K, V)>, k: K) -> Seq<(K, V)> {
    if has_key(s, k) {
        s.remove(key_index(s, k))
    } else {
        s
    }
}

/// With distinct keys, the entry found at `i` is the one `key_index` names.
pub proof fn lemma_key_index_unique<K, V>(s: Seq<(K, V)>, i: int)
    requires
        distinct_keys(s),
        0 <= i < s.len(),
    ensures
        has_key(s, s[i].0),
        key_index(s, s[i].0) == i,
        lookup(s, s[i].0) == Some(s[i].1),
{
    assert(has_key(s, s[i].0));
}

/// Storing under a key keeps the keys distinct, and the key then maps to the value.
pub proof fn lemma_insert_pair<K, V>(s: Seq<(K, V)>, k: K, v: V)
    requires
        distinct_keys(s),
    ensures
        distinct_keys(insert_pair(s, k, v)),
        lookup(insert_pair(s, k, v), k) == Some(v),
        forall|k2: K| k2 != k ==> lookup(insert_pair(s, k, v), k2) == lookup(s, k2),
{
    let t = insert_pair(s, k, v);
    if has_key(s, k) {
        let i = key_index(s, k);
        assert(distinct_keys(t));
        lemma_key_index_unique(t, i);
        assert forall|k2: K| k2 != k implies lookup(t, k2) == lookup(s, k2) by {
            if has_key(s, k2) {
                let j = key_index(s, k2);
                assert(t[j] == s[j]);
                lemma_key_index_unique(t, j);
            } else {
                if has_key(t, k2) {
                    let j = key_index(t, k2);
                    assert(s[j].0 == k2);
                }
            }
        }
    } else {
        assert(distinct_keys(t));
        lemma_key_index_unique(t, s.len() as int);
        assert forall|k2: K| k2 != k implies lookup(t, k2) == lookup(s, k2) by {
            if has_key(s, k2) {
                let j = key_index(s, k2);
                assert(t[j] == s[j]);
                lemma_key_index_unique(t, j);
            } else {
                if has_key(t, k2) {
                    let j = key_index(t, k2);
                    assert(s[j].0 == k2);
                }
            }
        }
    }
}

/// Storing twice under the same key is storing the second value.
pub proof fn lemma_insert_twice<K, V>(s: Seq<(K, V)>, k: K, a: V, b: V)
    requires
        distinct_keys(s),
    ensures
        insert_pair(insert_pair(s, k, a), k, b) == insert_pair(s, k, b),
{
    lemma_insert_pair(s, k, a);
    let t = insert_pair(s, k, a);
    if has_key(s, k) {
        let i = key_index(s, k);
        lemma_key_index_unique(s, i);
        lemma_key_index_unique(t, i);
        assert(insert_pair(t, k, b) =~= insert_pair(s, k, b));
    } else {
        lemma_key_index_unique(t, s.len() as int);
        assert(insert_pair(t, k, b) =~= insert_pair(s, k, b));
    }
}

/// Removing a key keeps the keys distinct, and the key then maps to nothing.
pub proof fn lemma_remove_key<K, V>(s: Seq<(K, V)>, k: K)
    requires
        distinct_keys(s),
    ensures
        distinct_keys(remove_key(s, k)),
        lookup(remove_key(s, k), k) is None,
        forall|k2: K| k2 != k ==> lookup(remove_key(s, k), k2) == lookup(s, k2),
{
    let t = remove_key(s, k);
    if has_key(s, k) {
        let i = key_index(s, k);
        assert forall|a: int, b: int| 0 <= a < t.len() && 0 <= b < t.len() && a != b implies t[a].0
            != t[b].0 by {
            let sa = if a < i { a } else { a + 1 };
            let sb = if b < i { b } else { b + 1 };
            assert(t[a] == s[sa]);
            assert(t[b] == s[sb]);
        }
        if has_key(t, k) {
            let j = key_index(t, k);
            let sj = if j < i { j } else { j + 1 };
            assert(t[j] == s[sj]);
        }
        assert forall|k2: K| k2 != k implies lookup(t, k2) == lookup(s, k2) by {
            if has_key(s, k2) {
                let j = key_index(s, k2);
                let tj = if j < i { j } else { j - 1 };
                assert(t[tj] == s[j]);
                lemma_key_index_unique(t, tj);
            } else {
                if has_key(t, k2) {
                    let j = key_index(t, k2);
                    let sj = if j < i { j } else { j + 1 };
                    assert(t[j] == s[sj]);
                }
            }
        }
    }
}

/// The pairs of a vector of `(String, V)` entries, with each key taken by its view.
pub open spec fn pairs_of<V>(entries: Seq<(String, V)>) -> Seq<(Seq<char>, V)> {
    entries.map_values(|e: (String, V)| (e.0@, e.1))
}

/// An ordered map from address strings to values (see the module documentation).
pub struct AddrMap<V> {
    entries: Vec<(String, V)>,
}

impl<V> View for AddrMap<V> {
    type V = Seq<(Seq<char>, V)>;

    closed spec fn view(&self) -> Seq<(Seq<char>, V)> {
        pairs_of(self.entries@)
    }
}

impl<V> AddrMap<V> {
    #[verifier::type_invariant]
    closed spec fn keys_distinct(self) -> bool {
        distinct_keys(pairs_of(self.entries@))
    }

    /// An empty map.
    pub fn new() -> (r: AddrMap<V>)
        ensures
            r@ == Seq::<(Seq<char>, V)>::empty(),
    {
        let r = AddrMap { entries: Vec::new() };
        assert(pairs_of(r.entries@) =~= Seq::<(Seq<char>, V)>::empty());
        r
    }

    /// The number of entries.
    pub fn len(&self) -> (r: usize)
        ensures
            r == self@.len(),
            distinct_keys(self@),
    {
        proof {
            use_type_invariant(self);
        }
        self.entries.len()
    }

    /// The key and value of the `i`-th entry.
    pub fn entry(&self, i: usize) -> (r: (&String, &V))
        requires
            i < self@.len(),
        ensures
            r.0@ == self@[i as int].0,
            *r.1 == self@[i as int].1,
    {
        let e = &self.entries[i];
        (&e.0, &e.1)
    }

    /// The position of the entry with key `k`, if there is one.
    pub fn find(&self, k: &String) -> (r: Option<usize>)
        ensures
            distinct_keys(self@),
            r is Some <==> has_key(self@, k@),
            r matches Some(i) ==> i < self@.len() && self@[i as int].0 == k@ && key_index(self@, k@)
                == i,
    {
        proof {
            use_type_invariant(self);
        }
        let n = self.entries.len();
        let mut i: usize = 0;
        while i < n
            invariant
                n == self.entries@.len(),
                n == self@.len(),
                0 <= i <= n,
                distinct_keys(self@),
                forall|j: int| 0 <= j < i ==> self@[j].0 != k@,
            decreases n - i,
        {
            if self.entries[i].0 == *k {
                proof {
                    assert(self@[i as int].0 == k@);
                    lemma_key_index_unique(self@, i as int);
                }
                return Some(i);
            }
            i = i + 1;
        }
        None
    }

    /// The value stored under `k`, if any.
    pub fn get(&self, k: &String) -> (r: Option<&V>)
        ensures
            distinct_keys(self@),
            match r {
                Some(v) => lookup(self@, k@) == Some(*v),
                None => lookup(self@, k@) is None,
            },
    {
        proof {
            use_type_invariant(self);
        }
        match self.find(k) {
            Some(i) => {
                proof {
                    lemma_key_index_unique(self@, i as int);
                }
                Some(&self.entries[i].1)
            },
            None => None,
        }
    }

    /// Whether some value is stored under `k`.
    pub fn contains_key(&self, k: &String) -> (r: bool)
        ensures
            distinct_keys(self@),
            r == has_key(self@, k@),
    {
        self.find(k).is_some()
    }

    /// Stores `v` under `k`, and returns the value that was stored there.
    pub fn insert(&mut self, k: String, v: V) -> (r: Option<V>)
        ensures
            r == lookup(old(self)@, k@),
            distinct_keys(old(self)@),
            distinct_keys(final(self)@),
            final(self)@ == insert_pair(old(self)@, k@, v),
    {
        proof {
            use_type_invariant(&*self);
        }
        let ghost kv = k@;
        let ghost s = self@;
        proof {
            lemma_insert_pair(s, kv, v);
        }
        match self.find(&k) {
            Some(i) => {
                let mut entries = Vec::new();
                std::mem::swap(&mut entries, &mut self.entries);
                let old_entry = entries.remove(i);
                entries.insert(i, (k, v));
                proof {
                    assert(pairs_of(entries@) =~= s.update(i as int, (kv, v)));
                    lemma_key_index_unique(s, i as int);
                }
                self.entries = entries;
                Some(old_entry.1)
            },
            None => {
                let mut entries = Vec::new();
                std::mem::swap(&mut entries, &mut self.entries);
                entries.push((k, v));
                proof {
                    assert(pairs_of(entries@) =~= s.push((kv, v)));
                }
                self.entries = entries;
                None
            },
        }
    }

    /// Removes the entry with key `k`, if there is one.
    pub fn remove(&mut self, k: &String)
        ensures
            distinct_keys(old(self)@),
            distinct_keys(final(self)@),
            final(self)@ == remove_key(old(self)@, k@),
    {
        proof {
            use_type_invariant(&*self);
        }
        let ghost s = self@;
        proof {
            lemma_remove_key(s, k@);
        }
        match self.find(k) {
            Some(i) => {
                let mut entries = Vec::new();
                std::mem::swap(&mut entries, &mut self.entries);
                let _ = entries.remove(i);
                proof {
                    assert(pairs_of(entries@) =~= s.remove(i as int));
                    lemma_remove_key(s, k@);
                }
                self.entries = entries;
            },
            None => {},
        }
    }

    /// The keys, in entry order.
    pub fn keys(&self) -> (r: Vec<String>)
        ensures
            r@.len() == self@.len(),
            forall|i: int| 0 <= i < r@.len() ==> #[trigger] r@[i]@ == self@[i].0,
    {
        let n = self.entries.len();
        let mut r: Vec<String> = Vec::new();
        let mut i: usize = 0;
        while i < n
            invariant
                n == self@.len(),
                n == self.entries@.len(),
                0 <= i <= n,
                r@.len() == i,
                forall|j: int| 0 <= j < i ==> #[trigger] r@[j]@ == self@[j].0,
            decreases n - i,
        {
            r.push(self.entries[i].0.clone());
            i = i + 1;
        }
        r
    }
}


/// An ordered map from batch ids to values, kept like `AddrMap`.
pub struct BatchMap<V> {
    entries: Vec<(u64, V)>,
}

impl<V> View for BatchMap<V> {
    type V = Seq<(u64, V)>;

    closed spec fn view(&self) -> Seq<(u64, V)> {
        self.entries@
    }
}

impl<V> BatchMap<V> {
    #[verifier::type_invariant]
    closed spec fn keys_distinct(self) -> bool {
        distinct_keys(self.entries@)
    }

    /// An empty map.
    pub fn new() -> (r: BatchMap<V>)
        ensures
            r@ == Seq::<(u64, V)>::empty(),
    {
        let r = BatchMap { entries: Vec::new() };
        r
    }

    /// The number of entries.
    pub fn len(&self) -> (r: usize)
        ensures
            r == self@.len(),
            distinct_keys(self@),
    {
        proof {
            use_type_invariant(self);
        }
        self.entries.len()
    }

    /// The key and value of the `i`-th entry.
    pub fn entry(&self, i: usize) -> (r: (&u64, &V))
        requires
            i < self@.len(),
        ensures
            *r.0 == self@[i as int].0,
            *r.1 == self@[i as int].1,
    {
        let e = &self.entries[i];
        (&e.0, &e.1)
    }

    /// The position of the entry with key `k`, if there is one.
    pub fn find(&self, k: &u64) -> (r: Option<usize>)
        ensures
            distinct_keys(self@),
            r is Some <==> has_key(self@, *k),
            r matches Some(i) ==> i < self@.len() && self@[i as int].0 == *k && key_index(self@, *k)
                == i,
    {
        proof {
            use_type_invariant(self);
        }
        let n = self.entries.len();
        let mut i: usize = 0;
        while i < n
            invariant
                n == self.entries@.len(),
                n == self@.len(),
                0 <= i <= n,
                distinct_keys(self@),
                forall|j: int| 0 <= j < i ==> self@[j].0 != *k,
            decreases n - i,
        {
            if self.entries[i].0 == *k {
                proof {
                    assert(self@[i as int].0 == *k);
                    lemma_key_index_unique(self@, i as int);
                }
                return Some(i);
            }
            i = i + 1;
        }
        None
    }

    /// The value stored under `k`, if any.
    pub fn get(&self, k: &u64) -> (r: Option<&V>)
        ensures
            distinct_keys(self@),
            match r {
                Some(v) => lookup(self@, *k) == Some(*v),
                None => lookup(self@, *k) is None,
            },
    {
        proof {
            use_type_invariant(self);
        }
        match self.find(k) {
            Some(i) => {
                proof {
                    lemma_key_index_unique(self@, i as int);
                }
                Some(&self.entries[i].1)
            },
            None => None,
        }
    }

    /// Whether some value is stored under `k`.
    pub fn contains_key(&self, k: &u64) -> (r: bool)
        ensures
            distinct_keys(self@),
            r == has_key(self@, *k),
    {
        self.find(k).is_some()
    }

    /// Stores `v` under `k`, and returns the value that was stored there.
    pub fn insert(&mut self, k: u64, v: V) -> (r: Option<V>)
        ensures
            r == lookup(old(self)@, k),
            distinct_keys(old(self)@),
            distinct_keys(final(self)@),
            final(self)@ == insert_pair(old(self)@, k, v),
    {
        proof {
            use_type_invariant(&*self);
        }
        let ghost kv = k;
        let ghost s = self@;
        proof {
            lemma_insert_pair(s, kv, v);
        }
        match self.find(&k) {
            Some(i) => {
                let mut entries = Vec::new();
                std::mem::swap(&mut entries, &mut self.entries);
                let old_entry = entries.remove(i);
                entries.insert(i, (k, v));
                proof {
                    assert(entries@ =~= s.update(i as int, (kv, v)));
                    lemma_key_index_unique(s, i as int);
                }
                self.entries = entries;
                Some(old_entry.1)
            },
            None => {
                let mut entries = Vec::new();
                std::mem::swap(&mut entries, &mut self.entries);
                entries.push((k, v));
                proof {
                    assert(entries@ =~= s.push((kv, v)));
                }
                self.entries = entries;
                None
            },
        }
    }

    /// Removes the entry with key `k`, if there is one.
    pub fn remove(&mut self, k: &u64)
        ensures
            distinct_keys(old(self)@),
            distinct_keys(final(self)@),
            final(self)@ == remove_key(old(self)@, *k),
    {
        proof {
            use_type_invariant(&*self);
        }
        let ghost s = self@;
        proof {
            lemma_remove_key(s, *k);
        }
        match self.find(k) {
            Some(i) => {
                let mut entries = Vec::new();
                std::mem::swap(&mut entries, &mut self.entries);
                let _ = entries.remove(i);
                proof {
                    assert(entries@ =~= s.remove(i as int));
                    lemma_remove_key(s, *k);
                }
                self.entries = entries;
            },
            None => {},
        }
    }

    /// The keys, in entry order.
    pub fn keys(&self) -> (r: Vec<u64>)
        ensures
            r@.len() == self@.len(),
            forall|i: int| 0 <= i < r@.len() ==> #[trigger] r@[i] == self@[i].0,
    {
        let n = self.entries.len();
        let mut r: Vec<u64> = Vec::new();
        let mut i: usize = 0;
        while i < n
            invariant
                n == self@.len(),
                n == self.entries@.len(),
                0 <= i <= n,
                r@.len() == i,
                forall|j: int| 0 <= j < i ==> #[trigger] r@[j] == self@[j].0,
            decreases n - i,
        {
            r.push(self.entries[i].0);
            i = i + 1;
        }
        r
    }
}

} // verus!
