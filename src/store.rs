use vstd::prelude::*;

verus! {

/// Entries with keys viewed as character sequences.
pub type Entries<V> = Seq<(Seq<char>, V)>;

/// No key occurs twice.
pub open spec fn keys_distinct<V>(s: Entries<V>) -> bool {
    forall|i: int, j: int|
        0 <= i < s.len() && 0 <= j < s.len() && i != j ==> #[trigger] s[i].0 != #[trigger] s[j].0
}

pub open spec fn has_key<V>(s: Entries<V>, k: Seq<char>) -> bool {
    exists|i: int| 0 <= i < s.len() && #[trigger] s[i].0 == k
}

/// Position of the entry for `k` (meaningful when `has_key(s, k)`).
pub open spec fn key_index<V>(s: Entries<V>, k: Seq<char>) -> int {
    choose|i: int| 0 <= i < s.len() && #[trigger] s[i].0 == k
}

/// Value bound to `k`, if any.
pub open spec fn lookup<V>(s: Entries<V>, k: Seq<char>) -> Option<V> {
    if has_key(s, k) {
        Some(s[key_index(s, k)].1)
    } else {
        None
    }
}

/// Entries after binding `k` to `v`: the existing entry is replaced in place, or a new
/// entry is appended.
pub open spec fn upsert<V>(s: Entries<V>, k: Seq<char>, v: V) -> Entries<V> {
    if has_key(s, k) {
        s.update(key_index(s, k), (k, v))
    } else {
        s.push((k, v))
    }
}

/// Entries after dropping the binding of `k`; the others keep their order.
pub open spec fn without<V>(s: Entries<V>, k: Seq<char>) -> Entries<V> {
    if has_key(s, k) {
        s.remove(key_index(s, k))
    } else {
        s
    }
}

/// With distinct keys, the entry at `i` is the one that `lookup` finds for its key.
pub proof fn lemma_index_is_key_index<V>(s: Entries<V>, i: int)
    requires
        keys_distinct(s),
        0 <= i < s.len(),
    ensures
        has_key(s, s[i].0),
        key_index(s, s[i].0) == i,
        lookup(s, s[i].0) == Some(s[i].1),
{
    assert(s[i].0 == s[i].0);
}

/// A lookup after `upsert` sees the new binding for its key and the old one elsewhere.
pub proof fn lemma_upsert_lookup<V>(s: Entries<V>, k: Seq<char>, v: V, q: Seq<char>)
    requires
        keys_distinct(s),
    ensures
        keys_distinct(upsert(s, k, v)),
        lookup(upsert(s, k, v), q) == if q == k {
            Some(v)
        } else {
            lookup(s, q)
        },
{
    let t = upsert(s, k, v);
    if has_key(s, k) {
        let i = key_index(s, k);
        assert(keys_distinct(t)) by {
            assert forall|a: int, b: int|
                0 <= a < t.len() && 0 <= b < t.len() && a != b implies #[trigger] t[a].0
                != #[trigger] t[b].0 by {
                assert(t[a].0 == s[a].0);
                assert(t[b].0 == s[b].0);
            }
        }
    } else {
        assert(keys_distinct(t)) by {
            assert forall|a: int, b: int|
                0 <= a < t.len() && 0 <= b < t.len() && a != b implies #[trigger] t[a].0
                != #[trigger] t[b].0 by {
                if a < s.len() && b < s.len() {
                    assert(t[a].0 == s[a].0);
                    assert(t[b].0 == s[b].0);
                } else if a < s.len() {
                    assert(t[a].0 == s[a].0);
                } else if b < s.len() {
                    assert(t[b].0 == s[b].0);
                }
            }
        }
    }
    if q == k {
        if has_key(s, k) {
            lemma_index_is_key_index(t, key_index(s, k));
        } else {
            lemma_index_is_key_index(t, s.len() as int);
        }
    } else {
        if has_key(s, q) {
            let j = key_index(s, q);
            assert(t[j].0 == q);
            lemma_index_is_key_index(t, j);
        } else {
            assert forall|j: int| 0 <= j < t.len() implies #[trigger] t[j].0 != q by {
                if j < s.len() {
                    assert(t[j].0 == s[j].0);
                }
            }
        }
    }
}

/// After `without`, the keys stay distinct, `k` is unbound, and every other key keeps its value.
pub proof fn lemma_without_lookup<V>(s: Entries<V>, k: Seq<char>, q: Seq<char>)
    requires
        keys_distinct(s),
    ensures
        keys_distinct(without(s, k)),
        lookup(without(s, k), q) == if q == k {
            None
        } else {
            lookup(s, q)
        },
{
    let t = without(s, k);
    if has_key(s, k) {
        let i = key_index(s, k);
        assert forall|a: int| 0 <= a < t.len() implies #[trigger] t[a] == s[if a < i { a } else { a + 1 }] by {}
        assert(keys_distinct(t)) by {
            assert forall|a: int, b: int|
                0 <= a < t.len() && 0 <= b < t.len() && a != b implies #[trigger] t[a].0
                != #[trigger] t[b].0 by {
                let a2 = if a < i { a } else { a + 1 };
                let b2 = if b < i { b } else { b + 1 };
                assert(t[a] == s[a2]);
                assert(t[b] == s[b2]);
            }
        }
        if q == k {
            assert forall|j: int| 0 <= j < t.len() implies #[trigger] t[j].0 != q by {
                let j2 = if j < i { j } else { j + 1 };
                assert(t[j] == s[j2]);
            }
        } else if has_key(s, q) {
            let j = key_index(s, q);
            let j2 = if j < i { j } else { j - 1 };
            assert(t[j2] == s[j]);
            lemma_index_is_key_index(t, j2);
        } else {
            assert forall|j: int| 0 <= j < t.len() implies #[trigger] t[j].0 != q by {
                let j2 = if j < i { j } else { j + 1 };
                assert(t[j] == s[j2]);
            }
        }
    }
}

/// A finite map from string keys to values: a list of entries with distinct keys, in the
/// order in which each key was first bound.
pub struct KeyedStore<V> {
    entries: Vec<(String, V)>,
}

impl<V> KeyedStore<V> {
    pub closed spec fn pairs(&self) -> Entries<V> {
        self.entries@.map_values(|e: (String, V)| (e.0@, e.1))
    }

    /// No key is bound twice.
    #[verifier::type_invariant]
    spec fn keys_are_distinct(self) -> bool {
        keys_distinct(self.pairs())
    }

    pub open spec fn spec_get(&self, k: Seq<char>) -> Option<V> {
        lookup(self.pairs(), k)
    }

    pub fn new() -> (r: Self)
        ensures
            r.pairs() == Seq::<(Seq<char>, V)>::empty(),
    {
        let r = KeyedStore { entries: Vec::new() };
        assert(r.pairs() =~= Seq::<(Seq<char>, V)>::empty());
        r
    }

    pub fn len(&self) -> (r: usize)
        ensures
            r == self.pairs().len(),
    {
        self.entries.len()
    }

    pub fn key_at(&self, i: usize) -> (r: &String)
        requires
            i < self.pairs().len(),
        ensures
            r@ == self.pairs()[i as int].0,
    {
        &self.entries[i].0
    }

    pub fn value_at(&self, i: usize) -> (r: &V)
        requires
            i < self.pairs().len(),
        ensures
            *r == self.pairs()[i as int].1,
    {
        &self.entries[i].1
    }

    /// Position of the entry for `key`.
    pub fn find(&self, key: &String) -> (r: Option<usize>)
        ensures
            match r {
                Some(i) => i < self.pairs().len() && has_key(self.pairs(), key@) && key_index(
                    self.pairs(),
                    key@,
                ) == i,
                None => !has_key(self.pairs(), key@),
            },
    {
        proof {
            use_type_invariant(self);
        }
        let mut i: usize = 0;
        while i < self.entries.len()
            invariant
                keys_distinct(self.pairs()),
                i <= self.entries.len(),
                forall|j: int| 0 <= j < i ==> #[trigger] self.pairs()[j].0 != key@,
            decreases self.entries.len() - i,
        {
            if self.entries[i].0 == *key {
                proof {
                    lemma_index_is_key_index(self.pairs(), i as int);
                }
                return Some(i);
            }
            i = i + 1;
        }
        None
    }

    pub fn contains_key(&self, key: &String) -> (r: bool)
        ensures
            r == has_key(self.pairs(), key@),
    {
        self.find(key).is_some()
    }

    pub fn get(&self, key: &String) -> (r: Option<&V>)
        ensures
            match r {
                Some(v) => self.spec_get(key@) == Some(*v),
                None => self.spec_get(key@) is None,
            },
    {
        match self.find(key) {
            Some(i) => Some(&self.entries[i].1),
            None => None,
        }
    }

    /// Binds `key` to `value`, replacing the value of an existing entry in place.
    pub fn insert(&mut self, key: String, value: V)
        ensures
            final(self).pairs() == upsert(old(self).pairs(), key@, value),
            final(self).spec_get(key@) == Some(value),
            forall|q: Seq<char>| q != key@ ==> #[trigger] final(self).spec_get(q) == old(self).spec_get(q),
    {
        proof {
            use_type_invariant(&*self);
            lemma_upsert_lookup(self.pairs(), key@, value, key@);
            assert forall|q: Seq<char>| q != key@ implies #[trigger] lookup(upsert(self.pairs(), key@, value), q)
                == lookup(self.pairs(), q) by {
                lemma_upsert_lookup(self.pairs(), key@, value, q);
            }
        }
        let ghost k = key@;
        let found = self.find(&key);
        let mut entries: Vec<(String, V)> = Vec::new();
        std::mem::swap(&mut entries, &mut self.entries);
        match found {
            Some(i) => {
                entries.set(i, (key, value));
            },
            None => {
                entries.push((key, value));
            },
        }
        assert(entries@.map_values(|e: (String, V)| (e.0@, e.1)) =~= upsert(old(self).pairs(), k, value));
        self.entries = entries;
    }

    /// Drops the entry for `key`, returning its value.
    pub fn remove(&mut self, key: &String) -> (r: Option<V>)
        ensures
            final(self).pairs() == without(old(self).pairs(), key@),
            r == old(self).spec_get(key@),
            final(self).spec_get(key@) is None,
            forall|q: Seq<char>| q != key@ ==> #[trigger] final(self).spec_get(q) == old(self).spec_get(q),
    {
        proof {
            use_type_invariant(&*self);
            lemma_without_lookup(self.pairs(), key@, key@);
            assert forall|q: Seq<char>| q != key@ implies #[trigger] lookup(without(self.pairs(), key@), q)
                == lookup(self.pairs(), q) by {
                lemma_without_lookup(self.pairs(), key@, q);
            }
        }
        match self.find(key) {
            Some(i) => {
                let mut entries: Vec<(String, V)> = Vec::new();
                std::mem::swap(&mut entries, &mut self.entries);
                let e = entries.remove(i);
                assert(entries@.map_values(|e: (String, V)| (e.0@, e.1)) =~= old(self).pairs().remove(i as int));
                self.entries = entries;
                Some(e.1)
            },
            None => None,
        }
    }
}

} // verus!
