//! A table keyed by strings, holding each key at most once.

use vstd::prelude::*;

verus! {

/// Entries in insertion order; a key is stored once, and storing it again
/// replaces its value in place.
pub struct NameTable<V> {
    entries: Vec<(String, V)>,
}

/// The index of the first entry at or after `start` whose key is `key`.
pub open spec fn index_from<V>(entries: Seq<(Seq<char>, V)>, key: Seq<char>, start: int) -> Option<int>
    decreases entries.len() - start,
{
    if start < 0 || start >= entries.len() {
        None
    } else if entries[start].0 == key {
        Some(start)
    } else {
        index_from(entries, key, start + 1)
    }
}

/// The index of the entry whose key is `key`, if there is one.
pub open spec fn index_of<V>(entries: Seq<(Seq<char>, V)>, key: Seq<char>) -> Option<int> {
    index_from(entries, key, 0)
}

proof fn lemma_index_from<V>(entries: Seq<(Seq<char>, V)>, key: Seq<char>, start: int)
    requires
        0 <= start,
    ensures
        index_from(entries, key, start) is Some ==> start <= index_from(entries, key, start)->Some_0 < entries.len()
            && entries[index_from(entries, key, start)->Some_0].0 == key,
        index_from(entries, key, start) is None ==> forall|j: int| start <= j < entries.len() ==> entries[j].0 != key,
    decreases entries.len() - start,
{
    if start < entries.len() && entries[start].0 != key {
        lemma_index_from(entries, key, start + 1);
    }
}

proof fn lemma_index_of<V>(entries: Seq<(Seq<char>, V)>, key: Seq<char>)
    ensures
        index_of(entries, key) is Some ==> 0 <= index_of(entries, key)->Some_0 < entries.len()
            && entries[index_of(entries, key)->Some_0].0 == key,
        index_of(entries, key) is None ==> forall|j: int| 0 <= j < entries.len() ==> entries[j].0 != key,
{
    lemma_index_from(entries, key, 0);
}

proof fn lemma_update_value_keeps_keys<V>(entries: Seq<(Seq<char>, V)>, i: int)
    requires
        keys_unique(entries),
        0 <= i < entries.len(),
    ensures
        forall|v: V| #[trigger] keys_unique(entries.update(i, (entries[i].0, v))),
{
    assert forall|v: V| #[trigger] keys_unique(entries.update(i, (entries[i].0, v))) by {
        let u = entries.update(i, (entries[i].0, v));
        assert forall|a: int, b: int| 0 <= a < u.len() && 0 <= b < u.len() && a != b implies u[a].0 != u[b].0 by {
            assert(u[a].0 == entries[a].0);
            assert(u[b].0 == entries[b].0);
        }
    }
}

/// The value stored under `key`, if any.
pub open spec fn lookup<V>(entries: Seq<(Seq<char>, V)>, key: Seq<char>) -> Option<V> {
    match index_of(entries, key) {
        Some(i) => Some(entries[i].1),
        None => None,
    }
}

/// The entries after storing `value` under `key`.
pub open spec fn stored<V>(entries: Seq<(Seq<char>, V)>, key: Seq<char>, value: V) -> Seq<(Seq<char>, V)> {
    match index_of(entries, key) {
        Some(i) => entries.update(i, (key, value)),
        None => entries.push((key, value)),
    }
}

/// No key occurs twice.
pub open spec fn keys_unique<V>(entries: Seq<(Seq<char>, V)>) -> bool {
    forall|i: int, j: int| 0 <= i < entries.len() && 0 <= j < entries.len() && i != j ==> entries[i].0 != entries[j].0
}

impl<V> View for NameTable<V> {
    type V = Seq<(Seq<char>, V)>;

    closed spec fn view(&self) -> Seq<(Seq<char>, V)> {
        self.entries@.map_values(|e: (String, V)| (e.0@, e.1))
    }
}

impl<V> NameTable<V> {
    /// Every key is stored once.
    pub open spec fn wf(&self) -> bool {
        keys_unique(self@)
    }

    /// An empty table.
    pub fn new() -> (r: NameTable<V>)
        ensures
            r@ == Seq::<(Seq<char>, V)>::empty(),
            r.wf(),
    {
        let r = NameTable { entries: Vec::new() };
        assert(r@ =~= Seq::<(Seq<char>, V)>::empty());
        r
    }

    /// The number of keys.
    pub fn len(&self) -> (r: usize)
        ensures
            r == self@.len(),
    {
        self.entries.len()
    }

    /// The position of `key`, if it is stored.
    pub fn find(&self, key: &str) -> (r: Option<usize>)
        requires
            self.wf(),
        ensures
            match r {
                Some(i) => index_of(self@, key@) == Some(i as int),
                None => index_of(self@, key@) is None,
            },
    {
        let mut i: usize = 0;
        while i < self.entries.len()
            invariant
                self.wf(),
                i <= self@.len(),
                self@.len() == self.entries@.len(),
                index_of(self@, key@) == index_from(self@, key@, i as int),
            decreases self.entries@.len() - i,
        {
            let k: &String = &self.entries[i].0;
            if k.as_str().unicode_len() == key.unicode_len() && str_eq(k.as_str(), key) {
                assert(self@[i as int].0 == key@);
                return Some(i);
            }
            i = i + 1;
        }
        None
    }

    /// The value stored under `key`, if any.
    pub fn get(&self, key: &str) -> (r: Option<&V>)
        requires
            self.wf(),
        ensures
            match lookup(self@, key@) {
                Some(v) => r == Some(&v),
                None => r.is_none(),
            },
    {
        proof { lemma_index_of(self@, key@); }
        match self.find(key) {
            Some(i) => {
                assert(self@[i as int].1 == self.entries@[i as int].1);
                Some(&self.entries[i].1)
            },
            None => None,
        }
    }

    /// The value stored under `key`, for changing it in place.
    pub fn get_mut(&mut self, key: &str) -> (r: Option<&mut V>)
        requires
            old(self).wf(),
        ensures
            match index_of(old(self)@, key@) {
                Some(i) => r is Some
                    && *r->Some_0 == old(self)@[i].1
                    && final(self)@ == old(self)@.update(i, (old(self)@[i].0, *final(r->Some_0))),
                None => r is None && final(self)@ == old(self)@,
            },
            final(self).wf(),
    {
        match self.find(key) {
            Some(i) => {
                proof {
                    lemma_index_of(self@, key@);
                    lemma_update_value_keeps_keys(self@, i as int);
                }
                let entry = &mut self.entries[i];
                Some(&mut entry.1)
            },
            None => None,
        }
    }

    /// The keys, in table order.
    pub fn keys(&self) -> (r: Vec<String>)
        ensures
            r@.len() == self@.len(),
            forall|i: int| 0 <= i < r@.len() ==> r@[i]@ == self@[i].0,
    {
        let mut out: Vec<String> = Vec::new();
        let mut i: usize = 0;
        while i < self.entries.len()
            invariant
                i <= self@.len(),
                self@.len() == self.entries@.len(),
                out@.len() == i,
                forall|j: int| 0 <= j < i ==> out@[j]@ == self@[j].0,
            decreases self.entries@.len() - i,
        {
            out.push(self.entries[i].0.clone());
            i = i + 1;
        }
        out
    }

    /// Stores `value` under `key`, replacing what was stored there.
    pub fn insert(&mut self, key: String, value: V)
        requires
            old(self).wf(),
        ensures
            final(self)@ == stored(old(self)@, key@, value),
            final(self).wf(),
    {
        let ghost k = key@;
        proof { lemma_index_of(self@, k); }
        let found = {
            let ks = key.as_str();
            assert(ks@ == k);
            self.find(ks)
        };
        match found {
            Some(i) => {
                let ghost before = self@;
                assert(before[i as int].0 == k);
                self.entries.set(i, (key, value));
                assert(self@ =~= before.update(i as int, (k, value)));
                assert(forall|j: int| 0 <= j < self@.len() ==> self@[j].0 == before[j].0);
            },
            None => {
                let ghost before = self@;
                assert(forall|j: int| 0 <= j < before.len() ==> before[j].0 != k);
                self.entries.push((key, value));
                assert(self@ =~= before.push((k, value)));
            },
        }
    }
}

/// Whether two strings of the same length hold the same characters.
fn str_eq(a: &str, b: &str) -> (r: bool)
    requires
        a@.len() == b@.len(),
    ensures
        r == (a@ == b@),
{
    let n = a.unicode_len();
    let mut i: usize = 0;
    while i < n
        invariant
            n == a@.len(),
            a@.len() == b@.len(),
            i <= n,
            forall|j: int| 0 <= j < i ==> a@[j] == b@[j],
        decreases n - i,
    {
        if a.get_char(i) != b.get_char(i) {
            return false;
        }
        i = i + 1;
    }
    assert(a@ =~= b@);
    true
}

} // verus!
