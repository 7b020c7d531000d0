use vstd::prelude::*;

verus! {

/// An association table from string keys to values: the map backing for
/// the asset registry and for an atlas's animation sets. Keys are unique,
/// so the table stands for a mathematical map from character sequences to
/// the values' mathematical values.
pub struct KeyTable<V: View> {
    entries: Vec<(String, V)>,
}

/// The map a sequence of key-value pairs stands for; a later entry with
/// the same key wins.
pub(crate) open spec fn kv_map<T>(s: Seq<(Seq<char>, T)>) -> Map<Seq<char>, T>
    decreases s.len(),
{
    if s.len() == 0 {
        Map::empty()
    } else {
        kv_map(s.drop_last()).insert(s.last().0, s.last().1)
    }
}

/// No two entries of the sequence share a key.
pub(crate) open spec fn kv_unique<T>(s: Seq<(Seq<char>, T)>) -> bool {
    forall|i: int, j: int| 0 <= i < j < s.len() ==> s[i].0 != s[j].0
}

/// A key is in the map of a pair sequence exactly when some entry holds it.
pub(crate) proof fn lemma_kv_map_domain<T>(s: Seq<(Seq<char>, T)>, k: Seq<char>)
    ensures
        kv_map(s).contains_key(k) <==> exists|i: int| 0 <= i < s.len() && s[i].0 == k,
    decreases s.len(),
{
    if s.len() > 0 {
        lemma_kv_map_domain(s.drop_last(), k);
        if s.last().0 == k {
            assert(s[s.len() - 1].0 == k);
        } else if kv_map(s).contains_key(k) {
            let i = choose|i: int| 0 <= i < s.drop_last().len() && s.drop_last()[i].0 == k;
            assert(s[i].0 == k);
        } else {
            assert forall|i: int| 0 <= i < s.len() implies s[i].0 != k by {
                if i < s.len() - 1 {
                    assert(s.drop_last()[i].0 != k);
                }
            }
        }
    }
}

/// With unique keys, the map sends each entry's key to that entry's value.
pub(crate) proof fn lemma_kv_map_index<T>(s: Seq<(Seq<char>, T)>, i: int)
    requires
        kv_unique(s),
        0 <= i < s.len(),
    ensures
        kv_map(s).contains_key(s[i].0),
        kv_map(s)[s[i].0] == s[i].1,
    decreases s.len(),
{
    if i < s.len() - 1 {
        assert(kv_unique(s.drop_last()));
        assert(s.drop_last()[i] == s[i]);
        lemma_kv_map_index(s.drop_last(), i);
        assert(s[s.len() - 1].0 != s[i].0);
    }
}

/// Replacing the value of entry `i` in place updates the map at that
/// entry's key and keeps the keys unique.
pub(crate) proof fn lemma_kv_map_update<T>(s: Seq<(Seq<char>, T)>, i: int, v: T)
    requires
        kv_unique(s),
        0 <= i < s.len(),
    ensures
        kv_map(s.update(i, (s[i].0, v))) == kv_map(s).insert(s[i].0, v),
        kv_unique(s.update(i, (s[i].0, v))),
    decreases s.len(),
{
    let s2 = s.update(i, (s[i].0, v));
    assert forall|a: int, b: int| 0 <= a < b < s2.len() implies s2[a].0 != s2[b].0 by {
        assert(s2[a].0 == s[a].0 && s2[b].0 == s[b].0);
    }
    if i == s.len() - 1 {
        assert(s2.drop_last() =~= s.drop_last());
        assert(kv_map(s2) == kv_map(s.drop_last()).insert(s[i].0, v));
        assert(kv_map(s).insert(s[i].0, v) =~= kv_map(s.drop_last()).insert(s[i].0, v));
    } else {
        assert(kv_unique(s.drop_last()));
        assert(s2.drop_last() =~= s.drop_last().update(i, (s[i].0, v)));
        lemma_kv_map_update(s.drop_last(), i, v);
        assert(s[s.len() - 1].0 != s[i].0);
        assert(kv_map(s2) == kv_map(s.drop_last()).insert(s[i].0, v).insert(s.last().0, s.last().1));
        assert(kv_map(s.drop_last()).insert(s[i].0, v).insert(s.last().0, s.last().1) =~= kv_map(
            s,
        ).insert(s[i].0, v));
    }
}

/// Appending a fresh entry updates the map at the new key.
pub(crate) proof fn lemma_kv_map_push<T>(s: Seq<(Seq<char>, T)>, k: Seq<char>, v: T)
    ensures
        kv_map(s.push((k, v))) == kv_map(s).insert(k, v),
        kv_unique(s) && (forall|i: int| 0 <= i < s.len() ==> s[i].0 != k) ==> kv_unique(
            s.push((k, v)),
        ),
{
    assert(s.push((k, v)).drop_last() =~= s);
    if kv_unique(s) && (forall|i: int| 0 <= i < s.len() ==> s[i].0 != k) {
        let s2 = s.push((k, v));
        assert forall|a: int, b: int| 0 <= a < b < s2.len() implies s2[a].0 != s2[b].0 by {
            if b < s.len() {
                assert(s2[a].0 == s[a].0 && s2[b].0 == s[b].0);
            } else {
                assert(s2[a].0 == s[a].0 && s2[b].0 == k);
            }
        }
    }
}

impl<V: View> KeyTable<V> {
    /// The entries in storage order, keys and values by mathematical value.
    pub(crate) closed spec fn entry_views(&self) -> Seq<(Seq<char>, V::V)> {
        Seq::new(self.entries@.len(), |i: int| (self.entries@[i].0@, self.entries@[i].1@))
    }

    #[verifier::type_invariant]
    pub(crate) closed spec fn keys_unique(self) -> bool {
        kv_unique(self.entry_views())
    }

    pub(crate) fn new() -> (t: KeyTable<V>)
        ensures
            t@ == Map::<Seq<char>, V::V>::empty(),
            t.entry_views() == Seq::<(Seq<char>, V::V)>::empty(),
    {
        let t = KeyTable { entries: Vec::new() };
        proof {
            assert(t.entry_views() =~= Seq::<(Seq<char>, V::V)>::empty());
        }
        t
    }

    /// A no-op that hands callers in other modules the key-uniqueness fact.
    pub(crate) fn recall_unique(&self)
        ensures
            kv_unique(self.entry_views()),
            self@ == kv_map(self.entry_views()),
    {
        proof {
            use_type_invariant(&*self);
        }
    }

    pub(crate) fn index_of(&self, key: &String) -> (r: Option<usize>)
        ensures
            match r {
                Some(i) => i < self.entry_views().len() && self.entry_views()[i as int].0 == key@,
                None => forall|i: int|
                    0 <= i < self.entry_views().len() ==> self.entry_views()[i].0 != key@,
            },
    {
        let n = self.entries.len();
        let mut i: usize = 0;
        while i < n
            invariant
                n == self.entries.len(),
                i <= n,
                forall|j: int| 0 <= j < i ==> self.entry_views()[j].0 != key@,
            decreases n - i,
        {
            if self.entries[i].0 == *key {
                return Some(i);
            }
            i = i + 1;
        }
        None
    }

    /// The stored value under `key`, or nothing for an absent key.
    pub(crate) fn lookup(&self, key: &String) -> (r: Option<&V>)
        ensures
            match r {
                Some(v) => self@.contains_key(key@) && v@ == self@[key@],
                None => !self@.contains_key(key@),
            },
    {
        proof {
            use_type_invariant(&*self);
        }
        match self.index_of(key) {
            Some(i) => {
                proof {
                    lemma_kv_map_index(self.entry_views(), i as int);
                }
                Some(&self.entries[i].1)
            },
            None => {
                proof {
                    lemma_kv_map_domain(self.entry_views(), key@);
                }
                None
            },
        }
    }

    /// Stores `value` under `key`, returning the value previously stored
    /// there, if any: last write wins.
    pub(crate) fn put(&mut self, key: String, value: V) -> (prev: Option<V>)
        ensures
            final(self)@ == old(self)@.insert(key@, value@),
            match prev {
                Some(p) => old(self)@.contains_key(key@) && p@ == old(self)@[key@],
                None => !old(self)@.contains_key(key@),
            },
    {
        proof {
            use_type_invariant(&*self);
        }
        let ghost k = key@;
        let ghost vv = value@;
        let ghost old_views = self.entry_views();
        let idx = self.index_of(&key);
        let mut entries: Vec<(String, V)> = Vec::new();
        core::mem::swap(&mut self.entries, &mut entries);
        let prev: Option<V>;
        let ghost new_views: Seq<(Seq<char>, V::V)>;
        match idx {
            Some(i) => {
                proof {
                    lemma_kv_map_index(old_views, i as int);
                    lemma_kv_map_update(old_views, i as int, vv);
                    new_views = old_views.update(i as int, (k, vv));
                }
                let mut pair = (key, value);
                core::mem::swap(&mut entries[i], &mut pair);
                prev = Some(pair.1);
            },
            None => {
                proof {
                    lemma_kv_map_domain(old_views, k);
                    lemma_kv_map_push(old_views, k, vv);
                    new_views = old_views.push((k, vv));
                }
                entries.push((key, value));
                prev = None;
            },
        }
        proof {
            assert(Seq::new(
                entries@.len(),
                |i: int| (entries@[i].0@, entries@[i].1@),
            ) =~= new_views);
        }
        self.entries = entries;
        proof {
            assert(self.entry_views() =~= new_views);
        }
        prev
    }

    /// How many entries the table holds.
    pub(crate) fn num_entries(&self) -> (n: usize)
        ensures
            n == self.entry_views().len(),
    {
        self.entries.len()
    }

    /// The key of entry `i`.
    pub(crate) fn key_at(&self, i: usize) -> (k: &String)
        requires
            i < self.entry_views().len(),
        ensures
            k@ == self.entry_views()[i as int].0,
    {
        &self.entries[i].0
    }

    /// Swaps the value of entry `i` for `new_value`, returning the value
    /// stored there before.
    pub(crate) fn value_swap(&mut self, i: usize, new_value: V) -> (old_value: V)
        requires
            i < old(self).entry_views().len(),
        ensures
            old_value@ == old(self).entry_views()[i as int].1,
            final(self).entry_views() == old(self).entry_views().update(
                i as int,
                (old(self).entry_views()[i as int].0, new_value@),
            ),
            final(self)@ == old(self)@.insert(
                old(self).entry_views()[i as int].0,
                new_value@,
            ),
    {
        proof {
            use_type_invariant(&*self);
            lemma_kv_map_update(self.entry_views(), i as int, new_value@);
        }
        let ghost old_views = self.entry_views();
        let ghost vv = new_value@;
        let mut entries: Vec<(String, V)> = Vec::new();
        core::mem::swap(&mut self.entries, &mut entries);
        let mut v = new_value;
        core::mem::swap(&mut entries[i].1, &mut v);
        proof {
            assert(Seq::new(
                entries@.len(),
                |j: int| (entries@[j].0@, entries@[j].1@),
            ) =~= old_views.update(i as int, (old_views[i as int].0, vv)));
        }
        self.entries = entries;
        proof {
            assert(self.entry_views() =~= old_views.update(
                i as int,
                (old_views[i as int].0, vv),
            ));
        }
        v
    }
}

impl<V: View> View for KeyTable<V> {
    type V = Map<Seq<char>, V::V>;

    closed spec fn view(&self) -> Map<Seq<char>, V::V> {
        kv_map(self.entry_views())
    }
}

} // verus!
