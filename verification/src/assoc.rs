//! A small map from 64-bit handles to values, kept as a vector of pairs in
//! which no handle occurs twice. Its view is the map it stands for. The
//! pairs stay in the order their handles were first inserted, so that what
//! is handed out by walking the map (the barriers waiting to be recorded)
//! comes in a fixed order that contracts can state; a hash map is walked in
//! an order that nothing specifies.

use vstd::prelude::*;

verus! {

/// No key occurs twice.
pub open spec fn keys_unique<V>(s: Seq<(u64, V)>) -> bool {
    forall|i: int, j: int| 0 <= i < s.len() && 0 <= j < s.len() && i != j ==> s[i].0 != s[j].0
}

/// The map that a list of pairs stands for (a later pair wins).
pub open spec fn assoc_map<V>(s: Seq<(u64, V)>) -> Map<u64, V>
    decreases s.len(),
{
    if s.len() == 0 {
        Map::empty()
    } else {
        assoc_map(s.drop_last()).insert(s.last().0, s.last().1)
    }
}

/// A key is in the map exactly when some pair has it.
pub proof fn lemma_assoc_map_dom<V>(s: Seq<(u64, V)>, k: u64)
    ensures
        assoc_map(s).contains_key(k) <==> exists|i: int| 0 <= i < s.len() && s[i].0 == k,
    decreases s.len(),
{
    if s.len() > 0 {
        lemma_assoc_map_dom(s.drop_last(), k);
        if s.last().0 != k && assoc_map(s).contains_key(k) {
            let i = choose|i: int| 0 <= i < s.drop_last().len() && s.drop_last()[i].0 == k;
            assert(s[i].0 == k);
        }
        if exists|i: int| 0 <= i < s.len() && s[i].0 == k {
            let i = choose|i: int| 0 <= i < s.len() && s[i].0 == k;
            if i < s.len() - 1 {
                assert(s.drop_last()[i].0 == k);
            }
        }
    }
}

/// With unique keys, the map gives each pair's value for its key.
pub proof fn lemma_assoc_map_index<V>(s: Seq<(u64, V)>, i: int)
    requires
        keys_unique(s),
        0 <= i < s.len(),
    ensures
        assoc_map(s).contains_key(s[i].0),
        assoc_map(s)[s[i].0] == s[i].1,
    decreases s.len(),
{
    if i < s.len() - 1 {
        assert(keys_unique(s.drop_last()));
        lemma_assoc_map_index(s.drop_last(), i);
        assert(s.drop_last()[i] == s[i]);
        assert(s.last().0 != s[i].0);
    }
}

/// Replacing the value of one pair replaces the value of its key.
pub proof fn lemma_assoc_map_update<V>(s: Seq<(u64, V)>, i: int, v: V)
    requires
        keys_unique(s),
        0 <= i < s.len(),
    ensures
        keys_unique(s.update(i, (s[i].0, v))),
        assoc_map(s.update(i, (s[i].0, v))) =~= assoc_map(s).insert(s[i].0, v),
    decreases s.len(),
{
    let t = s.update(i, (s[i].0, v));
    if i == s.len() - 1 {
        assert(t.drop_last() =~= s.drop_last());
        assert(!assoc_map(s.drop_last()).contains_key(s[i].0) || true);
        assert(assoc_map(t) =~= assoc_map(s.drop_last()).insert(s[i].0, v));
        assert(assoc_map(s) == assoc_map(s.drop_last()).insert(s[i].0, s[i].1));
    } else {
        assert(keys_unique(s.drop_last()));
        assert(t.drop_last() =~= s.drop_last().update(i, (s[i].0, v)));
        lemma_assoc_map_update(s.drop_last(), i, v);
        assert(s.last().0 != s[i].0);
        assert(t.last() == s.last());
    }
}

/// Appending a pair with a new key keeps the keys unique and adds the key.
pub proof fn lemma_assoc_map_push<V>(s: Seq<(u64, V)>, k: u64, v: V)
    requires
        keys_unique(s),
        !assoc_map(s).contains_key(k),
    ensures
        keys_unique(s.push((k, v))),
        assoc_map(s.push((k, v))) == assoc_map(s).insert(k, v),
{
    let t = s.push((k, v));
    assert(t.drop_last() =~= s);
    assert forall|i: int| 0 <= i < s.len() implies s[i].0 != k by {
        lemma_assoc_map_index(s, i);
    }
}

/// A map from handles to values, with no handle twice.
pub struct AssocList<V> {
    pub items: Vec<(u64, V)>,
}

impl<V> View for AssocList<V> {
    type V = Map<u64, V>;

    open spec fn view(&self) -> Map<u64, V> {
        assoc_map(self.items@)
    }
}

impl<V: Copy> AssocList<V> {
    pub open spec fn wf(&self) -> bool {
        keys_unique(self.items@)
    }

    pub fn new() -> (r: Self)
        ensures
            r.wf(),
            r@ == Map::<u64, V>::empty(),
            r.items@.len() == 0,
    {
        AssocList { items: Vec::new() }
    }

    pub fn len(&self) -> (r: usize)
        requires
            self.wf(),
        ensures
            r == self.items@.len(),
            r == self@.dom().len(),
    {
        proof {
            self.lemma_dom_len();
        }
        self.items.len()
    }

    /// The size of the map is the number of pairs.
    pub proof fn lemma_dom_len(&self)
        requires
            self.wf(),
        ensures
            self@.dom().finite(),
            self@.dom().len() == self.items@.len(),
    {
        lemma_assoc_map_len(self.items@);
    }

    /// Position of the pair with `key`.
    pub fn index_of(&self, key: u64) -> (r: Option<usize>)
        requires
            self.wf(),
        ensures
            match r {
                Some(i) => i < self.items@.len() && self.items@[i as int].0 == key && self@.contains_key(key)
                    && self@[key] == self.items@[i as int].1,
                None => !self@.contains_key(key),
            },
    {
        let mut i: usize = 0;
        while i < self.items.len()
            invariant
                self.wf(),
                i <= self.items@.len(),
                forall|j: int| 0 <= j < i ==> self.items@[j].0 != key,
            decreases self.items@.len() - i,
        {
            if self.items[i].0 == key {
                proof {
                    lemma_assoc_map_index(self.items@, i as int);
                }
                return Some(i);
            }
            i += 1;
        }
        proof {
            lemma_assoc_map_dom(self.items@, key);
        }
        None
    }

    /// The value stored for `key`.
    pub fn get(&self, key: u64) -> (r: Option<V>)
        requires
            self.wf(),
        ensures
            r == (if self@.contains_key(key) { Some(self@[key]) } else { None::<V> }),
    {
        match self.index_of(key) {
            Some(i) => Some(self.items[i].1),
            None => None,
        }
    }

    /// Store `value` for `key`, replacing what was stored for it.
    pub fn insert(&mut self, key: u64, value: V)
        requires
            old(self).wf(),
        ensures
            final(self).wf(),
            final(self)@ == old(self)@.insert(key, value),
    {
        match self.index_of(key) {
            Some(i) => {
                proof {
                    lemma_assoc_map_update(self.items@, i as int, value);
                }
                self.items.set(i, (key, value));
            },
            None => {
                proof {
                    lemma_assoc_map_push(self.items@, key, value);
                }
                self.items.push((key, value));
            },
        }
    }

    /// Remove every pair.
    pub fn clear(&mut self)
        ensures
            final(self).wf(),
            final(self)@ == Map::<u64, V>::empty(),
            final(self).items@.len() == 0,
    {
        self.items.clear();
        assert(self.items@ =~= Seq::<(u64, V)>::empty());
    }
}

/// With unique keys the map has as many keys as there are pairs.
pub proof fn lemma_assoc_map_len<V>(s: Seq<(u64, V)>)
    requires
        keys_unique(s),
    ensures
        assoc_map(s).dom().finite(),
        assoc_map(s).dom().len() == s.len(),
    decreases s.len(),
{
    if s.len() > 0 {
        assert(keys_unique(s.drop_last()));
        lemma_assoc_map_len(s.drop_last());
        lemma_assoc_map_dom(s.drop_last(), s.last().0);
        if assoc_map(s.drop_last()).contains_key(s.last().0) {
            let i = choose|i: int| 0 <= i < s.drop_last().len() && s.drop_last()[i].0 == s.last().0;
            assert(s[i].0 == s[s.len() - 1].0);
        }
    }
}

} // verus!
