//! A finite map kept as a list in which no key has two entries. Keys are
//! compared by their names: accounts, or tuples that hold one.

use vstd::prelude::*;
use crate::account::Account;

verus! {

/// A key of a `KeyedMap`: a value with a name that tells it from every
/// other key.
pub trait MapKey: Sized {
    /// What the key is called in the map's view.
    type Name;

    /// The key's name.
    spec fn name(&self) -> Self::Name;

    /// Whether two keys have the same name.
    fn same_key(&self, other: &Self) -> (equal: bool)
        ensures
            equal == (self.name() == other.name()),
    ;

    /// A copy of the key.
    fn copy_key(&self) -> (copy: Self)
        ensures
            copy.name() == self.name(),
    ;
}

impl MapKey for Account {
    type Name = Seq<char>;

    open spec fn name(&self) -> Seq<char> {
        self@
    }

    fn same_key(&self, other: &Account) -> (equal: bool) {
        self.same(other)
    }

    fn copy_key(&self) -> (copy: Account) {
        self.clone()
    }
}

/// An account together with a number: a window, a period, a slot.
pub struct NumberedKey {
    pub account: Account,
    pub number: u64,
}

impl MapKey for NumberedKey {
    type Name = (Seq<char>, u64);

    open spec fn name(&self) -> (Seq<char>, u64) {
        (self.account@, self.number)
    }

    fn same_key(&self, other: &NumberedKey) -> (equal: bool) {
        self.number == other.number && self.account.same(&other.account)
    }

    fn copy_key(&self) -> (copy: NumberedKey) {
        NumberedKey { account: self.account.clone(), number: self.number }
    }
}

spec fn keys_distinct<N, V>(s: Seq<(N, V)>) -> bool {
    forall|i: int, j: int| 0 <= i < j < s.len() ==> (#[trigger] s[i]).0 != (#[trigger] s[j]).0
}

spec fn has_key<N, V>(s: Seq<(N, V)>, k: N) -> bool {
    exists|i: int| 0 <= i < s.len() && (#[trigger] s[i]).0 == k
}

/// The map that a list of pairs stands for; a later pair overrides an
/// earlier one with the same name.
spec fn as_map<N, V>(s: Seq<(N, V)>) -> Map<N, V>
    decreases s.len(),
{
    if s.len() == 0 {
        Map::empty()
    } else {
        as_map(s.drop_last()).insert(s.last().0, s.last().1)
    }
}

proof fn lemma_as_map_finite<N, V>(s: Seq<(N, V)>)
    ensures
        as_map(s).dom().finite(),
    decreases s.len(),
{
    if s.len() > 0 {
        lemma_as_map_finite(s.drop_last());
    }
}

proof fn lemma_as_map_domain<N, V>(s: Seq<(N, V)>, k: N)
    ensures
        as_map(s).contains_key(k) <==> has_key(s, k),
    decreases s.len(),
{
    if s.len() > 0 {
        let init = s.drop_last();
        lemma_as_map_domain(init, k);
        if has_key(s, k) {
            let i = choose|i: int| 0 <= i < s.len() && (#[trigger] s[i]).0 == k;
            if i < s.len() - 1 {
                assert(init[i].0 == k);
            }
        }
        if has_key(init, k) {
            let i = choose|i: int| 0 <= i < init.len() && (#[trigger] init[i]).0 == k;
            assert(s[i].0 == k);
        }
        if k == s.last().0 {
            assert(s[s.len() - 1].0 == k);
        }
    }
}

proof fn lemma_init_distinct<N, V>(s: Seq<(N, V)>)
    requires
        keys_distinct(s),
        s.len() > 0,
    ensures
        keys_distinct(s.drop_last()),
{
    let init = s.drop_last();
    assert forall|a: int, b: int| 0 <= a < b < init.len() implies (#[trigger] init[a]).0 != (
    #[trigger] init[b]).0 by {
        assert(init[a] == s[a] && init[b] == s[b]);
    }
}

proof fn lemma_as_map_value<N, V>(s: Seq<(N, V)>, i: int)
    requires
        keys_distinct(s),
        0 <= i < s.len(),
    ensures
        as_map(s).contains_key(s[i].0),
        as_map(s)[s[i].0] == s[i].1,
    decreases s.len(),
{
    if i < s.len() - 1 {
        let init = s.drop_last();
        assert(init[i] == s[i]);
        lemma_init_distinct(s);
        lemma_as_map_value(init, i);
    }
}

proof fn lemma_as_map_update<N, V>(s: Seq<(N, V)>, i: int, v: V)
    requires
        keys_distinct(s),
        0 <= i < s.len(),
    ensures
        as_map(s.update(i, (s[i].0, v))) == as_map(s).insert(s[i].0, v),
        keys_distinct(s.update(i, (s[i].0, v))),
    decreases s.len(),
{
    let t = s.update(i, (s[i].0, v));
    assert(keys_distinct(t)) by {
        assert forall|a: int, b: int| 0 <= a < b < t.len() implies (#[trigger] t[a]).0 != (
        #[trigger] t[b]).0 by {
            assert(t[a].0 == s[a].0 && t[b].0 == s[b].0);
        }
    }
    let init = s.drop_last();
    if i == s.len() - 1 {
        assert(t.drop_last() =~= init);
        assert(as_map(t) =~= as_map(s).insert(s[i].0, v));
    } else {
        assert(init[i] == s[i]);
        lemma_init_distinct(s);
        lemma_as_map_update(init, i, v);
        assert(t.drop_last() =~= init.update(i, (s[i].0, v)));
        assert(t.last() == s.last());
        assert(s[i].0 != s[s.len() - 1].0);
        assert(as_map(t) =~= as_map(s).insert(s[i].0, v));
    }
}

/// A finite map from keys of `K` to values of `V`.
pub struct KeyedMap<K, V> {
    keys: Vec<K>,
    values: Vec<V>,
}

impl<K: MapKey, V> View for KeyedMap<K, V> {
    type V = Map<K::Name, V>;

    closed spec fn view(&self) -> Map<K::Name, V> {
        as_map(self.pairs())
    }
}

impl<K: MapKey, V> KeyedMap<K, V> {
    /// The entries as pairs of name and value.
    closed spec fn pairs(&self) -> Seq<(K::Name, V)> {
        Seq::new(self.keys@.len(), |i: int| (self.keys@[i].name(), self.values@[i]))
    }

    /// The invariant of the list: each key has at most one entry.
    pub closed spec fn wf(&self) -> bool {
        &&& self.keys@.len() == self.values@.len()
        &&& keys_distinct(self.pairs())
    }

    /// A map holds finitely many entries.
    pub proof fn lemma_finite(&self)
        ensures
            self@.dom().finite(),
    {
        lemma_as_map_finite(self.pairs());
    }

    /// The empty map.
    pub fn new() -> (map: KeyedMap<K, V>)
        ensures
            map.wf(),
            map@ == Map::<K::Name, V>::empty(),
    {
        KeyedMap { keys: Vec::new(), values: Vec::new() }
    }

    /// The index of the entry of `key`, if it has one.
    fn find(&self, key: &K) -> (found: Option<usize>)
        requires
            self.wf(),
        ensures
            match found {
                Some(i) => i < self.keys@.len() && self.keys@[i as int].name() == key.name()
                    && self@.contains_key(key.name()) && self@[key.name()] == self.values@[i as int],
                None => !self@.contains_key(key.name()),
            },
    {
        proof {
            lemma_as_map_domain(self.pairs(), key.name());
        }
        let mut i: usize = 0;
        while i < self.keys.len()
            invariant
                self.wf(),
                i <= self.keys@.len(),
                forall|j: int| 0 <= j < i ==> self.keys@[j].name() != key.name(),
            decreases self.keys@.len() - i,
        {
            if self.keys[i].same_key(key) {
                proof {
                    lemma_as_map_value(self.pairs(), i as int);
                }
                return Some(i);
            }
            i += 1;
        }
        assert forall|j: int| 0 <= j < self.pairs().len() implies (#[trigger] self.pairs()[j]).0
            != key.name() by {
            assert(self.keys@[j].name() != key.name());
        }
        None
    }

    /// The value of `key`, if it has one.
    pub fn get(&self, key: &K) -> (found: Option<&V>)
        requires
            self.wf(),
        ensures
            match found {
                Some(v) => self@.contains_key(key.name()) && *v == self@[key.name()],
                None => !self@.contains_key(key.name()),
            },
    {
        match self.find(key) {
            Some(i) => Some(&self.values[i]),
            None => None,
        }
    }

    /// Whether `key` has a value.
    pub fn contains_key(&self, key: &K) -> (found: bool)
        requires
            self.wf(),
        ensures
            found == self@.contains_key(key.name()),
    {
        self.find(key).is_some()
    }

    /// Writes `value` for `key`, in place of what it had.
    pub fn insert(&mut self, key: &K, value: V)
        requires
            old(self).wf(),
        ensures
            final(self).wf(),
            final(self)@ == old(self)@.insert(key.name(), value),
    {
        let ghost before = self.pairs();
        match self.find(key) {
            Some(i) => {
                self.values.set(i, value);
                proof {
                    lemma_as_map_update(before, i as int, value);
                    assert(self.pairs() =~= before.update(i as int, (before[i as int].0, value)));
                }
            },
            None => {
                self.keys.push(key.copy_key());
                self.values.push(value);
                proof {
                    let after = self.pairs();
                    assert(after.drop_last() =~= before);
                    assert(after.last() == (key.name(), value));
                    lemma_as_map_domain(before, key.name());
                    assert forall|a: int, b: int| 0 <= a < b < after.len() implies (
                    #[trigger] after[a]).0 != (#[trigger] after[b]).0 by {
                        assert(after[a] == before[a]);
                        if b < before.len() {
                            assert(after[b] == before[b]);
                        }
                    }
                }
            },
        }
    }
}

} // verus!
