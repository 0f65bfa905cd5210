use vstd::prelude::*;
use crate::types::Address;

verus! {

/// A finite map keyed by address, kept as a list of entries in which the
/// first entry for a key wins.
#[derive(Debug)]
pub struct AddressTable<V> {
    pub entries: Vec<(Address, V)>,
}

/// The map that a list of entries stands for: the first entry for each key.
pub open spec fn entries_map<V>(s: Seq<(Address, V)>) -> Map<Address, V>
    decreases s.len(),
{
    if s.len() == 0 {
        Map::empty()
    } else {
        entries_map(s.subrange(1, s.len() as int)).insert(s[0].0, s[0].1)
    }
}

/// Every key of the map occurs in the list, and every key of the list is in the map.
pub proof fn lemma_entries_map_keys<V>(s: Seq<(Address, V)>, k: Address)
    ensures
        entries_map(s).contains_key(k) <==> exists|j: int| 0 <= j < s.len() && #[trigger] s[j].0 == k,
    decreases s.len(),
{
    if s.len() > 0 {
        let t = s.subrange(1, s.len() as int);
        lemma_entries_map_keys(t, k);
        if entries_map(s).contains_key(k) && s[0].0 != k {
            let j = choose|j: int| 0 <= j < t.len() && #[trigger] t[j].0 == k;
            assert(s[j + 1].0 == k);
        }
        if exists|j: int| 0 <= j < s.len() && #[trigger] s[j].0 == k {
            let j = choose|j: int| 0 <= j < s.len() && #[trigger] s[j].0 == k;
            if j > 0 {
                assert(t[j - 1].0 == k);
            }
        }
    }
}

/// The value of a key is that of its first entry.
pub proof fn lemma_entries_map_first<V>(s: Seq<(Address, V)>, i: int)
    requires
        0 <= i < s.len(),
        forall|j: int| 0 <= j < i ==> #[trigger] s[j].0 != s[i].0,
    ensures
        entries_map(s).contains_key(s[i].0),
        entries_map(s)[s[i].0] == s[i].1,
    decreases i,
{
    if i > 0 {
        let t = s.subrange(1, s.len() as int);
        assert forall|j: int| 0 <= j < i - 1 implies #[trigger] t[j].0 != t[i - 1].0 by {
            assert(s[j + 1].0 != s[i].0);
        }
        lemma_entries_map_first(t, i - 1);
        assert(s[0].0 != s[i].0);
    }
}

/// Appending an entry for a new key adds that key.
pub proof fn lemma_entries_map_push<V>(s: Seq<(Address, V)>, k: Address, v: V)
    requires
        !entries_map(s).contains_key(k),
    ensures
        entries_map(s.push((k, v))) == entries_map(s).insert(k, v),
    decreases s.len(),
{
    let p = s.push((k, v));
    if s.len() == 0 {
        assert(p.subrange(1, p.len() as int) =~= Seq::<(Address, V)>::empty());
        assert(p[0] == (k, v));
        assert(entries_map(p.subrange(1, p.len() as int)) == Map::<Address, V>::empty());
        assert(entries_map(s) == Map::<Address, V>::empty());
        assert(entries_map(p) =~= entries_map(s).insert(k, v));
    } else {
        let t = s.subrange(1, s.len() as int);
        assert(p.subrange(1, p.len() as int) =~= t.push((k, v)));
        lemma_entries_map_keys(t, k);
        lemma_entries_map_keys(s, k);
        if entries_map(t).contains_key(k) {
            let j = choose|j: int| 0 <= j < t.len() && #[trigger] t[j].0 == k;
            assert(s[j + 1].0 == k);
        }
        lemma_entries_map_push(t, k, v);
        assert(s[0].0 != k);
        assert(entries_map(p) =~= entries_map(s).insert(k, v));
    }
}

/// Overwriting the first entry of a key changes just that key.
pub proof fn lemma_entries_map_update<V>(s: Seq<(Address, V)>, i: int, v: V)
    requires
        0 <= i < s.len(),
        forall|j: int| 0 <= j < i ==> #[trigger] s[j].0 != s[i].0,
    ensures
        entries_map(s.update(i, (s[i].0, v))) == entries_map(s).insert(s[i].0, v),
    decreases i,
{
    let k = s[i].0;
    let u = s.update(i, (k, v));
    let t = s.subrange(1, s.len() as int);
    if i == 0 {
        assert(u.subrange(1, u.len() as int) =~= t);
        assert(entries_map(u) =~= entries_map(s).insert(k, v));
    } else {
        assert(u.subrange(1, u.len() as int) =~= t.update(i - 1, (k, v)));
        assert forall|j: int| 0 <= j < i - 1 implies #[trigger] t[j].0 != t[i - 1].0 by {
            assert(s[j + 1].0 != s[i].0);
        }
        lemma_entries_map_update(t, i - 1, v);
        assert(s[0].0 != k);
        assert(entries_map(u) =~= entries_map(s).insert(k, v));
    }
}

impl<V> View for AddressTable<V> {
    type V = Map<Address, V>;

    open spec fn view(&self) -> Map<Address, V> {
        entries_map(self.entries@)
    }
}

impl<V> AddressTable<V> {
    /// An empty table.
    pub fn new() -> (t: Self)
        ensures
            t@ == Map::<Address, V>::empty(),
    {
        AddressTable { entries: Vec::new() }
    }

    /// Position of the first entry for `key`, if any.
    fn position(&self, key: &Address) -> (r: Option<usize>)
        ensures
            match r {
                Some(i) => i < self.entries@.len() && self.entries@[i as int].0 == *key && forall|j: int|
                    0 <= j < i ==> #[trigger] self.entries@[j].0 != *key,
                None => forall|j: int| 0 <= j < self.entries@.len() ==> #[trigger] self.entries@[j].0 != *key,
            },
    {
        let mut i: usize = 0;
        while i < self.entries.len()
            invariant
                i <= self.entries@.len(),
                forall|j: int| 0 <= j < i ==> #[trigger] self.entries@[j].0 != *key,
            decreases self.entries.len() - i,
        {
            if self.entries[i].0 == *key {
                return Some(i);
            }
            i = i + 1;
        }
        None
    }

    /// The value stored for `key`, if any.
    pub fn get(&self, key: &Address) -> (r: Option<&V>)
        ensures
            match r {
                Some(v) => self@.contains_key(*key) && self@[*key] == *v,
                None => !self@.contains_key(*key),
            },
    {
        match self.position(key) {
            Some(i) => {
                proof {
                    lemma_entries_map_first(self.entries@, i as int);
                }
                Some(&self.entries[i].1)
            },
            None => {
                proof {
                    lemma_entries_map_keys(self.entries@, *key);
                }
                None
            },
        }
    }

    /// Stores `value` for `key`, replacing any previous value.
    pub fn set(&mut self, key: Address, value: V)
        ensures
            final(self)@ == old(self)@.insert(key, value),
    {
        match self.position(&key) {
            Some(i) => {
                proof {
                    lemma_entries_map_update(self.entries@, i as int, value);
                }
                self.entries.set(i, (key, value));
            },
            None => {
                proof {
                    lemma_entries_map_keys(self.entries@, key);
                    lemma_entries_map_push(self.entries@, key, value);
                }
                self.entries.push((key, value));
            },
        }
    }
}

} // verus!
