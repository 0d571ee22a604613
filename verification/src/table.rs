use vstd::prelude::*;

verus! {

/// A key that a `Table` can be looked up by: equality on it is decidable
/// and agrees with mathematical equality.
pub trait TableKey: Copy {
    fn same(&self, other: &Self) -> (r: bool)
        ensures
            r == (*self == *other),
    ;
}

impl TableKey for u32 {
    fn same(&self, other: &Self) -> (r: bool) {
        *self == *other
    }
}

/// The map that a list of entries stands for: later entries override earlier ones.
pub open spec fn entries_map<K, V>(s: Seq<(K, V)>) -> Map<K, V>
    decreases s.len(),
{
    if s.len() == 0 {
        Map::empty()
    } else {
        entries_map(s.drop_last()).insert(s.last().0, s.last().1)
    }
}

/// No key occurs twice in the list.
pub open spec fn distinct_keys<K, V>(s: Seq<(K, V)>) -> bool {
    forall|i: int, j: int| 0 <= i < j < s.len() ==> #[trigger] s[i].0 != #[trigger] s[j].0
}

proof fn lemma_entries_map<K, V>(s: Seq<(K, V)>)
    requires
        distinct_keys(s),
    ensures
        forall|k: K| #[trigger]
            entries_map(s).contains_key(k) <==> exists|i: int| 0 <= i < s.len() && s[i].0 == k,
        forall|i: int| 0 <= i < s.len() ==> entries_map(s)[#[trigger] s[i].0] == s[i].1,
    decreases s.len(),
{
    if s.len() > 0 {
        let t = s.drop_last();
        lemma_entries_map(t);
        assert forall|k: K| #[trigger]
            entries_map(s).contains_key(k) <==> exists|i: int| 0 <= i < s.len() && s[i].0 == k by {
            if entries_map(s).contains_key(k) && k != s.last().0 {
                assert(entries_map(t).contains_key(k));
                let i = choose|i: int| 0 <= i < t.len() && t[i].0 == k;
                assert(s[i].0 == k);
            }
            if exists|i: int| 0 <= i < s.len() && s[i].0 == k {
                let i = choose|i: int| 0 <= i < s.len() && s[i].0 == k;
                if i < s.len() - 1 {
                    assert(t[i].0 == k);
                    assert(entries_map(t).contains_key(k));
                }
            }
        }
        assert forall|i: int| 0 <= i < s.len() implies entries_map(s)[#[trigger] s[i].0]
            == s[i].1 by {
            if i < s.len() - 1 {
                assert(t[i] == s[i]);
                assert(s[i].0 != s[s.len() - 1].0);
            }
        }
    }
}

/// A finite map kept as a list of entries in which each key occurs at most once.
#[verifier::reject_recursive_types(K)]
pub struct Table<K, V> {
    entries: Vec<(K, V)>,
    contents: Ghost<Map<K, V>>,
}

impl<K: TableKey, V: Copy> View for Table<K, V> {
    type V = Map<K, V>;

    closed spec fn view(&self) -> Map<K, V> {
        self.contents@
    }
}

impl<K: TableKey, V: Copy> Table<K, V> {
    /// The entry list and the map it stands for agree, and no key repeats.
    pub closed spec fn wf(&self) -> bool {
        &&& forall|i: int, j: int|
            0 <= i < j < self.entries@.len() ==> #[trigger] self.entries@[i].0
                != #[trigger] self.entries@[j].0
        &&& forall|i: int|
            0 <= i < self.entries@.len() ==> {
                &&& self.contents@.contains_key(#[trigger] self.entries@[i].0)
                &&& self.contents@[self.entries@[i].0] == self.entries@[i].1
            }
        &&& forall|k: K|
            #[trigger] self.contents@.contains_key(k) ==> exists|i: int|
                0 <= i < self.entries@.len() && #[trigger] self.entries@[i].0 == k
    }

    pub fn new() -> (t: Self)
        ensures
            t.wf(),
            t@ == Map::<K, V>::empty(),
    {
        Table { entries: Vec::new(), contents: Ghost(Map::empty()) }
    }

    fn find(&self, key: &K) -> (r: Option<usize>)
        requires
            self.wf(),
        ensures
            match r {
                Some(i) => i < self.entries@.len() && self.entries@[i as int].0 == *key,
                None => !self@.contains_key(*key),
            },
    {
        let mut i: usize = 0;
        while i < self.entries.len()
            invariant
                self.wf(),
                i <= self.entries@.len(),
                forall|j: int| 0 <= j < i ==> self.entries@[j].0 != *key,
            decreases self.entries@.len() - i,
        {
            if self.entries[i].0.same(key) {
                return Some(i);
            }
            i = i + 1;
        }
        None
    }

    /// The value stored under `key`, if any.
    pub fn get(&self, key: &K) -> (r: Option<V>)
        requires
            self.wf(),
        ensures
            r == (if self@.contains_key(*key) {
                Some(self@[*key])
            } else {
                None
            }),
    {
        match self.find(key) {
            Some(i) => Some(self.entries[i].1),
            None => None,
        }
    }

    /// Whether `key` has a value.
    pub fn contains(&self, key: &K) -> (r: bool)
        requires
            self.wf(),
        ensures
            r == self@.contains_key(*key),
    {
        self.find(key).is_some()
    }

    /// Stores `value` under `key`, replacing what was there.
    pub fn insert(&mut self, key: K, value: V)
        requires
            old(self).wf(),
        ensures
            final(self).wf(),
            final(self)@ == old(self)@.insert(key, value),
    {
        let ghost new_map = self.contents@.insert(key, value);
        match self.find(&key) {
            Some(i) => {
                self.entries.set(i, (key, value));
                self.contents = Ghost(new_map);
                assert forall|k: K| #[trigger] self.contents@.contains_key(k) implies exists|j: int|
                    0 <= j < self.entries@.len() && #[trigger] self.entries@[j].0 == k by {
                    if k != key {
                        let j = choose|j: int|
                            0 <= j < old(self).entries@.len() && #[trigger] old(self).entries@[j].0
                                == k;
                        assert(self.entries@[j].0 == k);
                    } else {
                        assert(self.entries@[i as int].0 == k);
                    }
                }
            },
            None => {
                self.entries.push((key, value));
                self.contents = Ghost(new_map);
                assert forall|k: K| #[trigger] self.contents@.contains_key(k) implies exists|j: int|
                    0 <= j < self.entries@.len() && #[trigger] self.entries@[j].0 == k by {
                    if k != key {
                        let j = choose|j: int|
                            0 <= j < old(self).entries@.len() && #[trigger] old(self).entries@[j].0
                                == k;
                        assert(self.entries@[j].0 == k);
                    } else {
                        assert(self.entries@[self.entries@.len() - 1].0 == k);
                    }
                }
            },
        }
    }

    /// Drops whatever is stored under `key`.
    pub fn remove(&mut self, key: &K)
        requires
            old(self).wf(),
        ensures
            final(self).wf(),
            final(self)@ == old(self)@.remove(*key),
    {
        let ghost new_map = self.contents@.remove(*key);
        match self.find(key) {
            Some(i) => {
                let ghost old_entries = self.entries@;
                self.entries.swap_remove(i);
                self.contents = Ghost(new_map);
                let ghost n = old_entries.len();
                assert forall|j: int| 0 <= j < self.entries@.len() implies #[trigger] self.entries@[j]
                    == (if j == i {
                    old_entries[n - 1]
                } else {
                    old_entries[j]
                }) by {}
                assert forall|k: K| #[trigger] self.contents@.contains_key(k) implies exists|j: int|
                    0 <= j < self.entries@.len() && #[trigger] self.entries@[j].0 == k by {
                    let j = choose|j: int|
                        0 <= j < old_entries.len() && #[trigger] old_entries[j].0 == k;
                    if j == n - 1 {
                        assert(self.entries@[i as int].0 == k);
                    } else {
                        assert(self.entries@[j].0 == k);
                    }
                }
            },
            None => {
                assert(self.contents@ =~= new_map);
            },
        }
    }

    /// A table holding the given entries, a later entry for a key overriding an earlier one.
    pub fn from_entries(entries: &Vec<(K, V)>) -> (t: Self)
        ensures
            t.wf(),
            t@ == entries_map(entries@),
    {
        let mut t = Table::new();
        let mut i: usize = 0;
        while i < entries.len()
            invariant
                i <= entries@.len(),
                t.wf(),
                t@ == entries_map(entries@.take(i as int)),
            decreases entries@.len() - i,
        {
            let e = entries[i];
            t.insert(e.0, e.1);
            assert(entries@.take(i + 1).drop_last() =~= entries@.take(i as int));
            i = i + 1;
        }
        assert(entries@.take(entries@.len() as int) =~= entries@);
        t
    }

    /// The entries of the table, each key once.
    pub fn to_entries(&self) -> (r: Vec<(K, V)>)
        requires
            self.wf(),
        ensures
            distinct_keys(r@),
            entries_map(r@) == self@,
    {
        let mut r: Vec<(K, V)> = Vec::new();
        let mut i: usize = 0;
        while i < self.entries.len()
            invariant
                i <= self.entries@.len(),
                r@ == self.entries@.take(i as int),
            decreases self.entries@.len() - i,
        {
            r.push(self.entries[i]);
            assert(r@ =~= self.entries@.take(i + 1));
            i = i + 1;
        }
        assert(r@ =~= self.entries@);
        proof {
            lemma_entries_map(r@);
            assert forall|k: K| #[trigger] entries_map(r@).contains_key(k) <==> self@.contains_key(
                k,
            ) by {
                if self@.contains_key(k) {
                    let j = choose|j: int|
                        0 <= j < self.entries@.len() && #[trigger] self.entries@[j].0 == k;
                    assert(r@[j].0 == k);
                }
            }
            assert forall|k: K| #[trigger] entries_map(r@).contains_key(k) implies entries_map(r@)[k]
                == self@[k] by {
                let j = choose|j: int| 0 <= j < r@.len() && r@[j].0 == k;
                assert(entries_map(r@)[r@[j].0] == r@[j].1);
            }
            assert(entries_map(r@) =~= self@);
        }
        r
    }
}

} // verus!
