use vstd::prelude::*;

verus! {

/// The pairs of a mapping, each string taken by its characters.
pub type Pairs = Seq<(Seq<char>, Seq<char>)>;

/// No key occurs twice among the pairs.
pub open spec fn keys_distinct(s: Pairs) -> bool {
    forall|i: int, j: int| 0 <= i < j < s.len() ==> s[i].0 != s[j].0
}

/// Some pair carries key `k`.
pub open spec fn has_key(s: Pairs, k: Seq<char>) -> bool {
    exists|i: int| 0 <= i < s.len() && s[i].0 == k
}

/// The mapping that a list of pairs with distinct keys stands for.
pub open spec fn to_map(s: Pairs) -> Map<Seq<char>, Seq<char>> {
    Map::new(
        |k: Seq<char>| has_key(s, k),
        |k: Seq<char>| s[choose|i: int| 0 <= i < s.len() && s[i].0 == k].1,
    )
}

/// The pair at index `i` is what the mapping holds for its key.
pub proof fn lemma_to_map_at(s: Pairs, i: int)
    requires
        keys_distinct(s),
        0 <= i < s.len(),
    ensures
        to_map(s).contains_key(s[i].0),
        to_map(s)[s[i].0] == s[i].1,
{
    let k = s[i].0;
    assert(has_key(s, k));
    let j = choose|j: int| 0 <= j < s.len() && s[j].0 == k;
    assert(j == i);
}

/// A mapping from strings to strings, kept in the order its keys were first
/// inserted, as a configuration section is written.
pub struct KeyValues {
    entries: Vec<(String, String)>,
}

impl View for KeyValues {
    type V = Map<Seq<char>, Seq<char>>;

    closed spec fn view(&self) -> Map<Seq<char>, Seq<char>> {
        to_map(self.pairs())
    }
}

impl KeyValues {
    /// The stored pairs, in order.
    pub closed spec fn pairs(&self) -> Pairs {
        self.entries@.map_values(|e: (String, String)| (e.0@, e.1@))
    }

    /// Each key is stored once.
    pub closed spec fn wf(&self) -> bool {
        keys_distinct(self.pairs())
    }

    /// The mapping with no keys.
    pub fn new() -> (m: KeyValues)
        ensures
            m.wf(),
            m@ == Map::<Seq<char>, Seq<char>>::empty(),
    {
        let m = KeyValues { entries: Vec::new() };
        assert(m@ =~= Map::<Seq<char>, Seq<char>>::empty());
        m
    }

    /// The number of keys.
    pub fn len(&self) -> (n: usize)
        requires
            self.wf(),
        ensures
            n == self@.dom().len(),
    {
        proof {
            self.lemma_dom_len();
        }
        self.entries.len()
    }

    proof fn lemma_dom_len(&self)
        requires
            self.wf(),
        ensures
            self@.dom().finite(),
            self@.dom().len() == self.entries.len(),
    {
        let s = self.pairs();
        let keys = Seq::new(s.len(), |i: int| s[i].0);
        assert forall|k: Seq<char>| #[trigger] self@.dom().contains(k) <==> keys.contains(k) by {
            if keys.contains(k) {
                let i = choose|i: int| 0 <= i < keys.len() && keys[i] == k;
                assert(s[i].0 == k);
            }
            if has_key(s, k) {
                let i = choose|i: int| 0 <= i < s.len() && s[i].0 == k;
                assert(keys[i] == k);
            }
        }
        assert(self@.dom() =~= keys.to_set());
        assert(keys.no_duplicates());
        keys.unique_seq_to_set();
    }

    /// The keys, in the order they were first inserted.
    pub fn keys(&self) -> (r: Vec<String>)
        requires
            self.wf(),
        ensures
            forall|i: int| 0 <= i < r.len() ==> self@.contains_key(#[trigger] r[i]@),
            forall|k: Seq<char>|
                #[trigger] self@.contains_key(k) ==> exists|i: int| 0 <= i < r.len() && r[i]@ == k,
    {
        let mut r: Vec<String> = Vec::new();
        let mut i: usize = 0;
        while i < self.entries.len()
            invariant
                i <= self.entries.len(),
                r.len() == i,
                forall|j: int| 0 <= j < i ==> #[trigger] r[j]@ == self.pairs()[j].0,
            decreases self.entries.len() - i,
        {
            r.push(self.entries[i].0.clone());
            i = i + 1;
        }
        assert forall|j: int| 0 <= j < r.len() implies self@.contains_key(#[trigger] r[j]@) by {
            lemma_to_map_at(self.pairs(), j);
        }
        assert forall|k: Seq<char>| #[trigger] self@.contains_key(k) implies exists|j: int|
            0 <= j < r.len() && r[j]@ == k by {
            let j = choose|j: int| 0 <= j < self.pairs().len() && self.pairs()[j].0 == k;
            assert(r[j]@ == k);
        }
        r
    }

    /// Where key `k` is stored, if anywhere.
    fn index_of(&self, k: &String) -> (r: Option<usize>)
        requires
            self.wf(),
        ensures
            match r {
                Some(i) => i < self.entries.len() && self.pairs()[i as int].0 == k@,
                None => !self@.contains_key(k@),
            },
    {
        let mut i: usize = 0;
        while i < self.entries.len()
            invariant
                i <= self.entries.len(),
                forall|j: int| 0 <= j < i ==> #[trigger] self.pairs()[j].0 != k@,
            decreases self.entries.len() - i,
        {
            if self.entries[i].0 == *k {
                return Some(i);
            }
            i = i + 1;
        }
        None
    }

    /// The value stored under `k`.
    pub fn get(&self, k: &String) -> (r: Option<&String>)
        requires
            self.wf(),
        ensures
            match r {
                Some(v) => self@.contains_key(k@) && self@[k@] == v@,
                None => !self@.contains_key(k@),
            },
    {
        match self.index_of(k) {
            Some(i) => {
                proof {
                    lemma_to_map_at(self.pairs(), i as int);
                }
                Some(&self.entries[i].1)
            },
            None => None,
        }
    }

    /// Stores `value` under `key`, replacing what was there; a new key goes last.
    pub fn insert(&mut self, key: String, value: String)
        requires
            old(self).wf(),
        ensures
            final(self).wf(),
            final(self)@ == old(self)@.insert(key@, value@),
    {
        let ghost before = self.pairs();
        match self.index_of(&key) {
            Some(i) => {
                self.entries.set(i, (key, value));
                let ghost after = self.pairs();
                assert(after =~= before.update(i as int, (key@, value@)));
                assert forall|k: Seq<char>| #[trigger] has_key(after, k) <==> (has_key(before, k)
                    || k == key@) by {
                    if has_key(before, k) {
                        let j = choose|j: int| 0 <= j < before.len() && before[j].0 == k;
                        assert(after[j].0 == k);
                    }
                    if has_key(after, k) {
                        let j = choose|j: int| 0 <= j < after.len() && after[j].0 == k;
                        assert(before[j].0 == k || j == i);
                    }
                }
                assert forall|k: Seq<char>| has_key(after, k) implies #[trigger] to_map(after)[k]
                    == old(self)@.insert(key@, value@)[k] by {
                    let j = choose|j: int| 0 <= j < after.len() && after[j].0 == k;
                    lemma_to_map_at(after, j);
                    if j != i {
                        lemma_to_map_at(before, j);
                    }
                }
                assert(self@ =~= old(self)@.insert(key@, value@));
            },
            None => {
                self.entries.push((key, value));
                let ghost after = self.pairs();
                assert(after =~= before.push((key@, value@)));
                let ghost n = before.len() as int;
                assert forall|k: Seq<char>| #[trigger] has_key(after, k) <==> (has_key(before, k)
                    || k == key@) by {
                    if has_key(before, k) {
                        let j = choose|j: int| 0 <= j < before.len() && before[j].0 == k;
                        assert(after[j].0 == k);
                    }
                    if k == key@ {
                        assert(after[n].0 == k);
                    }
                    if has_key(after, k) {
                        let j = choose|j: int| 0 <= j < after.len() && after[j].0 == k;
                        assert(before[j].0 == k || j == n);
                    }
                }
                assert forall|k: Seq<char>| has_key(after, k) implies #[trigger] to_map(after)[k]
                    == old(self)@.insert(key@, value@)[k] by {
                    let j = choose|j: int| 0 <= j < after.len() && after[j].0 == k;
                    lemma_to_map_at(after, j);
                    if j != n {
                        lemma_to_map_at(before, j);
                    }
                }
                assert(self@ =~= old(self)@.insert(key@, value@));
            },
        }
    }
}

} // verus!
