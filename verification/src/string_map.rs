//! A finite map from strings to strings, kept as two parallel vectors.

use vstd::prelude::*;

verus! {

/// The map built by inserting the pairs in order: for a key that occurs
/// several times, the value of its last pair.
pub open spec fn pairs_map(pairs: Seq<(Seq<char>, Seq<char>)>) -> Map<Seq<char>, Seq<char>>
    decreases pairs.len(),
{
    if pairs.len() == 0 {
        Map::empty()
    } else {
        pairs_map(pairs.drop_last()).insert(pairs.last().0, pairs.last().1)
    }
}

/// The keys of `pairs_map(pairs)` are the keys of the pairs.
pub proof fn lemma_pairs_map_keys(pairs: Seq<(Seq<char>, Seq<char>)>, k: Seq<char>)
    ensures
        pairs_map(pairs).contains_key(k) <==> exists|i: int|
            0 <= i < pairs.len() && #[trigger] pairs[i].0 == k,
    decreases pairs.len(),
{
    if pairs.len() > 0 {
        let init = pairs.drop_last();
        lemma_pairs_map_keys(init, k);
        if pairs.last().0 != k {
            if pairs_map(pairs).contains_key(k) {
                let i = choose|i: int| 0 <= i < init.len() && #[trigger] init[i].0 == k;
                assert(pairs[i].0 == k);
            }
            if exists|i: int| 0 <= i < pairs.len() && #[trigger] pairs[i].0 == k {
                let i = choose|i: int| 0 <= i < pairs.len() && #[trigger] pairs[i].0 == k;
                assert(init[i].0 == k);
            }
        } else {
            assert(pairs[pairs.len() - 1].0 == k);
        }
    }
}

/// The value of a key in `pairs_map(pairs)` is that of the last pair with
/// that key.
pub proof fn lemma_pairs_map_last_value(pairs: Seq<(Seq<char>, Seq<char>)>, i: int)
    requires
        0 <= i < pairs.len(),
        forall|j: int| i < j < pairs.len() ==> pairs[j].0 != pairs[i].0,
    ensures
        pairs_map(pairs).contains_key(pairs[i].0),
        pairs_map(pairs)[pairs[i].0] == pairs[i].1,
    decreases pairs.len(),
{
    if i < pairs.len() - 1 {
        let init = pairs.drop_last();
        assert forall|j: int| i < j < init.len() implies init[j].0 != init[i].0 by {
            assert(pairs[j].0 != pairs[i].0);
        }
        lemma_pairs_map_last_value(init, i);
        assert(pairs.last().0 != pairs[i].0);
    }
}

/// A map from string keys to string values. Each key occurs once; inserting
/// an existing key replaces its value.
pub struct StringMap {
    keys: Vec<String>,
    values: Vec<String>,
    contents: Ghost<Map<Seq<char>, Seq<char>>>,
}

impl View for StringMap {
    type V = Map<Seq<char>, Seq<char>>;

    closed spec fn view(&self) -> Map<Seq<char>, Seq<char>> {
        self.contents@
    }
}

impl StringMap {
    /// The representation invariant: the vectors line up, keys are distinct,
    /// and the ghost map holds exactly the pairs of the vectors.
    pub closed spec fn wf(&self) -> bool {
        &&& self.keys.len() == self.values.len()
        &&& forall|i: int, j: int|
            0 <= i < self.keys.len() && 0 <= j < self.keys.len() && i != j
                ==> #[trigger] self.keys@[i]@ != #[trigger] self.keys@[j]@
        &&& forall|i: int|
            0 <= i < self.keys.len() ==> {
                &&& self.contents@.contains_key(#[trigger] self.keys@[i]@)
                &&& self.contents@[self.keys@[i]@] == self.values@[i]@
            }
        &&& forall|k: Seq<char>|
            #[trigger] self.contents@.contains_key(k) ==> exists|i: int|
                0 <= i < self.keys.len() && #[trigger] self.keys@[i]@ == k
    }

    /// An empty map.
    pub fn new() -> (m: StringMap)
        ensures
            m.wf(),
            m@ == Map::<Seq<char>, Seq<char>>::empty(),
    {
        StringMap { keys: Vec::new(), values: Vec::new(), contents: Ghost(Map::empty()) }
    }

    /// The position of `key` among the keys, if it is present.
    fn find(&self, key: &String) -> (r: Option<usize>)
        requires
            self.wf(),
        ensures
            match r {
                Some(i) => i < self.keys.len() && self.keys@[i as int]@ == key@,
                None => !self@.contains_key(key@),
            },
    {
        let mut i: usize = 0;
        while i < self.keys.len()
            invariant
                self.wf(),
                i <= self.keys.len(),
                forall|j: int| 0 <= j < i ==> self.keys@[j]@ != key@,
            decreases self.keys.len() - i,
        {
            if self.keys[i] == *key {
                return Some(i);
            }
            i = i + 1;
        }
        None
    }

    /// The number of keys.
    pub fn len(&self) -> (n: usize)
        requires
            self.wf(),
        ensures
            n == self@.len(),
    {
        proof { self.lemma_len(); }
        self.keys.len()
    }

    proof fn lemma_len(&self)
        requires
            self.wf(),
        ensures
            self@.dom().finite(),
            self@.len() == self.keys.len(),
    {
        let ks = self.keys@.map_values(|s: String| s@);
        assert(self@.dom() =~= ks.to_set()) by {
            assert forall|k: Seq<char>| self@.dom().contains(k) implies ks.to_set().contains(k) by {
                let i = choose|i: int| 0 <= i < self.keys.len() && #[trigger] self.keys@[i]@ == k;
                assert(ks[i] == k);
            }
            assert forall|k: Seq<char>| ks.to_set().contains(k) implies self@.dom().contains(k) by {
                let i = choose|i: int| 0 <= i < ks.len() && ks[i] == k;
                assert(self.keys@[i]@ == k);
            }
        }
        assert(ks.no_duplicates()) by {
            assert forall|i: int, j: int| 0 <= i < ks.len() && 0 <= j < ks.len() && i != j implies ks[i] != ks[j] by {
                assert(self.keys@[i]@ != self.keys@[j]@);
            }
        }
        ks.unique_seq_to_set();
    }

    /// Whether `key` is present.
    pub fn contains_key(&self, key: &String) -> (b: bool)
        requires
            self.wf(),
        ensures
            b == self@.contains_key(key@),
    {
        self.find(key).is_some()
    }

    /// A copy of the value stored under `key`, if any.
    pub fn get(&self, key: &String) -> (r: Option<String>)
        requires
            self.wf(),
        ensures
            match r {
                Some(v) => self@.contains_key(key@) && v@ == self@[key@],
                None => !self@.contains_key(key@),
            },
    {
        match self.find(key) {
            Some(i) => Some(self.values[i].clone()),
            None => None,
        }
    }

    /// The keys, each once.
    pub fn keys(&self) -> (ks: Vec<String>)
        requires
            self.wf(),
        ensures
            ks.len() == self@.len(),
            forall|i: int| 0 <= i < ks.len() ==> self@.contains_key(#[trigger] ks@[i]@),
            forall|k: Seq<char>|
                #[trigger] self@.contains_key(k) ==> exists|i: int| 0 <= i < ks.len() && ks@[i]@ == k,
            forall|i: int, j: int|
                0 <= i < ks.len() && 0 <= j < ks.len() && i != j ==> #[trigger] ks@[i]@ != #[trigger] ks@[j]@,
    {
        proof { self.lemma_len(); }
        let mut ks: Vec<String> = Vec::new();
        let mut i: usize = 0;
        while i < self.keys.len()
            invariant
                self.wf(),
                i <= self.keys.len(),
                ks.len() == i,
                forall|j: int| 0 <= j < i ==> (#[trigger] ks@[j])@ == self.keys@[j]@,
            decreases self.keys.len() - i,
        {
            ks.push(self.keys[i].clone());
            i = i + 1;
        }
        assert forall|k: Seq<char>| #[trigger] self@.contains_key(k) implies exists|j: int|
            0 <= j < ks.len() && ks@[j]@ == k by {
            let j = choose|j: int| 0 <= j < self.keys.len() && #[trigger] self.keys@[j]@ == k;
            assert(ks@[j]@ == k);
        }
        assert forall|a: int, b: int|
            0 <= a < ks.len() && 0 <= b < ks.len() && a != b implies #[trigger] ks@[a]@ != #[trigger] ks@[b]@ by {
            assert(self.keys@[a]@ != self.keys@[b]@);
        }
        assert forall|a: int| 0 <= a < ks.len() implies self@.contains_key(#[trigger] ks@[a]@) by {
            assert(ks@[a]@ == self.keys@[a]@);
        }
        ks
    }

    /// Stores `value` under `key`, replacing any earlier value.
    pub fn insert(&mut self, key: String, value: String)
        requires
            old(self).wf(),
        ensures
            final(self).wf(),
            final(self)@ == old(self)@.insert(key@, value@),
    {
        let ghost old_map = self.contents@;
        match self.find(&key) {
            Some(i) => {
                self.values.set(i, value);
                proof {
                    self.contents@ = old_map.insert(key@, self.values@[i as int]@);
                    assert forall|k: Seq<char>| #[trigger] self.contents@.contains_key(k) implies exists|j: int|
                        0 <= j < self.keys.len() && #[trigger] self.keys@[j]@ == k by {
                        if k != key@ {
                            assert(old_map.contains_key(k));
                            let j = choose|j: int| 0 <= j < self.keys.len() && #[trigger] old(self).keys@[j]@ == k;
                            assert(self.keys@[j]@ == k);
                        } else {
                            assert(self.keys@[i as int]@ == k);
                        }
                    }
                }
            },
            None => {
                let ghost new_value = value@;
                self.keys.push(key);
                self.values.push(value);
                proof {
                    let n = self.keys.len() - 1;
                    self.contents@ = old_map.insert(self.keys@[n]@, new_value);
                    assert forall|k: Seq<char>| #[trigger] self.contents@.contains_key(k) implies exists|j: int|
                        0 <= j < self.keys.len() && #[trigger] self.keys@[j]@ == k by {
                        if k != self.keys@[n]@ {
                            assert(old_map.contains_key(k));
                            let j = choose|j: int| 0 <= j < n && #[trigger] old(self).keys@[j]@ == k;
                            assert(self.keys@[j] == old(self).keys@[j]);
                        }
                    }
                    assert forall|a: int, b: int|
                        0 <= a < self.keys.len() && 0 <= b < self.keys.len() && a != b
                            implies #[trigger] self.keys@[a]@ != #[trigger] self.keys@[b]@ by {
                        if a == n {
                            assert(!old_map.contains_key(self.keys@[n]@));
                            assert(old_map.contains_key(old(self).keys@[b]@));
                        } else if b == n {
                            assert(old_map.contains_key(old(self).keys@[a]@));
                        }
                    }
                }
            },
        }
    }
}

} // verus!
