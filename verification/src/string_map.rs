//! A map from strings to strings, kept as a list of pairs with distinct keys
//! in the order in which the keys were first inserted.
use crate::text::same_text;
use vstd::prelude::*;

verus! {

/// The map that a list of pairs with distinct keys stands for.
pub open spec fn pairs_to_map(p: Seq<(Seq<char>, Seq<char>)>) -> Map<Seq<char>, Seq<char>> {
    Map::new(
        |k: Seq<char>| exists|i: int| 0 <= i < p.len() && #[trigger] p[i].0 == k,
        |k: Seq<char>| p[choose|i: int| 0 <= i < p.len() && #[trigger] p[i].0 == k].1,
    )
}

/// No key occurs twice in `p`.
pub open spec fn distinct_keys(p: Seq<(Seq<char>, Seq<char>)>) -> bool {
    forall|i: int, j: int| 0 <= i < j < p.len() ==> #[trigger] p[i].0 != #[trigger] p[j].0
}

/// In a list with distinct keys, each pair is an entry of the map.
pub proof fn lemma_pair_in_map(p: Seq<(Seq<char>, Seq<char>)>, i: int)
    requires
        distinct_keys(p),
        0 <= i < p.len(),
    ensures
        pairs_to_map(p).contains_key(p[i].0),
        pairs_to_map(p)[p[i].0] == p[i].1,
{
    let k = p[i].0;
    let j = choose|j: int| 0 <= j < p.len() && #[trigger] p[j].0 == k;
    assert(j == i) by {
        if j < i {
            assert(p[j].0 != p[i].0);
        } else if i < j {
            assert(p[i].0 != p[j].0);
        }
    }
}

/// A map from texts to texts. Its entries keep the order in which their
/// keys were first inserted.
#[derive(Debug)]
pub struct StringMap {
    entries: Vec<(String, String)>,
}

impl View for StringMap {
    type V = Map<Seq<char>, Seq<char>>;

    open spec fn view(&self) -> Map<Seq<char>, Seq<char>> {
        pairs_to_map(self.pairs())
    }
}

impl StringMap {
    #[verifier::type_invariant]
    spec fn well_formed(self) -> bool {
        distinct_keys(self.pairs())
    }

    /// The entries as pairs of texts, in insertion order.
    pub closed spec fn pairs(self) -> Seq<(Seq<char>, Seq<char>)> {
        Seq::new(self.entries@.len(), |i: int| (self.entries@[i].0@, self.entries@[i].1@))
    }

    /// An empty map.
    pub fn new() -> (m: StringMap)
        ensures
            m.pairs() == Seq::<(Seq<char>, Seq<char>)>::empty(),
            m@ == Map::<Seq<char>, Seq<char>>::empty(),
    {
        let m = StringMap { entries: Vec::new() };
        assert(m.pairs() =~= Seq::<(Seq<char>, Seq<char>)>::empty());
        assert(m@ =~= Map::<Seq<char>, Seq<char>>::empty());
        m
    }

    /// The number of entries.
    pub fn len(&self) -> (n: usize)
        ensures
            n == self.pairs().len(),
            distinct_keys(self.pairs()),
    {
        proof {
            use_type_invariant(self);
        }
        self.entries.len()
    }

    /// Whether the map has no entry.
    pub fn is_empty(&self) -> (b: bool)
        ensures
            b == (self.pairs().len() == 0),
            b == (self@ == Map::<Seq<char>, Seq<char>>::empty()),
    {
        proof {
            use_type_invariant(self);
            if self.pairs().len() == 0 {
                assert(self@ =~= Map::<Seq<char>, Seq<char>>::empty());
            } else {
                lemma_pair_in_map(self.pairs(), 0);
            }
        }
        self.entries.len() == 0
    }

    /// The key of the entry at position `i`.
    pub fn key_at(&self, i: usize) -> (k: &String)
        requires
            i < self.pairs().len(),
        ensures
            k@ == self.pairs()[i as int].0,
            self@.contains_key(k@),
    {
        proof {
            use_type_invariant(self);
            lemma_pair_in_map(self.pairs(), i as int);
        }
        &self.entries[i].0
    }

    /// The value of the entry at position `i`.
    pub fn value_at(&self, i: usize) -> (v: &String)
        requires
            i < self.pairs().len(),
        ensures
            v@ == self.pairs()[i as int].1,
            self@[self.pairs()[i as int].0] == v@,
    {
        proof {
            use_type_invariant(self);
            lemma_pair_in_map(self.pairs(), i as int);
        }
        &self.entries[i].1
    }

    /// The position of `key` among the entries, if it is a key of the map.
    fn position(&self, key: &str) -> (r: Option<usize>)
        ensures
            distinct_keys(self.pairs()),
            match r {
                Some(i) => i < self.pairs().len() && self.pairs()[i as int].0 == key@,
                None => forall|j: int| 0 <= j < self.pairs().len() ==> self.pairs()[j].0 != key@,
            },
    {
        proof {
            use_type_invariant(self);
        }
        let mut i: usize = 0;
        while i < self.entries.len()
            invariant
                i <= self.entries.len(),
                self.entries@.len() == self.pairs().len(),
                distinct_keys(self.pairs()),
                forall|j: int| 0 <= j < i ==> self.pairs()[j].0 != key@,
            decreases self.entries.len() - i,
        {
            if same_text(self.entries[i].0.as_str(), key) {
                return Some(i);
            }
            i = i + 1;
        }
        None
    }

    /// Whether `key` is a key of the map.
    pub fn contains_key(&self, key: &str) -> (b: bool)
        ensures
            b == self@.contains_key(key@),
    {
        match self.position(key) {
            Some(i) => {
                proof {
                    lemma_pair_in_map(self.pairs(), i as int);
                }
                true
            },
            None => false,
        }
    }

    /// The value stored under `key`, if there is one.
    pub fn get(&self, key: &str) -> (r: Option<&String>)
        ensures
            match r {
                Some(v) => self@.contains_key(key@) && self@[key@] == v@,
                None => !self@.contains_key(key@),
            },
    {
        match self.position(key) {
            Some(i) => {
                proof {
                    lemma_pair_in_map(self.pairs(), i as int);
                }
                Some(&self.entries[i].1)
            },
            None => None,
        }
    }

    /// Stores `value` under `key`. A key that is already present keeps its
    /// position and gets the new value; a new key goes to the end.
    pub fn insert(&mut self, key: String, value: String)
        ensures
            final(self)@ == old(self)@.insert(key@, value@),
            old(self)@.contains_key(key@) ==> final(self).pairs().len() == old(self).pairs().len(),
            !old(self)@.contains_key(key@) ==> final(self).pairs() == old(self).pairs().push(
                (key@, value@),
            ),
    {
        let ghost before = self.pairs();
        match self.position(key.as_str()) {
            Some(i) => {
                let mut entries: Vec<(String, String)> = Vec::new();
                std::mem::swap(&mut entries, &mut self.entries);
                entries.set(i, (key, value));
                proof {
                    let next = Seq::new(entries@.len(), |j: int| (entries@[j].0@, entries@[j].1@));
                    assert(next =~= before.update(i as int, (key@, value@)));
                    assert(distinct_keys(next));
                }
                self.entries = entries;
                proof {
                    let after = self.pairs();
                    assert(after =~= before.update(i as int, (key@, value@)));
                    lemma_pair_in_map(before, i as int);
                    assert forall|k: Seq<char>|
                        pairs_to_map(after).contains_key(k) == pairs_to_map(before).insert(
                            key@,
                            value@,
                        ).contains_key(k) by {
                        if pairs_to_map(after).contains_key(k) {
                            let j = choose|j: int| 0 <= j < after.len() && #[trigger] after[j].0 == k;
                            assert(before[j].0 == k);
                        }
                        if pairs_to_map(before).contains_key(k) {
                            let j = choose|j: int|
                                0 <= j < before.len() && #[trigger] before[j].0 == k;
                            assert(after[j].0 == k);
                        }
                        if k == key@ {
                            assert(after[i as int].0 == k);
                        }
                    }
                    assert forall|k: Seq<char>| #[trigger]
                        pairs_to_map(after).contains_key(k) implies pairs_to_map(after)[k]
                        == pairs_to_map(before).insert(key@, value@)[k] by {
                        let j = choose|j: int| 0 <= j < after.len() && #[trigger] after[j].0 == k;
                        lemma_pair_in_map(after, j);
                        if j != i {
                            lemma_pair_in_map(before, j);
                        }
                    }
                    assert(pairs_to_map(after) =~= pairs_to_map(before).insert(key@, value@));
                }
            },
            None => {
                let mut entries: Vec<(String, String)> = Vec::new();
                std::mem::swap(&mut entries, &mut self.entries);
                entries.push((key, value));
                proof {
                    let next = Seq::new(entries@.len(), |j: int| (entries@[j].0@, entries@[j].1@));
                    assert(next =~= before.push((key@, value@)));
                    lemma_push_map(before, key@, value@);
                }
                self.entries = entries;
                proof {
                    let after = self.pairs();
                    assert(after =~= before.push((key@, value@)));
                    lemma_push_map(before, key@, value@);
                    assert(!pairs_to_map(before).contains_key(key@));
                }
            },
        }
    }
}

impl Clone for StringMap {
    /// A map with the same entries in the same order.
    fn clone(&self) -> (m: StringMap)
        ensures
            m.pairs() == self.pairs(),
            m@ == self@,
    {
        let n = self.len();
        let mut m = StringMap::new();
        let mut i: usize = 0;
        while i < n
            invariant
                i <= n,
                n == self.pairs().len(),
                distinct_keys(self.pairs()),
                m.pairs() == self.pairs().subrange(0, i as int),
            decreases n - i,
        {
            let k = self.key_at(i).clone();
            let v = self.value_at(i).clone();
            proof {
                lemma_absent_after_prefix(self.pairs(), i as int);
            }
            m.insert(k, v);
            assert(m.pairs() == self.pairs().subrange(0, i + 1));
            i = i + 1;
        }
        assert(self.pairs().subrange(0, n as int) == self.pairs());
        m
    }
}

/// In a list with distinct keys, the key at `i` is not among those before it.
pub proof fn lemma_absent_after_prefix(p: Seq<(Seq<char>, Seq<char>)>, i: int)
    requires
        distinct_keys(p),
        0 <= i < p.len(),
    ensures
        !pairs_to_map(p.subrange(0, i)).contains_key(p[i].0),
{
    let q = p.subrange(0, i);
    if pairs_to_map(q).contains_key(p[i].0) {
        let j = choose|j: int| 0 <= j < q.len() && #[trigger] q[j].0 == p[i].0;
        assert(p[j].0 != p[i].0);
    }
}

/// The pairs `p` with `f` applied to each value.
pub open spec fn map_pair_values(
    p: Seq<(Seq<char>, Seq<char>)>,
    f: spec_fn(Seq<char>) -> Seq<char>,
) -> Seq<(Seq<char>, Seq<char>)> {
    Seq::new(p.len(), |i: int| (p[i].0, f(p[i].1)))
}

/// Applying `f` to each value of a list of pairs applies it to each value
/// of the map.
pub proof fn lemma_map_pair_values(
    p: Seq<(Seq<char>, Seq<char>)>,
    f: spec_fn(Seq<char>) -> Seq<char>,
)
    requires
        distinct_keys(p),
    ensures
        distinct_keys(map_pair_values(p, f)),
        pairs_to_map(map_pair_values(p, f)) == pairs_to_map(p).map_values(f),
{
    let q = map_pair_values(p, f);
    assert(distinct_keys(q));
    assert forall|x: Seq<char>|
        pairs_to_map(q).contains_key(x) == pairs_to_map(p).contains_key(x) by {
        if pairs_to_map(q).contains_key(x) {
            let j = choose|j: int| 0 <= j < q.len() && #[trigger] q[j].0 == x;
            assert(p[j].0 == x);
        }
        if pairs_to_map(p).contains_key(x) {
            let j = choose|j: int| 0 <= j < p.len() && #[trigger] p[j].0 == x;
            assert(q[j].0 == x);
        }
    }
    assert forall|x: Seq<char>| #[trigger] pairs_to_map(q).contains_key(x) implies pairs_to_map(
        q,
    )[x] == f(pairs_to_map(p)[x]) by {
        let j = choose|j: int| 0 <= j < q.len() && #[trigger] q[j].0 == x;
        lemma_pair_in_map(q, j);
        lemma_pair_in_map(p, j);
    }
    assert(pairs_to_map(q) =~= pairs_to_map(p).map_values(f));
}

/// Appending a pair with a new key inserts it into the map.
pub proof fn lemma_push_map(p: Seq<(Seq<char>, Seq<char>)>, k: Seq<char>, v: Seq<char>)
    requires
        distinct_keys(p),
        forall|j: int| 0 <= j < p.len() ==> p[j].0 != k,
    ensures
        distinct_keys(p.push((k, v))),
        pairs_to_map(p.push((k, v))) == pairs_to_map(p).insert(k, v),
{
    let q = p.push((k, v));
    assert(distinct_keys(q));
    assert forall|x: Seq<char>|
        pairs_to_map(q).contains_key(x) == pairs_to_map(p).insert(k, v).contains_key(x) by {
        if pairs_to_map(q).contains_key(x) {
            let j = choose|j: int| 0 <= j < q.len() && #[trigger] q[j].0 == x;
            if j < p.len() {
                assert(p[j].0 == x);
            }
        }
        if pairs_to_map(p).contains_key(x) {
            let j = choose|j: int| 0 <= j < p.len() && #[trigger] p[j].0 == x;
            assert(q[j].0 == x);
        }
        if x == k {
            assert(q[p.len() as int].0 == x);
        }
    }
    assert forall|x: Seq<char>| #[trigger] pairs_to_map(q).contains_key(x) implies pairs_to_map(
        q,
    )[x] == pairs_to_map(p).insert(k, v)[x] by {
        let j = choose|j: int| 0 <= j < q.len() && #[trigger] q[j].0 == x;
        lemma_pair_in_map(q, j);
        if j < p.len() {
            lemma_pair_in_map(p, j);
        }
    }
    assert(pairs_to_map(q) =~= pairs_to_map(p).insert(k, v));
}

} // verus!
