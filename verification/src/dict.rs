//! A small string-to-string dictionary, kept as a list of entries with
//! distinct keys.
use vstd::prelude::*;

verus! {

/// The entries of a dictionary as pairs of character sequences.
pub open spec fn entry_views(es: Seq<(String, String)>) -> Seq<(Seq<char>, Seq<char>)> {
    es.map_values(|e: (String, String)| (e.0@, e.1@))
}

/// The map that a list of entries denotes; a later entry overrides an
/// earlier one with the same key.
pub open spec fn map_of(es: Seq<(Seq<char>, Seq<char>)>) -> Map<Seq<char>, Seq<char>>
    decreases es.len(),
{
    if es.len() == 0 {
        Map::empty()
    } else {
        map_of(es.drop_last()).insert(es.last().0, es.last().1)
    }
}

/// No key occurs twice.
pub open spec fn keys_distinct(es: Seq<(Seq<char>, Seq<char>)>) -> bool {
    forall|i: int, j: int| 0 <= i < j < es.len() ==> es[i].0 != es[j].0
}

/// With distinct keys, the map holds exactly the entries' keys, each with
/// its entry's value.
pub proof fn lemma_map_of(es: Seq<(Seq<char>, Seq<char>)>)
    requires
        keys_distinct(es),
    ensures
        forall|k: Seq<char>| #[trigger] map_of(es).contains_key(k)
            <==> exists|i: int| 0 <= i < es.len() && es[i].0 == k,
        forall|i: int| 0 <= i < es.len() ==> #[trigger] map_of(es)[es[i].0] == es[i].1,
    decreases es.len(),
{
    if es.len() > 0 {
        let p = es.drop_last();
        assert(keys_distinct(p));
        lemma_map_of(p);
        assert forall|k: Seq<char>| #[trigger] map_of(es).contains_key(k)
            implies exists|i: int| 0 <= i < es.len() && es[i].0 == k by {
            if k == es.last().0 {
                assert(es[es.len() - 1].0 == k);
            } else {
                assert(map_of(p).contains_key(k));
                let i = choose|i: int| 0 <= i < p.len() && p[i].0 == k;
                assert(es[i].0 == k);
            }
        }
        assert forall|k: Seq<char>| (exists|i: int| 0 <= i < es.len() && es[i].0 == k)
            implies #[trigger] map_of(es).contains_key(k) by {
            let i = choose|i: int| 0 <= i < es.len() && es[i].0 == k;
            if i < p.len() {
                assert(p[i].0 == k);
                assert(map_of(p).contains_key(k));
            }
        }
        assert forall|i: int| 0 <= i < es.len() implies #[trigger] map_of(es)[es[i].0] == es[i].1 by {
            if i < p.len() {
                assert(p[i] == es[i]);
                assert(es[i].0 != es.last().0);
                assert(map_of(p)[p[i].0] == p[i].1);
            }
        }
    }
}

/// A dictionary from strings to strings.
#[derive(Debug)]
pub struct Dict {
    entries: Vec<(String, String)>,
}

impl View for Dict {
    type V = Map<Seq<char>, Seq<char>>;

    closed spec fn view(&self) -> Map<Seq<char>, Seq<char>> {
        map_of(entry_views(self.entries@))
    }
}

impl Dict {
    #[verifier::type_invariant]
    closed spec fn wf(&self) -> bool {
        keys_distinct(entry_views(self.entries@))
    }

    /// An empty dictionary.
    pub fn new() -> (res: Dict)
        ensures
            res@ == Map::<Seq<char>, Seq<char>>::empty(),
    {
        let res = Dict { entries: Vec::new() };
        assert(entry_views(res.entries@) =~= Seq::<(Seq<char>, Seq<char>)>::empty());
        res
    }

    fn find(&self, key: &String) -> (res: Option<usize>)
        ensures
            match res {
                Some(i) => i < self.entries@.len() && self.entries@[i as int].0@ == key@,
                None => forall|i: int| 0 <= i < self.entries@.len() ==> self.entries@[i].0@ != key@,
            },
    {
        let mut i: usize = 0;
        while i < self.entries.len()
            invariant
                i <= self.entries@.len(),
                forall|j: int| 0 <= j < i ==> self.entries@[j].0@ != key@,
            decreases self.entries.len() - i,
        {
            if self.entries[i].0 == *key {
                return Some(i);
            }
            i = i + 1;
        }
        None
    }

    /// The value stored under `key`, if any.
    pub fn get(&self, key: &str) -> (res: Option<String>)
        ensures
            match res {
                Some(v) => self@.contains_key(key@) && self@[key@] == v@,
                None => !self@.contains_key(key@),
            },
    {
        proof {
            use_type_invariant(self);
            lemma_map_of(entry_views(self.entries@));
        }
        let k = key.to_string();
        match self.find(&k) {
            Some(i) => {
                assert(entry_views(self.entries@)[i as int].0 == key@);
                Some(self.entries[i].1.clone())
            },
            None => {
                assert forall|i: int| 0 <= i < entry_views(self.entries@).len()
                    implies entry_views(self.entries@)[i].0 != key@ by {
                    assert(entry_views(self.entries@)[i].0 == self.entries@[i].0@);
                }
                None
            },
        }
    }

    /// Stores `value` under `key`, replacing what was stored there.
    pub fn insert(&mut self, key: String, value: String)
        ensures
            final(self)@ == old(self)@.insert(key@, value@),
    {
        proof {
            use_type_invariant(&*self);
        }
        let ghost old_es = entry_views(self.entries@);
        proof {
            lemma_map_of(old_es);
            assert(keys_distinct(old_es));
        }
        let found = self.find(&key);
        let mut es: Vec<(String, String)> = Vec::new();
        std::mem::swap(&mut es, &mut self.entries);
        assert(entry_views(es@) == old_es);
        match found {
            Some(i) => {
                let ghost kv = (key@, value@);
                let ghost new_es = old_es.update(i as int, kv);
                assert(old_es[i as int].0 == key@);
                assert forall|j: int| 0 <= j < new_es.len() implies #[trigger] new_es[j].0 == old_es[j].0 by {
                }
                assert(keys_distinct(new_es));
                es.set(i, (key, value));
                assert(entry_views(es@) =~= new_es);
                self.entries = es;
                proof {
                    lemma_map_of(new_es);
                    assert forall|k: Seq<char>| #[trigger] map_of(new_es).contains_key(k)
                        == map_of(old_es).insert(kv.0, kv.1).contains_key(k) by {
                        assert(new_es[i as int].0 == kv.0);
                        if map_of(old_es).contains_key(k) && k != kv.0 {
                            let j = choose|j: int| 0 <= j < old_es.len() && old_es[j].0 == k;
                            assert(new_es[j].0 == k);
                        }
                        if map_of(new_es).contains_key(k) && k != kv.0 {
                            let j = choose|j: int| 0 <= j < new_es.len() && new_es[j].0 == k;
                            assert(old_es[j].0 == k);
                        }
                    }
                    assert forall|k: Seq<char>| #[trigger] map_of(new_es).contains_key(k)
                        implies map_of(new_es)[k] == map_of(old_es).insert(kv.0, kv.1)[k] by {
                        let j = choose|j: int| 0 <= j < new_es.len() && new_es[j].0 == k;
                        if j != i {
                            assert(old_es[j] == new_es[j]);
                        }
                    }
                    assert(map_of(new_es) =~= map_of(old_es).insert(kv.0, kv.1));
                }
            },
            None => {
                es.push((key, value));
                let ghost new_es = entry_views(es@);
                assert(new_es.drop_last() =~= old_es);
                assert forall|i: int| 0 <= i < old_es.len() implies old_es[i].0 != new_es.last().0 by {
                    assert(old_es[i].0 == old(self).entries@[i].0@);
                }
                assert forall|a: int, b: int| 0 <= a < b < new_es.len() implies new_es[a].0 != new_es[b].0 by {
                    assert(new_es[a] == old_es[a]);
                    if b < old_es.len() {
                        assert(new_es[b] == old_es[b]);
                    }
                }
                self.entries = es;
            },
        }
    }

    /// The number of keys.
    pub fn len(&self) -> (n: usize)
        ensures
            n == self@.len(),
    {
        proof {
            use_type_invariant(self);
            lemma_map_len(entry_views(self.entries@));
        }
        self.entries.len()
    }

    /// Whether no key is stored.
    pub fn is_empty(&self) -> (b: bool)
        ensures
            b == (self@.len() == 0),
    {
        self.len() == 0
    }
}

/// A list of entries denotes a finite map.
pub proof fn lemma_map_of_finite(es: Seq<(Seq<char>, Seq<char>)>)
    ensures
        map_of(es).dom().finite(),
    decreases es.len(),
{
    if es.len() > 0 {
        lemma_map_of_finite(es.drop_last());
    }
}

/// With distinct keys, the map has as many keys as there are entries.
pub proof fn lemma_map_len(es: Seq<(Seq<char>, Seq<char>)>)
    requires
        keys_distinct(es),
    ensures
        map_of(es).len() == es.len(),
    decreases es.len(),
{
    if es.len() > 0 {
        let p = es.drop_last();
        assert(keys_distinct(p));
        lemma_map_len(p);
        lemma_map_of(p);
        lemma_map_of_finite(p);
        assert(!map_of(p).contains_key(es.last().0)) by {
            if map_of(p).contains_key(es.last().0) {
                let i = choose|i: int| 0 <= i < p.len() && p[i].0 == es.last().0;
                assert(es[i].0 == es[es.len() - 1].0);
            }
        }
    }
}

/// What a read gives back of a write: when `after` is `before` with
/// `insert(key, value)` applied (as `Dict::insert` ensures), `get(key)` on
/// `after` gives `value`, and `get` of every other key gives what it gave
/// on `before` (as `Dict::get` states its result over the view).
pub proof fn law_read_after_write(before: Dict, after: Dict, key: Seq<char>, value: Seq<char>, other: Seq<char>)
    requires
        after@ == before@.insert(key, value),
    ensures
        after@.contains_key(key) && after@[key] == value,
        other != key ==> (after@.contains_key(other) <==> before@.contains_key(other)),
        other != key && before@.contains_key(other) ==> after@[other] == before@[other],
{
}

} // verus!
