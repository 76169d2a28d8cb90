//! A map from strings to values, kept as a list of pairs in which no key
//! occurs twice.

use crate::text::str_eq;
use vstd::prelude::*;

verus! {

/// The map that a list of key and value pairs stands for: a later pair
/// replaces an earlier one of the same key.
pub open spec fn pairs_map<V>(pairs: Seq<(String, V)>) -> Map<Seq<char>, V>
    decreases pairs.len(),
{
    if pairs.len() == 0 {
        Map::empty()
    } else {
        pairs_map(pairs.drop_last()).insert(pairs.last().0@, pairs.last().1)
    }
}

/// Whether no key occurs twice among the pairs.
pub open spec fn distinct_keys<V>(pairs: Seq<(String, V)>) -> bool {
    forall|i: int, j: int|
        0 <= i < j < pairs.len() ==> (#[trigger] pairs[i]).0@ != (#[trigger] pairs[j]).0@
}

/// A key that no pair holds is not in the map.
pub proof fn lemma_pairs_map_absent<V>(pairs: Seq<(String, V)>, key: Seq<char>)
    requires
        forall|i: int| 0 <= i < pairs.len() ==> (#[trigger] pairs[i]).0@ != key,
    ensures
        !pairs_map(pairs).contains_key(key),
    decreases pairs.len(),
{
    if pairs.len() > 0 {
        assert(pairs.last() == pairs[pairs.len() - 1]);
        assert forall|i: int| 0 <= i < pairs.drop_last().len() implies (
        #[trigger] pairs.drop_last()[i]).0@ != key by {
            assert(pairs.drop_last()[i] == pairs[i]);
        }
        lemma_pairs_map_absent(pairs.drop_last(), key);
    }
}

/// A list without its last pair still holds no key twice.
proof fn lemma_distinct_drop_last<V>(pairs: Seq<(String, V)>)
    requires
        distinct_keys(pairs),
        pairs.len() > 0,
    ensures
        distinct_keys(pairs.drop_last()),
{
    assert forall|a: int, b: int| 0 <= a < b < pairs.drop_last().len() implies (
    #[trigger] pairs.drop_last()[a]).0@ != (#[trigger] pairs.drop_last()[b]).0@ by {
        assert(pairs.drop_last()[a] == pairs[a]);
        assert(pairs.drop_last()[b] == pairs[b]);
    }
}

/// Where no key occurs twice, each pair's key maps to that pair's value.
pub proof fn lemma_pairs_map_present<V>(pairs: Seq<(String, V)>, i: int)
    requires
        distinct_keys(pairs),
        0 <= i < pairs.len(),
    ensures
        pairs_map(pairs).contains_key(pairs[i].0@),
        pairs_map(pairs)[pairs[i].0@] == pairs[i].1,
    decreases pairs.len(),
{
    let last = pairs.len() - 1;
    assert(pairs.last() == pairs[last]);
    if i < last {
        lemma_distinct_drop_last(pairs);
        assert(pairs.drop_last()[i] == pairs[i]);
        lemma_pairs_map_present(pairs.drop_last(), i);
        assert(pairs[i].0@ != pairs[last].0@);
    }
}

/// Replacing the value of a pair replaces the value under its key.
pub proof fn lemma_pairs_map_update<V>(pairs: Seq<(String, V)>, i: int, pair: (String, V))
    requires
        distinct_keys(pairs),
        0 <= i < pairs.len(),
        pair.0@ == pairs[i].0@,
    ensures
        distinct_keys(pairs.update(i, pair)),
        pairs_map(pairs.update(i, pair)) == pairs_map(pairs).insert(pair.0@, pair.1),
    decreases pairs.len(),
{
    let last = pairs.len() - 1;
    let updated = pairs.update(i, pair);
    assert(pairs.last() == pairs[last]);
    assert(updated.last() == updated[last]);
    assert forall|a: int, b: int| 0 <= a < b < updated.len() implies (#[trigger] updated[a]).0@ != (
    #[trigger] updated[b]).0@ by {
        assert(updated[a].0@ == pairs[a].0@);
        assert(updated[b].0@ == pairs[b].0@);
    }
    if i == last {
        assert(updated.drop_last() =~= pairs.drop_last());
        assert(pairs_map(updated) =~= pairs_map(pairs).insert(pair.0@, pair.1));
    } else {
        lemma_distinct_drop_last(pairs);
        assert(pairs.drop_last()[i] == pairs[i]);
        lemma_pairs_map_update(pairs.drop_last(), i, pair);
        assert(updated.drop_last() =~= pairs.drop_last().update(i, pair));
        assert(pairs[i].0@ != pairs[last].0@);
        assert(pairs_map(updated) =~= pairs_map(pairs).insert(pair.0@, pair.1));
    }
}

/// A pair with a new key, put at the end, adds its key to the map.
pub proof fn lemma_pairs_map_push<V>(pairs: Seq<(String, V)>, pair: (String, V))
    requires
        distinct_keys(pairs),
        forall|i: int| 0 <= i < pairs.len() ==> (#[trigger] pairs[i]).0@ != pair.0@,
    ensures
        distinct_keys(pairs.push(pair)),
        pairs_map(pairs.push(pair)) == pairs_map(pairs).insert(pair.0@, pair.1),
{
    let longer = pairs.push(pair);
    assert(longer.drop_last() =~= pairs);
    assert(longer.last() == pair);
    assert forall|a: int, b: int| 0 <= a < b < longer.len() implies (#[trigger] longer[a]).0@ != (
    #[trigger] longer[b]).0@ by {
        assert(longer[a] == pairs[a]);
        if b < pairs.len() {
            assert(longer[b] == pairs[b]);
        }
    }
}

/// Where no key occurs twice, the map has as many keys as there are pairs.
pub proof fn lemma_pairs_map_len<V>(pairs: Seq<(String, V)>)
    requires
        distinct_keys(pairs),
    ensures
        pairs_map(pairs).dom().finite(),
        pairs_map(pairs).dom().len() == pairs.len(),
    decreases pairs.len(),
{
    if pairs.len() > 0 {
        let rest = pairs.drop_last();
        let last = pairs.len() - 1;
        assert(pairs.last() == pairs[last]);
        lemma_distinct_drop_last(pairs);
        lemma_pairs_map_len(rest);
        assert forall|i: int| 0 <= i < rest.len() implies (#[trigger] rest[i]).0@ != pairs.last().0@ by {
            assert(rest[i] == pairs[i]);
        }
        lemma_pairs_map_absent(rest, pairs.last().0@);
        assert(pairs_map(pairs).dom() =~= pairs_map(rest).dom().insert(pairs.last().0@));
    } else {
        assert(pairs_map(pairs).dom() =~= Set::<Seq<char>>::empty());
    }
}

/// A map from strings to values.
#[derive(Debug)]
pub struct StringMap<V> {
    entries: Vec<(String, V)>,
}

impl<V> StringMap<V> {
    #[verifier::type_invariant]
    spec fn keys_are_distinct(&self) -> bool {
        distinct_keys(self.entries@)
    }

    /// What the map holds under each key.
    pub closed spec fn map(&self) -> Map<Seq<char>, V> {
        pairs_map(self.entries@)
    }

    /// The pairs of key and value, in the order in which the keys came.
    pub closed spec fn pairs(&self) -> Seq<(String, V)> {
        self.entries@
    }

    /// The map is the one that its pairs stand for.
    pub proof fn lemma_map_of_pairs(&self)
        ensures
            self.map() == pairs_map(self.pairs()),
    {
    }

    /// The value of each pair is what the map holds under the pair's key,
    /// where no key occurs twice.
    pub proof fn lemma_value_of_pair(&self, i: int)
        requires
            0 <= i < self.pairs().len(),
            distinct_keys(self.pairs()),
        ensures
            self.map().contains_key(self.pairs()[i].0@),
            self.map()[self.pairs()[i].0@] == self.pairs()[i].1,
    {
        lemma_pairs_map_present(self.pairs(), i);
    }

    /// Every key of the map is the key of one of the pairs.
    pub proof fn lemma_key_is_paired(&self, key: Seq<char>)
        requires
            self.map().contains_key(key),
        ensures
            exists|i: int| 0 <= i < self.pairs().len() && (#[trigger] self.pairs()[i]).0@ == key,
    {
        if forall|i: int| 0 <= i < self.pairs().len() ==> (#[trigger] self.pairs()[i]).0@ != key {
            lemma_pairs_map_absent(self.pairs(), key);
        }
    }

    /// The map without any key.
    pub fn new() -> (m: StringMap<V>)
        ensures
            m.map() == Map::<Seq<char>, V>::empty(),
            m.pairs().len() == 0,
    {
        StringMap { entries: Vec::new() }
    }

    /// The position of the pair with the key `key`.
    fn position(&self, key: &str) -> (r: Option<usize>)
        ensures
            r matches Some(i) ==> i < self.entries@.len() && self.entries@[i as int].0@ == key@,
            r is None ==> forall|i: int|
                0 <= i < self.entries@.len() ==> (#[trigger] self.entries@[i]).0@ != key@,
    {
        let mut i: usize = 0;
        while i < self.entries.len()
            invariant
                i <= self.entries@.len(),
                forall|j: int| 0 <= j < i ==> (#[trigger] self.entries@[j]).0@ != key@,
            decreases self.entries@.len() - i,
        {
            if str_eq(self.entries[i].0.as_str(), key) {
                return Some(i);
            }
            i += 1;
        }
        None
    }

    /// The value under `key`, where there is one.
    pub fn get(&self, key: &str) -> (r: Option<&V>)
        ensures
            r matches Some(v) ==> self.map().contains_key(key@) && self.map()[key@] == *v,
            r is None ==> !self.map().contains_key(key@),
    {
        proof {
            use_type_invariant(self);
        }
        match self.position(key) {
            Some(i) => {
                proof {
                    lemma_pairs_map_present(self.entries@, i as int);
                }
                Some(&self.entries[i].1)
            },
            None => {
                proof {
                    lemma_pairs_map_absent(self.entries@, key@);
                }
                None
            },
        }
    }

    /// Puts `value` under `key`, and returns what was there.
    pub fn insert(&mut self, key: String, value: V) -> (prior: Option<V>)
        ensures
            final(self).map() == old(self).map().insert(key@, value),
            prior matches Some(v) ==> old(self).map().contains_key(key@) && old(self).map()[key@]
                == v,
            prior is None ==> !old(self).map().contains_key(key@),
    {
        proof {
            use_type_invariant(&*self);
        }
        let position = self.position(key.as_str());
        let mut taken = StringMap::new();
        std::mem::swap(self, &mut taken);
        let StringMap { entries } = taken;
        let mut entries = entries;
        let prior = match position {
            Some(i) => {
                proof {
                    lemma_pairs_map_present(entries@, i as int);
                    lemma_pairs_map_update(entries@, i as int, (key, value));
                }
                let ghost before = entries@;
                let old_pair = entries.remove(i);
                entries.insert(i, (key, value));
                assert(entries@ =~= before.update(i as int, (key, value)));
                Some(old_pair.1)
            },
            None => {
                proof {
                    lemma_pairs_map_absent(entries@, key@);
                    lemma_pairs_map_push(entries@, (key, value));
                }
                entries.push((key, value));
                None
            },
        };
        *self = StringMap { entries };
        prior
    }

    /// How many keys there are.
    pub fn len(&self) -> (n: usize)
        ensures
            n == self.pairs().len(),
            distinct_keys(self.pairs()),
            self.map().dom().finite(),
            n == self.map().dom().len(),
    {
        proof {
            use_type_invariant(self);
            lemma_pairs_map_len(self.entries@);
        }
        self.entries.len()
    }

    /// The key and the value at `index`.
    pub fn pair_at(&self, index: usize) -> (r: (&String, &V))
        requires
            index < self.pairs().len(),
        ensures
            *r.0 == self.pairs()[index as int].0,
            *r.1 == self.pairs()[index as int].1,
            self.map().contains_key(r.0@),
            self.map()[r.0@] == *r.1,
    {
        proof {
            use_type_invariant(self);
            lemma_pairs_map_present(self.entries@, index as int);
        }
        (&self.entries[index].0, &self.entries[index].1)
    }
}

} // verus!
