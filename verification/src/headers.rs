//! Response headers as the fetcher keeps them: one value for each name.

use crate::string_map::{distinct_keys, pairs_map, StringMap};
use crate::text::str_eq;
use vstd::prelude::*;
use vstd::set_lib::lemma_subset_equality;
use vstd::std_specs::cmp::PartialEqSpecImpl;

verus! {

/// A mapping from header name to value.
#[derive(Debug)]
pub struct HeadersMap {
    values: StringMap<String>,
}

/// The map in which each string stands as its characters.
pub open spec fn texts(map: Map<Seq<char>, String>) -> Map<Seq<char>, Seq<char>> {
    Map::new(|name: Seq<char>| map.contains_key(name), |name: Seq<char>| map[name]@)
}

impl View for HeadersMap {
    type V = Map<Seq<char>, Seq<char>>;

    closed spec fn view(&self) -> Map<Seq<char>, Seq<char>> {
        texts(self.values.map())
    }
}

impl HeadersMap {
    /// The map without any header.
    pub fn new() -> (m: HeadersMap)
        ensures
            m@ == Map::<Seq<char>, Seq<char>>::empty(),
            m.count() == 0,
    {
        let m = HeadersMap { values: StringMap::new() };
        assert(m@ =~= Map::<Seq<char>, Seq<char>>::empty());
        m
    }

    /// The value under `name`, where there is one.
    pub fn get(&self, name: &str) -> (r: Option<&String>)
        ensures
            r matches Some(v) ==> self@.contains_key(name@) && self@[name@] == v@,
            r is None ==> !self@.contains_key(name@),
    {
        self.values.get(name)
    }

    /// Whether there is a value under `name`.
    pub fn contains(&self, name: &str) -> (r: bool)
        ensures
            r == self@.contains_key(name@),
    {
        self.get(name).is_some()
    }

    /// Puts `value` under `name`, in place of what was there.
    pub fn insert(&mut self, name: String, value: String)
        ensures
            final(self)@ == old(self)@.insert(name@, value@),
    {
        let _ = self.values.insert(name, value);
        assert(self@ =~= old(self)@.insert(name@, value@));
    }

    /// How many headers there are: the positions that `pair_at` takes.
    pub closed spec fn count(&self) -> nat {
        self.values.pairs().len()
    }

    /// How many headers there are.
    pub fn len(&self) -> (n: usize)
        ensures
            n == self.count(),
            self@.dom().finite(),
            n == self@.dom().len(),
    {
        let n = self.values.len();
        assert(self@.dom() =~= self.values.map().dom());
        n
    }

    /// The name and the value of the header at `index`.
    pub fn pair_at(&self, index: usize) -> (r: (&String, &String))
        requires
            index < self.count(),
        ensures
            self@.contains_key(r.0@),
            self@[r.0@] == r.1@,
    {
        self.values.pair_at(index)
    }
}

impl HeadersMap {
    /// Whether the two maps hold the same values under the same names.
    pub fn same_as(&self, other: &HeadersMap) -> (r: bool)
        ensures
            r == (self@ == other@),
    {
        let n = self.values.len();
        assert(self@.dom() =~= self.values.map().dom());
        if n != other.len() {
            return false;
        }
        let mut i: usize = 0;
        while i < n
            invariant
                i <= n == self.values.pairs().len(),
                distinct_keys(self.values.pairs()),
                self@.dom().finite(),
                other@.dom().finite(),
                self@.dom().len() == other@.dom().len(),
                forall|j: int|
                    0 <= j < i ==> other@.contains_key((#[trigger] self.values.pairs()[j]).0@)
                        && other@[self.values.pairs()[j].0@] == self.values.pairs()[j].1@,
            decreases n - i,
        {
            let (name, value) = self.values.pair_at(i);
            let same = match other.get(name.as_str()) {
                Some(held) => str_eq(held.as_str(), value.as_str()),
                None => false,
            };
            if !same {
                assert(self@.contains_key(name@) && self@[name@] == value@);
                return false;
            }
            i += 1;
        }
        proof {
            assert forall|name: Seq<char>| #[trigger]
                self@.dom().contains(name) implies other@.dom().contains(name) && other@[name]
                == self@[name] by {
                self.values.lemma_key_is_paired(name);
                let j = choose|j: int|
                    0 <= j < self.values.pairs().len() && (#[trigger] self.values.pairs()[j]).0@
                        == name;
                self.values.lemma_value_of_pair(j);
            }
            assert(self@.dom().subset_of(other@.dom()));
            lemma_subset_equality(self@.dom(), other@.dom());
            assert(self@ =~= other@);
        }
        true
    }
}

impl PartialEq for HeadersMap {
    fn eq(&self, other: &HeadersMap) -> (r: bool) {
        self.same_as(other)
    }
}

impl PartialEqSpecImpl for HeadersMap {
    open spec fn obeys_eq_spec() -> bool {
        true
    }

    open spec fn eq_spec(&self, other: &HeadersMap) -> bool {
        self@ == other@
    }
}

impl Clone for HeadersMap {
    fn clone(&self) -> (r: Self)
        ensures
            r@ == self@,
    {
        let mut values: StringMap<String> = StringMap::new();
        let mut i: usize = 0;
        while i < self.values.len()
            invariant
                i <= self.values.pairs().len(),
                values.map() == pairs_map(self.values.pairs().take(i as int)),
            decreases self.values.pairs().len() - i,
        {
            let (name, value) = self.values.pair_at(i);
            proof {
                let next = self.values.pairs().take(i + 1);
                assert(next.drop_last() =~= self.values.pairs().take(i as int));
                assert(next.last() == self.values.pairs()[i as int]);
            }
            let _ = values.insert(name.clone(), value.clone());
            i += 1;
        }
        proof {
            assert(self.values.pairs().take(i as int) =~= self.values.pairs());
            self.values.lemma_map_of_pairs();
        }
        HeadersMap { values }
    }
}

} // verus!
