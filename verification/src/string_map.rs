//! A small map from strings to strings, kept as a list of bindings.

use crate::text::str_eq;
use vstd::prelude::*;
use vstd::std_specs::cmp::PartialEqSpecImpl;

verus! {

/// What a list of bindings means as a map: a later binding of a key shadows
/// every earlier one.
pub open spec fn bindings_map(bindings: Seq<(Seq<char>, Seq<char>)>) -> Map<Seq<char>, Seq<char>>
    decreases bindings.len(),
{
    if bindings.len() == 0 {
        Map::empty()
    } else {
        bindings_map(bindings.drop_last()).insert(bindings.last().0, bindings.last().1)
    }
}

/// A key that no binding names is not in the map.
pub proof fn lemma_unbound_key(bindings: Seq<(Seq<char>, Seq<char>)>, key: Seq<char>)
    requires
        forall|j: int| 0 <= j < bindings.len() ==> (#[trigger] bindings[j]).0 != key,
    ensures
        !bindings_map(bindings).contains_key(key),
    decreases bindings.len(),
{
    if bindings.len() > 0 {
        assert(bindings.last().0 != key);
        assert forall|j: int| 0 <= j < bindings.drop_last().len() implies (
        #[trigger] bindings.drop_last()[j]).0 != key by {
            assert(bindings.drop_last()[j] == bindings[j]);
        }
        lemma_unbound_key(bindings.drop_last(), key);
    }
}

/// The last binding of a key is the one that the map holds.
pub proof fn lemma_last_binding_wins(
    bindings: Seq<(Seq<char>, Seq<char>)>,
    key: Seq<char>,
    at: int,
)
    requires
        0 <= at < bindings.len(),
        bindings[at].0 == key,
        forall|j: int| at < j < bindings.len() ==> (#[trigger] bindings[j]).0 != key,
    ensures
        bindings_map(bindings).contains_key(key),
        bindings_map(bindings)[key] == bindings[at].1,
    decreases bindings.len(),
{
    if at < bindings.len() - 1 {
        assert(bindings.last().0 != key);
        assert forall|j: int| at < j < bindings.drop_last().len() implies (
        #[trigger] bindings.drop_last()[j]).0 != key by {
            assert(bindings.drop_last()[j] == bindings[j]);
        }
        assert(bindings.drop_last()[at] == bindings[at]);
        lemma_last_binding_wins(bindings.drop_last(), key, at);
    }
}

/// The key of every binding is in the map.
pub proof fn lemma_binding_is_bound(bindings: Seq<(Seq<char>, Seq<char>)>, at: int)
    requires
        0 <= at < bindings.len(),
    ensures
        bindings_map(bindings).contains_key(bindings[at].0),
    decreases bindings.len(),
{
    if at < bindings.len() - 1 {
        assert(bindings.drop_last()[at] == bindings[at]);
        lemma_binding_is_bound(bindings.drop_last(), at);
    }
}

/// Every key of the map is the key of some binding.
pub proof fn lemma_bound_key_has_binding(bindings: Seq<(Seq<char>, Seq<char>)>, key: Seq<char>)
    requires
        bindings_map(bindings).contains_key(key),
    ensures
        exists|j: int| 0 <= j < bindings.len() && (#[trigger] bindings[j]).0 == key,
    decreases bindings.len(),
{
    if bindings.len() > 0 {
        if bindings.last().0 == key {
            assert(bindings[bindings.len() - 1].0 == key);
        } else {
            lemma_bound_key_has_binding(bindings.drop_last(), key);
            let j = choose|j: int|
                0 <= j < bindings.drop_last().len() && (#[trigger] bindings.drop_last()[j]).0
                    == key;
            assert(bindings[j] == bindings.drop_last()[j]);
        }
    }
}

/// The views of a list of owned bindings.
pub open spec fn binding_views(entries: Seq<(String, String)>) -> Seq<(Seq<char>, Seq<char>)> {
    entries.map_values(|e: (String, String)| (e.0@, e.1@))
}

/// A map from strings to strings.
///
/// The bindings are kept in the order in which they were inserted; a key that
/// is inserted again shadows its earlier binding.
#[derive(Debug)]
pub struct StringMap {
    pub(crate) entries: Vec<(String, String)>,
}

impl View for StringMap {
    type V = Map<Seq<char>, Seq<char>>;

    closed spec fn view(&self) -> Map<Seq<char>, Seq<char>> {
        bindings_map(binding_views(self.entries@))
    }
}

impl Clone for StringMap {
    fn clone(&self) -> (r: StringMap)
        ensures
            r@ == self@,
            r.bindings() == self.bindings(),
    {
        let mut entries: Vec<(String, String)> = Vec::new();
        let mut i: usize = 0;
        while i < self.entries.len()
            invariant
                i <= self.entries.len(),
                binding_views(entries@) == binding_views(self.entries@).subrange(0, i as int),
            decreases self.entries.len() - i,
        {
            let ghost before = entries@;
            entries.push((self.entries[i].0.clone(), self.entries[i].1.clone()));
            proof {
                assert(binding_views(entries@) =~= binding_views(before).push(
                    binding_views(self.entries@)[i as int],
                ));
                assert(binding_views(self.entries@).subrange(0, i + 1) =~= binding_views(
                    self.entries@,
                ).subrange(0, i as int).push(binding_views(self.entries@)[i as int]));
            }
            i = i + 1;
        }
        proof {
            assert(binding_views(self.entries@).subrange(0, i as int) =~= binding_views(
                self.entries@,
            ));
        }
        StringMap { entries }
    }
}

impl PartialEq for StringMap {
    /// Two maps are equal when they bind the same keys to the same values,
    /// in whatever order the bindings were made.
    fn eq(&self, other: &StringMap) -> (r: bool) {
        let forth = self.is_within(other);
        let back = other.is_within(self);
        proof {
            self@.lemma_submap_eq_iff(other@);
        }
        forth && back
    }
}

impl PartialEqSpecImpl for StringMap {
    open spec fn obeys_eq_spec() -> bool {
        true
    }

    open spec fn eq_spec(&self, other: &StringMap) -> bool {
        self@ == other@
    }
}

impl Eq for StringMap {

}

impl Default for StringMap {
    fn default() -> (r: StringMap)
        ensures
            r@ == Map::<Seq<char>, Seq<char>>::empty(),
    {
        StringMap::new()
    }
}

impl StringMap {
    /// The bindings in insertion order, shadowed ones included.
    pub closed spec fn bindings(&self) -> Seq<(Seq<char>, Seq<char>)> {
        binding_views(self.entries@)
    }

    /// The map is what its bindings mean.
    pub proof fn lemma_view_is_bindings_map(&self)
        ensures
            self@ == bindings_map(self.bindings()),
    {
    }

    /// An empty map.
    pub fn new() -> (r: StringMap)
        ensures
            r@ == Map::<Seq<char>, Seq<char>>::empty(),
            r.bindings() == Seq::<(Seq<char>, Seq<char>)>::empty(),
    {
        let r = StringMap { entries: Vec::new() };
        assert(binding_views(r.entries@) =~= Seq::empty());
        r
    }

    /// Binds `key` to `value`, shadowing an earlier binding of `key`.
    pub fn insert(&mut self, key: String, value: String)
        ensures
            final(self)@ == old(self)@.insert(key@, value@),
            final(self).bindings() == old(self).bindings().push((key@, value@)),
    {
        let ghost before = self.entries@;
        let ghost pair = (key@, value@);
        self.entries.push((key, value));
        proof {
            assert(binding_views(self.entries@) =~= binding_views(before).push(pair));
            assert(binding_views(self.entries@).drop_last() =~= binding_views(before));
        }
    }

    /// The value that `key` is bound to, if it is bound.
    pub fn get(&self, key: &str) -> (r: Option<&String>)
        ensures
            r matches Some(value) ==> self@.contains_key(key@) && self@[key@] == value@,
            r is None ==> !self@.contains_key(key@),
    {
        let ghost bindings = binding_views(self.entries@);
        let mut left: usize = self.entries.len();
        while left > 0
            invariant
                left <= self.entries.len(),
                bindings == binding_views(self.entries@),
                forall|j: int| left <= j < bindings.len() ==> (#[trigger] bindings[j]).0 != key@,
            decreases left,
        {
            left = left - 1;
            if str_eq(self.entries[left].0.as_str(), key) {
                proof {
                    lemma_last_binding_wins(bindings, key@, left as int);
                }
                return Some(&self.entries[left].1);
            }
        }
        proof {
            lemma_unbound_key(bindings, key@);
        }
        None
    }

    /// Whether `other` binds every key of this map, and to the same value.
    pub fn is_within(&self, other: &StringMap) -> (r: bool)
        ensures
            r == self@.submap_of(other@),
    {
        let ghost bindings = binding_views(self.entries@);
        let mut i: usize = 0;
        while i < self.entries.len()
            invariant
                i <= self.entries.len(),
                bindings == binding_views(self.entries@),
                self@ == bindings_map(bindings),
                forall|j: int|
                    0 <= j < i ==> other@.contains_key((#[trigger] bindings[j]).0) && other@[bindings[j].0]
                        == self@[bindings[j].0],
            decreases self.entries.len() - i,
        {
            let key = self.entries[i].0.as_str();
            proof {
                lemma_binding_is_bound(bindings, i as int);
                assert(bindings[i as int].0 == key@);
            }
            let same = match (self.get(key), other.get(key)) {
                (Some(mine), Some(theirs)) => *mine == *theirs,
                _ => false,
            };
            if !same {
                return false;
            }
            i = i + 1;
        }
        proof {
            assert forall|key: Seq<char>| #[trigger] self@.dom().contains(key) implies other@.dom().contains(
                key,
            ) && self@[key] == other@[key] by {
                lemma_bound_key_has_binding(bindings, key);
                let j = choose|j: int| 0 <= j < bindings.len() && (#[trigger] bindings[j]).0 == key;
                assert(other@.contains_key(bindings[j].0));
            }
        }
        true
    }

    /// The key and the value of the binding at `index`.
    pub fn binding(&self, index: usize) -> (r: (&String, &String))
        requires
            index < self.bindings().len(),
        ensures
            (r.0@, r.1@) == self.bindings()[index as int],
    {
        (&self.entries[index].0, &self.entries[index].1)
    }

    /// The number of bindings, shadowed ones included.
    pub fn binding_count(&self) -> (n: usize)
        ensures
            n == self.bindings().len(),
    {
        self.entries.len()
    }
}

} // verus!
