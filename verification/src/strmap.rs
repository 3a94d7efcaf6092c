//! An associative name-to-value container over `String` pairs.
//!
//! Insertion is last-write-wins; the view is a `Map<Seq<char>, Seq<char>>`,
//! so duplicate keys collapse to the most recent value.

use vstd::prelude::*;

verus! {

/// Result mapping from names to string values, with unique keys in the view
/// and last-write-wins on repeated insertion.
#[derive(Debug, PartialEq)]
pub struct StrMap {
    entries: Vec<(String, String)>,
}

/// The map described by an entry list: later entries overwrite earlier ones.
pub open spec fn spec_entries_map(entries: Seq<(String, String)>) -> Map<Seq<char>, Seq<char>>
    decreases entries.len(),
{
    if entries.len() == 0 {
        Map::empty()
    } else {
        spec_entries_map(entries.drop_last()).insert(entries.last().0@, entries.last().1@)
    }
}

/// A key found at `i`, with no later entry for the same key, gives that
/// entry's value in the entry-list map.
proof fn lemma_entries_map_get(entries: Seq<(String, String)>, key: Seq<char>, i: int)
    requires
        0 <= i < entries.len(),
        entries[i].0@ == key,
        forall|j: int| i < j < entries.len() ==> entries[j].0@ != key,
    ensures
        spec_entries_map(entries).contains_key(key),
        spec_entries_map(entries)[key] == entries[i].1@,
    decreases entries.len(),
{
    if i == entries.len() - 1 {
    } else {
        assert(forall|j: int|
            i < j < entries.drop_last().len() ==> entries.drop_last()[j].0@ != key);
        lemma_entries_map_get(entries.drop_last(), key, i);
    }
}

/// A key no entry carries is absent from the entry-list map.
proof fn lemma_entries_map_absent(entries: Seq<(String, String)>, key: Seq<char>)
    requires
        forall|j: int| 0 <= j < entries.len() ==> entries[j].0@ != key,
    ensures
        !spec_entries_map(entries).contains_key(key),
    decreases entries.len(),
{
    if entries.len() > 0 {
        lemma_entries_map_absent(entries.drop_last(), key);
    }
}

impl View for StrMap {
    type V = Map<Seq<char>, Seq<char>>;

    closed spec fn view(&self) -> Map<Seq<char>, Seq<char>> {
        spec_entries_map(self.entries@)
    }
}

impl StrMap {
    /// The empty mapping.
    pub fn new() -> (r: StrMap)
        ensures
            r@ == Map::<Seq<char>, Seq<char>>::empty(),
    {
        StrMap { entries: Vec::new() }
    }

    /// Bind `key` to `value`, overwriting any earlier binding of `key`.
    pub fn insert(&mut self, key: String, value: String)
        ensures
            final(self)@ == old(self)@.insert(key@, value@),
    {
        self.entries.push((key, value));
        proof {
            assert(self.entries@.drop_last() =~= old(self).entries@);
        }
    }

    /// Look up the value bound to `key`, if any.
    pub fn get(&self, key: &String) -> (r: Option<&String>)
        ensures
            match r {
                Some(v) => self@.contains_key(key@) && v@ == self@[key@],
                None => !self@.contains_key(key@),
            },
    {
        let n = self.entries.len();
        let mut i: usize = n;
        while i > 0
            invariant
                i <= n,
                n == self.entries.len(),
                forall|j: int| i <= j < n ==> self.entries@[j].0@ != key@,
            decreases i,
        {
            i = i - 1;
            if self.entries[i].0 == *key {
                proof {
                    lemma_entries_map_get(self.entries@, key@, i as int);
                }
                return Some(&self.entries[i].1);
            }
        }
        proof {
            lemma_entries_map_absent(self.entries@, key@);
        }
        None
    }
}

} // verus!
