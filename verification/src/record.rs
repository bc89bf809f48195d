//! A record: values under paths.

use vstd::prelude::*;
use crate::value::Value;

verus! {

/// One value and the path it stands under.
#[derive(Clone, Debug)]
struct Entry {
    path: String,
    value: Value,
}

/// The map that a list of entries stands for: a later entry replaces an
/// earlier one with the same path.
spec fn entries_map(entries: Seq<Entry>) -> Map<Seq<char>, Value>
    decreases entries.len(),
{
    if entries.len() == 0 {
        Map::empty()
    } else {
        entries_map(entries.drop_last()).insert(entries.last().path@, entries.last().value)
    }
}

/// A keyed container of values. Its view is the map from paths to values: how
/// the values are laid out inside, and in which order they came, does not show.
#[derive(Clone, Debug)]
pub struct Record {
    entries: Vec<Entry>,
}

impl Record {
    pub closed spec fn view(&self) -> Map<Seq<char>, Value> {
        entries_map(self.entries@)
    }

    /// A record that holds nothing.
    pub fn new() -> (record: Record)
        ensures
            record@ == Map::<Seq<char>, Value>::empty(),
    {
        Record { entries: Vec::new() }
    }

    /// Puts `value` under `path`, in place of what stood there.
    pub fn insert(&mut self, path: String, value: Value)
        ensures
            final(self)@ == old(self)@.insert(path@, value),
    {
        let ghost before = self.entries@;
        self.entries.push(Entry { path, value });
        assert(self.entries@.drop_last() =~= before);
    }

    /// The value under `path`, if there is one.
    pub fn get(&self, path: &String) -> (found: Option<&Value>)
        ensures
            match found {
                Some(value) => self@.contains_key(path@) && self@[path@] == *value,
                None => !self@.contains_key(path@),
            },
    {
        let mut i: usize = self.entries.len();
        assert(self.entries@.take(i as int) =~= self.entries@);
        while i > 0
            invariant
                i <= self.entries@.len(),
                self@.contains_key(path@) == entries_map(self.entries@.take(i as int)).contains_key(
                    path@,
                ),
                self@.contains_key(path@) ==> self@[path@] == entries_map(
                    self.entries@.take(i as int),
                )[path@],
            decreases i,
        {
            let ghost prefix = self.entries@.take(i as int);
            assert(prefix.drop_last() =~= self.entries@.take(i - 1));
            assert(prefix.last() == self.entries@[i - 1]);
            i = i - 1;
            if self.entries[i].path == *path {
                return Some(&self.entries[i].value);
            }
        }
        assert(self.entries@.take(0) =~= Seq::<Entry>::empty());
        None
    }
}

} // verus!
