//! A table from names to values, in which a later entry for a name
//! replaces an earlier one.

use vstd::prelude::*;

verus! {

/// The map that a list of entries stands for: each name with the value of
/// its last entry.
pub open spec fn entries_map<T>(entries: Seq<(Seq<char>, T)>) -> Map<Seq<char>, T>
    decreases entries.len(),
{
    if entries.len() == 0 {
        Map::empty()
    } else {
        entries_map(entries.drop_last()).insert(entries.last().0, entries.last().1)
    }
}

/// A table from names to values.
pub struct Table<V> {
    entries: Vec<(String, V)>,
}

impl<V: View> Table<V> {
    /// The entries with names and values as what they stand for.
    pub closed spec fn entries(&self) -> Seq<(Seq<char>, V::V)> {
        self.entries@.map_values(|entry: (String, V)| (entry.0@, entry.1@))
    }

    /// The table as a map.
    pub closed spec fn map(&self) -> Map<Seq<char>, V::V> {
        entries_map(self.entries())
    }

    /// The empty table.
    pub fn new() -> (table: Table<V>)
        ensures
            table.map() == Map::<Seq<char>, V::V>::empty(),
    {
        Table { entries: Vec::new() }
    }

    /// Gives `name` the value `value`, whether or not it had one.
    pub fn insert(&mut self, name: String, value: V)
        ensures
            final(self).map() == old(self).map().insert(name@, value@),
    {
        self.entries.push((name, value));
        assert(self.entries().drop_last() == old(self).entries());
    }

    /// The value of `name`, if it has one.
    pub fn get(&self, name: &String) -> (value: Option<&V>)
        ensures
            match value {
                Some(value) => self.map().contains_key(name@) && self.map()[name@] == value@,
                None => !self.map().contains_key(name@),
            },
    {
        let ghost all = self.entries();
        let mut i = self.entries.len();
        assert(all.take(i as int) == all);
        while i > 0
            invariant
                i <= self.entries.len(),
                all == self.entries(),
                entries_map(all).contains_key(name@) == entries_map(all.take(i as int)).contains_key(
                    name@,
                ),
                entries_map(all).contains_key(name@) ==> entries_map(all)[name@] == entries_map(
                    all.take(i as int),
                )[name@],
            decreases i,
        {
            i = i - 1;
            assert(all.take(i + 1).drop_last() == all.take(i as int));
            if self.entries[i].0 == *name {
                return Some(&self.entries[i].1);
            }
        }
        None
    }
}

} // verus!
