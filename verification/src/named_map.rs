//! A map from names to values in which each name occurs once.

use vstd::prelude::*;

use crate::text::text_eq;

verus! {

/// The map that a sequence of named entries denotes; a later entry of a
/// name overrides an earlier one.
pub open spec fn spec_entries_map<T>(entries: Seq<(String, T)>) -> Map<Seq<char>, T>
    decreases entries.len(),
{
    if entries.len() == 0 {
        Map::empty()
    } else {
        spec_entries_map(entries.drop_last()).insert(entries.last().0@, entries.last().1)
    }
}

/// No two entries carry the same name.
pub open spec fn spec_distinct_names<T>(entries: Seq<(String, T)>) -> bool {
    forall|i: int, j: int|
        0 <= i < j < entries.len() ==> #[trigger] entries[i].0@ != #[trigger] entries[j].0@
}

/// With distinct names, a name is in the map exactly when an entry carries
/// it, and it maps to that entry's value.
pub proof fn lemma_entries_map_lookup<T>(entries: Seq<(String, T)>, i: int)
    requires
        spec_distinct_names(entries),
        0 <= i < entries.len(),
    ensures
        spec_entries_map(entries).contains_key(entries[i].0@),
        spec_entries_map(entries)[entries[i].0@] == entries[i].1,
    decreases entries.len(),
{
    let init = entries.drop_last();
    if i < entries.len() - 1 {
        assert(init[i] == entries[i]);
        assert(spec_distinct_names(init));
        lemma_entries_map_lookup(init, i);
        assert(entries[i].0@ != entries.last().0@);
    }
}

/// A name that no entry carries is not in the map.
pub proof fn lemma_entries_map_absent<T>(entries: Seq<(String, T)>, k: Seq<char>)
    requires
        forall|i: int| 0 <= i < entries.len() ==> #[trigger] entries[i].0@ != k,
    ensures
        !spec_entries_map(entries).contains_key(k),
    decreases entries.len(),
{
    if entries.len() > 0 {
        let init = entries.drop_last();
        assert forall|i: int| 0 <= i < init.len() implies #[trigger] init[i].0@ != k by {
            assert(init[i] == entries[i]);
        }
        lemma_entries_map_absent(init, k);
    }
}

/// Every key of the map is carried by some entry.
pub proof fn lemma_entries_map_keys<T>(entries: Seq<(String, T)>, k: Seq<char>)
    requires
        spec_entries_map(entries).contains_key(k),
    ensures
        exists|i: int| 0 <= i < entries.len() && #[trigger] entries[i].0@ == k,
{
    if forall|i: int| 0 <= i < entries.len() ==> #[trigger] entries[i].0@ != k {
        lemma_entries_map_absent(entries, k);
    }
}

/// Replacing the value of the entry at `i` (keeping its name) updates the
/// map at that name.
pub proof fn lemma_entries_map_update<T>(entries: Seq<(String, T)>, i: int, e: (String, T))
    requires
        spec_distinct_names(entries),
        0 <= i < entries.len(),
        e.0@ == entries[i].0@,
    ensures
        spec_entries_map(entries.update(i, e)) == spec_entries_map(entries).insert(e.0@, e.1),
    decreases entries.len(),
{
    let updated = entries.update(i, e);
    let init = entries.drop_last();
    if i == entries.len() - 1 {
        assert(updated.drop_last() =~= init);
        assert(!spec_entries_map(init).contains_key(e.0@)) by {
            assert forall|j: int| 0 <= j < init.len() implies #[trigger] init[j].0@ != e.0@ by {
                assert(init[j] == entries[j]);
            }
            lemma_entries_map_absent(init, e.0@);
        }
        assert(spec_entries_map(updated) =~= spec_entries_map(entries).insert(e.0@, e.1));
    } else {
        assert(updated.drop_last() =~= init.update(i, e));
        assert(init[i] == entries[i]);
        assert(spec_distinct_names(init));
        lemma_entries_map_update(init, i, e);
        assert(entries.last().0@ != e.0@);
        assert(spec_entries_map(updated) =~= spec_entries_map(entries).insert(e.0@, e.1));
    }
}

/// A map from names to values, stored as entries in insertion order.
pub struct NamedMap<T> {
    entries: Vec<(String, T)>,
}

impl<T> View for NamedMap<T> {
    type V = Map<Seq<char>, T>;

    closed spec fn view(&self) -> Map<Seq<char>, T> {
        spec_entries_map(self.entries@)
    }
}

impl<T> NamedMap<T> {
    #[verifier::type_invariant]
    closed spec fn names_are_distinct(&self) -> bool {
        spec_distinct_names(self.entries@)
    }

    /// The names in insertion order.
    pub closed spec fn spec_names(&self) -> Seq<Seq<char>> {
        self.entries@.map_values(|e: (String, T)| e.0@)
    }

    /// An empty map.
    pub fn new() -> (map: Self)
        ensures
            map@ == Map::<Seq<char>, T>::empty(),
            map.spec_names() == Seq::<Seq<char>>::empty(),
    {
        let map = NamedMap { entries: Vec::new() };
        assert(map.spec_names() =~= Seq::<Seq<char>>::empty());
        map
    }

    /// The position of the entry named `name`, if there is one.
    fn find(&self, name: &str) -> (pos: Option<usize>)
        ensures
            match pos {
                Some(i) => i < self.entries@.len() && self.entries@[i as int].0@ == name@,
                None => forall|i: int|
                    0 <= i < self.entries@.len() ==> #[trigger] self.entries@[i].0@ != name@,
            },
    {
        let n = self.entries.len();
        let mut i: usize = 0;
        while i < n
            invariant
                n == self.entries@.len(),
                i <= n,
                forall|j: int| 0 <= j < i ==> #[trigger] self.entries@[j].0@ != name@,
            decreases n - i,
        {
            if text_eq(self.entries[i].0.as_str(), name) {
                return Some(i);
            }
            i += 1;
        }
        None
    }

    /// Whether `name` is in the map.
    pub fn contains_key(&self, name: &str) -> (found: bool)
        ensures
            found == self@.contains_key(name@),
    {
        proof {
            use_type_invariant(self);
        }
        match self.find(name) {
            Some(i) => {
                proof {
                    lemma_entries_map_lookup(self.entries@, i as int);
                }
                true
            },
            None => {
                proof {
                    lemma_entries_map_absent(self.entries@, name@);
                }
                false
            },
        }
    }

    /// The value of `name`, if it is in the map.
    pub fn get(&self, name: &str) -> (value: Option<&T>)
        ensures
            match value {
                Some(v) => self@.contains_key(name@) && *v == self@[name@],
                None => !self@.contains_key(name@),
            },
    {
        proof {
            use_type_invariant(self);
        }
        match self.find(name) {
            Some(i) => {
                proof {
                    lemma_entries_map_lookup(self.entries@, i as int);
                }
                Some(&self.entries[i].1)
            },
            None => {
                proof {
                    lemma_entries_map_absent(self.entries@, name@);
                }
                None
            },
        }
    }

    /// Sets the value of `name`, adding the name when it is new. A new name
    /// goes after the existing ones; an existing name keeps its place.
    pub fn insert(&mut self, name: String, value: T)
        ensures
            final(self)@ == old(self)@.insert(name@, value),
            old(self)@.contains_key(name@) ==> final(self).spec_names() == old(self).spec_names(),
            !old(self)@.contains_key(name@) ==> final(self).spec_names() == old(self).spec_names().push(
                name@,
            ),
    {
        proof {
            use_type_invariant(&*self);
        }
        match self.find(name.as_str()) {
            Some(i) => {
                let ghost old_entries = self.entries@;
                proof {
                    lemma_entries_map_lookup(old_entries, i as int);
                    lemma_entries_map_update(old_entries, i as int, (name, value));
                }
                let mut entries: Vec<(String, T)> = Vec::new();
                std::mem::swap(&mut entries, &mut self.entries);
                entries.set(i, (name, value));
                assert(entries@ == old_entries.update(i as int, (name, value)));
                assert forall|a: int, b: int|
                    0 <= a < b < entries@.len() implies #[trigger] entries@[a].0@
                    != #[trigger] entries@[b].0@ by {
                    assert(old_entries[a].0@ != old_entries[b].0@);
                }
                assert(entries@.map_values(|e: (String, T)| e.0@) =~= old_entries.map_values(
                    |e: (String, T)| e.0@,
                ));
                self.entries = entries;
            },
            None => {
                let ghost old_entries = self.entries@;
                proof {
                    lemma_entries_map_absent(old_entries, name@);
                }
                let mut entries: Vec<(String, T)> = Vec::new();
                std::mem::swap(&mut entries, &mut self.entries);
                entries.push((name, value));
                assert(entries@.drop_last() =~= old_entries);
                assert(entries@.map_values(|e: (String, T)| e.0@) =~= old_entries.map_values(
                    |e: (String, T)| e.0@,
                ).push(name@));
                self.entries = entries;
            },
        }
    }

    /// The names in insertion order.
    pub fn names(&self) -> (names: Vec<String>)
        ensures
            names@.map_values(|s: String| s@) == self.spec_names(),
    {
        let mut names: Vec<String> = Vec::new();
        let n = self.entries.len();
        let mut i: usize = 0;
        while i < n
            invariant
                n == self.entries@.len(),
                i <= n,
                names@.len() == i,
                forall|j: int| 0 <= j < i ==> #[trigger] names@[j]@ == self.entries@[j].0@,
            decreases n - i,
        {
            names.push(self.entries[i].0.clone());
            i += 1;
        }
        assert(names@.map_values(|s: String| s@) =~= self.spec_names());
        names
    }

    /// The number of names.
    pub fn len(&self) -> (n: usize)
        ensures
            n == self.spec_names().len(),
    {
        self.entries.len()
    }
}

} // verus!
