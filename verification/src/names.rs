//! Collections keyed by unit or property names.
//!
//! [`NameMap`] and [`NameSet`] keep their items in a vector, so that they can be
//! walked, and find them through a hash table, so that a lookup does not walk.

use vstd::hash_map::StringHashMap;
use vstd::hash_set::StringHashSet;
use vstd::prelude::*;

verus! {

/// A map from names to values. Its view is the mathematical map.
pub struct NameMap<V> {
    entries: Vec<(String, V)>,
    /// Where in `entries` each name stands.
    index: StringHashMap<usize>,
}

impl<V> View for NameMap<V> {
    type V = Map<Seq<char>, V>;

    closed spec fn view(&self) -> Map<Seq<char>, V> {
        Map::new(
            |name: Seq<char>| self.index@.contains_key(name),
            |name: Seq<char>| self.entries@[self.index@[name] as int].1,
        )
    }
}

impl<V> NameMap<V> {
    /// The table leads each of its names to an entry of that name, and every
    /// entry is the one that its name leads to: no name occurs twice.
    #[verifier::type_invariant]
    spec fn inv(self) -> bool {
        &&& forall|name: Seq<char>| #[trigger]
            self.index@.contains_key(name) ==> self.index@[name] < self.entries@.len()
                && self.entries@[self.index@[name] as int].0@ == name
        &&& forall|i: int|
            0 <= i < self.entries@.len() ==> self.index@.contains_key(
                (#[trigger] self.entries@[i]).0@,
            ) && self.index@[self.entries@[i].0@] == i
    }

    /// An empty map.
    pub fn new() -> (map: Self)
        ensures
            map@ == Map::<Seq<char>, V>::empty(),
    {
        let map = NameMap { entries: Vec::new(), index: StringHashMap::new() };
        assert(map@ =~= Map::<Seq<char>, V>::empty());
        map
    }

    /// Whether `name` has a value.
    pub fn contains(&self, name: &str) -> (found: bool)
        ensures
            found == self@.contains_key(name@),
    {
        self.index.contains_key(name)
    }

    /// The value of `name`, if it has one.
    pub fn get(&self, name: &str) -> (value: Option<&V>)
        ensures
            match value {
                Some(v) => self@.contains_key(name@) && *v == self@[name@],
                None => !self@.contains_key(name@),
            },
    {
        proof {
            use_type_invariant(self);
        }
        match self.index.get(name) {
            Some(i) => Some(&self.entries[*i].1),
            None => None,
        }
    }

    /// Gives `name` the value `value`, in place of the one it may have had.
    pub fn insert(&mut self, name: String, value: V)
        ensures
            final(self)@ == old(self)@.insert(name@, value),
    {
        proof {
            use_type_invariant(&*self);
        }
        let mut taken = NameMap { entries: Vec::new(), index: StringHashMap::new() };
        std::mem::swap(&mut taken, self);
        let NameMap { mut entries, mut index } = taken;
        let found: Option<usize> = match index.get(name.as_str()) {
            Some(i) => Some(*i),
            None => None,
        };
        match found {
            Some(i) => {
                entries[i] = (name, value);
            },
            None => {
                index.insert(name.clone(), entries.len());
                entries.push((name, value));
            },
        }
        *self = NameMap { entries, index };
        assert(self@ =~= old(self)@.insert(name@, value));
    }

    /// Takes out the value of `name`, if it has one.
    pub fn remove(&mut self, name: &str) -> (value: Option<V>)
        ensures
            final(self)@ == old(self)@.remove(name@),
            match value {
                Some(v) => old(self)@.contains_key(name@) && v == old(self)@[name@],
                None => !old(self)@.contains_key(name@),
            },
    {
        proof {
            use_type_invariant(&*self);
        }
        let found: Option<usize> = match self.index.get(name) {
            Some(i) => Some(*i),
            None => None,
        };
        match found {
            Some(i) => {
                let mut taken = NameMap { entries: Vec::new(), index: StringHashMap::new() };
                std::mem::swap(&mut taken, self);
                let NameMap { mut entries, mut index } = taken;
                let (_, value) = entries.swap_remove(i);
                index.remove(name);
                if i < entries.len() {
                    index.insert(entries[i].0.clone(), i);
                }
                *self = NameMap { entries, index };
                assert(self@ =~= old(self)@.remove(name@));
                Some(value)
            },
            None => {
                assert(self@ =~= old(self)@.remove(name@));
                None
            },
        }
    }

    /// The names that have a value.
    pub fn names(&self) -> (names: NameSet)
        ensures
            names@ == self@.dom(),
    {
        proof {
            use_type_invariant(self);
        }
        let mut names = NameSet::new();
        for i in 0..self.entries.len()
            invariant
                self.inv(),
                forall|name: Seq<char>|
                    names@.contains(name) <==> self@.contains_key(name) && self.index@[name] < i,
        {
            names.insert(self.entries[i].0.clone());
        }
        assert(names@ =~= self@.dom());
        names
    }

    /// The names with their values, each name once.
    pub fn into_entries(self) -> (entries: Vec<(String, V)>)
        ensures
            forall|i: int, j: int|
                0 <= i < j < entries@.len() ==> (#[trigger] entries@[i]).0@ != (#[trigger] entries@[j]).0@,
            forall|i: int|
                0 <= i < entries@.len() ==> self@.contains_key((#[trigger] entries@[i]).0@)
                    && self@[entries@[i].0@] == entries@[i].1,
            forall|name: Seq<char>| #[trigger]
                self@.contains_key(name) ==> exists|i: int|
                    0 <= i < entries@.len() && (#[trigger] entries@[i]).0@ == name,
    {
        proof {
            use_type_invariant(&self);
        }
        let NameMap { entries, index } = self;
        assert forall|name: Seq<char>| #[trigger] self@.contains_key(name) implies exists|i: int|
            0 <= i < entries@.len() && (#[trigger] entries@[i]).0@ == name by {
            assert(entries@[index@[name] as int].0@ == name);
        }
        entries
    }
}

/// A set of names. Its view is the mathematical set.
pub struct NameSet {
    names: Vec<String>,
    table: StringHashSet,
}

impl View for NameSet {
    type V = Set<Seq<char>>;

    closed spec fn view(&self) -> Set<Seq<char>> {
        self.table@
    }
}

/// The names in `list`, as a set.
pub open spec fn name_set(list: Seq<String>) -> Set<Seq<char>> {
    Set::new(|name: Seq<char>| exists|i: int| 0 <= i < list.len() && #[trigger] list[i]@ == name)
}

/// No name occurs twice in `list`.
pub open spec fn distinct_names(list: Seq<String>) -> bool {
    forall|i: int, j: int|
        0 <= i < j < list.len() ==> (#[trigger] list[i])@ != (#[trigger] list[j])@
}

impl NameSet {
    /// The vector holds the names of the table, each of them once.
    #[verifier::type_invariant]
    spec fn inv(self) -> bool {
        &&& distinct_names(self.names@)
        &&& self.table@ == name_set(self.names@)
    }

    /// An empty set.
    pub fn new() -> (set: Self)
        ensures
            set@ == Set::<Seq<char>>::empty(),
    {
        let names: Vec<String> = Vec::new();
        assert(Set::<Seq<char>>::empty() =~= name_set(names@));
        NameSet { names, table: StringHashSet::new() }
    }

    /// Whether `name` is in the set.
    pub fn contains(&self, name: &str) -> (found: bool)
        ensures
            found == self@.contains(name@),
    {
        self.table.contains(name)
    }

    /// Whether no name is in the set.
    pub fn is_empty(&self) -> (empty: bool)
        ensures
            empty == (self@ == Set::<Seq<char>>::empty()),
    {
        let empty = self.table.is_empty();
        assert(empty ==> self@ =~= Set::<Seq<char>>::empty());
        empty
    }

    /// Puts `name` into the set.
    pub fn insert(&mut self, name: String)
        ensures
            final(self)@ == old(self)@.insert(name@),
    {
        proof {
            use_type_invariant(&*self);
        }
        if self.table.contains(name.as_str()) {
            assert(self@ =~= old(self)@.insert(name@));
            return;
        }
        let mut taken = NameSet::new();
        std::mem::swap(&mut taken, self);
        let NameSet { mut names, mut table } = taken;
        let ghost before = names@;
        table.insert(name.clone());
        names.push(name);
        assert(name_set(names@) =~= name_set(before).insert(name@)) by {
            assert forall|n: Seq<char>| name_set(before).insert(name@).contains(n) implies name_set(
                names@,
            ).contains(n) by {
                if n == name@ {
                    assert(names@[before.len() as int]@ == n);
                } else {
                    let i = choose|i: int| 0 <= i < before.len() && #[trigger] before[i]@ == n;
                    assert(names@[i]@ == n);
                }
            }
        }
        *self = NameSet { names, table };
    }

    /// The names, each of them once.
    pub fn names(&self) -> (list: &Vec<String>)
        ensures
            distinct_names(list@),
            name_set(list@) == self@,
            forall|i: int, j: int|
                0 <= i < list@.len() && 0 <= j < list@.len() && (#[trigger] list@[i])@ == (
                #[trigger] list@[j])@ ==> i == j,
            forall|i: int| 0 <= i < list@.len() ==> self@.contains((#[trigger] list@[i])@),
            forall|name: Seq<char>| #[trigger]
                self@.contains(name) ==> exists|i: int|
                    0 <= i < list@.len() && (#[trigger] list@[i])@ == name,
    {
        proof {
            use_type_invariant(self);
            law_name_sets(self.names@);
        }
        &self.names
    }
}

/// The set of a list has the names that stand in the list, and no others; and where the
/// names of a list are distinct, a name tells its place.
pub proof fn law_name_sets(list: Seq<String>)
    ensures
        forall|i: int| 0 <= i < list.len() ==> name_set(list).contains((#[trigger] list[i])@),
        forall|name: Seq<char>| #[trigger]
            name_set(list).contains(name) ==> exists|i: int|
                0 <= i < list.len() && (#[trigger] list[i])@ == name,
        distinct_names(list) <==> (forall|i: int, j: int|
            0 <= i < list.len() && 0 <= j < list.len() && (#[trigger] list[i])@ == (
            #[trigger] list[j])@ ==> i == j),
{
}

} // verus!
