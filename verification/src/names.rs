//! Values kept under names, each name once, in the order in which they came.

use vstd::prelude::*;

verus! {

/// Where `name` stands first in `names`, `None` where it does not occur.
pub open spec fn index_in(names: Seq<Seq<char>>, name: Seq<char>) -> Option<int>
    decreases names.len(),
{
    if names.len() == 0 {
        None
    } else if names[0] == name {
        Some(0)
    } else {
        match index_in(names.drop_first(), name) {
            Some(i) => Some(i + 1),
            None => None,
        }
    }
}

/// Whether no name occurs twice in `names`.
pub open spec fn distinct(names: Seq<Seq<char>>) -> bool {
    forall|i: int, j: int| 0 <= i < j < names.len() ==> names[i] != names[j]
}

/// `index_in` gives the first place at which the name stands.
pub proof fn lemma_index_found(names: Seq<Seq<char>>, name: Seq<char>, i: int)
    requires
        0 <= i < names.len(),
        names[i] == name,
        forall|j: int| 0 <= j < i ==> names[j] != name,
    ensures
        index_in(names, name) == Some(i),
    decreases names.len(),
{
    if i > 0 {
        let rest = names.drop_first();
        assert forall|j: int| 0 <= j < i - 1 implies rest[j] != name by {
            assert(rest[j] == names[j + 1]);
        }
        lemma_index_found(rest, name, i - 1);
    }
}

/// `index_in` gives nothing exactly where the name stands nowhere.
pub proof fn lemma_index_absent(names: Seq<Seq<char>>, name: Seq<char>)
    ensures
        index_in(names, name) is None <==> (forall|j: int|
            0 <= j < names.len() ==> names[j] != name),
        index_in(names, name) matches Some(i) ==> 0 <= i < names.len() && names[i] == name && (
        forall|j: int| 0 <= j < i ==> names[j] != name),
    decreases names.len(),
{
    if names.len() > 0 {
        let rest = names.drop_first();
        lemma_index_absent(rest, name);
        if names[0] != name {
            match index_in(rest, name) {
                Some(i) => {
                    assert(rest[i] == names[i + 1]);
                    assert forall|j: int| 0 <= j < i + 1 implies names[j] != name by {
                        if j > 0 {
                            assert(rest[j - 1] == names[j]);
                        }
                    }
                },
                None => {
                    assert forall|j: int| 0 <= j < names.len() implies names[j] != name by {
                        if j > 0 {
                            assert(rest[j - 1] == names[j]);
                        }
                    }
                },
            }
        }
    }
}

/// One more name at the end does not move any other name.
pub proof fn lemma_index_push(names: Seq<Seq<char>>, extra: Seq<char>, name: Seq<char>)
    requires
        extra != name,
    ensures
        index_in(names.push(extra), name) == index_in(names, name),
    decreases names.len(),
{
    let longer = names.push(extra);
    if names.len() > 0 {
        assert(longer.drop_first() =~= names.drop_first().push(extra));
        assert(longer[0] == names[0]);
        lemma_index_push(names.drop_first(), extra, name);
    } else {
        assert(longer.drop_first() =~= Seq::<Seq<char>>::empty());
        assert(longer[0] == extra);
        assert(index_in(longer.drop_first(), name) is None);
    }
}

/// A name that is new to a list of distinct names can follow them.
pub proof fn lemma_distinct_push(names: Seq<Seq<char>>, name: Seq<char>)
    requires
        distinct(names),
        index_in(names, name) is None,
    ensures
        distinct(names.push(name)),
{
    lemma_index_absent(names, name);
}

/// Values under names, in the order in which they were added. No name
/// is there twice.
#[derive(Debug)]
pub struct NameMap<T> {
    entries: Vec<(String, T)>,
}

impl<T> NameMap<T> {
    #[verifier::type_invariant]
    spec fn inv(self) -> bool {
        distinct(self.names())
    }

    /// The names, in the order in which they were added.
    pub closed spec fn names(self) -> Seq<Seq<char>> {
        self.entries@.map_values(|e: (String, T)| e.0@)
    }

    /// The values, each at the place of its name.
    pub closed spec fn items(self) -> Seq<T> {
        self.entries@.map_values(|e: (String, T)| e.1)
    }

    /// The value under `name`, if there is one.
    pub open spec fn lookup(self, name: Seq<char>) -> Option<T> {
        match index_in(self.names(), name) {
            Some(i) => Some(self.items()[i]),
            None => None,
        }
    }

    /// There are as many values as names.
    pub proof fn lemma_same_len(self)
        ensures
            self.items().len() == self.names().len(),
    {
    }

    /// An empty collection.
    pub fn new() -> (map: NameMap<T>)
        ensures
            map.names() == Seq::<Seq<char>>::empty(),
            map.items() == Seq::<T>::empty(),
    {
        let map = NameMap { entries: Vec::new() };
        assert(map.names() =~= Seq::<Seq<char>>::empty());
        assert(map.items() =~= Seq::<T>::empty());
        map
    }

    /// How many names there are.
    pub fn len(&self) -> (n: usize)
        ensures
            n == self.names().len(),
            n == self.items().len(),
            distinct(self.names()),
    {
        proof {
            use_type_invariant(self);
        }
        self.entries.len()
    }

    /// The place of `name`, if it is there.
    pub fn position(&self, name: &str) -> (place: Option<usize>)
        ensures
            match place {
                Some(i) => index_in(self.names(), name@) == Some(i as int) && i < self.names().len(),
                None => index_in(self.names(), name@) is None,
            },
    {
        let wanted = name.to_owned();
        let mut i: usize = 0;
        while i < self.entries.len()
            invariant
                i <= self.entries.len(),
                wanted@ == name@,
                forall|j: int| 0 <= j < i ==> self.names()[j] != name@,
            decreases self.entries.len() - i,
        {
            if self.entries[i].0 == wanted {
                proof {
                    lemma_index_found(self.names(), name@, i as int);
                }
                return Some(i);
            }
            i = i + 1;
        }
        proof {
            lemma_index_absent(self.names(), name@);
        }
        None
    }

    /// The name at place `i`.
    pub fn name_at(&self, i: usize) -> (name: &String)
        requires
            i < self.names().len(),
        ensures
            name@ == self.names()[i as int],
    {
        &self.entries[i].0
    }

    /// The value at place `i`.
    pub fn item_at(&self, i: usize) -> (item: &T)
        requires
            i < self.names().len(),
        ensures
            *item == self.items()[i as int],
    {
        &self.entries[i].1
    }

    /// The value under `name`, if there is one.
    pub fn get(&self, name: &str) -> (item: Option<&T>)
        ensures
            match item {
                Some(v) => self.lookup(name@) == Some(*v),
                None => self.lookup(name@) is None,
            },
    {
        match self.position(name) {
            Some(i) => Some(&self.entries[i].1),
            None => None,
        }
    }

    /// Adds `item` under `name`, unless the name is there already: then
    /// nothing changes and the value comes back.
    pub fn add(&mut self, name: String, item: T) -> (refused: Option<T>)
        ensures
            match refused {
                Some(back) => {
                    &&& index_in(old(self).names(), name@) is Some
                    &&& back == item
                    &&& *final(self) == *old(self)
                },
                None => {
                    &&& index_in(old(self).names(), name@) is None
                    &&& final(self).names() == old(self).names().push(name@)
                    &&& final(self).items() == old(self).items().push(item)
                },
            },
            distinct(final(self).names()),
    {
        proof {
            use_type_invariant(&*self);
        }
        match self.position(name.as_str()) {
            Some(_) => Some(item),
            None => {
                proof {
                    lemma_distinct_push(self.names(), name@);
                }
                let ghost before = *self;
                let mut entries: Vec<(String, T)> = Vec::new();
                assert(entries@.map_values(|e: (String, T)| e.0@) =~= Seq::<Seq<char>>::empty());
                std::mem::swap(&mut self.entries, &mut entries);
                entries.push((name, item));
                assert(entries@.map_values(|e: (String, T)| e.0@) =~= before.names().push(name@));
                std::mem::swap(&mut self.entries, &mut entries);
                assert(self.names() =~= before.names().push(name@));
                assert(self.items() =~= before.items().push(item));
                None
            },
        }
    }

    /// Puts `item` under `name`, in place of what was there.
    pub fn put(&mut self, name: String, item: T) -> (replaced: bool)
        ensures
            replaced == index_in(old(self).names(), name@) is Some,
            match index_in(old(self).names(), name@) {
                Some(i) => {
                    &&& final(self).names() == old(self).names()
                    &&& final(self).items() == old(self).items().update(i, item)
                },
                None => {
                    &&& final(self).names() == old(self).names().push(name@)
                    &&& final(self).items() == old(self).items().push(item)
                },
            },
            distinct(final(self).names()),
    {
        proof {
            use_type_invariant(&*self);
        }
        let ghost before = *self;
        match self.position(name.as_str()) {
            Some(i) => {
                proof {
                    lemma_index_absent(before.names(), name@);
                }
                let mut entries: Vec<(String, T)> = Vec::new();
                assert(entries@.map_values(|e: (String, T)| e.0@) =~= Seq::<Seq<char>>::empty());
                std::mem::swap(&mut self.entries, &mut entries);
                entries.set(i, (name, item));
                assert(entries@.map_values(|e: (String, T)| e.0@) =~= before.names());
                std::mem::swap(&mut self.entries, &mut entries);
                assert(self.names() =~= before.names());
                assert(self.items() =~= before.items().update(i as int, item));
                true
            },
            None => {
                proof {
                    lemma_distinct_push(self.names(), name@);
                }
                let mut entries: Vec<(String, T)> = Vec::new();
                assert(entries@.map_values(|e: (String, T)| e.0@) =~= Seq::<Seq<char>>::empty());
                std::mem::swap(&mut self.entries, &mut entries);
                entries.push((name, item));
                assert(entries@.map_values(|e: (String, T)| e.0@) =~= before.names().push(name@));
                std::mem::swap(&mut self.entries, &mut entries);
                assert(self.names() =~= before.names().push(name@));
                assert(self.items() =~= before.items().push(item));
                false
            },
        }
    }
}

} // verus!
