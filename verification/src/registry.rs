//! A flat registry of named items.
//!
//! The renderer keeps its meshes, models, lights and textures by name. A
//! registry maps each name to at most one item and keeps the items in the
//! order in which their names first came in.

use vstd::prelude::*;

verus! {

/// The map that pairs `names[i]` with `items[i]`.
pub open spec fn map_of<T>(names: Seq<Seq<char>>, items: Seq<T>) -> Map<Seq<char>, T> {
    Map::new(
        |name: Seq<char>| names.contains(name),
        |name: Seq<char>| items[names.index_of(name)],
    )
}

proof fn lemma_map_of<T>(names: Seq<Seq<char>>, items: Seq<T>)
    requires
        names.len() == items.len(),
        names.no_duplicates(),
    ensures
        map_of(names, items).dom() == names.to_set(),
        map_of(names, items).dom().finite(),
        map_of(names, items).len() == names.len(),
        forall|i: int|
            0 <= i < names.len() ==> map_of(names, items)[#[trigger] names[i]] == items[i],
{
    assert(map_of(names, items).dom() =~= names.to_set());
    names.unique_seq_to_set();
    assert forall|i: int| 0 <= i < names.len() implies map_of(names, items)[#[trigger] names[i]]
        == items[i] by {
        assert(names.contains(names[i]));
        names.index_of_first_ensures(names[i]);
        assert(names.index_of(names[i]) == i);
    }
}

proof fn lemma_map_of_push<T>(names: Seq<Seq<char>>, items: Seq<T>, name: Seq<char>, item: T)
    requires
        names.len() == items.len(),
        names.no_duplicates(),
        !names.contains(name),
    ensures
        names.push(name).no_duplicates(),
        map_of(names.push(name), items.push(item)) == map_of(names, items).insert(name, item),
{
    let names2 = names.push(name);
    let items2 = items.push(item);
    assert(names2.no_duplicates()) by {
        assert forall|i: int, j: int| 0 <= i < j < names2.len() implies names2[i] != names2[j] by {
            if j == names.len() {
                assert(names.contains(names[i]));
            }
        }
    }
    lemma_map_of(names, items);
    lemma_map_of(names2, items2);
    assert forall|key: Seq<char>| #[trigger]
        map_of(names2, items2).dom().contains(key) <==> map_of(names, items).insert(
            name,
            item,
        ).dom().contains(key) by {
        if names2.contains(key) {
            let i = choose|i: int| 0 <= i < names2.len() && names2[i] == key;
            if i < names.len() {
                assert(names[i] == key);
            }
        }
        if names.contains(key) {
            let i = choose|i: int| 0 <= i < names.len() && names[i] == key;
            assert(names2[i] == key);
        }
        if key == name {
            assert(names2[names.len() as int] == key);
        }
    }
    assert forall|key: Seq<char>| #[trigger] map_of(names2, items2).dom().contains(key) implies map_of(
        names2,
        items2,
    )[key] == map_of(names, items).insert(name, item)[key] by {
        let i = choose|i: int| 0 <= i < names2.len() && names2[i] == key;
        assert(map_of(names2, items2)[names2[i]] == items2[i]);
        if i < names.len() {
            assert(names[i] == key);
            assert(map_of(names, items)[names[i]] == items[i]);
        }
    }
    assert(map_of(names2, items2) =~= map_of(names, items).insert(name, item));
}

proof fn lemma_map_of_update<T>(names: Seq<Seq<char>>, items: Seq<T>, i: int, item: T)
    requires
        names.len() == items.len(),
        names.no_duplicates(),
        0 <= i < names.len(),
    ensures
        map_of(names, items.update(i, item)) == map_of(names, items).insert(names[i], item),
{
    let items2 = items.update(i, item);
    lemma_map_of(names, items);
    lemma_map_of(names, items2);
    assert(names.contains(names[i]));
    assert forall|key: Seq<char>| #[trigger] map_of(names, items2).dom().contains(key) implies map_of(
        names,
        items2,
    )[key] == map_of(names, items).insert(names[i], item)[key] by {
        let j = choose|j: int| 0 <= j < names.len() && names[j] == key;
        assert(map_of(names, items2)[names[j]] == items2[j]);
        assert(map_of(names, items)[names[j]] == items[j]);
    }
    assert(map_of(names, items2) =~= map_of(names, items).insert(names[i], item));
}

proof fn lemma_map_of_remove<T>(names: Seq<Seq<char>>, items: Seq<T>, i: int)
    requires
        names.len() == items.len(),
        names.no_duplicates(),
        0 <= i < names.len(),
    ensures
        names.remove(i).no_duplicates(),
        !names.remove(i).contains(names[i]),
        map_of(names.remove(i), items.remove(i)) == map_of(names, items).remove(names[i]),
{
    let names2 = names.remove(i);
    let items2 = items.remove(i);
    assert(names2.no_duplicates());
    assert(!names2.contains(names[i])) by {
        if names2.contains(names[i]) {
            let j = choose|j: int| 0 <= j < names2.len() && names2[j] == names[i];
            if j < i {
                assert(names[j] == names[i]);
            } else {
                assert(names[j + 1] == names[i]);
            }
        }
    }
    lemma_map_of(names, items);
    lemma_map_of(names2, items2);
    assert forall|key: Seq<char>| #[trigger]
        map_of(names2, items2).dom().contains(key) <==> map_of(names, items).remove(
            names[i],
        ).dom().contains(key) by {
        if names2.contains(key) {
            let j = choose|j: int| 0 <= j < names2.len() && names2[j] == key;
            if j < i {
                assert(names[j] == key);
            } else {
                assert(names[j + 1] == key);
            }
        }
        if names.contains(key) && key != names[i] {
            let j = choose|j: int| 0 <= j < names.len() && names[j] == key;
            if j < i {
                assert(names2[j] == key);
            } else {
                assert(names2[j - 1] == key);
            }
        }
    }
    assert forall|key: Seq<char>| #[trigger] map_of(names2, items2).dom().contains(key) implies map_of(
        names2,
        items2,
    )[key] == map_of(names, items).remove(names[i])[key] by {
        let j = choose|j: int| 0 <= j < names2.len() && names2[j] == key;
        assert(map_of(names2, items2)[names2[j]] == items2[j]);
        if j < i {
            assert(map_of(names, items)[names[j]] == items[j]);
        } else {
            assert(map_of(names, items)[names[j + 1]] == items[j + 1]);
        }
    }
    assert(map_of(names2, items2) =~= map_of(names, items).remove(names[i]));
}

/// Named items, no name twice.
pub struct Registry<T> {
    names: Vec<String>,
    items: Vec<T>,
}

impl<T> View for Registry<T> {
    type V = Map<Seq<char>, T>;

    /// The registry as a map from names to items.
    closed spec fn view(&self) -> Map<Seq<char>, T> {
        map_of(self.names(), self.items())
    }
}

impl<T> Registry<T> {
    #[verifier::type_invariant]
    spec fn well_formed(self) -> bool {
        &&& self.names.len() == self.items.len()
        &&& self.names().no_duplicates()
    }

    /// The names in the order in which they came in.
    pub closed spec fn names(&self) -> Seq<Seq<char>> {
        Seq::new(self.names.len() as nat, |i: int| self.names[i]@)
    }

    /// The items in the order of their names.
    pub closed spec fn items(&self) -> Seq<T> {
        self.items@
    }

    pub fn new() -> (registry: Self)
        ensures
            registry@ == Map::<Seq<char>, T>::empty(),
            registry.names() == Seq::<Seq<char>>::empty(),
            registry.items() == Seq::<T>::empty(),
    {
        let registry = Registry { names: Vec::new(), items: Vec::new() };
        assert(registry.names() =~= Seq::<Seq<char>>::empty());
        assert(registry@ =~= Map::<Seq<char>, T>::empty());
        registry
    }

    /// Number of names. The three views agree: the map pairs name `i` with
    /// item `i`, and no name stands twice.
    pub fn len(&self) -> (n: usize)
        ensures
            n == self@.len(),
            n == self.names().len(),
            n == self.items().len(),
            self.names().no_duplicates(),
            self@ == map_of(self.names(), self.items()),
            self@.dom().finite(),
    {
        proof {
            use_type_invariant(self);
            lemma_map_of(self.names(), self.items());
        }
        self.names.len()
    }

    fn position(&self, name: &str) -> (found: Option<usize>)
        ensures
            match found {
                Some(i) => i < self.names().len() && self.names()[i as int] == name@,
                None => !self.names().contains(name@),
            },
    {
        let wanted: String = name.to_owned();
        let mut i: usize = 0;
        while i < self.names.len()
            invariant
                i <= self.names.len(),
                wanted@ == name@,
                forall|j: int| 0 <= j < i ==> self.names()[j] != name@,
            decreases self.names.len() - i,
        {
            if self.names[i] == wanted {
                return Some(i);
            }
            i += 1;
        }
        None
    }

    /// Whether an item stands under `name`.
    pub fn contains_key(&self, name: &str) -> (present: bool)
        ensures
            present == self@.contains_key(name@),
    {
        self.position(name).is_some()
    }

    /// The item under `name`.
    pub fn get(&self, name: &str) -> (item: Option<&T>)
        ensures
            item == if self@.contains_key(name@) {
                Some(&self@[name@])
            } else {
                None
            },
    {
        proof {
            use_type_invariant(self);
            lemma_map_of(self.names(), self.items());
        }
        match self.position(name) {
            Some(i) => Some(&self.items[i]),
            None => None,
        }
    }

    /// Name number `i`, counting in the order in which the names came in.
    pub fn name_at(&self, i: usize) -> (name: &str)
        requires
            i < self.names().len(),
        ensures
            name@ == self.names()[i as int],
    {
        self.names[i].as_str()
    }

    /// The item that belongs to name number `i`.
    pub fn item_at(&self, i: usize) -> (item: &T)
        requires
            i < self.items().len(),
        ensures
            *item == self.items()[i as int],
            self.names().len() == self.items().len(),
            *item == self@[self.names()[i as int]],
    {
        proof {
            use_type_invariant(self);
            lemma_map_of(self.names(), self.items());
        }
        &self.items[i]
    }

    /// The item that belongs to name number `i`, to be changed in place.
    pub fn item_at_mut(&mut self, i: usize) -> (item: &mut T)
        requires
            i < old(self).items().len(),
        ensures
            *item == old(self).items()[i as int],
            final(self).items() == old(self).items().update(i as int, *final(item)),
            final(self).names() == old(self).names(),
            final(self)@ == old(self)@.insert(old(self).names()[i as int], *final(item)),
    {
        proof {
            use_type_invariant(&*self);
            let names = self.names();
            let items = self.items();
            assert forall|changed: T| #[trigger]
                map_of(names, items.update(i as int, changed)) == map_of(names, items).insert(
                    names[i as int],
                    changed,
                ) by {
                lemma_map_of_update(names, items, i as int, changed);
            }
        }
        &mut self.items[i]
    }

    /// The item under `name`, to be changed in place.
    pub fn get_mut(&mut self, name: &str) -> (item: Option<&mut T>)
        ensures
            match item {
                Some(slot) => {
                    &&& old(self)@.contains_key(name@)
                    &&& *slot == old(self)@[name@]
                    &&& final(self)@ == old(self)@.insert(name@, *final(slot))
                    &&& final(self).names() == old(self).names()
                },
                None => !old(self)@.contains_key(name@) && *final(self) == *old(self),
            },
    {
        proof {
            use_type_invariant(&*self);
            lemma_map_of(self.names(), self.items());
        }
        match self.position(name) {
            Some(i) => {
                proof {
                    let names = self.names();
                    let items = self.items();
                    assert forall|changed: T| #[trigger]
                        map_of(names, items.update(i as int, changed)) == map_of(names, items).insert(
                            name@,
                            changed,
                        ) by {
                        lemma_map_of_update(names, items, i as int, changed);
                    }
                }
                Some(&mut self.items[i])
            },
            None => None,
        }
    }

    /// Puts `item` under `name`. A name that is new goes to the end; one
    /// that is known keeps its place, and the item it had is handed back.
    pub fn insert(&mut self, name: &str, item: T) -> (previous: Option<T>)
        ensures
            final(self)@ == old(self)@.insert(name@, item),
            previous == old(self)@.get(name@),
            old(self)@.contains_key(name@) ==> final(self).names() == old(self).names()
                && final(self).items() == old(self).items().update(
                old(self).names().index_of(name@),
                item,
            ),
            !old(self)@.contains_key(name@) ==> final(self).names() == old(self).names().push(name@)
                && final(self).items() == old(self).items().push(item),
    {
        proof {
            use_type_invariant(&*self);
            lemma_map_of(self.names(), self.items());
        }
        match self.position(name) {
            Some(i) => {
                proof {
                    lemma_map_of_update(self.names(), self.items(), i as int, item);
                }
                let ghost names_before = self.names();
                let mut item = item;
                core::mem::swap(&mut self.items[i], &mut item);
                assert(self.names() =~= names_before);
                Some(item)
            },
            None => {
                proof {
                    lemma_map_of_push(self.names(), self.items(), name@, item);
                }
                let ghost names_before = self.names();
                let mut taken = Registry { names: Vec::new(), items: Vec::new() };
                assert(taken.names() =~= Seq::<Seq<char>>::empty());
                core::mem::swap(self, &mut taken);
                let Registry { mut names, mut items } = taken;
                names.push(name.to_owned());
                items.push(item);
                let ghost names_after = Seq::new(names.len() as nat, |i: int| names[i]@);
                assert(names_after =~= names_before.push(name@));
                *self = Registry { names, items };
                None
            },
        }
    }

    /// Takes `name` and its item out; the others keep their order.
    pub fn remove(&mut self, name: &str) -> (removed: Option<T>)
        ensures
            final(self)@ == old(self)@.remove(name@),
            removed == old(self)@.get(name@),
            old(self)@.contains_key(name@) ==> final(self).names() == old(self).names().remove(
                old(self).names().index_of(name@),
            ) && final(self).items() == old(self).items().remove(old(self).names().index_of(name@)),
            !old(self)@.contains_key(name@) ==> *final(self) == *old(self),
    {
        proof {
            use_type_invariant(&*self);
            lemma_map_of(self.names(), self.items());
        }
        match self.position(name) {
            Some(i) => {
                proof {
                    lemma_map_of_remove(self.names(), self.items(), i as int);
                }
                let ghost names_before = self.names();
                let mut taken = Registry { names: Vec::new(), items: Vec::new() };
                assert(taken.names() =~= Seq::<Seq<char>>::empty());
                core::mem::swap(self, &mut taken);
                let Registry { mut names, mut items } = taken;
                names.remove(i);
                let item = items.remove(i);
                let ghost names_after = Seq::new(names.len() as nat, |i: int| names[i]@);
                assert(names_after =~= names_before.remove(i as int));
                *self = Registry { names, items };
                Some(item)
            },
            None => {
                assert(self@.remove(name@) =~= self@);
                None
            },
        }
    }
}

} // verus!
