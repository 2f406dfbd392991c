//! Small sets and maps over items that are told apart by a key.

use vstd::prelude::*;

verus! {

/// An item that is told apart from others by a key.
pub trait Keyed: Sized {
    type Key;

    /// The key of the item.
    spec fn key(&self) -> Self::Key;

    /// Whether the two items have the same key.
    fn same_key(&self, other: &Self) -> (r: bool)
        ensures
            r == (self.key() == other.key()),
    ;
}

/// A set of items, no two of them with the same key.
pub struct KeySet<T: Keyed> {
    items: Vec<T>,
}

/// The keys of the items in order.
pub open spec fn keys<T: Keyed>(items: Seq<T>) -> Seq<T::Key> {
    Seq::new(items.len(), |i: int| items[i].key())
}

impl<T: Keyed> View for KeySet<T> {
    type V = Set<T::Key>;

    closed spec fn view(&self) -> Set<T::Key> {
        keys(self.items@).to_set()
    }
}

impl<T: Keyed> KeySet<T> {
    #[verifier::type_invariant]
    spec fn well_formed(self) -> bool {
        keys(self.items@).no_duplicates()
    }

    /// The empty set.
    pub fn new() -> (r: Self)
        ensures
            r@ == Set::<T::Key>::empty(),
    {
        let r = KeySet { items: Vec::new() };
        assert(keys(r.items@).to_set() =~= Set::<T::Key>::empty());
        r
    }

    fn position(&self, item: &T) -> (r: Option<usize>)
        ensures
            match r {
                Some(i) => i < self.items@.len() && self.items@[i as int].key() == item.key(),
                None => !self@.contains(item.key()),
            },
    {
        let mut i: usize = 0;
        while i < self.items.len()
            invariant
                i <= self.items@.len(),
                forall|j: int| 0 <= j < i ==> (#[trigger] self.items@[j]).key() != item.key(),
            decreases self.items@.len() - i,
        {
            if self.items[i].same_key(item) {
                return Some(i);
            }
            i = i + 1;
        }
        assert(!keys(self.items@).contains(item.key()));
        None
    }

    /// Whether an item with the key of `item` is in the set.
    pub fn contains(&self, item: &T) -> (r: bool)
        ensures
            r == self@.contains(item.key()),
    {
        match self.position(item) {
            Some(i) => {
                assert(keys(self.items@)[i as int] == item.key());
                true
            },
            None => false,
        }
    }

    /// Puts the item into the set; says whether its key is new.
    pub fn insert(&mut self, item: T) -> (added: bool)
        ensures
            final(self)@ == old(self)@.insert(item.key()),
            added == !old(self)@.contains(item.key()),
    {
        proof {
            use_type_invariant(&*self);
        }
        let ghost before = self.items@;
        if self.contains(&item) {
            assert(self@.insert(item.key()) =~= self@);
            false
        } else {
            let ghost k = item.key();
            let mut items: Vec<T> = Vec::new();
            std::mem::swap(&mut items, &mut self.items);
            items.push(item);
            proof {
                assert(keys(items@) =~= keys(before).push(k));
                assert forall|a: T::Key| #[trigger] keys(items@).to_set().contains(a) <==> keys(
                    before,
                ).to_set().insert(k).contains(a) by {
                    if keys(before).contains(a) {
                        let i = choose|i: int| 0 <= i < keys(before).len() && keys(before)[i] == a;
                        assert(keys(items@)[i] == a);
                    }
                    assert(keys(items@)[before.len() as int] == k);
                }
                assert(keys(items@).to_set() =~= keys(before).to_set().insert(k));
                assert(keys(items@).no_duplicates()) by {
                    assert forall|i: int, j: int|
                        0 <= i < keys(items@).len() && 0 <= j < keys(items@).len() && i != j implies keys(
                        items@,
                    )[i] != keys(items@)[j] by {
                        if i < before.len() {
                            assert(keys(before)[i] != k) by {
                                assert(keys(before).contains(keys(before)[i]));
                            }
                        }
                        if j < before.len() {
                            assert(keys(before)[j] != k) by {
                                assert(keys(before).contains(keys(before)[j]));
                            }
                        }
                    }
                }
            }
            self.items = items;
            true
        }
    }

    /// Takes the item with the key of `item` out of the set; says whether it was in.
    pub fn remove(&mut self, item: &T) -> (removed: bool)
        ensures
            final(self)@ == old(self)@.remove(item.key()),
            removed == old(self)@.contains(item.key()),
    {
        proof {
            use_type_invariant(&*self);
        }
        let ghost before = self.items@;
        match self.position(item) {
            None => {
                assert(self@.remove(item.key()) =~= self@);
                false
            },
            Some(i) => {
                assert(keys(before)[i as int] == item.key());
                let mut items: Vec<T> = Vec::new();
                std::mem::swap(&mut items, &mut self.items);
                items.remove(i);
                proof {
                    let ks = keys(before);
                    let after = keys(items@);
                    assert(after =~= ks.remove(i as int));
                    assert forall|a: T::Key| #[trigger] after.to_set().contains(a) <==> ks.to_set().remove(
                        item.key(),
                    ).contains(a) by {
                        if after.contains(a) {
                            let j = choose|j: int| 0 <= j < after.len() && after[j] == a;
                            if j < i {
                                assert(ks[j] == a);
                            } else {
                                assert(ks[j + 1] == a);
                            }
                        }
                        if ks.contains(a) && a != item.key() {
                            let j = choose|j: int| 0 <= j < ks.len() && ks[j] == a;
                            if j < i {
                                assert(after[j] == a);
                            } else {
                                assert(after[j - 1] == a);
                            }
                        }
                    }
                    assert(after.to_set() =~= ks.to_set().remove(item.key()));
                }
                self.items = items;
                true
            },
        }
    }

    /// Puts the item in where its key is missing, takes it out where it is there.
    pub fn toggle(&mut self, item: T)
        ensures
            final(self)@ == (if old(self)@.contains(item.key()) {
                old(self)@.remove(item.key())
            } else {
                old(self)@.insert(item.key())
            }),
    {
        if self.contains(&item) {
            self.remove(&item);
        } else {
            self.insert(item);
        }
    }

    /// Takes every item out whose key is not among those of `kept`.
    pub fn retain_in(&mut self, kept: &Vec<T>)
        ensures
            final(self)@ == old(self)@.intersect(keys(kept@).to_set()),
    {
        let ghost before = self@;
        let ghost allowed = keys(kept@).to_set();
        let mut items: Vec<T> = Vec::new();
        std::mem::swap(&mut items, &mut self.items);
        let mut retained: KeySet<T> = KeySet::new();
        assert(retained@.union(keys(items@).to_set().intersect(allowed)) =~= before.intersect(
            allowed,
        ));
        while items.len() > 0
            invariant
                allowed == keys(kept@).to_set(),
                retained@.union(keys(items@).to_set().intersect(allowed)) == before.intersect(
                    allowed,
                ),
            decreases items@.len(),
        {
            let ghost all = keys(items@);
            let ghost sofar = retained@;
            let item = items.pop().unwrap();
            let ghost k = item.key();
            proof {
                assert(keys(items@) =~= all.drop_last());
                assert(all.last() == k);
                assert forall|a: T::Key| all.contains(a) <==> keys(items@).contains(a) || a == k by {
                    if all.contains(a) && a != k {
                        let i = choose|i: int| 0 <= i < all.len() && all[i] == a;
                        assert(keys(items@)[i] == a);
                    }
                    if keys(items@).contains(a) {
                        let i = choose|i: int| 0 <= i < keys(items@).len() && keys(items@)[i] == a;
                        assert(all[i] == a);
                    }
                    assert(all[all.len() - 1] == k);
                }
            }
            if holds(kept, &item) {
                retained.insert(item);
            }
            assert(retained@.union(keys(items@).to_set().intersect(allowed)) =~= sofar.union(
                all.to_set().intersect(allowed),
            ));
        }
        assert(retained@ =~= before.intersect(allowed)) by {
            assert(keys(items@).to_set() =~= Set::empty());
            assert(retained@.union(Set::<T::Key>::empty().intersect(allowed)) =~= retained@);
        }
        *self = retained;
    }

    /// The number of items.
    pub fn len(&self) -> (r: usize)
        ensures
            r == self@.len(),
    {
        proof {
            use_type_invariant(self);
            keys(self.items@).unique_seq_to_set();
        }
        self.items.len()
    }

    /// Whether the set holds nothing.
    pub fn is_empty(&self) -> (r: bool)
        ensures
            r == (self@ == Set::<T::Key>::empty()),
    {
        let r = self.items.len() == 0;
        proof {
            if r {
                assert(self@ =~= Set::<T::Key>::empty());
            } else {
                assert(keys(self.items@).contains(keys(self.items@)[0]));
                assert(self@.contains(keys(self.items@)[0]));
            }
        }
        r
    }
}

/// Whether one of the items has the key of `item`.
pub fn holds<T: Keyed>(items: &Vec<T>, item: &T) -> (r: bool)
    ensures
        r == keys(items@).contains(item.key()),
{
    let mut i: usize = 0;
    while i < items.len()
        invariant
            i <= items@.len(),
            forall|j: int| 0 <= j < i ==> (#[trigger] items@[j]).key() != item.key(),
        decreases items@.len() - i,
    {
        if items[i].same_key(item) {
            assert(keys(items@)[i as int] == item.key());
            return true;
        }
        i = i + 1;
    }
    false
}

/// Toggling the same key twice gives the set back.
pub proof fn toggling_twice_restores<K>(s: Set<K>, k: K)
    ensures
        ({
            let once = if s.contains(k) {
                s.remove(k)
            } else {
                s.insert(k)
            };
            let twice = if once.contains(k) {
                once.remove(k)
            } else {
                once.insert(k)
            };
            twice == s
        }),
{
    if s.contains(k) {
        assert(s.remove(k).insert(k) =~= s);
    } else {
        assert(s.insert(k).remove(k) =~= s);
    }
}

/// A map from keys to values, with one entry for a key.
pub struct KeyMap<T: Keyed, V> {
    items: Vec<T>,
    values: Vec<V>,
}

/// Where `key` stands among `ks`.
pub open spec fn place<K>(ks: Seq<K>, key: K) -> int {
    choose|i: int| 0 <= i < ks.len() && ks[i] == key
}

impl<T: Keyed, V> View for KeyMap<T, V> {
    type V = Map<T::Key, V>;

    closed spec fn view(&self) -> Map<T::Key, V> {
        Map::new(
            |k: T::Key| keys(self.items@).contains(k),
            |k: T::Key| self.values@[place(keys(self.items@), k)],
        )
    }
}

impl<T: Keyed, V> KeyMap<T, V> {
    #[verifier::type_invariant]
    spec fn well_formed(self) -> bool {
        &&& keys(self.items@).no_duplicates()
        &&& self.items@.len() == self.values@.len()
    }

    /// The empty map.
    pub fn new() -> (r: Self)
        ensures
            r@ == Map::<T::Key, V>::empty(),
    {
        let r = KeyMap { items: Vec::new(), values: Vec::new() };
        assert(r@ =~= Map::<T::Key, V>::empty());
        r
    }

    fn position(&self, item: &T) -> (r: Option<usize>)
        ensures
            match r {
                Some(i) => i < self.items@.len() && i < self.values@.len()
                    && self.items@[i as int].key() == item.key() && self@.contains_key(item.key())
                    && self@[item.key()] == self.values@[i as int],
                None => !self@.contains_key(item.key()),
            },
    {
        proof {
            use_type_invariant(self);
        }
        let mut i: usize = 0;
        while i < self.items.len()
            invariant
                i <= self.items@.len(),
                keys(self.items@).no_duplicates(),
                self.items@.len() == self.values@.len(),
                forall|j: int| 0 <= j < i ==> (#[trigger] self.items@[j]).key() != item.key(),
            decreases self.items@.len() - i,
        {
            if self.items[i].same_key(item) {
                proof {
                    let ks = keys(self.items@);
                    assert(ks[i as int] == item.key());
                    let p = place(ks, item.key());
                    assert(ks[p] == item.key());
                    assert(p == i);
                }
                return Some(i);
            }
            i = i + 1;
        }
        assert(!keys(self.items@).contains(item.key()));
        None
    }

    /// The value for the key of `item`.
    pub fn get(&self, item: &T) -> (r: Option<&V>)
        ensures
            r == (if self@.contains_key(item.key()) {
                Some(&self@[item.key()])
            } else {
                None
            }),
    {
        match self.position(item) {
            Some(i) => Some(&self.values[i]),
            None => None,
        }
    }

    /// Takes the value for the key of `item` out of the map.
    pub fn remove(&mut self, item: &T) -> (r: Option<V>)
        ensures
            final(self)@ == old(self)@.remove(item.key()),
            r == (if old(self)@.contains_key(item.key()) {
                Some(old(self)@[item.key()])
            } else {
                None
            }),
    {
        proof {
            use_type_invariant(&*self);
        }
        let ghost before = *self;
        match self.position(item) {
            None => {
                assert(self@.remove(item.key()) =~= self@);
                None
            },
            Some(i) => {
                let mut emptied = KeyMap { items: Vec::new(), values: Vec::new() };
                std::mem::swap(&mut emptied, self);
                let KeyMap { items: old_items, values: old_values } = emptied;
                let mut items = old_items;
                let mut values = old_values;
                items.remove(i);
                let value = values.remove(i);
                proof {
                    let ks = keys(before.items@);
                    let after = keys(items@);
                    assert(after =~= ks.remove(i as int));
                    assert(ks[i as int] == item.key());
                    let m = Map::new(
                        |k: T::Key| after.contains(k),
                        |k: T::Key| values@[place(after, k)],
                    );
                    assert forall|a: T::Key| #[trigger] m.contains_key(a) <==> before@.remove(
                        item.key(),
                    ).contains_key(a) by {
                        if after.contains(a) {
                            let j = choose|j: int| 0 <= j < after.len() && after[j] == a;
                            if j < i {
                                assert(ks[j] == a);
                            } else {
                                assert(ks[j + 1] == a);
                            }
                        }
                        if ks.contains(a) && a != item.key() {
                            let j = choose|j: int| 0 <= j < ks.len() && ks[j] == a;
                            if j < i {
                                assert(after[j] == a);
                            } else {
                                assert(after[j - 1] == a);
                            }
                        }
                    }
                    assert forall|a: T::Key| m.contains_key(a) implies #[trigger] m[a] == before@[a] by {
                        let j = place(after, a);
                        assert(after[j] == a);
                        let p = place(ks, a);
                        if j < i {
                            assert(ks[j] == a);
                            assert(ks[p] == a);
                            assert(p == j);
                        } else {
                            assert(ks[j + 1] == a);
                            assert(ks[p] == a);
                            assert(p == j + 1);
                        }
                    }
                    assert(m =~= before@.remove(item.key()));
                }
                *self = KeyMap { items, values };
                Some(value)
            },
        }
    }

    /// Sets the value for the key of `item`.
    pub fn insert(&mut self, item: T, value: V)
        ensures
            final(self)@ == old(self)@.insert(item.key(), value),
    {
        self.remove(&item);
        proof {
            use_type_invariant(&*self);
        }
        let ghost before = *self;
        let ghost k = item.key();
        let mut emptied = KeyMap { items: Vec::new(), values: Vec::new() };
        std::mem::swap(&mut emptied, self);
        let KeyMap { items: old_items, values: old_values } = emptied;
        let mut items = old_items;
        let mut values = old_values;
        items.push(item);
        values.push(value);
        proof {
            let ks = keys(before.items@);
            let after = keys(items@);
            assert(!ks.contains(k)) by {
                assert(!before@.contains_key(k));
            }
            assert(after =~= ks.push(k));
            assert(after[ks.len() as int] == k);
            assert(after.no_duplicates()) by {
                assert forall|i: int, j: int|
                    0 <= i < after.len() && 0 <= j < after.len() && i != j implies after[i]
                    != after[j] by {
                    if i < ks.len() {
                        assert(ks.contains(ks[i]));
                    }
                    if j < ks.len() {
                        assert(ks.contains(ks[j]));
                    }
                }
            }
            let m = Map::new(|a: T::Key| after.contains(a), |a: T::Key| values@[place(after, a)]);
            assert forall|a: T::Key| #[trigger] m.contains_key(a) <==> before@.insert(
                k,
                value,
            ).contains_key(a) by {
                if ks.contains(a) {
                    let j = choose|j: int| 0 <= j < ks.len() && ks[j] == a;
                    assert(after[j] == a);
                }
            }
            assert forall|a: T::Key| m.contains_key(a) implies #[trigger] m[a] == before@.insert(
                k,
                value,
            )[a] by {
                let j = place(after, a);
                assert(after[j] == a);
                if a == k {
                    assert(j == ks.len());
                } else {
                    assert(ks[j] == a);
                    let p = place(ks, a);
                    assert(ks[p] == a);
                    assert(p == j);
                }
            }
            assert(m =~= before@.insert(k, value));
        }
        *self = KeyMap { items, values };
        proof {
            assert(before@.insert(k, value) =~= old(self)@.insert(k, value));
        }
    }
}

} // verus!
