//! A small map from names to values that keeps the order in which names were
//! first added. Its model is the sequence of its entries, no name twice.

use vstd::prelude::*;

verus! {

/// The position of `key` among `entries`, if it has one.
pub open spec fn position_of<T>(entries: Seq<(Seq<char>, T)>, key: Seq<char>) -> Option<int>
    decreases entries.len(),
{
    if entries.len() == 0 {
        None
    } else if entries.last().0 == key {
        Some(entries.len() - 1)
    } else {
        position_of(entries.drop_last(), key)
    }
}

/// Whether `entries` holds `key`.
pub open spec fn has_key<T>(entries: Seq<(Seq<char>, T)>, key: Seq<char>) -> bool {
    position_of(entries, key) is Some
}

/// The value that `entries` holds for `key`.
pub open spec fn value_of<T>(entries: Seq<(Seq<char>, T)>, key: Seq<char>) -> T
    recommends
        has_key(entries, key),
{
    entries[position_of(entries, key).unwrap()].1
}

/// No name occurs twice.
pub open spec fn distinct_keys<T>(entries: Seq<(Seq<char>, T)>) -> bool {
    forall|i: int, j: int|
        0 <= i < j < entries.len() ==> (#[trigger] entries[i]).0 != (#[trigger] entries[j]).0
}

/// `entries` with `key` set to `value`: replaced where it stands, else added
/// at the end.
pub open spec fn with_entry<T>(entries: Seq<(Seq<char>, T)>, key: Seq<char>, value: T) -> Seq<
    (Seq<char>, T),
> {
    match position_of(entries, key) {
        Some(i) => entries.update(i, (key, value)),
        None => entries.push((key, value)),
    }
}

/// `entries` without `key`.
pub open spec fn without_key<T>(entries: Seq<(Seq<char>, T)>, key: Seq<char>) -> Seq<
    (Seq<char>, T),
> {
    match position_of(entries, key) {
        Some(i) => entries.remove(i),
        None => entries,
    }
}

/// What `position_of` finds: an entry with the key, and with distinct names
/// the only one; with no result no entry has the key.
pub proof fn position_of_spec<T>(entries: Seq<(Seq<char>, T)>, key: Seq<char>)
    ensures
        match position_of(entries, key) {
            Some(i) => 0 <= i < entries.len() && entries[i].0 == key,
            None => forall|j: int| 0 <= j < entries.len() ==> (#[trigger] entries[j]).0 != key,
        },
    decreases entries.len(),
{
    if entries.len() > 0 && entries.last().0 != key {
        position_of_spec(entries.drop_last(), key);
        assert forall|j: int| 0 <= j < entries.len() - 1 implies entries[j]
            == entries.drop_last()[j] by {}
    }
}

/// With distinct names, the position of an entry's name is that entry's.
pub proof fn position_of_unique<T>(entries: Seq<(Seq<char>, T)>, i: int)
    requires
        distinct_keys(entries),
        0 <= i < entries.len(),
    ensures
        position_of(entries, entries[i].0) == Some(i),
{
    position_of_spec(entries, entries[i].0);
}

/// Setting a name keeps names distinct and makes the name present with the
/// new value.
pub proof fn with_entry_sets<T>(entries: Seq<(Seq<char>, T)>, key: Seq<char>, value: T)
    requires
        distinct_keys(entries),
    ensures
        distinct_keys(with_entry(entries, key, value)),
        has_key(with_entry(entries, key, value), key),
        value_of(with_entry(entries, key, value), key) == value,
{
    let after = with_entry(entries, key, value);
    position_of_spec(entries, key);
    match position_of(entries, key) {
        Some(i) => {
            assert forall|a: int, b: int| 0 <= a < b < after.len() implies (#[trigger] after[a]).0
                != (#[trigger] after[b]).0 by {
                assert(after[a].0 == entries[a].0);
                assert(after[b].0 == entries[b].0);
            }
            position_of_unique(after, i);
        },
        None => {
            assert forall|a: int, b: int| 0 <= a < b < after.len() implies (#[trigger] after[a]).0
                != (#[trigger] after[b]).0 by {
                if b < entries.len() {
                    assert(after[a] == entries[a] && after[b] == entries[b]);
                } else {
                    assert(after[a] == entries[a]);
                }
            }
            position_of_unique(after, entries.len() as int);
        },
    }
}

/// Setting a name leaves every other name as it was.
pub proof fn with_entry_keeps<T>(
    entries: Seq<(Seq<char>, T)>,
    key: Seq<char>,
    value: T,
    other: Seq<char>,
)
    requires
        distinct_keys(entries),
        other != key,
    ensures
        has_key(with_entry(entries, key, value), other) == has_key(entries, other),
        has_key(entries, other) ==> value_of(with_entry(entries, key, value), other) == value_of(
            entries,
            other,
        ),
{
    let after = with_entry(entries, key, value);
    with_entry_sets(entries, key, value);
    position_of_spec(entries, key);
    position_of_spec(entries, other);
    position_of_spec(after, other);
    match position_of(entries, other) {
        Some(j) => {
            assert(after[j] == entries[j]);
            position_of_unique(after, j);
        },
        None => {
            if let Some(j) = position_of(after, other) {
                if j < entries.len() {
                    assert(after[j].0 == entries[j].0);
                }
            }
        },
    }
}

/// Removing a name keeps names distinct and makes the name absent.
pub proof fn without_key_removes<T>(entries: Seq<(Seq<char>, T)>, key: Seq<char>)
    requires
        distinct_keys(entries),
    ensures
        distinct_keys(without_key(entries, key)),
        !has_key(without_key(entries, key), key),
{
    let after = without_key(entries, key);
    position_of_spec(entries, key);
    position_of_spec(after, key);
    match position_of(entries, key) {
        Some(i) => {
            assert forall|a: int, b: int| 0 <= a < b < after.len() implies (#[trigger] after[a]).0
                != (#[trigger] after[b]).0 by {
                let a2 = if a < i { a } else { a + 1 };
                let b2 = if b < i { b } else { b + 1 };
                assert(after[a] == entries[a2] && after[b] == entries[b2]);
            }
            if let Some(k) = position_of(after, key) {
                let k2 = if k < i { k } else { k + 1 };
                assert(after[k] == entries[k2]);
                if k2 < i {
                    assert(entries[k2].0 != entries[i].0);
                } else {
                    assert(entries[i].0 != entries[k2].0);
                }
            }
        },
        None => {},
    }
}

/// Removing a name leaves every other name as it was.
pub proof fn without_key_keeps<T>(entries: Seq<(Seq<char>, T)>, key: Seq<char>, other: Seq<char>)
    requires
        distinct_keys(entries),
        other != key,
    ensures
        has_key(without_key(entries, key), other) == has_key(entries, other),
        has_key(entries, other) ==> value_of(without_key(entries, key), other) == value_of(
            entries,
            other,
        ),
{
    let after = without_key(entries, key);
    without_key_removes(entries, key);
    position_of_spec(entries, key);
    position_of_spec(entries, other);
    position_of_spec(after, other);
    match position_of(entries, key) {
        Some(i) => {
            match position_of(entries, other) {
                Some(j) => {
                    let j2 = if j < i { j } else { j - 1 };
                    assert(after[j2] == entries[j]);
                    position_of_unique(after, j2);
                },
                None => {
                    if let Some(j) = position_of(after, other) {
                        let j2 = if j < i { j } else { j + 1 };
                        assert(after[j] == entries[j2]);
                    }
                },
            }
        },
        None => {},
    }
}

/// The model of a list of entries: each name by its characters.
pub open spec fn model_of<V>(entries: Seq<(String, V)>) -> Seq<(Seq<char>, V)> {
    Seq::new(entries.len(), |i: int| (entries[i].0@, entries[i].1))
}

/// A map from names to values, in the order in which names were added.
#[derive(Debug)]
pub struct NameMap<V> {
    entries: Vec<(String, V)>,
}

impl<V> View for NameMap<V> {
    type V = Seq<(Seq<char>, V)>;

    closed spec fn view(&self) -> Seq<(Seq<char>, V)> {
        model_of(self.entries@)
    }
}

impl<V> NameMap<V> {
    #[verifier::type_invariant]
    spec fn well_formed(&self) -> bool {
        distinct_keys(self@)
    }

    /// The empty map.
    pub fn new() -> (r: Self)
        ensures
            r@ == Seq::<(Seq<char>, V)>::empty(),
    {
        let r = NameMap { entries: Vec::new() };
        assert(r@ =~= Seq::<(Seq<char>, V)>::empty());
        r
    }

    /// The number of names, which are distinct.
    pub fn len(&self) -> (r: usize)
        ensures
            r == self@.len(),
            distinct_keys(self@),
    {
        proof {
            use_type_invariant(self);
        }
        self.entries.len()
    }

    /// Whether the map holds no name.
    pub fn is_empty(&self) -> (r: bool)
        ensures
            r == (self@.len() == 0),
    {
        self.entries.len() == 0
    }

    fn find(&self, key: &str) -> (r: Option<usize>)
        ensures
            r matches Some(i) ==> position_of(self@, key@) == Some(i as int) && i
                < self.entries@.len(),
            r is None ==> position_of(self@, key@) is None,
    {
        proof {
            use_type_invariant(self);
        }
        let mut i: usize = 0;
        while i < self.entries.len()
            invariant
                i <= self.entries@.len(),
                self@.len() == self.entries@.len(),
                distinct_keys(self@),
                forall|j: int| 0 <= j < i ==> (#[trigger] self@[j]).0 != key@,
            decreases self.entries@.len() - i,
        {
            if *self.entries[i].0.as_str() == *key {
                proof {
                    assert(self@[i as int].0 == key@);
                    position_of_spec(self@, key@);
                    let p = position_of(self@, key@).unwrap();
                    if p < i {
                        assert(self@[p].0 != key@);
                    } else if p > i {
                        assert(self@[i as int].0 != self@[p].0);
                    }
                }
                return Some(i);
            }
            i = i + 1;
        }
        proof {
            position_of_spec(self@, key@);
        }
        None
    }

    /// Whether the map holds `key`.
    pub fn contains_key(&self, key: &str) -> (r: bool)
        ensures
            r == has_key(self@, key@),
            distinct_keys(self@),
    {
        proof {
            use_type_invariant(self);
        }
        self.find(key).is_some()
    }

    /// The value of `key`, if the map holds it.
    pub fn get(&self, key: &str) -> (r: Option<&V>)
        ensures
            r is Some == has_key(self@, key@),
            r matches Some(v) ==> *v == value_of(self@, key@),
            distinct_keys(self@),
    {
        proof {
            use_type_invariant(self);
        }
        match self.find(key) {
            Some(i) => Some(&self.entries[i].1),
            None => None,
        }
    }

    /// The name at position `i`.
    pub fn name_at(&self, i: usize) -> (r: &String)
        requires
            i < self@.len(),
        ensures
            r@ == self@[i as int].0,
    {
        &self.entries[i].0
    }

    /// The value at position `i`.
    pub fn value_at(&self, i: usize) -> (r: &V)
        requires
            i < self@.len(),
        ensures
            *r == self@[i as int].1,
    {
        &self.entries[i].1
    }

    /// Sets `key` to `value` and returns the value it had before, if any.
    pub fn insert(&mut self, key: String, value: V) -> (r: Option<V>)
        ensures
            final(self)@ == with_entry(old(self)@, key@, value),
            r is Some == has_key(old(self)@, key@),
            r matches Some(v) ==> v == value_of(old(self)@, key@),
            distinct_keys(old(self)@),
            distinct_keys(final(self)@),
    {
        proof {
            use_type_invariant(&*self);
            with_entry_sets(self@, key@, value);
        }
        let ghost before = self@;
        let found = self.find(key.as_str());
        let mut entries: Vec<(String, V)> = Vec::new();
        std::mem::swap(&mut entries, &mut self.entries);
        let previous = match found {
            Some(i) => {
                entries.push((key, value));
                let replaced = entries.swap_remove(i);
                Some(replaced.1)
            },
            None => {
                entries.push((key, value));
                None
            },
        };
        assert(model_of(entries@) =~= with_entry(before, key@, value));
        self.entries = entries;
        previous
    }

    /// Takes `key` out of the map and returns its value, if it had one.
    pub fn remove(&mut self, key: &str) -> (r: Option<V>)
        ensures
            final(self)@ == without_key(old(self)@, key@),
            r is Some == has_key(old(self)@, key@),
            r matches Some(v) ==> v == value_of(old(self)@, key@),
            distinct_keys(old(self)@),
            distinct_keys(final(self)@),
    {
        proof {
            use_type_invariant(&*self);
            without_key_removes(self@, key@);
        }
        let ghost before = self@;
        let found = self.find(key);
        let mut entries: Vec<(String, V)> = Vec::new();
        std::mem::swap(&mut entries, &mut self.entries);
        let previous = match found {
            Some(i) => {
                let removed = entries.remove(i);
                Some(removed.1)
            },
            None => None,
        };
        assert(model_of(entries@) =~= without_key(before, key@));
        self.entries = entries;
        previous
    }

    /// The names, in the map's order.
    pub fn keys(&self) -> (r: Vec<&String>)
        ensures
            r@.len() == self@.len(),
            forall|i: int| 0 <= i < r@.len() ==> (#[trigger] r@[i])@ == self@[i].0,
    {
        let mut names: Vec<&String> = Vec::new();
        let mut i: usize = 0;
        while i < self.entries.len()
            invariant
                i <= self.entries@.len(),
                self@.len() == self.entries@.len(),
                names@.len() == i,
                forall|j: int| 0 <= j < i ==> (#[trigger] names@[j])@ == self@[j].0,
            decreases self.entries@.len() - i,
        {
            names.push(&self.entries[i].0);
            i = i + 1;
        }
        names
    }
}

} // verus!
