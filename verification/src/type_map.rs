//! A map keyed by Rust types.
use crate::external::same_type;
use std::any::TypeId;
use vstd::prelude::*;

verus! {

/// A map from types to values: `values[i]` is under the type `keys[i]`, and no type occurs twice.
#[derive(Debug)]
pub struct TypeMap<V> {
    keys: Vec<TypeId>,
    values: Vec<V>,
}

impl<V> View for TypeMap<V> {
    type V = Map<TypeId, V>;

    closed spec fn view(&self) -> Map<TypeId, V> {
        entries(self.keys@, self.values@)
    }
}

/// The map in which `values[i]` is under `keys[i]`.
spec fn entries<V>(keys: Seq<TypeId>, values: Seq<V>) -> Map<TypeId, V> {
    Map::new(|key: TypeId| keys.contains(key), |key: TypeId| values[keys.index_of(key)])
}

/// Changing a value changes what is under its type, and nothing else.
proof fn lemma_update<V>(keys: Seq<TypeId>, values: Seq<V>, i: int, value: V)
    requires
        keys.no_duplicates(),
        keys.len() == values.len(),
        0 <= i < keys.len(),
    ensures
        entries(keys, values).dom().contains(keys[i]),
        entries(keys, values)[keys[i]] == values[i],
        entries(keys, values.update(i, value)) == entries(keys, values).insert(keys[i], value),
{
    assert(keys.contains(keys[i]));
    assert(keys.index_of(keys[i]) == i);
    let changed = entries(keys, values.update(i, value));
    assert forall|key: TypeId| #[trigger] changed.dom().contains(key) implies changed[key]
        == entries(keys, values).insert(keys[i], value)[key] by {
        assert(keys[keys.index_of(key)] == key);
    }
    assert(changed =~= entries(keys, values).insert(keys[i], value));
}

/// A value under a new type leaves the rest as it is.
proof fn lemma_push<V>(keys: Seq<TypeId>, values: Seq<V>, key: TypeId, value: V)
    requires
        keys.no_duplicates(),
        keys.len() == values.len(),
        !keys.contains(key),
    ensures
        keys.push(key).no_duplicates(),
        entries(keys.push(key), values.push(value)) == entries(keys, values).insert(key, value),
{
    let more = keys.push(key);
    let grown = entries(more, values.push(value));
    assert(more[keys.len() as int] == key);
    assert forall|k: TypeId| #[trigger] grown.dom().contains(k) == entries(keys, values).insert(
        key,
        value,
    ).dom().contains(k) by {
        if keys.contains(k) {
            assert(more[keys.index_of(k)] == k);
        }
        if more.contains(k) {
            assert(more[more.index_of(k)] == k);
        }
    }
    assert forall|k: TypeId| #[trigger] grown.dom().contains(k) implies grown[k] == entries(
        keys,
        values,
    ).insert(key, value)[k] by {
        let i = more.index_of(k);
        assert(more[i] == k);
        if i < keys.len() {
            assert(keys[i] == k);
            assert(keys[keys.index_of(k)] == k);
        }
    }
    assert(grown =~= entries(keys, values).insert(key, value));
}

impl<V> TypeMap<V> {
    #[verifier::type_invariant]
    spec fn paired(&self) -> bool {
        self.keys@.no_duplicates() && self.keys@.len() == self.values@.len()
    }

    /// The map without an entry.
    pub fn new() -> (map: Self)
        ensures
            map@ == Map::<TypeId, V>::empty(),
    {
        let map = TypeMap { keys: Vec::new(), values: Vec::new() };
        assert(map@ =~= Map::<TypeId, V>::empty());
        map
    }

    /// Where a type stands among the keys, if it does.
    fn position(&self, key: &TypeId) -> (position: Option<usize>)
        ensures
            match position {
                Some(i) => i < self.keys@.len() && self.keys@[i as int] == *key,
                None => !self.keys@.contains(*key),
            },
    {
        let mut i: usize = 0;
        while i < self.keys.len()
            invariant
                i <= self.keys@.len(),
                forall|j: int| 0 <= j < i ==> self.keys@[j] != *key,
            decreases self.keys@.len() - i,
        {
            if same_type(&self.keys[i], key) {
                return Some(i);
            }
            i += 1;
        }
        None
    }

    /// The value under a type.
    pub fn get(&self, key: &TypeId) -> (value: Option<&V>)
        ensures
            match value {
                Some(value) => self@.dom().contains(*key) && self@[*key] == *value,
                None => !self@.dom().contains(*key),
            },
    {
        proof {
            use_type_invariant(self);
        }
        match self.position(key) {
            Some(i) => {
                proof {
                    lemma_update(self.keys@, self.values@, i as int, self.values@[i as int]);
                }
                Some(&self.values[i])
            },
            None => None,
        }
    }

    /// The value under a type, to be changed.
    pub fn get_mut(&mut self, key: &TypeId) -> (value: Option<&mut V>)
        ensures
            match value {
                Some(value) => {
                    &&& old(self)@.dom().contains(*key)
                    &&& *value == old(self)@[*key]
                    &&& final(self)@ == old(self)@.insert(*key, *final(value))
                },
                None => !old(self)@.dom().contains(*key) && final(self)@ == old(self)@,
            },
    {
        proof {
            use_type_invariant(&*self);
        }
        match self.position(key) {
            Some(i) => {
                let ghost keys = self.keys@;
                let ghost values = self.values@;
                let value = &mut self.values[i];
                proof {
                    lemma_update(keys, values, i as int, *final(value));
                }
                Some(value)
            },
            None => None,
        }
    }

    /// Puts a value under a type, and gives back the one that was there.
    pub fn insert(&mut self, key: TypeId, value: V) -> (replaced: Option<V>)
        ensures
            final(self)@ == old(self)@.insert(key, value),
            replaced == if old(self)@.dom().contains(key) {
                Some(old(self)@[key])
            } else {
                None
            },
    {
        proof {
            use_type_invariant(&*self);
        }
        match self.position(&key) {
            Some(i) => {
                proof {
                    lemma_update(self.keys@, self.values@, i as int, value);
                }
                let mut value = value;
                std::mem::swap(&mut self.values[i], &mut value);
                Some(value)
            },
            None => {
                proof {
                    lemma_push(self.keys@, self.values@, key, value);
                }
                let mut map = TypeMap::new();
                std::mem::swap(self, &mut map);
                let TypeMap { mut keys, mut values } = map;
                keys.push(key);
                values.push(value);
                *self = TypeMap { keys, values };
                None
            },
        }
    }
}

} // verus!
