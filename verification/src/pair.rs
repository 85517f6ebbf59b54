//! A small generic key-value pair.

use vstd::prelude::*;

verus! {

pub struct Pair<K, V> {
    key: K,
    value: V,
}

impl<K, V> Pair<K, V> {
    pub closed spec fn spec_key(&self) -> K {
        self.key
    }

    pub closed spec fn spec_value(&self) -> V {
        self.value
    }

    pub fn new(key: K, value: V) -> (p: Pair<K, V>)
        ensures
            p.spec_key() == key,
            p.spec_value() == value,
    {
        Pair { key, value }
    }

    pub fn key(&self) -> (r: &K)
        ensures
            *r == self.spec_key(),
    {
        &self.key
    }

    pub fn value(&self) -> (r: &V)
        ensures
            *r == self.spec_value(),
    {
        &self.value
    }
}

} // verus!
