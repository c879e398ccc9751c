//! The physical-key to logical-action table. Built once at load time from a
//! profile and read-only afterwards; keys that are absent are simply ignored
//! by the translator.

use vstd::prelude::*;
use std::collections::HashMap;
use crate::actions::XboxButton;

verus! {

broadcast use vstd::std_specs::hash::group_hash_axioms;

/// Table from a physical key code to the logical action it drives.
#[derive(Debug)]
pub struct Mapping {
    table: HashMap<u16, XboxButton>,
}

impl View for Mapping {
    type V = Map<u16, XboxButton>;

    closed spec fn view(&self) -> Map<u16, XboxButton> {
        self.table@
    }
}

impl Mapping {
    /// An empty table.
    pub fn new() -> (m: Mapping)
        ensures
            m@ == Map::<u16, XboxButton>::empty(),
    {
        Mapping { table: HashMap::new() }
    }

    /// Binds a key to an action, overwriting any earlier binding of that key.
    pub fn insert(&mut self, key: u16, action: XboxButton)
        ensures
            final(self)@ == old(self)@.insert(key, action),
    {
        self.table.insert(key, action);
    }

    /// The action the key is bound to, if any.
    pub fn lookup(&self, key: u16) -> (r: Option<XboxButton>)
        ensures
            r == if self@.contains_key(key) {
                Some(self@[key])
            } else {
                None::<XboxButton>
            },
    {
        match self.table.get(&key) {
            Some(a) => Some(*a),
            None => None,
        }
    }

    /// Whether the key is bound.
    pub fn contains(&self, key: u16) -> (r: bool)
        ensures
            r == self@.contains_key(key),
    {
        self.table.contains_key(&key)
    }

    /// Number of bound keys.
    pub fn len(&self) -> (n: usize)
        ensures
            n == self@.len(),
    {
        self.table.len()
    }
}

} // verus!
