//! Word-addressed memory of the machine model.
//!
//! Each address holds one 64-bit word; an address never written reads as
//! zero. The transition routines only touch eight-byte slots, so partial
//! overlap of neighbouring words is not modelled.
use std::collections::HashMap;
use vstd::prelude::*;

verus! {

broadcast use vstd::std_specs::hash::group_hash_axioms;

/// The word stored at `a`, zero where nothing was written.
pub open spec fn word_at(m: Map<u64, u64>, a: u64) -> u64 {
    if m.contains_key(a) {
        m[a]
    } else {
        0
    }
}

pub struct Memory {
    pub words: HashMap<u64, u64>,
}

impl View for Memory {
    type V = Map<u64, u64>;

    open spec fn view(&self) -> Map<u64, u64> {
        self.words@
    }
}

impl Memory {
    /// Memory in which every word is zero.
    pub fn new() -> (r: Memory)
        ensures
            r@ == Map::<u64, u64>::empty(),
    {
        Memory { words: HashMap::new() }
    }

    pub fn read(&self, a: u64) -> (r: u64)
        ensures
            r == word_at(self@, a),
    {
        match self.words.get(&a) {
            Some(v) => *v,
            None => 0,
        }
    }

    pub fn write(&mut self, a: u64, v: u64)
        ensures
            final(self)@ == old(self)@.insert(a, v),
    {
        self.words.insert(a, v);
    }
}

} // verus!
