//! A dense vector of double-precision scalars, each held as its IEEE-754 bit
//! pattern (see `fp`). The view of a vector is the sequence of its entries.

use vstd::prelude::*;

verus! {

pub struct Vector {
    /// The entries, as IEEE-754 bit patterns. Treat as read-only; use
    /// `new`, `get` and `set`.
    pub data: Vec<u64>,
}

impl View for Vector {
    type V = Seq<u64>;

    open spec fn view(&self) -> Seq<u64> {
        self.data@
    }
}

impl Vector {
    /// Creates a new vector of the given dimension, filled with zeros.
    pub fn new(dim: usize) -> (v: Vector)
        ensures
            v@.len() == dim,
            forall|i: int| 0 <= i < dim ==> v@[i] == 0u64,
    {
        let mut data: Vec<u64> = Vec::new();
        for k in 0..dim
            invariant
                data@.len() == k,
                forall|i: int| 0 <= i < k ==> data@[i] == 0u64,
        {
            data.push(0);
        }
        Vector { data }
    }

    /// The dimension (number of entries).
    pub fn dim(&self) -> (n: usize)
        ensures
            n == self@.len(),
    {
        self.data.len()
    }

    /// The entry at position `i`.
    pub fn get(&self, i: usize) -> (r: u64)
        requires
            i < self@.len(),
        ensures
            r == self@[i as int],
    {
        self.data[i]
    }

    /// Replaces the entry at position `i`.
    pub fn set(&mut self, i: usize, value: u64)
        requires
            i < old(self)@.len(),
        ensures
            final(self)@ == old(self)@.update(i as int, value),
    {
        self.data[i] = value;
    }
}

} // verus!
