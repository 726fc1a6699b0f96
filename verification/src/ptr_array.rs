//! An owned buffer of `i32` that C fills in place through a
//! pointer-and-length pair.
use vstd::prelude::*;

verus! {

/// The values that C reads and fills; the buffer keeps its length while C
/// works on it.
pub struct PtrArrayRs {
    values: Vec<i32>,
}

impl View for PtrArrayRs {
    type V = Seq<i32>;

    closed spec fn view(&self) -> Seq<i32> {
        self.values@
    }
}

impl PtrArrayRs {
    /// Takes ownership of `values`.
    pub fn new(values: Vec<i32>) -> (r: Self)
        ensures
            r@ == values@,
    {
        PtrArrayRs { values }
    }

    /// The values, as the program prints them.
    pub fn values(&self) -> (r: &[i32])
        ensures
            r@ == self@,
    {
        self.values.as_slice()
    }

    /// The buffer itself, so that its storage can be handed to C. Whatever
    /// is written through the returned reference is what the array holds
    /// afterwards.
    pub fn values_mut(&mut self) -> (r: &mut Vec<i32>)
        ensures
            r@ == old(self)@,
            final(self)@ == final(r)@,
    {
        &mut self.values
    }
}

} // verus!
