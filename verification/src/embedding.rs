//! The embedding value produced for one document.

use vstd::prelude::*;

verus! {

/// A fixed-length numeric vector representing one document in the
/// model's vector space, immutable once produced.
///
/// Each component is carried as the bit pattern of an IEEE 754
/// single-precision number, so the vector can be moved, stored and
/// compared exactly; interpreting the components numerically is the
/// consumer's concern.
#[derive(Debug, Clone, PartialEq, Eq)]
pub struct Embedding {
    pub bits: Vec<u32>,
}

impl View for Embedding {
    type V = Seq<u32>;

    open spec fn view(&self) -> Seq<u32> {
        self.bits@
    }
}

impl Embedding {
    pub fn new(bits: Vec<u32>) -> (e: Embedding)
        ensures
            e@ == bits@,
    {
        Embedding { bits }
    }

    /// Number of components of the vector.
    pub fn len(&self) -> (n: usize)
        ensures
            n == self@.len(),
    {
        self.bits.len()
    }
}

} // verus!
