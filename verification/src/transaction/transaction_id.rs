//! Transaction identifier.

use vstd::prelude::*;

verus! {

/// Unique identifier of a fund-moving event, later referenced by the
/// dispute lifecycle. Its view is the underlying 32-bit value.
#[derive(Clone, Copy, Debug, PartialEq, Eq, Structural, Hash)]
pub struct TransactionId(u32);

impl View for TransactionId {
    type V = u32;

    closed spec fn view(&self) -> u32 {
        self.0
    }
}

impl TransactionId {
    /// Creates a new transaction identifier.
    pub fn from(id: u32) -> (r: Self)
        ensures
            r@ == id,
    {
        TransactionId(id)
    }

    /// Returns a reference to the inner identifier value.
    pub fn inner_ref(&self) -> (r: &u32)
        ensures
            *r == self@,
    {
        &self.0
    }

    /// Whether two identifiers denote the same transaction.
    pub fn equals(&self, other: &TransactionId) -> (r: bool)
        ensures
            r == (self@ == other@),
    {
        self.0 == other.0
    }
}

} // verus!
