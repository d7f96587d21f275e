//! Client identifier.

use vstd::prelude::*;

verus! {

/// Identifier of an account holder. Its view is the underlying 16-bit value.
#[derive(Clone, Copy, Debug, PartialEq, Eq, Structural, PartialOrd, Ord, Hash)]
pub struct Client(u16);

impl View for Client {
    type V = u16;

    closed spec fn view(&self) -> u16 {
        self.0
    }
}

impl Client {
    /// Creates a new client identifier.
    pub fn from(id: u16) -> (r: Self)
        ensures
            r@ == id,
    {
        Client(id)
    }

    /// Returns a reference to the inner identifier value.
    pub fn inner_ref(&self) -> (r: &u16)
        ensures
            *r == self@,
    {
        &self.0
    }

    /// Whether two identifiers denote the same client.
    pub fn equals(&self, other: &Client) -> (r: bool)
        ensures
            r == (self@ == other@),
    {
        self.0 == other.0
    }
}

} // verus!
