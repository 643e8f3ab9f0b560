//! Addresses in the managed code heap.
use vstd::prelude::*;

verus! {

/// An address: a number of bytes from the start of memory.
#[derive(Clone, Copy, Debug, PartialEq, Eq, Structural)]
pub struct Address(pub usize);

impl Address {
    /// The address with the number `val`.
    pub fn from(val: usize) -> (a: Address)
        ensures
            a.0 == val,
    {
        Address(val)
    }

    /// The null address.
    pub fn null() -> (a: Address)
        ensures
            a.0 == 0,
    {
        Address(0)
    }

    /// Whether this is the null address.
    pub fn is_null(self) -> (b: bool)
        ensures
            b == (self.0 == 0),
    {
        self.0 == 0
    }

    /// Whether this is an address other than null.
    pub fn is_non_null(self) -> (b: bool)
        ensures
            b == (self.0 != 0),
    {
        self.0 != 0
    }

    /// The address `offset` bytes further on.
    pub fn offset(self, offset: usize) -> (a: Address)
        requires
            self.0 + offset <= usize::MAX,
        ensures
            a.0 == self.0 + offset,
    {
        Address(self.0 + offset)
    }

    /// The number of the address.
    pub fn to_usize(self) -> (val: usize)
        ensures
            val == self.0,
    {
        self.0
    }
}

} // verus!
