//! The descriptor of a function compiled by the optimising compiler.
use vstd::prelude::*;

use crate::gc::Address;
use crate::vm::FctId;

verus! {

/// A function compiled by the optimising compiler: which function it is and
/// where its code starts.
pub struct JitOptFct {
    pub fct_id: FctId,
    pub fct_start: Address,
}

impl JitOptFct {
    /// The function that the code belongs to.
    pub fn fct_id(&self) -> (id: FctId)
        ensures
            id == self.fct_id,
    {
        self.fct_id
    }

    /// The address of the first instruction of the function.
    pub fn fct_ptr(&self) -> (ptr: Address)
        ensures
            ptr == self.fct_start,
    {
        self.fct_start
    }
}

} // verus!
