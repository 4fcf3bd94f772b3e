//! Wrapper for values that live in code memory.
//!
//! On the device, code memory is mapped at a different address once the
//! application is installed, and every access must go through an
//! address-translation primitive owned by an external collaborator.  On the
//! host the mapping is the identity, which is what this crate relies on:
//! the wrapper hands back exactly the value it was built around.

use vstd::prelude::*;

verus! {

/// A value accessed through the code-memory mapping.
#[derive(Debug, Clone, Copy, PartialEq, Eq)]
pub struct PIC<T> {
    data: T,
}

impl<T> PIC<T> {
    /// The wrapped value, for specifications.
    pub closed spec fn spec_inner(&self) -> T {
        self.data
    }

    /// Wrap a value.
    pub fn new(data: T) -> (r: PIC<T>)
        ensures
            r.spec_inner() == data,
    {
        PIC { data }
    }

    /// Borrow the wrapped value.
    pub fn get_ref(&self) -> (r: &T)
        ensures
            *r == self.spec_inner(),
    {
        &self.data
    }

    /// Borrow the wrapped value mutably.
    pub fn get_mut(&mut self) -> (r: &mut T)
        ensures
            *r == old(self).spec_inner(),
            final(self).spec_inner() == *final(r),
    {
        &mut self.data
    }

    /// Unwrap the value.
    pub fn into_inner(self) -> (r: T)
        ensures
            r == self.spec_inner(),
    {
        self.data
    }
}

} // verus!
