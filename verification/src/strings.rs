//! Metafied strings: non-null handles to zsh's internal string encoding.
use vstd::prelude::*;
use crate::types::{Addr, NULL};

verus! {

/// A non-null pointer to a metafied C string.
#[derive(Debug, Copy, Clone)]
pub struct MetaString {
    ptr: Addr,
}

impl View for MetaString {
    type V = Addr;

    closed spec fn view(&self) -> Addr {
        self.ptr
    }
}

impl MetaString {
    #[verifier::type_invariant]
    spec fn non_null(self) -> bool {
        self.ptr != NULL
    }

    /// The handle for a non-null string address.
    pub fn from_ptr(ptr: Addr) -> (r: Option<Self>)
        ensures
            r is Some <==> ptr != NULL,
            r matches Some(s) ==> s@ == ptr,
    {
        if ptr == NULL {
            None
        } else {
            Some(MetaString { ptr })
        }
    }

    /// The string's address.
    #[inline(always)]
    pub fn as_ptr(&self) -> (r: Addr)
        ensures
            r == self@,
            r != NULL,
    {
        proof {
            use_type_invariant(self);
        }
        self.ptr
    }

    /// The string's address, for writing.
    #[inline(always)]
    pub fn as_mut_ptr(&mut self) -> (r: Addr)
        ensures
            r == old(self)@,
            r != NULL,
            final(self)@ == old(self)@,
    {
        self.as_ptr()
    }

    /// The string's address, known to be non-null.
    #[inline(always)]
    pub fn as_nonnull_ptr(&mut self) -> (r: Addr)
        ensures
            r == old(self)@,
            r != NULL,
            final(self)@ == old(self)@,
    {
        self.as_ptr()
    }
}

} // verus!
