//! Non-null native references: addresses of resolved commands and handles of
//! native objects. Both are checked once, when they are made, and are never
//! null afterwards.

use vstd::prelude::*;

verus! {

/// The address of a native command, as resolved by name. It is never null.
#[derive(Debug, Clone, Copy, PartialEq, Eq, Structural)]
pub struct FunctionAddress {
    raw: usize,
}

/// The handle of a native object. It is never null.
#[derive(Debug, Clone, Copy, PartialEq, Eq, Structural)]
pub struct Handle {
    raw: u64,
}

impl FunctionAddress {
    #[verifier::type_invariant]
    spec fn non_null(self) -> bool {
        self.raw != 0
    }

    /// The address as an integer.
    pub closed spec fn spec_raw(self) -> usize {
        self.raw
    }

    /// The address that stands for the integer `raw`.
    pub closed spec fn at(raw: usize) -> FunctionAddress {
        FunctionAddress { raw }
    }

    /// What resolving a name gave: nothing where the native layer answered
    /// null, the address otherwise.
    pub open spec fn spec_new(raw: usize) -> Option<FunctionAddress> {
        if raw == 0 {
            None
        } else {
            Some(FunctionAddress::at(raw))
        }
    }

    /// Checks a resolved address: null is "absent".
    pub fn new(raw: usize) -> (r: Option<Self>)
        ensures
            r == FunctionAddress::spec_new(raw),
            r is None <==> raw == 0,
            r matches Some(a) ==> a.spec_raw() == raw,
    {
        if raw == 0 {
            None
        } else {
            Some(FunctionAddress { raw })
        }
    }

    pub fn raw(&self) -> (r: usize)
        ensures
            r == self.spec_raw(),
            r != 0,
    {
        proof {
            use_type_invariant(self);
        }
        self.raw
    }

    /// An address is determined by its integer.
    pub proof fn lemma_at(raw: usize, a: FunctionAddress)
        ensures
            FunctionAddress::at(raw).spec_raw() == raw,
            FunctionAddress::at(a.spec_raw()) == a,
    {
    }
}

impl Handle {
    #[verifier::type_invariant]
    spec fn non_null(self) -> bool {
        self.raw != 0
    }

    /// The handle as an integer.
    pub closed spec fn spec_raw(self) -> u64 {
        self.raw
    }

    /// The handle that stands for the integer `raw`.
    pub closed spec fn of(raw: u64) -> Handle {
        Handle { raw }
    }

    /// What a native answer holds: nothing where it is null, the handle
    /// otherwise.
    pub open spec fn spec_new(raw: u64) -> Option<Handle> {
        if raw == 0 {
            None
        } else {
            Some(Handle::of(raw))
        }
    }

    /// Checks a native handle: null is "no object".
    pub fn new(raw: u64) -> (r: Option<Self>)
        ensures
            r == Handle::spec_new(raw),
            r is None <==> raw == 0,
            r matches Some(h) ==> h.spec_raw() == raw,
    {
        if raw == 0 {
            None
        } else {
            Some(Handle { raw })
        }
    }

    pub fn raw(&self) -> (r: u64)
        ensures
            r == self.spec_raw(),
            r != 0,
    {
        proof {
            use_type_invariant(self);
        }
        self.raw
    }

    /// A handle is determined by its integer.
    pub proof fn lemma_of(raw: u64, h: Handle)
        ensures
            Handle::of(raw).spec_raw() == raw,
            Handle::of(h.spec_raw()) == h,
    {
    }
}

} // verus!
