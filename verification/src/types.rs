//! Typed handles for the runtime's objects. A handle is a non-null machine
//! address; keeping one type per role prevents mixing them up.

use vstd::prelude::*;

verus! {

/// Handle of the runtime's domain.
pub struct Il2CppDomain {
    addr: usize,
}

/// Handle of a loaded assembly image.
pub struct Il2CppImage {
    addr: usize,
}

/// Handle of a class.
pub struct Il2CppClass {
    addr: usize,
}

impl Il2CppDomain {
    #[verifier::type_invariant]
    spec fn non_null(self) -> bool {
        self.addr != 0
    }

    /// The address behind the handle.
    pub closed spec fn view(&self) -> usize {
        self.addr
    }

    /// Makes a handle from an address the runtime returned; null gives none.
    pub fn from_addr(addr: usize) -> (handle: Option<Il2CppDomain>)
        ensures
            match handle {
                Some(h) => h@ == addr && addr != 0,
                None => addr == 0,
            },
    {
        if addr == 0 {
            None
        } else {
            Some(Il2CppDomain { addr })
        }
    }

    pub fn addr(&self) -> (addr: usize)
        ensures
            addr == self@,
            addr != 0,
    {
        proof {
            use_type_invariant(self);
        }
        self.addr
    }
}

impl Il2CppImage {
    #[verifier::type_invariant]
    spec fn non_null(self) -> bool {
        self.addr != 0
    }

    /// The address behind the handle.
    pub closed spec fn view(&self) -> usize {
        self.addr
    }

    /// Makes a handle from an address the runtime returned; null gives none.
    pub fn from_addr(addr: usize) -> (handle: Option<Il2CppImage>)
        ensures
            match handle {
                Some(h) => h@ == addr && addr != 0,
                None => addr == 0,
            },
    {
        if addr == 0 {
            None
        } else {
            Some(Il2CppImage { addr })
        }
    }

    pub fn addr(&self) -> (addr: usize)
        ensures
            addr == self@,
            addr != 0,
    {
        proof {
            use_type_invariant(self);
        }
        self.addr
    }
}

impl Il2CppClass {
    #[verifier::type_invariant]
    spec fn non_null(self) -> bool {
        self.addr != 0
    }

    /// The address behind the handle.
    pub closed spec fn view(&self) -> usize {
        self.addr
    }

    /// Makes a handle from an address the runtime returned; null gives none.
    pub fn from_addr(addr: usize) -> (handle: Option<Il2CppClass>)
        ensures
            match handle {
                Some(h) => h@ == addr && addr != 0,
                None => addr == 0,
            },
    {
        if addr == 0 {
            None
        } else {
            Some(Il2CppClass { addr })
        }
    }

    pub fn addr(&self) -> (addr: usize)
        ensures
            addr == self@,
            addr != 0,
    {
        proof {
            use_type_invariant(self);
        }
        self.addr
    }
}

} // verus!
