//! Abstract error kinds and their conversion to the host's negative
//! integer status codes.
//!
//! The host subsystem reports failure as a small negative integer.  This
//! layer works with an abstract kind and converts at the boundary, in both
//! directions, so that no verified code ever manipulates a bare code.

use vstd::prelude::*;

verus! {

/// An abstract error kind, convertible to a small negative status code.
///
/// `NotImplemented` is the distinguished kind produced by the default body
/// of every optional device operation; it is how an author-visible call on
/// an operation nobody overrode reports itself.
#[derive(Copy, Clone, PartialEq, Eq, Structural, Debug)]
pub enum Error {
    /// An argument was invalid for the requested operation.
    Invalid,
    /// The host subsystem is out of memory.
    NoMemory,
    /// A required resource is exhausted or busy.
    Busy,
    /// A device with the same identity already exists.
    Exists,
    /// The request is not a valid control request for this device.
    NotTty,
    /// A value does not fit the caller's data type.
    Overflow,
    /// The operation is not implemented by this device.
    NotImplemented,
}

impl Error {
    /// The negative status code this kind converts to.
    pub open spec fn spec_errno(self) -> int {
        match self {
            Error::Invalid => -22,
            Error::NoMemory => -12,
            Error::Busy => -16,
            Error::Exists => -17,
            Error::NotTty => -25,
            Error::Overflow => -75,
            Error::NotImplemented => -38,
        }
    }

    /// Convert this kind to the host's negative status code.
    pub fn to_errno(self) -> (e: i32)
        ensures
            e as int == self.spec_errno(),
    {
        match self {
            Error::Invalid => -22,
            Error::NoMemory => -12,
            Error::Busy => -16,
            Error::Exists => -17,
            Error::NotTty => -25,
            Error::Overflow => -75,
            Error::NotImplemented => -38,
        }
    }
}

/// Holds exactly of the codes that [`Error::to_errno`] can produce.
pub open spec fn is_known_errno(e: int) -> bool {
    exists|k: Error| #[trigger] k.spec_errno() == e
}

/// Convert a known negative status code back to its error kind.
pub fn from_errno(e: i32) -> (k: Error)
    requires
        is_known_errno(e as int),
    ensures
        k.spec_errno() == e as int,
{
    match e {
        -22 => Error::Invalid,
        -12 => Error::NoMemory,
        -16 => Error::Busy,
        -17 => Error::Exists,
        -25 => Error::NotTty,
        -75 => Error::Overflow,
        _ => {
            proof {
                let k = choose|k: Error| #[trigger] k.spec_errno() == e as int;
                assert(k == Error::NotImplemented);
            }
            Error::NotImplemented
        },
    }
}

/// Convert a host status to a result, as the registration path does:
/// zero is success, a known negative code is the corresponding kind.
pub fn to_result(e: i32) -> (r: Result<(), Error>)
    requires
        e == 0 || is_known_errno(e as int),
    ensures
        e == 0 <==> r is Ok,
        r matches Err(k) ==> k.spec_errno() == e as int,
{
    if e == 0 {
        Ok(())
    } else {
        Err(from_errno(e))
    }
}

} // verus!
