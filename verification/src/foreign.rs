//! The foreign-ownership adapter: the one code path through which a
//! per-session owned value moves into and out of the host-owned opaque
//! slot.
//!
//! The host stores one opaque token per open file.  Installing a value
//! consumes it ([`ForeignOwnable::into_foreign`]); reclaiming consumes the
//! token and must happen exactly once per install
//! ([`ForeignOwnable::from_foreign`]); in between, operations only borrow
//! ([`ForeignOwnable::borrow`], [`ForeignOwnable::borrow_mut`]).  The
//! token's payload is private to this module, so no other code can reach
//! around the adapter, and "exactly one reclaim per install" is enforced
//! by ownership of the token itself rather than by a runtime count.

use vstd::prelude::*;

verus! {

/// The opaque token the host stores in a file's private slot in place of
/// the author's owned value.
pub struct ForeignToken<P> {
    value: P,
}

impl<P> View for ForeignToken<P> {
    type V = P;

    closed spec fn view(&self) -> P {
        self.value
    }
}

/// The capability a per-session owned value type must satisfy.
///
/// Every method has a default body; a type opts in with an empty `impl`.
/// The contracts pin each operation down completely: the token carries
/// exactly the installed value, and reclaiming returns exactly it.
pub trait ForeignOwnable: Sized {
    /// Consume the value, producing the token the host will store.  After
    /// this call the caller holds no further access to the value.
    fn into_foreign(self) -> (t: ForeignToken<Self>)
        ensures
            t@ == self,
    {
        ForeignToken { value: self }
    }

    /// Consume a token, reconstructing full ownership of the value.  Must
    /// be called at most once per token, matching one prior
    /// [`ForeignOwnable::into_foreign`]; the move of the token enforces
    /// this.
    fn from_foreign(t: ForeignToken<Self>) -> (v: Self)
        ensures
            v == t@,
    {
        let ForeignToken { value } = t;
        value
    }

    /// A non-owning view of the token's value; may be taken any number of
    /// times, concurrently with other borrows.
    fn borrow(t: &ForeignToken<Self>) -> (v: &Self)
        ensures
            *v == t@,
    {
        &t.value
    }

    /// An exclusive view of the token's value, for callers the host has
    /// serialized; does not consume the token.
    fn borrow_mut(t: &mut ForeignToken<Self>) -> (v: &mut Self)
        ensures
            *v == old(t)@,
            final(t)@ == *final(v),
    {
        &mut t.value
    }
}

} // verus!
