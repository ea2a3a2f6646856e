//! Runtime type identity: the one question every cast asks.

use vstd::prelude::*;

verus! {

/// Runtime type identity provider.
///
/// Every type that participates in casting answers one question: what is the
/// identity token of the concrete value underneath? For a concrete type the
/// token is a per-type constant; for an interface handle it is the token of
/// whichever concrete value the handle currently holds. Tokens are compared
/// for equality only, never inspected structurally.
pub trait Object {
    /// The identity token of the underlying concrete value.
    spec fn id_spec(&self) -> u64;

    /// Report the identity token of the underlying concrete value.
    fn type_id(&self) -> (t: u64)
        ensures
            t == self.id_spec(),
    ;
}

} // verus!
