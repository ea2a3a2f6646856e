//! Widening casts, derived for every pair related by [`Is`].

use vstd::prelude::*;

use crate::object::Object;
use crate::is::Is;

verus! {

/// Widening casts: view a value through a broader interface.
///
/// Upcasting is infallible and never changes the underlying value; both
/// guarantees are inherited from the [`Is`] embedding. Every type related to
/// `To` by [`Is`] gets these operations for free.
///
/// There is no mutable widened view: a broader slot can hold concrete types
/// that the narrower place it borrows from cannot, so writes through such a
/// view could not land back. Mutable access through an interface is the
/// narrowing direction — see [`crate::downcast::DowncastRef::downcast_mut`].
pub trait Upcast<To>: Is<To> where To: Object {
    /// Widen a borrowed value into an owned view through `To`.
    fn upcast_ref(&self) -> (r: To)
        ensures
            r == self.embed_spec(),
            r.id_spec() == self.id_spec(),
    ;

    /// Widen an owned handle into the broader interface.
    fn upcast(self: Box<Self>) -> (r: Box<To>)
        ensures
            *r == (*self).embed_spec(),
            (*r).id_spec() == (*self).id_spec(),
    ;
}

impl<T, To> Upcast<To> for T where T: Is<To>, To: Object {
    fn upcast_ref(&self) -> (r: To) {
        let r = self.embed();
        proof {
            self.lemma_embed_preserves_id();
        }
        r
    }

    fn upcast(self: Box<Self>) -> (r: Box<To>) {
        proof {
            (*self).lemma_embed_preserves_id();
        }
        Box::new(self.embed())
    }
}

/// The target-side spelling of [`Upcast`]: `To::upcast_from(x)` instead of
/// `x.upcast()`.
pub trait UpcastFrom<Src>: Object + Sized where Src: Is<Self> {
    /// Widen a borrowed value into an owned view through `Self`.
    fn upcast_from_ref(from: &Src) -> (r: Self)
        ensures
            r == from.embed_spec(),
            r.id_spec() == from.id_spec(),
    ;

    /// Widen an owned handle into `Self`.
    fn upcast_from(from: Box<Src>) -> (r: Box<Self>)
        ensures
            *r == (*from).embed_spec(),
            (*r).id_spec() == (*from).id_spec(),
    ;
}

impl<Src, To> UpcastFrom<Src> for To where Src: Is<To>, To: Object {
    fn upcast_from_ref(from: &Src) -> (r: Self) {
        from.upcast_ref()
    }

    fn upcast_from(from: Box<Src>) -> (r: Box<Self>) {
        from.upcast()
    }
}

} // verus!
