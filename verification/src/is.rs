//! The subsumption relation between a type and the interfaces it satisfies.

use vstd::prelude::*;

use crate::object::Object;

verus! {

/// Capability subsumption: a value of `Self` can be viewed through the
/// broader interface `Obj`.
///
/// The embedding is the single fact every cast is built on. Declaring the
/// impl is the compile-time statement that the relation holds; the law
/// [`Is::lemma_embed_preserves_id`] pins down that widening a view never
/// changes the underlying value's identity.
pub trait Is<Obj>: Object + Sized where Obj: Object {
    /// The view of this value through the broader interface.
    spec fn embed_spec(self) -> Obj;

    /// Widening never changes the underlying identity token.
    proof fn lemma_embed_preserves_id(self)
        ensures
            self.embed_spec().id_spec() == self.id_spec(),
    ;

    /// Build the broader view of this value.
    fn embed(&self) -> (r: Obj)
        ensures
            r == self.embed_spec(),
    ;
}

/// The converse marker of [`Is`]: `Obj` is an interface over `T` exactly when
/// `T` can be viewed as `Obj`.
pub trait IsObjOf<T> where T: Object {
}

impl<T, Obj> IsObjOf<T> for Obj where T: Is<Obj>, Obj: Object {
}

} // verus!
