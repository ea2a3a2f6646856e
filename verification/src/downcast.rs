//! Narrowing casts, gated by the runtime identity check.

use vstd::prelude::*;

use crate::object::Object;
use crate::is::Is;
use crate::is::IsObjOf;
use crate::upcast::Upcast;

verus! {

/// The view of an owning cast's result with the boxes stripped, so that
/// contracts can speak of the values alone.
pub open spec fn unbox_result<A, B>(r: Result<Box<A>, Box<B>>) -> Result<A, B> {
    match r {
        Ok(a) => Ok(*a),
        Err(b) => Err(*b),
    }
}

/// The outcome an owning downcast is specified to produce: the recovered
/// value when the identity check succeeds, otherwise the original handle,
/// unchanged but for the widening back to the broad interface.
pub open spec fn downcast_outcome<To, Src, Obj>(from: Src) -> Result<To, Obj>
    where To: DowncastFromRef<Src>, Src: Is<Obj>, Obj: Object
{
    if To::matches_spec(from) {
        Ok(To::recover_spec(from))
    } else {
        Err(from.embed_spec())
    }
}

/// Exact-type recovery: the capability to narrow an interface handle `Src`
/// back to the concrete type `Self`.
///
/// An application implements this trait once per (concrete type, interface)
/// pair, and once per interface against itself (the identity registration:
/// an interface, viewed as its own broadest form, trivially downcasts to
/// itself). The two spec functions model the runtime identity check:
/// `matches_spec` says whether the handle's underlying value is exactly a
/// `Self`, and `recover_spec` names that value when it is. The laws pin the
/// check to the [`Is`] embedding, so that every cast built on top can be
/// proved: embedding a value always matches and recovers the same value
/// back, and a recovered value embeds back to the very handle it came from.
pub trait DowncastFromRef<Src>: Is<Src> where Src: Object {
    /// Whether the handle's underlying value is exactly a `Self`.
    spec fn matches_spec(from: Src) -> bool;

    /// The underlying value, when the identity check succeeds.
    spec fn recover_spec(from: Src) -> Self;

    /// A widened value always passes the identity check against its own
    /// type, and recovery gives the value back unchanged.
    proof fn lemma_embed_recover(self)
        ensures
            Self::matches_spec(self.embed_spec()),
            Self::recover_spec(self.embed_spec()) == self,
    ;

    /// A recovered value widens back to the very handle it was recovered
    /// from: recovery reinterprets, it never rebuilds.
    proof fn lemma_recover_embed(from: Src)
        requires
            Self::matches_spec(from),
        ensures
            Self::recover_spec(from).embed_spec() == from,
    ;

    /// Narrow a borrowed handle; `None` exactly when the underlying value
    /// is not a `Self`, and the handle stays untouched either way.
    fn downcast_from_ref<'a>(from: &'a Src) -> (r: Option<&'a Self>)
        ensures
            (r is Some) == Self::matches_spec(*from),
            r matches Some(x) ==> *x == Self::recover_spec(*from),
    ;

    /// Narrow a mutably borrowed handle; writes through the result land in
    /// the handle, and on a failed check the handle is left unchanged.
    fn downcast_from_mut<'a>(from: &'a mut Src) -> (r: Option<&'a mut Self>)
        ensures
            (r is Some) == Self::matches_spec(*old(from)),
            r matches Some(m) ==> *m == Self::recover_spec(*old(from))
                && *final(from) == (*final(m)).embed_spec(),
            r is None ==> *final(from) == *old(from),
    ;

    /// Narrow an owning handle; on a failed check the original handle is
    /// returned unchanged, so ownership is never lost.
    fn downcast_extract(from: Box<Src>) -> (r: Result<Box<Self>, Box<Src>>)
        ensures
            (r is Ok) == Self::matches_spec(*from),
            r matches Ok(t) ==> *t == Self::recover_spec(*from),
            r matches Err(s) ==> *s == *from,
    ;
}

/// The handle-side spelling of [`DowncastFromRef`]: `x.downcast_ref()`
/// instead of `To::downcast_from_ref(&x)`.
pub trait DowncastRef<To>: IsObjOf<To> + Object + Sized where To: DowncastFromRef<Self> {
    /// Narrow a borrowed handle; `None` exactly when the underlying value
    /// is not a `To`.
    fn downcast_ref<'a>(&'a self) -> (r: Option<&'a To>)
        ensures
            (r is Some) == To::matches_spec(*self),
            r matches Some(x) ==> *x == To::recover_spec(*self),
    ;

    /// Narrow a mutably borrowed handle; writes through the result land in
    /// the handle, and on a failed check the handle is left unchanged.
    fn downcast_mut<'a>(&'a mut self) -> (r: Option<&'a mut To>)
        ensures
            (r is Some) == To::matches_spec(*old(self)),
            r matches Some(m) ==> *m == To::recover_spec(*old(self))
                && *final(self) == (*final(m)).embed_spec(),
            r is None ==> *final(self) == *old(self),
    ;
}

impl<Src, To> DowncastRef<To> for Src where Src: Object, To: DowncastFromRef<Src> {
    fn downcast_ref<'a>(&'a self) -> (r: Option<&'a To>) {
        To::downcast_from_ref(self)
    }

    fn downcast_mut<'a>(&'a mut self) -> (r: Option<&'a mut To>) {
        To::downcast_from_mut(self)
    }
}

/// Owning downcast, spelled from the target side, with the failure arm
/// widened to the broad interface `Obj` the caller holds.
pub trait DowncastFrom<Src, Obj>: DowncastFromRef<Src> where Src: Is<Obj>, Obj: Object {
    /// Narrow an owning handle to `Self`; on a failed identity check the
    /// handle comes back through the broad interface, unchanged but for the
    /// widening, so ownership is never lost.
    fn downcast_from(from: Box<Src>) -> (r: Result<Box<Self>, Box<Obj>>)
        ensures
            unbox_result(r) == downcast_outcome::<Self, Src, Obj>(*from),
            (r is Ok) == Self::matches_spec(*from),
            r matches Err(o) ==> (*o).id_spec() == (*from).id_spec(),
    ;
}

impl<Src, To, Obj> DowncastFrom<Src, Obj> for To
where
    To: DowncastFromRef<Src>,
    Src: Is<Obj>,
    Obj: Object,
{
    fn downcast_from(from: Box<Src>) -> (r: Result<Box<Self>, Box<Obj>>) {
        match To::downcast_extract(from) {
            Ok(t) => Ok(t),
            Err(s) => Err(s.upcast()),
        }
    }
}

/// Owning downcast, spelled from the handle side: `x.downcast()`.
pub trait Downcast<To, Obj>: DowncastRef<To> + Is<Obj>
where
    To: DowncastFrom<Self, Obj>,
    Obj: Object,
{
    /// Narrow an owning handle to `To`; on a failed identity check the
    /// handle comes back through the broad interface, unchanged but for the
    /// widening, so ownership is never lost.
    fn downcast(self: Box<Self>) -> (r: Result<Box<To>, Box<Obj>>)
        ensures
            unbox_result(r) == downcast_outcome::<To, Self, Obj>(*self),
            (r is Ok) == To::matches_spec(*self),
            r matches Err(o) ==> (*o).id_spec() == (*self).id_spec(),
    ;
}

impl<Src, To, Obj> Downcast<To, Obj> for Src
where
    Src: Is<Obj>,
    To: DowncastFrom<Src, Obj>,
    Obj: Object,
{
    fn downcast(self: Box<Self>) -> (r: Result<Box<To>, Box<Obj>>) {
        To::downcast_from(self)
    }
}

} // verus!
