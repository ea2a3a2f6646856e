//! Sideways casts between unrelated interfaces, through a named
//! intermediate concrete type.

use vstd::prelude::*;

use crate::object::Object;
use crate::is::Is;
use crate::downcast::Downcast;
use crate::downcast::DowncastFrom;
use crate::downcast::DowncastFromRef;
use crate::downcast::DowncastRef;
use crate::downcast::unbox_result;
use crate::upcast::Upcast;

verus! {

/// The outcome an owning veecast is specified to produce: the recovered
/// intermediate value widened to the target interface when the identity
/// check succeeds, otherwise the original handle, unchanged but for the
/// widening back to the broad interface.
pub open spec fn veecast_outcome<Mid, To, Src, Obj>(from: Src) -> Result<To, Obj>
    where Mid: DowncastFromRef<Src> + Is<To>, Src: Is<Obj>, To: Object, Obj: Object
{
    if Mid::matches_spec(from) {
        Ok(<Mid as Is<To>>::embed_spec(Mid::recover_spec(from)))
    } else {
        Err(from.embed_spec())
    }
}

/// Sideways casts between two interfaces that share no declared relation,
/// bridged through a named intermediate concrete type.
///
/// The caller names the concrete type `Mid` believed to be the handle's true
/// underlying type; `Mid` must satisfy the target interface `To`. The cast
/// is the composition of an exact-type downcast to `Mid` and an infallible
/// upcast from `Mid` to `To`, and fails exactly where the downcast does.
pub trait VeecastRef<To>: Object + Sized where To: Object {
    /// Bridge a borrowed handle to an owned view through `To`, via the
    /// named intermediate type; `None` exactly when the underlying value is
    /// not a `Mid`, and the handle stays untouched either way.
    fn veecast_ref<Mid>(&self) -> (r: Option<To>) where Mid: DowncastFromRef<Self> + Is<To>
        ensures
            (r is Some) == Mid::matches_spec(*self),
            r matches Some(t) ==> t == <Mid as Is<To>>::embed_spec(Mid::recover_spec(*self)),
    ;
}

impl<Src, To> VeecastRef<To> for Src
where
    Src: Object,
    To: Object,
{
    fn veecast_ref<Mid>(&self) -> (r: Option<To>) where Mid: DowncastFromRef<Src> + Is<To> {
        match <Src as DowncastRef<Mid>>::downcast_ref(self) {
            Some(mid) => Some(mid.upcast_ref()),
            None => None,
        }
    }
}

/// The owning form of [`VeecastRef`]: on a failed identity check the handle
/// comes back through the broad interface `Obj`, so ownership is never lost.
pub trait Veecast<To, Obj>: Is<Obj> where To: Object, Obj: Object {
    /// Bridge an owning handle to the target interface `To` via the named
    /// intermediate type; fails exactly where the downcast to `Mid` does,
    /// returning the handle unchanged but for the widening to `Obj`.
    fn veecast<Mid>(self: Box<Self>) -> (r: Result<Box<To>, Box<Obj>>) where
        Mid: DowncastFrom<Self, Obj> + Is<To>,
        ensures
            unbox_result(r) == veecast_outcome::<Mid, To, Self, Obj>(*self),
            (r is Ok) == Mid::matches_spec(*self),
            r matches Err(o) ==> (*o).id_spec() == (*self).id_spec(),
    ;
}

impl<Src, To, Obj> Veecast<To, Obj> for Src
where
    Src: Is<Obj>,
    To: Object,
    Obj: Object,
{
    fn veecast<Mid>(self: Box<Self>) -> (r: Result<Box<To>, Box<Obj>>) where
        Mid: DowncastFrom<Src, Obj> + Is<To>,
    {
        match <Src as Downcast<Mid, Obj>>::downcast(self) {
            Ok(mid) => Ok(mid.upcast()),
            Err(obj) => Err(obj),
        }
    }
}

} // verus!
