//! In-place replacement of the value under a handle, so the handle also
//! satisfies a target interface.

use vstd::prelude::*;

use vstd::pervasive::unreached;

use crate::object::Object;
use crate::is::Is;
use crate::downcast::DowncastFromRef;
use crate::upcast::Upcast;

verus! {

/// The per-type conversion routine behind [`Convert`]: turn the value under
/// an interface handle into a `To`.
///
/// The routine is total: it must produce a `To` for every value the
/// interface can hold. A type whose conversion can refuse implements
/// [`TryConvertInto`] instead. The routine borrows the handle, so the source
/// value is never consumed and a refused or interrupted conversion can never
/// leave a handle partially updated.
pub trait ConvertInto<To>: Object where To: Object {
    /// What the conversion routine produces for this value.
    spec fn convert_into_spec(&self) -> To;

    /// Produce the converted value.
    fn convert_into(&self) -> (r: Box<To>)
        ensures
            *r == self.convert_into_spec(),
    ;
}

/// The fallible counterpart of [`ConvertInto`]: the routine may refuse, and
/// a refusal leaves the handle untouched.
pub trait TryConvertInto<To>: Object where To: Object {
    /// What the conversion routine produces for this value, or `None` when
    /// it refuses.
    spec fn try_convert_into_spec(&self) -> Option<To>;

    /// Produce the converted value, or refuse.
    fn try_convert_into(&self) -> (r: Option<Box<To>>)
        ensures
            (r is Some) == (self.try_convert_into_spec() is Some),
            r matches Some(t) ==> Some(*t) == self.try_convert_into_spec(),
    ;
}

/// The value under the handle after an infallible conversion to `To`: the
/// handle's own value when it already is a `To`, otherwise the widened
/// result of its conversion routine. This is exactly what
/// [`Convert::convert`] promises to leave in the handle.
pub open spec fn convert_effect<To, Obj>(o: Obj) -> Obj
    where To: DowncastFromRef<Obj>, Obj: ConvertInto<To> + Object
{
    if To::matches_spec(o) {
        o
    } else {
        <To as Is<Obj>>::embed_spec(o.convert_into_spec())
    }
}

/// The value under the handle after a fallible conversion to `To`: the
/// handle's own value when it already is a `To` or when the routine refuses,
/// otherwise the widened result of the routine. This is exactly what
/// [`TryConvert::try_convert`] promises to leave in the handle.
pub open spec fn try_convert_effect<To, Obj>(o: Obj) -> Obj
    where To: DowncastFromRef<Obj>, Obj: TryConvertInto<To> + Object
{
    if To::matches_spec(o) {
        o
    } else {
        match o.try_convert_into_spec() {
            Some(t) => <To as Is<Obj>>::embed_spec(t),
            None => o,
        }
    }
}

/// Infallible conversion of the value under an interface handle.
///
/// `convert` moves a handle, still typed as the broad interface `Obj`, into
/// a state where it also satisfies `Self`: if the underlying value already
/// is a `Self` nothing happens at all, otherwise the value is replaced by
/// what its conversion routine produces. Either way the handle satisfies
/// `Self` afterwards.
pub trait Convert<Obj>: DowncastFromRef<Obj> where Obj: ConvertInto<Self> + Object {
    /// Convert an owning handle outright, without the already-satisfied
    /// check: the conversion routine always runs.
    fn convert_from(object: Box<Obj>) -> (r: Box<Self>)
        ensures
            *r == (*object).convert_into_spec(),
    ;

    /// Make the handle satisfy `Self`: no-op when the underlying value
    /// already is a `Self`, otherwise replace it with the converted value.
    fn convert(object: &mut Box<Obj>)
        ensures
            **final(object) == convert_effect::<Self, Obj>(**old(object)),
            Self::matches_spec(**final(object)),
    ;

    /// Convert, then view the underlying value, which now is a `Self`.
    fn convert_get<'a>(object: &'a mut Box<Obj>) -> (r: &'a Self)
        ensures
            **final(object) == convert_effect::<Self, Obj>(**old(object)),
            *r == Self::recover_spec(**final(object)),
    ;

    /// Convert, then view the underlying value mutably; writes through the
    /// result land in the handle.
    fn convert_get_mut<'a>(object: &'a mut Box<Obj>) -> (r: &'a mut Self)
        ensures
            Self::matches_spec(**old(object)) ==> *r == Self::recover_spec(**old(object)),
            !Self::matches_spec(**old(object)) ==> *r == (**old(object)).convert_into_spec(),
            **final(object) == (*final(r)).embed_spec(),
    ;
}

/// Fallible conversion of the value under an interface handle.
///
/// Like [`Convert`], but the conversion routine may refuse. Refusal is a
/// first-class outcome: it is reported in the result, and the handle is then
/// exactly as it was, never partially updated.
pub trait TryConvert<Obj>: DowncastFromRef<Obj> where Obj: TryConvertInto<Self> + Object {
    /// Convert an owning handle outright, without the already-satisfied
    /// check; on refusal the original handle comes back unchanged.
    fn try_convert_from(object: Box<Obj>) -> (r: Result<Box<Self>, Box<Obj>>)
        ensures
            (r is Ok) == ((*object).try_convert_into_spec() is Some),
            r matches Ok(t) ==> Some(*t) == (*object).try_convert_into_spec(),
            r matches Err(o) ==> *o == *object,
    ;

    /// Try to make the handle satisfy `Self`: no-op when the underlying
    /// value already is a `Self`, otherwise replace it with the converted
    /// value; reports whether the handle now satisfies `Self`, and on
    /// refusal the handle is unchanged.
    fn try_convert(object: &mut Box<Obj>) -> (r: bool)
        ensures
            **final(object) == try_convert_effect::<Self, Obj>(**old(object)),
            r == (Self::matches_spec(**old(object))
                || (**old(object)).try_convert_into_spec() is Some),
            r ==> Self::matches_spec(**final(object)),
            !r ==> **final(object) == **old(object),
    ;

    /// Try to convert, then view the underlying value; `None` exactly when
    /// the conversion was needed and refused, and the handle is then
    /// unchanged.
    fn try_convert_get<'a>(object: &'a mut Box<Obj>) -> (r: Option<&'a Self>)
        ensures
            **final(object) == try_convert_effect::<Self, Obj>(**old(object)),
            (r is Some) == (Self::matches_spec(**old(object))
                || (**old(object)).try_convert_into_spec() is Some),
            r matches Some(x) ==> *x == Self::recover_spec(**final(object)),
    ;

    /// Try to convert, then view the underlying value mutably; writes
    /// through the result land in the handle; `None` exactly when the
    /// conversion was needed and refused, and the handle is then unchanged.
    fn try_convert_get_mut<'a>(object: &'a mut Box<Obj>) -> (r: Option<&'a mut Self>)
        ensures
            (r is Some) == (Self::matches_spec(**old(object))
                || (**old(object)).try_convert_into_spec() is Some),
            r is None ==> **final(object) == **old(object),
            r matches Some(m) ==> **final(object) == (*final(m)).embed_spec(),
            r matches Some(m) ==> Self::matches_spec(**old(object))
                ==> *m == Self::recover_spec(**old(object)),
            r matches Some(m) ==> !Self::matches_spec(**old(object))
                ==> Some(*m) == (**old(object)).try_convert_into_spec(),
    ;
}

impl<To, Obj> TryConvert<Obj> for To
where
    To: DowncastFromRef<Obj>,
    Obj: TryConvertInto<To> + Object,
{
    fn try_convert_from(object: Box<Obj>) -> (r: Result<Box<To>, Box<Obj>>) {
        match (&*object).try_convert_into() {
            Some(t) => Ok(t),
            None => Err(object),
        }
    }

    fn try_convert(object: &mut Box<Obj>) -> (r: bool) {
        if To::downcast_from_ref(&**object).is_none() {
            match (&**object).try_convert_into() {
                Some(t) => {
                    proof {
                        (*t).lemma_embed_recover();
                    }
                    *object = t.upcast();
                    true
                },
                None => false,
            }
        } else {
            true
        }
    }

    fn try_convert_get<'a>(object: &'a mut Box<Obj>) -> (r: Option<&'a To>) {
        if !To::try_convert(object) {
            return None;
        }
        To::downcast_from_ref(&**object)
    }

    fn try_convert_get_mut<'a>(object: &'a mut Box<Obj>) -> (r: Option<&'a mut To>) {
        if !To::try_convert(object) {
            return None;
        }
        proof {
            if !To::matches_spec(**old(object)) {
                ((**old(object)).try_convert_into_spec()->Some_0).lemma_embed_recover();
            }
        }
        To::downcast_from_mut(&mut **object)
    }
}

impl<To, Obj> Convert<Obj> for To
where
    To: DowncastFromRef<Obj>,
    Obj: ConvertInto<To> + Object,
{
    fn convert_from(object: Box<Obj>) -> (r: Box<To>) {
        (&*object).convert_into()
    }

    fn convert(object: &mut Box<Obj>) {
        if To::downcast_from_ref(&**object).is_none() {
            let t: Box<To> = (&**object).convert_into();
            proof {
                (*t).lemma_embed_recover();
            }
            *object = t.upcast();
        }
    }

    fn convert_get<'a>(object: &'a mut Box<Obj>) -> (r: &'a To) {
        To::convert(object);
        match To::downcast_from_ref(&**object) {
            Some(r) => r,
            None => unreached(),
        }
    }

    fn convert_get_mut<'a>(object: &'a mut Box<Obj>) -> (r: &'a mut To) {
        To::convert(object);
        proof {
            if !To::matches_spec(**old(object)) {
                ((**old(object)).convert_into_spec()).lemma_embed_recover();
            }
        }
        match To::downcast_from_mut(&mut **object) {
            Some(r) => r,
            None => unreached(),
        }
    }
}

} // verus!
