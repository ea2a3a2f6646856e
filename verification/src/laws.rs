//! The laws of the casting protocols, stated over the same spec functions
//! their contracts use, and proved once for every participating type.

use vstd::prelude::*;

use crate::object::Object;
use crate::is::Is;
use crate::downcast::DowncastFromRef;
use crate::downcast::downcast_outcome;
use crate::veecast::veecast_outcome;
use crate::convert::ConvertInto;
use crate::convert::TryConvertInto;
use crate::convert::convert_effect;
use crate::convert::try_convert_effect;

verus! {

/// Law: upcasting a value and then downcasting to its own exact type always
/// succeeds, and yields the value back unchanged.
///
/// Together with the downcast contracts this is the round-trip guarantee:
/// `downcast_outcome` of an embedded value is `Ok` with the very value that
/// was widened.
pub proof fn lemma_upcast_downcast_roundtrip<To, Src, Obj>(t: To)
    where To: DowncastFromRef<Src>, Src: Is<Obj>, Obj: Object
    ensures
        To::matches_spec(t.embed_spec()),
        downcast_outcome::<To, Src, Obj>(t.embed_spec()) == Ok::<To, Obj>(t),
{
    t.lemma_embed_recover();
}

/// Law: downcasting to a type other than the exact underlying type always
/// fails.
///
/// "Other type" is witnessed by identity tokens: if every value of the
/// target type carries token `k` and the handle's underlying value does not,
/// the identity check cannot succeed. That the failed attempt hands the
/// handle back unchanged is the failure arm of the downcast contracts.
pub proof fn lemma_downcast_mismatch_fails<To, Obj>(from: Obj, k: u64)
    where To: DowncastFromRef<Obj>, Obj: Object
    requires
        forall|t: To| t.id_spec() == k,
        from.id_spec() != k,
    ensures
        !To::matches_spec(from),
{
    if To::matches_spec(from) {
        let t = To::recover_spec(from);
        To::lemma_recover_embed(from);
        t.lemma_embed_preserves_id();
        assert(t.id_spec() == k);
    }
}

/// Law: the identity check never invents a value — a successful check
/// recovers a value with the very identity token the handle reported.
pub proof fn lemma_downcast_preserves_id<To, Obj>(from: Obj)
    where To: DowncastFromRef<Obj>, Obj: Object
    requires
        To::matches_spec(from),
    ensures
        To::recover_spec(from).id_spec() == from.id_spec(),
{
    To::lemma_recover_embed(from);
    To::recover_spec(from).lemma_embed_preserves_id();
}

/// Law: convert is idempotent — after one conversion the target interface is
/// already satisfied, so a second conversion performs no replacement.
pub proof fn lemma_convert_idempotent<To, Obj>(o: Obj)
    where To: DowncastFromRef<Obj>, Obj: ConvertInto<To> + Object
    ensures
        convert_effect::<To, Obj>(convert_effect::<To, Obj>(o)) == convert_effect::<To, Obj>(o),
        To::matches_spec(convert_effect::<To, Obj>(o)),
{
    if !To::matches_spec(o) {
        (o.convert_into_spec()).lemma_embed_recover();
    }
}

/// Law: the fallible convert is idempotent in the same way — whenever it
/// replaces the value at all, a second attempt performs no replacement.
pub proof fn lemma_try_convert_idempotent<To, Obj>(o: Obj)
    where To: DowncastFromRef<Obj>, Obj: TryConvertInto<To> + Object
    ensures
        try_convert_effect::<To, Obj>(try_convert_effect::<To, Obj>(o))
            == try_convert_effect::<To, Obj>(o),
{
    if !To::matches_spec(o) {
        match o.try_convert_into_spec() {
            Some(t) => {
                t.lemma_embed_recover();
            },
            None => {
            },
        }
    }
}

/// Law: a conversion routine that is the identity transformation makes
/// convert a no-op on every handle, so a run of convert is distinguishable
/// from a genuine replacement only by comparing identity tokens, never by
/// the value.
pub proof fn lemma_identity_convert_noop<To, Obj>(o: Obj)
    where To: DowncastFromRef<Obj>, Obj: ConvertInto<To> + Object
    requires
        <To as Is<Obj>>::embed_spec(o.convert_into_spec()) == o,
    ensures
        convert_effect::<To, Obj>(o) == o,
        convert_effect::<To, Obj>(o).id_spec() == o.id_spec(),
{
}

/// Law: convert never changes the identity token of a handle that already
/// satisfies the target — satisfaction is checked before any replacement.
pub proof fn lemma_convert_satisfied_noop<To, Obj>(o: Obj)
    where To: DowncastFromRef<Obj>, Obj: ConvertInto<To> + Object
    requires
        To::matches_spec(o),
    ensures
        convert_effect::<To, Obj>(o) == o,
{
}

/// Law: veecast is the composition of downcast then upcast — for every
/// handle it is specified to succeed exactly where the downcast to the
/// intermediate type does, and its result is the upcast of what that
/// downcast recovers.
pub proof fn lemma_veecast_composes<Mid, To, Src, Obj>(from: Src)
    where Mid: DowncastFromRef<Src> + Is<To>, Src: Is<Obj>, To: Object, Obj: Object
    ensures
        veecast_outcome::<Mid, To, Src, Obj>(from) == (match downcast_outcome::<Mid, Src, Obj>(
            from,
        ) {
            Ok(mid) => Ok::<To, Obj>(mid.embed_spec()),
            Err(o) => Err::<To, Obj>(o),
        }),
{
}

} // verus!
