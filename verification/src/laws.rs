//! The guarantees shared by every hierarchy declared through the capability
//! traits, stated over the spec functions that the executable operations are
//! verified against.

use vstd::prelude::*;
use crate::hierarchy::{AsAny, Concrete};

verus! {

/// What a checked downcast of `h` to `T` yields: the stored value when the
/// type identifiers agree, nothing otherwise. The executable checked and
/// unchecked downcasts are both verified against this one description.
pub open spec fn checked_downcast_spec<H: AsAny, T: Concrete<H>>(h: H) -> Option<T> {
    if h.tag_spec() == T::tag() {
        Some(T::project_spec(h))
    } else {
        None
    }
}

/// A value of concrete type `T` stored behind the erased hierarchy answers
/// the identity predicate positively for `T` and negatively for every
/// concrete type carrying a different identifier.
pub proof fn lemma_identity_predicate<H: AsAny, T: Concrete<H>, U: Concrete<H>>(v: T)
    requires
        T::tag() != U::tag(),
    ensures
        v.erased_spec().tag_spec() == T::tag(),
        v.erased_spec().tag_spec() != U::tag(),
{
    v.erasure_identity();
}

/// The checked downcast recovers exactly the value that was erased, and is
/// absent for every concrete type carrying a different identifier.
pub proof fn lemma_checked_downcast_roundtrip<H: AsAny, T: Concrete<H>, U: Concrete<H>>(v: T)
    requires
        T::tag() != U::tag(),
    ensures
        checked_downcast_spec::<H, T>(v.erased_spec()) == Some(v),
        checked_downcast_spec::<H, U>(v.erased_spec()) is None,
{
    v.erasure_identity();
}

/// On the true concrete type, the unchecked downcast and the checked downcast
/// describe one and the same stored value: the checked result is present and
/// holds exactly what the unchecked operation returns.
pub proof fn lemma_unchecked_agrees_with_checked<H: AsAny, T: Concrete<H>>(h: H)
    requires
        h.tag_spec() == T::tag(),
    ensures
        checked_downcast_spec::<H, T>(h) == Some(T::project_spec(h)),
{
}

/// Erased values report the same display name exactly when they hold the
/// same concrete type, within one hierarchy and one build.
pub proof fn lemma_names_identify_types<H: AsAny, T: Concrete<H>, U: Concrete<H>>(a: T, b: U)
    ensures
        (T::tag() == U::tag()) == (a.erased_spec().name_spec() == b.erased_spec().name_spec()),
{
    a.erasure_identity();
    b.erasure_identity();
    let ea = a.erased_spec();
    let eb = b.erased_spec();
    ea.name_tracks_tag(&eb);
}

/// Every hierarchy declared through these traits shares one downcast
/// semantics: whether the checked result is present is decided by identifier
/// equality alone, so a custom hierarchy cannot diverge from the built-in
/// one on the same identity verdict.
pub proof fn lemma_hierarchies_agree<H1: AsAny, T1: Concrete<H1>, H2: AsAny, T2: Concrete<H2>>(
    h1: H1,
    h2: H2,
)
    requires
        (h1.tag_spec() == T1::tag()) == (h2.tag_spec() == T2::tag()),
    ensures
        (checked_downcast_spec::<H1, T1>(h1) is Some) == (checked_downcast_spec::<H2, T2>(
            h2,
        ) is Some),
{
}

} // verus!
