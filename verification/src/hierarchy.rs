//! The capability traits: runtime type identity, erasure into a hierarchy,
//! and checked / unchecked downcasting out of it.

use vstd::prelude::*;
use crate::identity::TypeTag;

verus! {

/// A value with a runtime type identity: an opaque tag and a display name for
/// the concrete type it holds (or is). Implemented both by type-erased
/// hierarchies, whose tag varies with the stored value, and by concrete
/// types, whose tag is constant.
pub trait AsAny: Sized {
    /// The type identifier of the concrete type this value holds.
    spec fn tag_spec(&self) -> TypeTag;

    /// The display name of the concrete type this value holds.
    spec fn name_spec(&self) -> Seq<char>;

    /// Two values hold the same concrete type exactly when they report the
    /// same name: the name is a faithful (if unstable) image of the tag.
    proof fn name_tracks_tag(&self, other: &Self)
        ensures
            (self.tag_spec() == other.tag_spec()) == (self.name_spec() == other.name_spec()),
    ;

    /// The type identifier, for equality comparison only.
    fn type_tag(&self) -> (t: TypeTag)
        ensures
            t == self.tag_spec(),
    ;

    /// A human-readable name of the concrete type, for diagnostics only:
    /// it is not stable across builds.
    fn type_label(&self) -> (r: &'static str)
        ensures
            r@ == self.name_spec(),
    ;
}

/// A concrete type that can be erased into the hierarchy `H` and recovered
/// from it. Implementing this trait (together with [`AsAny`] on `H`) is the
/// whole extension recipe: it retrofits the identity predicate, the checked
/// and unchecked downcasts and the name query onto a new hierarchy.
pub trait Concrete<H: AsAny>: AsAny {
    /// The type identifier assigned to `Self` within `H`.
    spec fn tag() -> TypeTag;

    /// The display name of `Self` within `H`.
    spec fn name() -> Seq<char>;

    /// A concrete type has one identity: every one of its values reports the
    /// type's own tag and name, in any hierarchy it is erased into.
    proof fn intrinsic_identity(self)
        ensures
            self.tag_spec() == Self::tag(),
            self.name_spec() == Self::name(),
    ;

    /// What `self` looks like once erased into `H`.
    spec fn erased_spec(self) -> H;

    /// The value recovered from an erased `h`; meaningful only when
    /// `h.tag_spec() == Self::tag()`.
    spec fn project_spec(h: H) -> Self;

    /// Erasing a value stamps it with this type's tag and name, and loses
    /// nothing: projecting the erasure gives the value back.
    proof fn erasure_identity(self)
        ensures
            self.erased_spec().tag_spec() == Self::tag(),
            self.erased_spec().name_spec() == Self::name(),
            Self::project_spec(self.erased_spec()) == self,
    ;

    /// Every erased value carrying this type's tag is the erasure of the
    /// value it projects to: the tag decides membership exactly.
    proof fn tagged_is_erased(h: H)
        requires
            h.tag_spec() == Self::tag(),
        ensures
            Self::project_spec(h).erased_spec() == h,
    ;

    /// Erase `self` into the hierarchy.
    fn as_any(self) -> (h: H)
        ensures
            h == self.erased_spec(),
    ;

    /// Whether `h` holds a value of this concrete type.
    fn is_in(h: &H) -> (b: bool)
        ensures
            b == (h.tag_spec() == Self::tag()),
    ;

    /// Checked shared downcast: a reference to the stored value when the
    /// tag matches, absent otherwise.
    fn downcast_ref_in(h: &H) -> (r: Option<&Self>)
        ensures
            r is Some <==> h.tag_spec() == Self::tag(),
            r is Some ==> *r.unwrap() == Self::project_spec(*h),
    ;

    /// Checked exclusive downcast: a mutable reference to the stored value
    /// when the tag matches, absent (with `h` untouched) otherwise.
    fn downcast_mut_in(h: &mut H) -> (r: Option<&mut Self>)
        ensures
            old(h).tag_spec() == Self::tag() ==> r is Some
                && *r.unwrap() == Self::project_spec(*old(h))
                && *final(h) == (*final(r.unwrap())).erased_spec(),
            old(h).tag_spec() != Self::tag() ==> r is None && *final(h) == *old(h),
    ;

    /// Checked owned downcast: the stored value itself when the tag matches,
    /// the erased value handed back untouched otherwise.
    fn downcast_owned_in(h: H) -> (r: Result<Self, H>)
        ensures
            h.tag_spec() == Self::tag() ==> (r matches Ok(x) && x == Self::project_spec(h)),
            h.tag_spec() != Self::tag() ==> (r matches Err(e) && e == h),
    ;
}

/// The ergonomic front: every hierarchy gets the identity predicate and the
/// downcasts as methods, generic in the requested concrete type. The checked
/// operations signal a mismatch only by an absent result; the unchecked ones
/// demand that the caller has already proved the type claim.
pub trait Downcast: AsAny {
    /// Whether the stored value's concrete type is `T`.
    fn is<T: Concrete<Self>>(&self) -> (b: bool)
        ensures
            b == (self.tag_spec() == T::tag()),
    {
        T::is_in(self)
    }

    /// Checked shared downcast to `T`.
    fn downcast_ref<T: Concrete<Self>>(&self) -> (r: Option<&T>)
        ensures
            r is Some <==> self.tag_spec() == T::tag(),
            r is Some ==> *r.unwrap() == T::project_spec(*self),
    {
        T::downcast_ref_in(self)
    }

    /// Checked exclusive downcast to `T`: mutation through the returned
    /// reference is mutation of the stored value.
    fn downcast_mut<T: Concrete<Self>>(&mut self) -> (r: Option<&mut T>)
        ensures
            old(self).tag_spec() == T::tag() ==> r is Some
                && *r.unwrap() == T::project_spec(*old(self))
                && *final(self) == (*final(r.unwrap())).erased_spec(),
            old(self).tag_spec() != T::tag() ==> r is None && *final(self) == *old(self),
    {
        T::downcast_mut_in(self)
    }

    /// Unchecked shared downcast to `T`: no mismatch signal exists, so the
    /// caller must prove the type claim beforehand.
    fn downcast_ref_unchecked<T: Concrete<Self>>(&self) -> (r: &T)
        requires
            self.tag_spec() == T::tag(),
        ensures
            *r == T::project_spec(*self),
    {
        match T::downcast_ref_in(self) {
            Some(x) => x,
            None => unreached(),
        }
    }

    /// Unchecked exclusive downcast to `T`, under the same caller-proved
    /// type claim.
    fn downcast_mut_unchecked<T: Concrete<Self>>(&mut self) -> (r: &mut T)
        requires
            old(self).tag_spec() == T::tag(),
        ensures
            *r == T::project_spec(*old(self)),
            *final(self) == (*final(r)).erased_spec(),
    {
        match T::downcast_mut_in(self) {
            Some(x) => x,
            None => unreached(),
        }
    }

    /// Unchecked owned downcast: surrenders the erased slot and yields the
    /// stored value itself, under the same caller-proved type claim.
    fn into_unchecked<T: Concrete<Self>>(self) -> (x: T)
        requires
            self.tag_spec() == T::tag(),
        ensures
            x == T::project_spec(self),
    {
        match T::downcast_owned_in(self) {
            Ok(x) => x,
            Err(_) => unreached(),
        }
    }
}

impl<H: AsAny> Downcast for H {
}

} // verus!
