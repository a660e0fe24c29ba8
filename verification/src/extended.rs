//! A second hierarchy, declared exactly as a downstream crate would declare
//! its own: a new erased store, an [`AsAny`] impl giving it a type identity,
//! and one [`Concrete`] impl per stored type. Nothing else is needed for the
//! identity predicate, the downcasts and the name query to work on it, and
//! the laws in [`crate::laws`] hold of it as of the built-in hierarchy.

use vstd::prelude::*;
use crate::builtin::{builtin_names_distinct, flag_tag, integer_tag, Flag, Integer};
use crate::hierarchy::{AsAny, Concrete};
use crate::identity::TypeTag;

verus! {

/// A custom type-erased store that admits only two of the concrete types.
/// The types keep the identity they have everywhere else.
#[derive(Clone, Copy, PartialEq, Eq, Debug)]
pub enum ExtendedAny {
    Integer(Integer),
    Flag(Flag),
}

impl AsAny for ExtendedAny {
    open spec fn tag_spec(&self) -> TypeTag {
        match *self {
            ExtendedAny::Integer(_) => integer_tag(),
            ExtendedAny::Flag(_) => flag_tag(),
        }
    }

    open spec fn name_spec(&self) -> Seq<char> {
        match *self {
            ExtendedAny::Integer(_) => "Integer"@,
            ExtendedAny::Flag(_) => "Flag"@,
        }
    }

    proof fn name_tracks_tag(&self, other: &Self) {
        builtin_names_distinct();
    }

    fn type_tag(&self) -> (t: TypeTag) {
        match self {
            ExtendedAny::Integer(_) => TypeTag { code: 1 },
            ExtendedAny::Flag(_) => TypeTag { code: 3 },
        }
    }

    fn type_label(&self) -> (r: &'static str) {
        match self {
            ExtendedAny::Integer(_) => "Integer",
            ExtendedAny::Flag(_) => "Flag",
        }
    }
}

impl Concrete<ExtendedAny> for Integer {
    open spec fn tag() -> TypeTag {
        integer_tag()
    }

    open spec fn name() -> Seq<char> {
        "Integer"@
    }

    open spec fn erased_spec(self) -> ExtendedAny {
        ExtendedAny::Integer(self)
    }

    open spec fn project_spec(h: ExtendedAny) -> Integer {
        match h {
            ExtendedAny::Integer(v) => v,
            _ => arbitrary(),
        }
    }

    proof fn intrinsic_identity(self) {
    }

    proof fn erasure_identity(self) {
    }

    proof fn tagged_is_erased(h: ExtendedAny) {
    }

    fn as_any(self) -> (h: ExtendedAny) {
        ExtendedAny::Integer(self)
    }

    fn is_in(h: &ExtendedAny) -> (b: bool) {
        match h {
            ExtendedAny::Integer(_) => true,
            _ => false,
        }
    }

    fn downcast_ref_in(h: &ExtendedAny) -> (r: Option<&Integer>) {
        match h {
            ExtendedAny::Integer(v) => Some(v),
            _ => None,
        }
    }

    fn downcast_mut_in(h: &mut ExtendedAny) -> (r: Option<&mut Integer>) {
        match h {
            ExtendedAny::Integer(v) => Some(v),
            _ => None,
        }
    }

    fn downcast_owned_in(h: ExtendedAny) -> (r: Result<Integer, ExtendedAny>) {
        match h {
            ExtendedAny::Integer(v) => Ok(v),
            _ => Err(h),
        }
    }
}

impl Concrete<ExtendedAny> for Flag {
    open spec fn tag() -> TypeTag {
        flag_tag()
    }

    open spec fn name() -> Seq<char> {
        "Flag"@
    }

    open spec fn erased_spec(self) -> ExtendedAny {
        ExtendedAny::Flag(self)
    }

    open spec fn project_spec(h: ExtendedAny) -> Flag {
        match h {
            ExtendedAny::Flag(v) => v,
            _ => arbitrary(),
        }
    }

    proof fn intrinsic_identity(self) {
    }

    proof fn erasure_identity(self) {
    }

    proof fn tagged_is_erased(h: ExtendedAny) {
    }

    fn as_any(self) -> (h: ExtendedAny) {
        ExtendedAny::Flag(self)
    }

    fn is_in(h: &ExtendedAny) -> (b: bool) {
        match h {
            ExtendedAny::Flag(_) => true,
            _ => false,
        }
    }

    fn downcast_ref_in(h: &ExtendedAny) -> (r: Option<&Flag>) {
        match h {
            ExtendedAny::Flag(v) => Some(v),
            _ => None,
        }
    }

    fn downcast_mut_in(h: &mut ExtendedAny) -> (r: Option<&mut Flag>) {
        match h {
            ExtendedAny::Flag(v) => Some(v),
            _ => None,
        }
    }

    fn downcast_owned_in(h: ExtendedAny) -> (r: Result<Flag, ExtendedAny>) {
        match h {
            ExtendedAny::Flag(v) => Ok(v),
            _ => Err(h),
        }
    }
}

} // verus!
