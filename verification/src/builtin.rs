//! The built-in hierarchy: a type-erased store over a few plain concrete
//! types, with the full downcasting capability retrofitted onto it.

use vstd::prelude::*;
use crate::hierarchy::{AsAny, Concrete};
use crate::identity::TypeTag;

verus! {

/// The identifier of [`Integer`].
pub open spec fn integer_tag() -> TypeTag {
    TypeTag { code: 1 }
}

/// The identifier of [`Text`].
pub open spec fn text_tag() -> TypeTag {
    TypeTag { code: 2 }
}

/// The identifier of [`Flag`].
pub open spec fn flag_tag() -> TypeTag {
    TypeTag { code: 3 }
}

/// A concrete signed-integer value.
#[derive(Clone, Copy, PartialEq, Eq, Structural, Debug)]
pub struct Integer {
    pub value: i64,
}

/// A concrete textual value.
#[derive(Clone, PartialEq, Eq, Debug)]
pub struct Text {
    pub value: String,
}

/// A concrete boolean value.
#[derive(Clone, Copy, PartialEq, Eq, Structural, Debug)]
pub struct Flag {
    pub value: bool,
}

/// The built-in type-erased store: it holds one value of an unknown concrete
/// type and exposes it only through the capability traits.
#[derive(Clone, PartialEq, Eq, Debug)]
pub enum AnyValue {
    Integer(Integer),
    Text(Text),
    Flag(Flag),
}

/// The display names of the built-in concrete types are pairwise distinct.
pub proof fn builtin_names_distinct()
    ensures
        "Integer"@ != "Text"@,
        "Integer"@ != "Flag"@,
        "Text"@ != "Flag"@,
{
    reveal_strlit("Integer");
    reveal_strlit("Text");
    reveal_strlit("Flag");
    assert("Integer"@.len() == 7);
    assert("Text"@.len() == 4);
    assert("Text"@[0] == 'T');
    assert("Flag"@[0] == 'F');
}

impl AsAny for AnyValue {
    open spec fn tag_spec(&self) -> TypeTag {
        match *self {
            AnyValue::Integer(_) => integer_tag(),
            AnyValue::Text(_) => text_tag(),
            AnyValue::Flag(_) => flag_tag(),
        }
    }

    open spec fn name_spec(&self) -> Seq<char> {
        match *self {
            AnyValue::Integer(_) => "Integer"@,
            AnyValue::Text(_) => "Text"@,
            AnyValue::Flag(_) => "Flag"@,
        }
    }

    proof fn name_tracks_tag(&self, other: &Self) {
        builtin_names_distinct();
    }

    fn type_tag(&self) -> (t: TypeTag) {
        match self {
            AnyValue::Integer(_) => TypeTag { code: 1 },
            AnyValue::Text(_) => TypeTag { code: 2 },
            AnyValue::Flag(_) => TypeTag { code: 3 },
        }
    }

    fn type_label(&self) -> (r: &'static str) {
        match self {
            AnyValue::Integer(_) => "Integer",
            AnyValue::Text(_) => "Text",
            AnyValue::Flag(_) => "Flag",
        }
    }
}

impl AsAny for Integer {
    open spec fn tag_spec(&self) -> TypeTag {
        integer_tag()
    }

    open spec fn name_spec(&self) -> Seq<char> {
        "Integer"@
    }

    proof fn name_tracks_tag(&self, other: &Self) {
    }

    fn type_tag(&self) -> (t: TypeTag) {
        TypeTag { code: 1 }
    }

    fn type_label(&self) -> (r: &'static str) {
        "Integer"
    }
}

impl AsAny for Text {
    open spec fn tag_spec(&self) -> TypeTag {
        text_tag()
    }

    open spec fn name_spec(&self) -> Seq<char> {
        "Text"@
    }

    proof fn name_tracks_tag(&self, other: &Self) {
    }

    fn type_tag(&self) -> (t: TypeTag) {
        TypeTag { code: 2 }
    }

    fn type_label(&self) -> (r: &'static str) {
        "Text"
    }
}

impl AsAny for Flag {
    open spec fn tag_spec(&self) -> TypeTag {
        flag_tag()
    }

    open spec fn name_spec(&self) -> Seq<char> {
        "Flag"@
    }

    proof fn name_tracks_tag(&self, other: &Self) {
    }

    fn type_tag(&self) -> (t: TypeTag) {
        TypeTag { code: 3 }
    }

    fn type_label(&self) -> (r: &'static str) {
        "Flag"
    }
}

impl Concrete<AnyValue> for Integer {
    open spec fn tag() -> TypeTag {
        integer_tag()
    }

    open spec fn name() -> Seq<char> {
        "Integer"@
    }

    open spec fn erased_spec(self) -> AnyValue {
        AnyValue::Integer(self)
    }

    open spec fn project_spec(h: AnyValue) -> Integer {
        match h {
            AnyValue::Integer(v) => v,
            _ => arbitrary(),
        }
    }

    proof fn intrinsic_identity(self) {
    }

    proof fn erasure_identity(self) {
    }

    proof fn tagged_is_erased(h: AnyValue) {
    }

    fn as_any(self) -> (h: AnyValue) {
        AnyValue::Integer(self)
    }

    fn is_in(h: &AnyValue) -> (b: bool) {
        match h {
            AnyValue::Integer(_) => true,
            _ => false,
        }
    }

    fn downcast_ref_in(h: &AnyValue) -> (r: Option<&Integer>) {
        match h {
            AnyValue::Integer(v) => Some(v),
            _ => None,
        }
    }

    fn downcast_mut_in(h: &mut AnyValue) -> (r: Option<&mut Integer>) {
        match h {
            AnyValue::Integer(v) => Some(v),
            _ => None,
        }
    }

    fn downcast_owned_in(h: AnyValue) -> (r: Result<Integer, AnyValue>) {
        match h {
            AnyValue::Integer(v) => Ok(v),
            _ => Err(h),
        }
    }
}

impl Concrete<AnyValue> for Text {
    open spec fn tag() -> TypeTag {
        text_tag()
    }

    open spec fn name() -> Seq<char> {
        "Text"@
    }

    open spec fn erased_spec(self) -> AnyValue {
        AnyValue::Text(self)
    }

    open spec fn project_spec(h: AnyValue) -> Text {
        match h {
            AnyValue::Text(v) => v,
            _ => arbitrary(),
        }
    }

    proof fn intrinsic_identity(self) {
    }

    proof fn erasure_identity(self) {
    }

    proof fn tagged_is_erased(h: AnyValue) {
    }

    fn as_any(self) -> (h: AnyValue) {
        AnyValue::Text(self)
    }

    fn is_in(h: &AnyValue) -> (b: bool) {
        match h {
            AnyValue::Text(_) => true,
            _ => false,
        }
    }

    fn downcast_ref_in(h: &AnyValue) -> (r: Option<&Text>) {
        match h {
            AnyValue::Text(v) => Some(v),
            _ => None,
        }
    }

    fn downcast_mut_in(h: &mut AnyValue) -> (r: Option<&mut Text>) {
        match h {
            AnyValue::Text(v) => Some(v),
            _ => None,
        }
    }

    fn downcast_owned_in(h: AnyValue) -> (r: Result<Text, AnyValue>) {
        match h {
            AnyValue::Text(v) => Ok(v),
            _ => Err(h),
        }
    }
}

impl Concrete<AnyValue> for Flag {
    open spec fn tag() -> TypeTag {
        flag_tag()
    }

    open spec fn name() -> Seq<char> {
        "Flag"@
    }

    open spec fn erased_spec(self) -> AnyValue {
        AnyValue::Flag(self)
    }

    open spec fn project_spec(h: AnyValue) -> Flag {
        match h {
            AnyValue::Flag(v) => v,
            _ => arbitrary(),
        }
    }

    proof fn intrinsic_identity(self) {
    }

    proof fn erasure_identity(self) {
    }

    proof fn tagged_is_erased(h: AnyValue) {
    }

    fn as_any(self) -> (h: AnyValue) {
        AnyValue::Flag(self)
    }

    fn is_in(h: &AnyValue) -> (b: bool) {
        match h {
            AnyValue::Flag(_) => true,
            _ => false,
        }
    }

    fn downcast_ref_in(h: &AnyValue) -> (r: Option<&Flag>) {
        match h {
            AnyValue::Flag(v) => Some(v),
            _ => None,
        }
    }

    fn downcast_mut_in(h: &mut AnyValue) -> (r: Option<&mut Flag>) {
        match h {
            AnyValue::Flag(v) => Some(v),
            _ => None,
        }
    }

    fn downcast_owned_in(h: AnyValue) -> (r: Result<Flag, AnyValue>) {
        match h {
            AnyValue::Flag(v) => Ok(v),
            _ => Err(h),
        }
    }
}

} // verus!
