//! The opaque per-type identifier.

use vstd::prelude::*;

verus! {

/// A type identifier: unique per concrete type within one hierarchy and one
/// build, and meaningful only under equality comparison — never ordered,
/// hashed across builds, or persisted.
#[derive(Clone, Copy, PartialEq, Eq, Structural, Debug)]
pub struct TypeTag {
    pub code: u64,
}

} // verus!
