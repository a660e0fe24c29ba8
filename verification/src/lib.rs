//! Downcasting for type-erased values.
//!
//! A *hierarchy* is a type that stores values of several concrete types
//! behind one interface, remembering only an opaque type identifier
//! ([`identity::TypeTag`]) and a display name for the concrete type inside.
//! The traits in [`hierarchy`] let any such type offer a type-identity
//! predicate, checked downcasts (shared, exclusive and owned) whose sole
//! mismatch signal is an absent result, unchecked downcasts whose type claim
//! the caller must prove, and a type-name query. Hierarchies are plain data,
//! so the thread-affinity qualifiers (sendable across threads, shareable
//! between threads) come with them for free.
//!
//! [`builtin`] declares a ready-made hierarchy over a few plain concrete
//! types, and [`extended`] declares a second, independent hierarchy the same
//! way a downstream crate would, to show the extension recipe. [`laws`]
//! states and proves the guarantees shared by every hierarchy.

pub mod builtin;
pub mod extended;
pub mod hierarchy;
pub mod identity;
pub mod laws;
