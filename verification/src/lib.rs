//! Self-describing memory-layout descriptors for types that independently
//! compiled components exchange across a binary boundary.
//!
//! A component attaches a [`type_layout::TypeLayout`] descriptor to each
//! exported type.  Descriptors refer to the layouts of their fields through
//! deferred identifiers resolved in a [`registry::TypeRegistry`], so that
//! self-referential and mutually recursive type graphs can be described.
//! The [`abi_checking`] module decides whether two descriptors for
//! nominally the same type may safely be treated as interchangeable, the
//! [`equality`] module compares descriptor graphs structurally, and the
//! [`render`] module produces the bounded diagnostic strings both report.
//! Every walk over a descriptor graph goes through the cycle-safe
//! bookkeeping in [`traversal`], which is what makes all of them terminate
//! on arbitrary, possibly cyclic graphs.

pub mod abi_checking;
pub mod equality;
pub mod registry;
pub mod render;
pub mod traversal;
pub mod type_layout;
