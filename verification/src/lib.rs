//! Enumerate running operating-system processes, locate one by name, walk the
//! modules loaded inside a process, and exchange fixed-layout values with a
//! foreign address space.
//!
//! The operating-system services themselves (taking a snapshot, opening a
//! process, copying foreign memory) are collaborators outside this crate: a
//! thin platform shim performs those calls and feeds their raw outcomes to
//! the state machines and codecs here, which make every decision and are
//! verified.

pub mod handle;
pub mod memory;
pub mod module;
pub mod name;
pub mod process;
pub mod registry;
pub mod resolver;

use vstd::prelude::*;

verus! {

/// Failure kinds surfaced to callers.
///
/// `Os` wraps an operating-system error code opaquely for propagation.
#[derive(Clone, Copy, Debug, PartialEq, Eq, Structural)]
pub enum Error {
    /// A snapshot or handle could not be created, including the
    /// invalid-sentinel case.
    ResourceUnavailable,
    /// A name lookup exhausted the enumerable set without a match.
    NotFound,
    /// An acquired resource was structurally unusable, e.g. an opened
    /// handle that is itself the invalid sentinel.
    InvalidData,
    /// An error code reported by the operating system.
    Os(u32),
}

} // verus!
