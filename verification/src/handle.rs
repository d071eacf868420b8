//! Owned references to OS-level resources (process handles and transient
//! snapshot handles), with a single well-defined release operation.

use vstd::prelude::*;

use crate::Error;

verus! {

/// The raw value the OS uses as its "invalid handle" sentinel
/// (all bits set, i.e. `-1` reinterpreted as a machine word).
pub const INVALID_HANDLE_RAW: usize = usize::MAX;

/// A raw handle value names a usable resource only when it is neither the
/// null value (reported when acquisition fails outright) nor the invalid
/// sentinel.
pub open spec fn raw_is_usable(raw: usize) -> bool {
    raw != 0 && raw != INVALID_HANDLE_RAW
}

/// An owned reference to one OS-level resource.
///
/// A `Handle` can only be created from a raw value that passed the
/// usability check, is not `Clone` or `Copy` (at most one live owner), and
/// is released by consuming it, so each acquired resource is released at
/// most once.
#[derive(Debug)]
pub struct Handle {
    raw: usize,
}

impl View for Handle {
    type V = usize;

    closed spec fn view(&self) -> usize {
        self.raw
    }
}

impl Handle {
    /// Validate a raw handle value freshly reported by the OS and take
    /// ownership of it. A value equal to the invalid sentinel (or null) is
    /// converted to a failure immediately, before being stored anywhere, so
    /// no downstream operation ever dereferences an invalid handle.
    pub fn acquire(raw: usize) -> (r: Result<Handle, Error>)
        ensures
            r is Ok <==> raw_is_usable(raw),
            r is Ok ==> r->Ok_0@ == raw,
            r is Err ==> r->Err_0 == Error::ResourceUnavailable,
    {
        if raw != 0 && raw != INVALID_HANDLE_RAW {
            Ok(Handle { raw })
        } else {
            Err(Error::ResourceUnavailable)
        }
    }

    /// Take ownership of a raw value already known to be usable.
    pub(crate) fn wrap(raw: usize) -> (h: Handle)
        requires
            raw_is_usable(raw),
        ensures
            h@ == raw,
    {
        Handle { raw }
    }

    /// The raw value, for handing to an OS call that uses (but does not
    /// release) the resource.
    pub fn raw(&self) -> (r: usize)
        ensures
            r == self@,
    {
        self.raw
    }

    /// Give the resource up for release: consumes the owner and hands the
    /// raw value back exactly once, for the platform shim to close.
    pub fn release(self) -> (r: usize)
        ensures
            r == self@,
    {
        self.raw
    }
}

} // verus!
