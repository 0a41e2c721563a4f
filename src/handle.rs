use vstd::prelude::*;

verus! {

/// The address that stands for an empty byte view whose runtime pointer was
/// null: non-null, and never read through.
pub const DANGLING: usize = 1;

/// How a handle to an object of the runtime was obtained.
#[derive(Clone, Copy, Debug, PartialEq, Eq, Structural)]
pub enum Ownership {
    /// The producer already counted a reference for the caller (an `init` or
    /// `copy` result).
    Retained,
    /// The reference is not the caller's (a convenience constructor's
    /// autoreleased result): the caller must count one before keeping it.
    Borrowed,
}

/// A non-null handle together with whether a reference must be counted
/// before an owner takes it.
#[derive(Clone, Copy, Debug, PartialEq, Eq, Structural)]
pub struct Adoption {
    pub handle: usize,
    pub retain: bool,
}

/// Decides how an owner takes the handle `handle`: never for a null handle,
/// and with one retain exactly when the reference was borrowed.
pub fn adopt(handle: usize, how: Ownership) -> (r: Option<Adoption>)
    ensures
        handle == 0 <==> r is None,
        r matches Some(a) ==> a.handle == handle && a.retain == (how == Ownership::Borrowed),
{
    if handle == 0 {
        None
    } else {
        Some(Adoption { handle, retain: how == Ownership::Borrowed })
    }
}

/// The start and length of a view of an object's bytes.
#[derive(Clone, Copy, Debug, PartialEq, Eq, Structural)]
pub struct ByteSpan {
    pub ptr: usize,
    pub len: usize,
}

/// The view of an object's bytes given the pointer and the length that the
/// runtime reported: a null pointer gives an empty view at `DANGLING`.
pub fn byte_span(ptr: usize, len: usize) -> (r: ByteSpan)
    ensures
        ptr == 0 ==> r.ptr == DANGLING && r.len == 0,
        ptr != 0 ==> r.ptr == ptr && r.len == len,
        r.ptr != 0,
{
    if ptr == 0 {
        ByteSpan { ptr: DANGLING, len: 0 }
    } else {
        ByteSpan { ptr, len }
    }
}

} // verus!
