//! The container — the recycle bin as the applications reason about it: one
//! scalar, its aggregate size — and the interpretation of the two shell calls
//! that read and empty it. The calls themselves are the caller's; this module
//! fixes what their result codes mean.

use vstd::prelude::*;

verus! {

/// The success code of the shell calls; any other code is a failure.
pub const S_OK: i32 = 0;

/// The recycle bin as the library models it: the one scalar the applications
/// read, its aggregate size in bytes.
#[derive(Clone, Copy, Debug, PartialEq, Eq, Structural)]
pub struct Container {
    pub size_bytes: u64,
}

impl Container {
    /// A container of a known size.
    pub fn new(size_bytes: u64) -> (c: Container)
        ensures
            c.size_bytes == size_bytes,
    {
        Container { size_bytes }
    }

    /// The aggregate size.
    pub fn size(&self) -> (r: u64)
        ensures
            r == self.size_bytes,
    {
        self.size_bytes
    }

    /// Empty the container. Emptying never errors — emptying an already empty
    /// container included — and the size reads 0 afterwards.
    pub fn clear(&mut self) -> (ok: bool)
        ensures
            ok,
            final(self).size_bytes == 0,
    {
        self.size_bytes = 0;
        true
    }
}

/// What a size query result means: a successful query yields the reported
/// size; any failure code is read as size 0 — the sentinel, not retried
/// sooner and never fatal.
pub fn bin_size_from_query(code: i32, reported: i64) -> (r: u64)
    requires
        code == S_OK ==> reported >= 0,
    ensures
        code == S_OK ==> r as int == reported as int,
        code != S_OK ==> r == 0,
{
    if code == S_OK {
        reported as u64
    } else {
        0
    }
}

/// What an empty-the-bin result means: success exactly on `S_OK`.
pub fn empty_succeeded(code: i32) -> (ok: bool)
    ensures
        ok <==> code == S_OK,
{
    code == S_OK
}

} // verus!
