//! A byte chunk that is either a view into caller-owned memory or an
//! independently owned buffer. The engine picks the variant per call to
//! avoid unnecessary copies; callers must not assume either variant.

use vstd::prelude::*;
use vstd::slice::slice_to_vec;

verus! {

/// A byte sequence, either borrowed from a caller's buffer or owned.
pub enum Chunk<'a> {
    Borrowed(&'a [u8]),
    Owned(Vec<u8>),
}

impl<'a> View for Chunk<'a> {
    type V = Seq<u8>;

    open spec fn view(&self) -> Seq<u8> {
        match self {
            Chunk::Borrowed(s) => s@,
            Chunk::Owned(v) => v@,
        }
    }
}

impl<'a> Chunk<'a> {
    /// The bytes of the chunk, whichever variant holds them.
    pub fn as_slice(&self) -> (r: &[u8])
        ensures
            r@ == self@,
    {
        match self {
            Chunk::Borrowed(s) => s,
            Chunk::Owned(v) => v.as_slice(),
        }
    }

    /// Convert the chunk into an owned buffer, copying only if it was borrowed.
    pub fn into_vec(self) -> (r: Vec<u8>)
        ensures
            r@ == self@,
    {
        match self {
            Chunk::Borrowed(s) => slice_to_vec(s),
            Chunk::Owned(v) => v,
        }
    }

    /// The number of bytes in the chunk.
    pub fn len(&self) -> (r: usize)
        ensures
            r == self@.len(),
    {
        match self {
            Chunk::Borrowed(s) => s.len(),
            Chunk::Owned(v) => v.len(),
        }
    }

    /// Whether the chunk holds no bytes.
    pub fn is_empty(&self) -> (r: bool)
        ensures
            r == (self@.len() == 0),
    {
        self.len() == 0
    }
}

} // verus!
