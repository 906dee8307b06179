//! The resource-exhaustion boundary: the error raised when a separator
//! cannot be found within the configured buffer cap, together with the
//! best-effort realignment of the bytes past the cutoff.

use vstd::prelude::*;
use vstd::slice::{slice_subrange, slice_to_vec};

verus! {

/// Raised when a separator search would grow the backlog past the configured
/// limit. Records how many bytes were scanned before the cap was exceeded.
#[derive(Debug)]
pub struct LimitOverrunError {
    consumed: usize,
}

impl LimitOverrunError {
    /// The number of bytes scanned before the cap was exceeded.
    pub closed spec fn spec_consumed(&self) -> int {
        self.consumed as int
    }

    pub fn new(consumed: usize) -> (r: Self)
        ensures
            r.spec_consumed() == consumed as int,
    {
        Self { consumed }
    }

    pub fn consumed(&self) -> (r: usize)
        ensures
            r as int == self.spec_consumed(),
    {
        self.consumed
    }
}

/// The longest suffix of `rem` that is a prefix of `sep`: dropping bytes from
/// the front of `rem` must not lose the head of a separator that straddles
/// the cutoff.
pub open spec fn realigned_tail(rem: Seq<u8>, sep: Seq<u8>) -> Seq<u8>
    decreases rem.len(),
{
    if rem.len() == 0 {
        rem
    } else if rem.len() <= sep.len() && rem == sep.subrange(0, rem.len() as int) {
        rem
    } else {
        realigned_tail(rem.skip(1), sep)
    }
}

/// Whether `a` is a prefix of `b`.
fn is_prefix_of(a: &[u8], b: &[u8]) -> (r: bool)
    ensures
        r == (a@.len() <= b@.len() && a@ == b@.subrange(0, a@.len() as int)),
{
    let alen = a.len();
    if alen > b.len() {
        return false;
    }
    let mut k: usize = 0;
    while k < alen
        invariant
            alen == a@.len(),
            alen <= b@.len(),
            k <= alen,
            forall|m: int| 0 <= m < k ==> a@[m] == b@[m],
        decreases alen - k,
    {
        if a[k] != b[k] {
            proof {
                assert(b@.subrange(0, a@.len() as int)[k as int] == b@[k as int]);
            }
            return false;
        }
        k += 1;
    }
    proof {
        assert(a@ =~= b@.subrange(0, a@.len() as int));
    }
    true
}

/// The realigned remainder for a backlog tail shorter than the separator.
pub(crate) fn realign_tail(rem: &[u8], sep: &[u8]) -> (r: Vec<u8>)
    requires
        rem@.len() < sep@.len(),
    ensures
        r@ == realigned_tail(rem@, sep@),
{
    let len = rem.len();
    let mut start: usize = 0;
    proof {
        assert(rem@.skip(0) =~= rem@);
    }
    while start < len
        invariant
            len == rem@.len(),
            rem@.len() < sep@.len(),
            start <= len,
            realigned_tail(rem@, sep@) == realigned_tail(rem@.skip(start as int), sep@),
        decreases len - start,
    {
        let tail = slice_subrange(rem, start, len);
        proof {
            assert(tail@ =~= rem@.skip(start as int));
        }
        if is_prefix_of(tail, sep) {
            return slice_to_vec(tail);
        }
        proof {
            assert(rem@.skip(start as int).skip(1) =~= rem@.skip(start + 1));
        }
        start += 1;
    }
    proof {
        assert(rem@.skip(len as int) =~= Seq::<u8>::empty());
    }
    Vec::new()
}

} // verus!
