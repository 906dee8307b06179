//! The stream buffering algorithm: a backlog of received, not-yet-consumed
//! bytes, with fixed-size, exact-size and separator-delimited extraction.

use vstd::prelude::*;
use vstd::slice::slice_subrange;

use crate::chunk::Chunk;
use crate::errors::{realign_tail, realigned_tail, LimitOverrunError};

verus! {

/// `needle` occurs in `hay` starting at index `i`.
pub open spec fn contains_at(hay: Seq<u8>, needle: Seq<u8>, i: int) -> bool {
    0 <= i && i + needle.len() <= hay.len() && hay.subrange(i, i + needle.len() as int)
        == needle
}

/// The index of the first occurrence of `needle` in `hay`, if any.
pub open spec fn find_first(hay: Seq<u8>, needle: Seq<u8>) -> Option<int>
    decreases hay.len(),
{
    if needle.len() == 0 {
        Some(0)
    } else if hay.len() < needle.len() {
        None
    } else if hay.subrange(0, needle.len() as int) == needle {
        Some(0)
    } else {
        match find_first(hay.skip(1), needle) {
            Some(i) => Some(i + 1),
            None => None,
        }
    }
}

proof fn lemma_contains_at_shift(hay: Seq<u8>, needle: Seq<u8>, j: int)
    requires
        hay.len() >= 1,
        j >= 0,
    ensures
        contains_at(hay, needle, j + 1) <==> contains_at(hay.skip(1), needle, j),
{
    if j + needle.len() <= hay.skip(1).len() {
        assert(hay.skip(1).subrange(j, j + needle.len() as int) =~= hay.subrange(
            j + 1,
            j + 1 + needle.len() as int,
        ));
    }
}

/// `find_first` returns exactly the earliest occurrence: `Some(i)` points at
/// an occurrence preceded by none, and `None` means there is no occurrence.
pub proof fn lemma_find_first_spec(hay: Seq<u8>, needle: Seq<u8>)
    ensures
        match find_first(hay, needle) {
            Some(i) => contains_at(hay, needle, i) && (forall|j: int|
                0 <= j < i ==> !contains_at(hay, needle, j)),
            None => forall|j: int| !contains_at(hay, needle, j),
        },
    decreases hay.len(),
{
    if needle.len() == 0 {
        assert(contains_at(hay, needle, 0)) by {
            assert(hay.subrange(0, 0) =~= needle);
        }
    } else if hay.len() < needle.len() {
    } else if hay.subrange(0, needle.len() as int) == needle {
    } else {
        lemma_find_first_spec(hay.skip(1), needle);
        assert forall|j: int| j >= 0 implies (contains_at(hay, needle, j + 1) <==> contains_at(
            hay.skip(1),
            needle,
            j,
        )) by {
            lemma_contains_at_shift(hay, needle, j);
        }
        match find_first(hay.skip(1), needle) {
            Some(i) => {
                assert(contains_at(hay.skip(1), needle, i));
                assert(contains_at(hay, needle, i + 1));
                assert forall|j: int| 0 <= j < i + 1 implies !contains_at(hay, needle, j) by {
                    if j == 0 {
                        assert(hay.subrange(0, needle.len() as int) != needle);
                    } else {
                        assert(!contains_at(hay.skip(1), needle, j - 1));
                        lemma_contains_at_shift(hay, needle, j - 1);
                    }
                }
            },
            None => {
                assert forall|j: int| !contains_at(hay, needle, j) by {
                    if j == 0 {
                        assert(hay.subrange(0, needle.len() as int) != needle);
                    } else if j > 0 {
                        assert(!contains_at(hay.skip(1), needle, j - 1));
                        lemma_contains_at_shift(hay, needle, j - 1);
                    }
                }
            },
        }
    }
}

fn is_match_at(haystack: &[u8], needle: &[u8], i: usize) -> (r: bool)
    requires
        i + needle@.len() <= haystack@.len(),
    ensures
        r == contains_at(haystack@, needle@, i as int),
{
    let ghost sub = haystack@.subrange(i as int, i + needle@.len() as int);
    let hlen = haystack.len();
    let nlen = needle.len();
    let mut k: usize = 0;
    while k < nlen
        invariant
            i + needle@.len() <= haystack@.len(),
            hlen == haystack@.len(),
            nlen == needle@.len(),
            k <= nlen,
            sub == haystack@.subrange(i as int, i + needle@.len() as int),
            forall|m: int| 0 <= m < k ==> haystack@[i + m] == needle@[m],
        decreases nlen - k,
    {
        if haystack[i + k] != needle[k] {
            proof {
                assert(sub[k as int] == haystack@[i + k]);
            }
            return false;
        }
        k += 1;
    }
    proof {
        assert(sub =~= needle@);
    }
    true
}

/// The index of the first occurrence of `needle` within `haystack`, if any.
pub fn find_subsequence(haystack: &[u8], needle: &[u8]) -> (r: Option<usize>)
    requires
        needle@.len() >= 1,
    ensures
        match r {
            Some(i) => find_first(haystack@, needle@) == Some(i as int),
            None => find_first(haystack@, needle@) is None,
        },
{
    proof {
        lemma_find_first_spec(haystack@, needle@);
    }
    if needle.len() > haystack.len() {
        return None;
    }
    let end = haystack.len() - needle.len();
    let mut i: usize = 0;
    while i <= end
        invariant
            needle@.len() >= 1,
            needle@.len() <= haystack@.len(),
            end == haystack@.len() - needle@.len(),
            end < usize::MAX,
            i <= end + 1,
            forall|j: int| 0 <= j < i ==> !contains_at(haystack@, needle@, j),
        decreases end + 1 - i,
    {
        if is_match_at(haystack, needle, i) {
            proof {
                lemma_find_first_spec(haystack@, needle@);
            }
            return Some(i);
        }
        i += 1;
    }
    None
}

/// Append the bytes of `other` to `v`.
pub(crate) fn push_bytes(v: &mut Vec<u8>, other: &[u8])
    ensures
        final(v)@ == old(v)@ + other@,
{
    v.extend_from_slice(other);
    proof {
        assert(v@ =~= old(v)@ + other@);
    }
}

/// Remove and return the first `n` bytes of `v`.
fn take_prefix(v: &mut Vec<u8>, n: usize) -> (front: Vec<u8>)
    requires
        n <= old(v)@.len(),
    ensures
        front@ == old(v)@.subrange(0, n as int),
        final(v)@ == old(v)@.skip(n as int),
{
    let mut tail = v.split_off(n);
    core::mem::swap(v, &mut tail);
    tail
}

/// The provisional scanned length used for limit evaluation: the number of
/// positions at which a separator of length `seplen` could start and have
/// been ruled out in a backlog of length `buflen`.
pub open spec fn provisional_len(buflen: int, seplen: int) -> int {
    if buflen >= seplen {
        buflen - seplen + 1
    } else {
        0
    }
}

/// Accumulates received, not-yet-consumed bytes across calls. Grows only by
/// appending newly received bytes; shrinks only by draining consumed
/// prefixes.
pub struct BufferedStreamReader {
    buffer: Vec<u8>,
}

impl View for BufferedStreamReader {
    type V = Seq<u8>;

    closed spec fn view(&self) -> Seq<u8> {
        self.buffer@
    }
}

/// A read that could not complete: either more input is needed, or an error
/// with the best-effort remainder for resynchronization.
#[derive(Debug)]
pub enum StreamReadError<E> {
    InputNeeded,
    Error(E, Vec<u8>),
}

/// The owned-variant counterpart of [`StreamReadError`], used by the reads
/// that take no freshly received slice.
#[derive(Debug)]
pub enum StreamReadOwnedError<E> {
    InputNeeded,
    Error(E, Vec<u8>),
}

impl BufferedStreamReader {
    pub fn new() -> (r: Self)
        ensures
            r@ == Seq::<u8>::empty(),
    {
        Self { buffer: Vec::new() }
    }

    /// Drain and return the whole backlog.
    pub fn read_all(&mut self) -> (r: Vec<u8>)
        ensures
            r@ == old(self)@,
            final(self)@ == Seq::<u8>::empty(),
    {
        let r = self.buffer.split_off(0);
        proof {
            assert(r@ =~= old(self)@);
            assert(self@ =~= Seq::<u8>::empty());
        }
        r
    }

    /// Append newly received bytes to the backlog.
    pub fn fill_buf(&mut self, buf: &[u8])
        ensures
            final(self)@ == old(self)@ + buf@,
    {
        push_bytes(&mut self.buffer, buf);
    }

    /// Extract exactly `max_size` bytes once the backlog and the received
    /// slice together hold that many; borrow from `received_buf` when no
    /// backlog exists.
    pub fn read_from<'buf>(&mut self, received_buf: &'buf [u8], max_size: usize) -> (r: Result<
        Chunk<'buf>,
        StreamReadError<()>,
    >)
        ensures
            ({
                let all = old(self)@ + received_buf@;
                match r {
                    Ok(data) => all.len() >= max_size && data@ == all.subrange(
                        0,
                        max_size as int,
                    ) && final(self)@ == all.skip(max_size as int) && (data is Borrowed <==> old(
                        self,
                    )@.len() == 0),
                    Err(e) => e is InputNeeded && all.len() < max_size && final(self)@ == all,
                }
            }),
    {
        let ghost all = old(self)@ + received_buf@;
        if self.buffer.len() == 0 && received_buf.len() >= max_size {
            let data = slice_subrange(received_buf, 0, max_size);
            let rest = slice_subrange(received_buf, max_size, received_buf.len());
            push_bytes(&mut self.buffer, rest);
            proof {
                assert(all =~= received_buf@);
                assert(self@ =~= all.skip(max_size as int));
            }
            Ok(Chunk::Borrowed(data))
        } else {
            push_bytes(&mut self.buffer, received_buf);
            if self.buffer.len() >= max_size {
                let data = take_prefix(&mut self.buffer, max_size);
                Ok(Chunk::Owned(data))
            } else {
                Err(StreamReadError::InputNeeded)
            }
        }
    }

    /// Extract exactly `max_size` bytes from the backlog alone.
    pub fn read(&mut self, max_size: usize) -> (r: Result<Vec<u8>, StreamReadOwnedError<()>>)
        ensures
            match r {
                Ok(data) => old(self)@.len() >= max_size && data@ == old(self)@.subrange(
                    0,
                    max_size as int,
                ) && final(self)@ == old(self)@.skip(max_size as int),
                Err(e) => e is InputNeeded && old(self)@.len() < max_size && final(self)@ == old(self)@,
            },
    {
        if self.buffer.len() >= max_size {
            Ok(take_prefix(&mut self.buffer, max_size))
        } else {
            Err(StreamReadOwnedError::InputNeeded)
        }
    }

    /// Extract exactly `n` bytes once available; identical extraction shape
    /// to [`Self::read_from`], kept as the exact-size entry point.
    pub fn read_exactly_from<'buf>(&mut self, received_buf: &'buf [u8], n: usize) -> (r: Result<
        Chunk<'buf>,
        StreamReadError<()>,
    >)
        ensures
            ({
                let all = old(self)@ + received_buf@;
                match r {
                    Ok(data) => all.len() >= n && data@ == all.subrange(0, n as int) && final(self)@
                        == all.skip(n as int) && (data is Borrowed <==> old(self)@.len() == 0),
                    Err(e) => e is InputNeeded && all.len() < n && final(self)@ == all,
                }
            }),
    {
        self.read_from(received_buf, n)
    }

    /// Extract exactly `n` bytes from the backlog alone.
    pub fn read_exactly(&mut self, n: usize) -> (r: Result<Vec<u8>, StreamReadOwnedError<()>>)
        ensures
            match r {
                Ok(data) => old(self)@.len() >= n && data@ == old(self)@.subrange(0, n as int)
                    && final(self)@ == old(self)@.skip(n as int),
                Err(e) => e is InputNeeded && old(self)@.len() < n && final(self)@ == old(self)@,
            },
    {
        self.read(n)
    }

    /// Evaluate the limit after a failed separator search: fail once the
    /// provisional scanned length exceeds `limit`, carrying the realigned
    /// tail of the backlog, else ask for more input.
    fn check_buffer_size(&self, separator: &[u8], limit: usize) -> (r: StreamReadError<
        LimitOverrunError,
    >)
        requires
            separator@.len() >= 1,
            limit >= 1,
        ensures
            ({
                let p = provisional_len(self@.len() as int, separator@.len() as int);
                match r {
                    StreamReadError::InputNeeded => p <= limit,
                    StreamReadError::Error(e, rem) => p > limit && e.spec_consumed() == p && rem@
                        == realigned_tail(self@.skip(p), separator@),
                }
            }),
    {
        let buflen = self.buffer.len();
        let seplen = separator.len();
        let provisional = if buflen >= seplen {
            buflen - seplen + 1
        } else {
            0
        };
        if provisional > limit {
            let tail = slice_subrange(self.buffer.as_slice(), provisional, buflen);
            proof {
                assert(tail@ =~= self@.skip(provisional as int));
            }
            let rem = realign_tail(tail, separator);
            StreamReadError::Error(LimitOverrunError::new(provisional), rem)
        } else {
            StreamReadError::InputNeeded
        }
    }

    /// Search the backlog plus the received slice for the first occurrence
    /// of `separator`; on a match return the bytes before it (including the
    /// separator when `keep_end`) and keep everything after the match; with
    /// no match, fail once more than `limit` positions were scanned.
    pub fn read_until_from<'buf>(
        &mut self,
        received_buf: &'buf [u8],
        separator: &[u8],
        limit: usize,
        keep_end: bool,
    ) -> (r: Result<Chunk<'buf>, StreamReadError<LimitOverrunError>>)
        requires
            separator@.len() >= 1,
            limit >= 1,
        ensures
            ({
                let all = old(self)@ + received_buf@;
                let sep = separator@;
                match r {
                    Ok(data) => find_first(all, sep) matches Some(i) && data@ == (if keep_end {
                        all.subrange(0, i + sep.len())
                    } else {
                        all.subrange(0, i)
                    }) && final(self)@ == all.skip(i + sep.len()) && (data is Borrowed <==> old(
                        self,
                    )@.len() == 0),
                    Err(StreamReadError::InputNeeded) => find_first(all, sep) is None
                        && provisional_len(all.len() as int, sep.len() as int) <= limit && final(self)@
                        == all,
                    Err(StreamReadError::Error(e, rem)) => find_first(all, sep) is None
                        && provisional_len(all.len() as int, sep.len() as int) > limit
                        && e.spec_consumed() == provisional_len(all.len() as int, sep.len() as int)
                        && rem@ == realigned_tail(
                        all.skip(provisional_len(all.len() as int, sep.len() as int)),
                        sep,
                    ) && final(self)@ == all,
                }
            }),
    {
        let ghost all = old(self)@ + received_buf@;
        if self.buffer.len() == 0 {
            proof {
                assert(all =~= received_buf@);
            }
            let received_len = received_buf.len();
            match find_subsequence(received_buf, separator) {
                Some(sepidx) => {
                    proof {
                        lemma_find_first_spec(received_buf@, separator@);
                        assert(sepidx + separator@.len() <= received_len);
                    }
                    let offset = sepidx + separator.len();
                    let data = if keep_end {
                        slice_subrange(received_buf, 0, offset)
                    } else {
                        slice_subrange(received_buf, 0, sepidx)
                    };
                    let rest = slice_subrange(received_buf, offset, received_buf.len());
                    push_bytes(&mut self.buffer, rest);
                    proof {
                        assert(self@ =~= all.skip(sepidx + separator@.len()));
                    }
                    Ok(Chunk::Borrowed(data))
                },
                None => {
                    push_bytes(&mut self.buffer, received_buf);
                    Err(self.check_buffer_size(separator, limit))
                },
            }
        } else {
            push_bytes(&mut self.buffer, received_buf);
            let total_len = self.buffer.len();
            match find_subsequence(self.buffer.as_slice(), separator) {
                Some(sepidx) => {
                    proof {
                        lemma_find_first_spec(all, separator@);
                        assert(sepidx + separator@.len() <= total_len);
                    }
                    let offset = sepidx + separator.len();
                    let mut data = take_prefix(&mut self.buffer, offset);
                    if !keep_end {
                        data.truncate(sepidx);
                        proof {
                            assert(data@ =~= all.subrange(0, sepidx as int));
                        }
                    }
                    Ok(Chunk::Owned(data))
                },
                None => Err(self.check_buffer_size(separator, limit)),
            }
        }
    }

    /// Search the backlog alone for the first occurrence of `separator`.
    pub fn read_until(&mut self, separator: &[u8], limit: usize, keep_end: bool) -> (r: Result<
        Vec<u8>,
        StreamReadOwnedError<LimitOverrunError>,
    >)
        requires
            separator@.len() >= 1,
            limit >= 1,
        ensures
            ({
                let all = old(self)@;
                let sep = separator@;
                match r {
                    Ok(data) => find_first(all, sep) matches Some(i) && data@ == (if keep_end {
                        all.subrange(0, i + sep.len())
                    } else {
                        all.subrange(0, i)
                    }) && final(self)@ == all.skip(i + sep.len()),
                    Err(StreamReadOwnedError::InputNeeded) => find_first(all, sep) is None
                        && provisional_len(all.len() as int, sep.len() as int) <= limit && final(self)@
                        == all,
                    Err(StreamReadOwnedError::Error(e, rem)) => find_first(all, sep) is None
                        && provisional_len(all.len() as int, sep.len() as int) > limit
                        && e.spec_consumed() == provisional_len(all.len() as int, sep.len() as int)
                        && rem@ == realigned_tail(
                        all.skip(provisional_len(all.len() as int, sep.len() as int)),
                        sep,
                    ) && final(self)@ == all,
                }
            }),
    {
        let total_len = self.buffer.len();
        match find_subsequence(self.buffer.as_slice(), separator) {
            Some(sepidx) => {
                proof {
                    lemma_find_first_spec(old(self)@, separator@);
                    assert(sepidx + separator@.len() <= total_len);
                }
                let offset = sepidx + separator.len();
                let mut data = take_prefix(&mut self.buffer, offset);
                if !keep_end {
                    data.truncate(sepidx);
                    proof {
                        assert(data@ =~= old(self)@.subrange(0, sepidx as int));
                    }
                }
                Ok(data)
            },
            None => match self.check_buffer_size(separator, limit) {
                StreamReadError::InputNeeded => Err(StreamReadOwnedError::InputNeeded),
                StreamReadError::Error(e, rem) => Err(StreamReadOwnedError::Error(e, rem)),
            },
        }
    }
}

/// `s` ends with `sep`.
pub open spec fn ends_with_spec(s: Seq<u8>, sep: Seq<u8>) -> bool {
    s.len() >= sep.len() && s.subrange(s.len() - sep.len(), s.len() as int) == sep
}

/// `s` with every trailing occurrence of `sep` removed.
pub open spec fn trim_end(s: Seq<u8>, sep: Seq<u8>) -> Seq<u8>
    decreases s.len(),
{
    if sep.len() > 0 && ends_with_spec(s, sep) {
        trim_end(s.take(s.len() - sep.len()), sep)
    } else {
        s
    }
}

/// `trim_end` always yields a prefix of its input.
pub proof fn lemma_trim_end_prefix(s: Seq<u8>, sep: Seq<u8>)
    ensures
        trim_end(s, sep).len() <= s.len(),
        trim_end(s, sep) == s.take(trim_end(s, sep).len() as int),
    decreases s.len(),
{
    if sep.len() > 0 && ends_with_spec(s, sep) {
        let shorter = s.take(s.len() - sep.len());
        lemma_trim_end_prefix(shorter, sep);
        assert(shorter.take(trim_end(s, sep).len() as int) =~= s.take(
            trim_end(s, sep).len() as int,
        ));
    } else {
        assert(s =~= s.take(s.len() as int));
    }
}

/// Whether `buf` ends with `suffix`.
pub fn ends_with(buf: &[u8], suffix: &[u8]) -> (r: bool)
    ensures
        r == ends_with_spec(buf@, suffix@),
{
    if suffix.len() > buf.len() {
        return false;
    }
    let start = buf.len() - suffix.len();
    let r = is_match_at(buf, suffix, start);
    proof {
        assert(buf@.subrange(start as int, start + suffix@.len()) =~= buf@.subrange(
            buf@.len() - suffix@.len(),
            buf@.len() as int,
        ));
    }
    r
}

/// The longest prefix of `buffer` obtained by stripping trailing
/// occurrences of `separator`.
pub fn bytes_trim_end_matches<'buf>(buffer: &'buf [u8], separator: &[u8]) -> (r: &'buf [u8])
    ensures
        r@ == trim_end(buffer@, separator@),
{
    let seplen = separator.len();
    let mut end = buffer.len();
    proof {
        assert(buffer@.take(buffer@.len() as int) =~= buffer@);
    }
    while seplen > 0 && end >= seplen && is_match_at(buffer, separator, end - seplen)
        invariant
            end <= buffer@.len(),
            seplen == separator@.len(),
            trim_end(buffer@, separator@) == trim_end(buffer@.take(end as int), separator@),
        decreases end,
    {
        proof {
            let cur = buffer@.take(end as int);
            assert(cur.subrange(cur.len() - separator@.len(), cur.len() as int) =~= buffer@
                .subrange(end - seplen, end as int));
            assert(cur.take(cur.len() - separator@.len()) =~= buffer@.take(end - seplen));
        }
        end = end - seplen;
    }
    proof {
        let cur = buffer@.take(end as int);
        if separator@.len() > 0 && end >= seplen {
            assert(cur.subrange(cur.len() - separator@.len(), cur.len() as int) =~= buffer@
                .subrange(end - seplen, end as int));
        }
    }
    slice_subrange(buffer, 0, end)
}

/// Strip trailing occurrences of `separator` from `buffer` in place.
pub fn bytes_trim_end_matches_inplace(buffer: &mut Vec<u8>, separator: &[u8])
    ensures
        final(buffer)@ == trim_end(old(buffer)@, separator@),
{
    let trimmed_len = bytes_trim_end_matches(buffer.as_slice(), separator).len();
    proof {
        lemma_trim_end_prefix(buffer@, separator@);
    }
    buffer.truncate(trimmed_len);
    proof {
        assert(old(buffer)@.take(trimmed_len as int) =~= old(buffer)@.subrange(
            0,
            trimmed_len as int,
        ));
    }
}

/// Strip trailing occurrences of `separator` from a chunk, borrowing where
/// the chunk borrows.
pub fn cow_bytes_trim_end_matches<'buf>(buffer: Chunk<'buf>, separator: &[u8]) -> (r: Chunk<'buf>)
    ensures
        r@ == trim_end(buffer@, separator@),
        r is Borrowed <==> buffer is Borrowed,
{
    match buffer {
        Chunk::Borrowed(data) => Chunk::Borrowed(bytes_trim_end_matches(data, separator)),
        Chunk::Owned(mut data) => {
            bytes_trim_end_matches_inplace(&mut data, separator);
            Chunk::Owned(data)
        },
    }
}

} // verus!
