//! The separator-framing adapter: makes any whole-buffer codec incremental
//! by appending a configurable separator on encode (unless the encoded form
//! already ends with it) and by extracting separator-delimited frames on
//! decode, with bounded buffering.

use vstd::prelude::*;

use crate::consumer::{Consumer, ConsumerState};
use crate::errors::{realigned_tail, LimitOverrunError};
use crate::producer::{OnceProducer, OneShotState};
use crate::serializer::{IncrementalPacketSerializer, PacketSerializer};
use crate::tools::{
    bytes_trim_end_matches, ends_with, ends_with_spec, find_first, provisional_len, push_bytes,
    trim_end, BufferedStreamReader, StreamReadError,
};

verus! {

/// A whole-buffer codec that also carries a framing configuration: the
/// separator bytes, whether the separator is kept in the parsed item, and
/// the cap on backlog growth while searching for it.
pub trait PacketSerializerWithSeparator: PacketSerializer {
    spec fn spec_separator(&self) -> Seq<u8>;

    spec fn spec_keep_end(&self) -> bool;

    spec fn spec_limit(&self) -> int;

    /// Every well-formed instance has a non-empty separator and a positive
    /// limit that fits the machine.
    proof fn separator_wf(&self)
        requires
            self.wf(),
        ensures
            self.spec_separator().len() >= 1,
            1 <= self.spec_limit() <= usize::MAX,
    ;

    fn separator(&self) -> (r: Vec<u8>)
        requires
            self.wf(),
        ensures
            r@ == self.spec_separator(),
    ;

    fn keep_separator_at_end(&self) -> (r: bool)
        ensures
            r == self.spec_keep_end(),
    ;

    fn buffer_limit(&self) -> (r: usize)
        requires
            self.wf(),
        ensures
            r as int == self.spec_limit(),
    ;
}

/// `b` with the separator appended, unless `b` already ends with it.
pub open spec fn append_separator(b: Seq<u8>, sep: Seq<u8>) -> Seq<u8> {
    if ends_with_spec(b, sep) {
        b
    } else {
        b + sep
    }
}

/// Law: appending the separator is idempotent — a payload whose encoded
/// form already ends with the separator does not receive a second one.
pub proof fn lemma_separator_idempotence(b: Seq<u8>, sep: Seq<u8>)
    requires
        ends_with_spec(b, sep),
    ensures
        append_separator(b, sep) == b,
{
}

/// The outcome of one separator-delimited decoding step: more input needed
/// (with the new backlog), a frame extracted (with the remainder), or the
/// buffer cap exceeded (with the scanned length and the realigned tail).
pub enum SepStep {
    Pending(Seq<u8>),
    Frame(Seq<u8>, Seq<u8>),
    Overrun(int, Seq<u8>),
}

/// One decoding step of the separator-framing consumer, as a function of the
/// backlog `state` and the newly received bytes `buf`.
pub open spec fn sep_step(
    state: Seq<u8>,
    buf: Seq<u8>,
    sep: Seq<u8>,
    limit: int,
    keep_end: bool,
) -> SepStep {
    let all = state + buf;
    match find_first(all, sep) {
        Some(i) => SepStep::Frame(
            if keep_end {
                all.take(i + sep.len() as int)
            } else {
                all.take(i)
            },
            all.skip(i + sep.len() as int),
        ),
        None => {
            let p = provisional_len(all.len() as int, sep.len() as int);
            if p <= limit {
                SepStep::Pending(all)
            } else {
                SepStep::Overrun(p, realigned_tail(all.skip(p), sep))
            }
        },
    }
}

/// Law: a separator delivered across a call boundary is recognized exactly
/// as if the two chunks had arrived in one call — after a pending step, the
/// next step behaves as one step over the concatenated input.
pub proof fn lemma_split_separator_recognition(
    state: Seq<u8>,
    b1: Seq<u8>,
    b2: Seq<u8>,
    sep: Seq<u8>,
    limit: int,
    keep_end: bool,
)
    requires
        sep_step(state, b1, sep, limit, keep_end) == SepStep::Pending(state + b1),
    ensures
        sep_step(state + b1, b2, sep, limit, keep_end) == sep_step(
            state,
            b1 + b2,
            sep,
            limit,
            keep_end,
        ),
{
    assert((state + b1) + b2 =~= state + (b1 + b2));
}

/// Law: remainder accounting — on a frame, the bytes fed in (backlog plus
/// this call's input) are exactly the parsed frame, the separator when it is
/// not retained in the frame, and the remainder; nothing is lost or
/// duplicated.
pub proof fn lemma_remainder_accounting(
    state: Seq<u8>,
    buf: Seq<u8>,
    sep: Seq<u8>,
    limit: int,
    keep_end: bool,
)
    requires
        sep_step(state, buf, sep, limit, keep_end) is Frame,
    ensures
        sep_step(state, buf, sep, limit, keep_end) matches SepStep::Frame(frame, rem) && state
            + buf == (if keep_end {
            frame
        } else {
            frame + sep
        }) + rem,
{
    let all = state + buf;
    crate::tools::lemma_find_first_spec(all, sep);
    match find_first(all, sep) {
        Some(i) => {
            assert(all.take(i) + sep + all.skip(i + sep.len() as int) =~= all) by {
                assert(all.subrange(i, i + sep.len() as int) == sep);
            }
            assert(all.take(i + sep.len() as int) + all.skip(i + sep.len() as int) =~= all);
        },
        None => {},
    }
}

/// Law: limit enforcement — with no separator in sight, a step either stays
/// pending with a backlog of at most `limit + sep.len() - 1` bytes, or fails
/// with the provisional scanned length `backlog + 1 - sep.len()` recorded in
/// the overrun; the backlog thus never outgrows the cap by more than one
/// call's input.
pub proof fn lemma_limit_enforcement(
    state: Seq<u8>,
    buf: Seq<u8>,
    sep: Seq<u8>,
    limit: int,
    keep_end: bool,
)
    requires
        sep.len() >= 1,
        limit >= 1,
        find_first(state + buf, sep) is None,
    ensures
        sep_step(state, buf, sep, limit, keep_end) matches SepStep::Pending(ns) ==> ns.len()
            <= limit + sep.len() - 1,
        (state + buf).len() + 1 - sep.len() > limit ==> (sep_step(
            state,
            buf,
            sep,
            limit,
            keep_end,
        ) matches SepStep::Overrun(consumed, _) && consumed == (state + buf).len() + 1 - sep.len()),
{
}

/// The chunks of a partition, concatenated in order.
pub open spec fn concat_chunks(chunks: Seq<Seq<u8>>) -> Seq<u8>
    decreases chunks.len(),
{
    if chunks.len() == 0 {
        Seq::empty()
    } else {
        chunks[0] + concat_chunks(chunks.drop_first())
    }
}

/// The outcome of feeding `chunks` in order from backlog `state`, stopping
/// at the first step that completes.
pub open spec fn drive(
    state: Seq<u8>,
    chunks: Seq<Seq<u8>>,
    sep: Seq<u8>,
    limit: int,
    keep_end: bool,
) -> SepStep
    decreases chunks.len(),
{
    if chunks.len() == 0 {
        SepStep::Pending(state)
    } else {
        match sep_step(state, chunks[0], sep, limit, keep_end) {
            SepStep::Pending(ns) => drive(ns, chunks.drop_first(), sep, limit, keep_end),
            outcome => outcome,
        }
    }
}

/// Feeding any partition of an input whose one separator occurrence sits at
/// its very end yields exactly the frame before that separator (the whole
/// input when the separator is retained) and an empty remainder, regardless
/// of how the input was split.
pub proof fn lemma_drive_frames_at_end(
    state: Seq<u8>,
    chunks: Seq<Seq<u8>>,
    sep: Seq<u8>,
    limit: int,
    keep_end: bool,
)
    requires
        sep.len() >= 1,
        chunks.len() >= 1,
        forall|i: int| 0 <= i < chunks.len() ==> #[trigger] chunks[i].len() >= 1,
        find_first(state + concat_chunks(chunks), sep) == Some(
            (state + concat_chunks(chunks)).len() - sep.len(),
        ),
        (state + concat_chunks(chunks)).len() - sep.len() <= limit,
    ensures
        ({
            let w = state + concat_chunks(chunks);
            drive(state, chunks, sep, limit, keep_end) == SepStep::Frame(
                if keep_end {
                    w
                } else {
                    w.take(w.len() - sep.len())
                },
                Seq::<u8>::empty(),
            )
        }),
    decreases chunks.len(),
{
    let w = state + concat_chunks(chunks);
    let b0 = chunks[0];
    let all0 = state + b0;
    crate::tools::lemma_find_first_spec(w, sep);
    if chunks.len() == 1 {
        assert(concat_chunks(chunks.drop_first()) =~= Seq::<u8>::empty());
        assert(all0 =~= w);
        assert(w.take(w.len() as int) =~= w);
        assert(w.skip(w.len() as int) =~= Seq::<u8>::empty());
    } else {
        assert(all0 == w.take(all0.len() as int)) by {
            assert(w =~= all0 + concat_chunks(chunks.drop_first()));
            assert(w.take(all0.len() as int) =~= all0);
        }
        assert(concat_chunks(chunks.drop_first()).len() >= chunks[1].len()) by {
            assert(concat_chunks(chunks.drop_first()) =~= chunks[1] + concat_chunks(
                chunks.drop_first().drop_first(),
            ));
        }
        assert(all0.len() < w.len());
        assert(find_first(all0, sep) is None) by {
            crate::tools::lemma_find_first_spec(all0, sep);
            match find_first(all0, sep) {
                Some(j) => {
                    assert(crate::tools::contains_at(all0, sep, j));
                    assert(all0.subrange(j, j + sep.len() as int) =~= w.subrange(
                        j,
                        j + sep.len() as int,
                    ));
                    assert(crate::tools::contains_at(w, sep, j));
                    assert(j < w.len() - sep.len());
                    assert(false);
                },
                None => {},
            }
        }
        assert(provisional_len(all0.len() as int, sep.len() as int) <= limit);
        assert(sep_step(state, b0, sep, limit, keep_end) == SepStep::Pending(all0));
        assert(all0 + concat_chunks(chunks.drop_first()) =~= w);
        lemma_drive_frames_at_end(all0, chunks.drop_first(), sep, limit, keep_end);
    }
}

/// The framing adapter's deserialization error: either the buffer cap was
/// exceeded while searching for the separator, or the inner codec rejected
/// the extracted frame.
#[derive(Debug)]
pub enum IncrementalDeserializeError<E> {
    LimitOverrun(LimitOverrunError),
    Deserialization(E),
}

/// Adapts the whole-buffer codec `S` into an incremental one using `S`'s
/// separator configuration.
pub struct AutoSeparatedPacketSerializer<S> {
    pub inner: S,
}

impl<S: PacketSerializerWithSeparator> AutoSeparatedPacketSerializer<S> {
    pub fn new(inner: S) -> (r: Self)
        ensures
            r.inner == inner,
    {
        Self { inner }
    }
}

impl<S: PacketSerializerWithSeparator> PacketSerializer for AutoSeparatedPacketSerializer<S> {
    type SerializedPacket = S::SerializedPacket;

    type DeserializedPacket = S::DeserializedPacket;

    type SerializeError = S::SerializeError;

    type DeserializeError = S::DeserializeError;

    open spec fn wf(&self) -> bool {
        self.inner.wf()
    }

    open spec fn serialize_rel(
        &self,
        packet: &S::SerializedPacket,
        r: &Result<Vec<u8>, S::SerializeError>,
    ) -> bool {
        self.inner.serialize_rel(packet, r)
    }

    open spec fn deserialize_rel(
        &self,
        data: Seq<u8>,
        r: &Result<S::DeserializedPacket, S::DeserializeError>,
    ) -> bool {
        self.inner.deserialize_rel(
            if self.inner.spec_keep_end() {
                data
            } else {
                trim_end(data, self.inner.spec_separator())
            },
            r,
        )
    }

    fn serialize(&self, packet: &S::SerializedPacket) -> (r: Result<Vec<u8>, S::SerializeError>) {
        self.inner.serialize(packet)
    }

    fn deserialize(&self, data: &[u8]) -> (r: Result<S::DeserializedPacket, S::DeserializeError>) {
        if self.inner.keep_separator_at_end() {
            self.inner.deserialize(data)
        } else {
            let sep = self.inner.separator();
            let trimmed = bytes_trim_end_matches(data, sep.as_slice());
            self.inner.deserialize(trimmed)
        }
    }

    fn duplicate(&self) -> (r: Self) {
        Self { inner: self.inner.duplicate() }
    }
}

impl<S: PacketSerializerWithSeparator> PacketSerializerWithSeparator for AutoSeparatedPacketSerializer<S> {
    open spec fn spec_separator(&self) -> Seq<u8> {
        self.inner.spec_separator()
    }

    open spec fn spec_keep_end(&self) -> bool {
        self.inner.spec_keep_end()
    }

    open spec fn spec_limit(&self) -> int {
        self.inner.spec_limit()
    }

    proof fn separator_wf(&self) {
        self.inner.separator_wf();
    }

    fn separator(&self) -> (r: Vec<u8>) {
        self.inner.separator()
    }

    fn keep_separator_at_end(&self) -> (r: bool) {
        self.inner.keep_separator_at_end()
    }

    fn buffer_limit(&self) -> (r: usize) {
        self.inner.buffer_limit()
    }
}

/// The consumer handed out by the framing adapter: one per incoming message,
/// owning its own backlog.
pub struct AutoSeparatedConsumer<S> {
    pub serializer: S,
    pub reader: BufferedStreamReader,
    pub done: bool,
}

impl<S: PacketSerializerWithSeparator> Consumer for AutoSeparatedConsumer<S> {
    type Item = S::DeserializedPacket;

    type Error = IncrementalDeserializeError<S::DeserializeError>;

    open spec fn inv(&self) -> bool {
        self.serializer.wf()
    }

    open spec fn complete(&self) -> bool {
        self.done
    }

    open spec fn consume_rel(
        &self,
        buf: Seq<u8>,
        r: &ConsumerState<S::DeserializedPacket, IncrementalDeserializeError<S::DeserializeError>>,
        post: &Self,
    ) -> bool {
        match sep_step(
            self.reader@,
            buf,
            self.serializer.spec_separator(),
            self.serializer.spec_limit(),
            self.serializer.spec_keep_end(),
        ) {
            SepStep::Pending(ns) => *r is InputNeeded && post.reader@ == ns && post.serializer
                == self.serializer && !post.done,
            SepStep::Frame(frame, rem) => r matches ConsumerState::Complete(res, remv) && remv@
                == rem && post.done && match res {
                Ok(p) => self.serializer.deserialize_rel(frame, &Ok(*p)),
                Err(IncrementalDeserializeError::Deserialization(e)) => {
                    self.serializer.deserialize_rel(frame, &Err(*e))
                },
                Err(IncrementalDeserializeError::LimitOverrun(_)) => false,
            },
            SepStep::Overrun(consumed, rem) => r matches ConsumerState::Complete(res, remv)
                && res matches Err(IncrementalDeserializeError::LimitOverrun(e))
                && e.spec_consumed() == consumed && remv@ == rem && post.done,
        }
    }

    fn consume(&mut self, buf: &[u8]) -> (r: ConsumerState<
        S::DeserializedPacket,
        IncrementalDeserializeError<S::DeserializeError>,
    >) {
        let sep = self.serializer.separator();
        let keep = self.serializer.keep_separator_at_end();
        let limit = self.serializer.buffer_limit();
        proof {
            self.serializer.separator_wf();
        }
        match self.reader.read_until_from(buf, sep.as_slice(), limit, keep) {
            Ok(chunk) => {
                let remainder = self.reader.read_all();
                self.done = true;
                match self.serializer.deserialize(chunk.as_slice()) {
                    Ok(p) => ConsumerState::Complete(Ok(p), remainder),
                    Err(e) => ConsumerState::Complete(
                        Err(IncrementalDeserializeError::Deserialization(e)),
                        remainder,
                    ),
                }
            },
            Err(StreamReadError::InputNeeded) => ConsumerState::InputNeeded,
            Err(StreamReadError::Error(e, rem)) => {
                self.done = true;
                ConsumerState::Complete(Err(IncrementalDeserializeError::LimitOverrun(e)), rem)
            },
        }
    }
}

impl<S: PacketSerializerWithSeparator> IncrementalPacketSerializer for AutoSeparatedPacketSerializer<S> {
    type IncrementalSerializeError = S::SerializeError;

    type IncrementalDeserializeError = IncrementalDeserializeError<S::DeserializeError>;

    type SerializeProducer = OnceProducer<S::SerializeError>;

    type DeserializeConsumer = AutoSeparatedConsumer<S>;

    open spec fn serialize_producer_rel(
        &self,
        packet: &S::SerializedPacket,
        p: &OnceProducer<S::SerializeError>,
    ) -> bool {
        p.state matches OneShotState::Start(res) && match res {
            Ok(b) => exists|b0: Vec<u8>|
                self.inner.serialize_rel(packet, &Ok(b0)) && b@ == append_separator(
                    b0@,
                    self.inner.spec_separator(),
                ),
            Err(e) => self.inner.serialize_rel(packet, &Err(e)),
        }
    }

    open spec fn deserialize_consumer_rel(&self, c: &AutoSeparatedConsumer<S>) -> bool {
        c.serializer == self.inner && c.reader@ == Seq::<u8>::empty() && !c.done
    }

    fn incremental_serialize(&self, packet: &S::SerializedPacket) -> (p: OnceProducer<
        S::SerializeError,
    >) {
        let prepared: Result<Vec<u8>, S::SerializeError> = match self.inner.serialize(packet) {
            Ok(mut bytes) => {
                let ghost b0 = bytes;
                let sep = self.inner.separator();
                if !ends_with(bytes.as_slice(), sep.as_slice()) {
                    push_bytes(&mut bytes, sep.as_slice());
                }
                proof {
                    assert(self.inner.serialize_rel(packet, &Ok(b0)) && bytes@ == append_separator(
                        b0@,
                        self.inner.spec_separator(),
                    ));
                }
                Ok(bytes)
            },
            Err(e) => Err(e),
        };
        OnceProducer { state: OneShotState::Start(prepared) }
    }

    fn incremental_deserialize(&self) -> (c: AutoSeparatedConsumer<S>) {
        AutoSeparatedConsumer {
            serializer: self.inner.duplicate(),
            reader: BufferedStreamReader::new(),
            done: false,
        }
    }
}

} // verus!
