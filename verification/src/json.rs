//! A streaming JSON codec: serialization is single-shot; deserialization
//! parses one JSON value from arbitrarily chunked input with no explicit
//! separator, distinguishing need-more-bytes from syntax errors and from
//! trailing noise, and consuming the whitespace between consecutive values.

use std::io::Seek;

use vstd::prelude::*;
use vstd::slice::{slice_subrange, slice_to_vec};

use crate::auto_separated::concat_chunks;
use crate::consumer::{Consumer, ConsumerState};
use crate::producer::{OnceProducer, OneShotState};
use crate::serializer::{IncrementalPacketSerializer, PacketSerializer};
use crate::tools::push_bytes;

verus! {

#[verifier::external_type_specification]
#[verifier::external_body]
pub struct ExJsonValue(serde_json::Value);

#[verifier::external_type_specification]
#[verifier::external_body]
pub struct ExJsonError(serde_json::Error);

/// The outcome of scanning a byte sequence for one leading JSON value: a
/// complete value was read (with the scan position after the value and any
/// trailing whitespace), the bytes are a proper prefix of a value, the bytes
/// are not JSON at all, or the parser failed some other way at a position.
pub enum JsonScan {
    Complete { consumed: int },
    Partial,
    Invalid,
    Failed { consumed: int },
}

/// The result of scanning `data` for one leading JSON value. The scan is a
/// function of the bytes alone; its exact value is fixed by serde_json's
/// grammar and is not spelled out here.
pub uninterp spec fn json_scan(data: Seq<u8>) -> JsonScan;

/// Whether `data` as a whole (one JSON value, optionally surrounded by
/// whitespace) is accepted by serde_json's whole-slice parser; a function of
/// the bytes alone.
pub uninterp spec fn json_slice_accepts(data: Seq<u8>) -> bool;

/// The value parsed from the leading JSON value of `data`, when the scan of
/// `data` is complete; a function of the bytes alone.
pub uninterp spec fn json_value_of(data: Seq<u8>) -> serde_json::Value;

/// One parse attempt over a prefix of `data`, as the verified consumer sees
/// it: the classified outcome together with the scan position.
pub enum JsonStep {
    Value(serde_json::Value, usize),
    NeedMore,
    Syntax(serde_json::Error),
    Failure(serde_json::Error, usize),
}

/// Relies on serde_json's `Deserializer::from_reader`, `Value::deserialize`,
/// `Deserializer::end` and `Error::is_eof` / `Error::is_syntax`: parses one
/// JSON value from a prefix of `data`; on success also consumes trailing
/// whitespace, stepping back one byte when the whitespace check stopped on a
/// non-whitespace character; classifies failures as incomplete input, a
/// syntax error, or another parser error at the reached position.
#[verifier::external_body]
fn json_parse_step(data: &[u8]) -> (r: JsonStep)
    ensures
        match r {
            JsonStep::Value(v, pos) => pos <= data@.len() && json_scan(data@)
                == (JsonScan::Complete { consumed: pos as int }) && v == json_value_of(data@),
            JsonStep::NeedMore => json_scan(data@) == JsonScan::Partial,
            JsonStep::Syntax(_) => json_scan(data@) == JsonScan::Invalid,
            JsonStep::Failure(_, pos) => pos <= data@.len() && json_scan(data@)
                == (JsonScan::Failed { consumed: pos as int }),
        },
{
    let mut cursor = std::io::Cursor::new(data);
    let mut de = serde_json::Deserializer::from_reader(&mut cursor);
    let res: Result<serde_json::Value, serde_json::Error> = serde::Deserialize::deserialize(
        &mut de,
    );
    if res.is_ok() && de.end().is_err() {
        cursor.seek_relative(-1).ok();
    }
    let pos = cursor.position() as usize;
    match res {
        Ok(v) => JsonStep::Value(v, pos),
        Err(e) if e.is_eof() => JsonStep::NeedMore,
        Err(e) if e.is_syntax() => JsonStep::Syntax(e),
        Err(e) => JsonStep::Failure(e, pos),
    }
}

/// Relies on serde_json::to_vec: serializes one JSON value to its textual
/// bytes. On a `serde_json::Value` serialization has no failure path: object
/// keys are strings and numbers are finite, so the call always succeeds.
#[verifier::external_body]
fn json_to_vec(value: &serde_json::Value) -> (r: Result<Vec<u8>, serde_json::Error>)
    ensures
        r is Ok,
{
    serde_json::to_vec(value)
}

/// Relies on serde_json::from_slice: parses the whole input as exactly one
/// JSON value; whether it is accepted depends on the bytes alone.
#[verifier::external_body]
fn json_from_slice(data: &[u8]) -> (r: Result<serde_json::Value, serde_json::Error>)
    ensures
        r is Ok <==> json_slice_accepts(data@),
{
    serde_json::from_slice(data)
}

/// The streaming JSON codec over `serde_json::Value` packets.
#[derive(Clone, Copy, Debug)]
pub struct JSONSerializer {}

impl JSONSerializer {
    pub fn new() -> (r: Self)
        ensures
            r.wf(),
    {
        Self {  }
    }
}

impl Default for JSONSerializer {
    fn default() -> (r: Self)
        ensures
            r.wf(),
    {
        JSONSerializer::new()
    }
}

impl PacketSerializer for JSONSerializer {
    type SerializedPacket = serde_json::Value;

    type DeserializedPacket = serde_json::Value;

    type SerializeError = serde_json::Error;

    type DeserializeError = serde_json::Error;

    open spec fn wf(&self) -> bool {
        true
    }

    // Serializing a JSON value always succeeds; the bytes of an opaque
    // `serde_json::Value` cannot be pinned down here.
    open spec fn serialize_rel(
        &self,
        packet: &serde_json::Value,
        r: &Result<Vec<u8>, serde_json::Error>,
    ) -> bool {
        *r is Ok
    }

    open spec fn deserialize_rel(
        &self,
        data: Seq<u8>,
        r: &Result<serde_json::Value, serde_json::Error>,
    ) -> bool {
        *r is Ok <==> json_slice_accepts(data)
    }

    fn serialize(&self, packet: &serde_json::Value) -> (r: Result<Vec<u8>, serde_json::Error>) {
        json_to_vec(packet)
    }

    fn deserialize(&self, data: &[u8]) -> (r: Result<serde_json::Value, serde_json::Error>) {
        json_from_slice(data)
    }

    fn duplicate(&self) -> (r: Self) {
        Self {  }
    }
}

/// The consumer handed out by the JSON codec: one per incoming message,
/// owning its own backlog. It starts empty and accumulates input until a
/// whole value (or an unrecoverable error) is seen.
pub struct JsonConsumer {
    pub buffer: Vec<u8>,
    pub done: bool,
}

impl Consumer for JsonConsumer {
    type Item = serde_json::Value;

    type Error = serde_json::Error;

    open spec fn inv(&self) -> bool {
        true
    }

    open spec fn complete(&self) -> bool {
        self.done
    }

    open spec fn consume_rel(
        &self,
        buf: Seq<u8>,
        r: &ConsumerState<serde_json::Value, serde_json::Error>,
        post: &Self,
    ) -> bool {
        let all = self.buffer@ + buf;
        match json_scan(all) {
            JsonScan::Complete { consumed } => r matches ConsumerState::Complete(res, rem) && (res
                matches Ok(v) && *v == json_value_of(all)) && rem@ == all.skip(consumed)
                && post.done,
            JsonScan::Partial => *r is InputNeeded && post.buffer@ == all && !post.done,
            JsonScan::Invalid => r matches ConsumerState::Complete(res, rem) && res is Err && rem@
                == Seq::<u8>::empty() && post.done,
            JsonScan::Failed { consumed } => r matches ConsumerState::Complete(res, rem) && res
                is Err && rem@ == all.skip(consumed) && post.done,
        }
    }

    fn consume(&mut self, buf: &[u8]) -> (r: ConsumerState<serde_json::Value, serde_json::Error>) {
        let ghost all = self.buffer@ + buf@;
        if self.buffer.len() == 0 {
            proof {
                assert(all =~= buf@);
            }
            let buf_len = buf.len();
            match json_parse_step(buf) {
                JsonStep::Value(v, pos) => {
                    self.done = true;
                    let rem = slice_to_vec(slice_subrange(buf, pos, buf_len));
                    ConsumerState::Complete(Ok(v), rem)
                },
                JsonStep::NeedMore => {
                    push_bytes(&mut self.buffer, buf);
                    ConsumerState::InputNeeded
                },
                JsonStep::Syntax(e) => {
                    self.done = true;
                    ConsumerState::Complete(Err(e), Vec::new())
                },
                JsonStep::Failure(e, pos) => {
                    self.done = true;
                    let rem = slice_to_vec(slice_subrange(buf, pos, buf_len));
                    ConsumerState::Complete(Err(e), rem)
                },
            }
        } else {
            push_bytes(&mut self.buffer, buf);
            match json_parse_step(self.buffer.as_slice()) {
                JsonStep::Value(v, pos) => {
                    self.done = true;
                    let rem = self.buffer.split_off(pos);
                    ConsumerState::Complete(Ok(v), rem)
                },
                JsonStep::NeedMore => ConsumerState::InputNeeded,
                JsonStep::Syntax(e) => {
                    self.done = true;
                    ConsumerState::Complete(Err(e), Vec::new())
                },
                JsonStep::Failure(e, pos) => {
                    self.done = true;
                    let rem = self.buffer.split_off(pos);
                    ConsumerState::Complete(Err(e), rem)
                },
            }
        }
    }
}

impl IncrementalPacketSerializer for JSONSerializer {
    type IncrementalSerializeError = serde_json::Error;

    type IncrementalDeserializeError = serde_json::Error;

    type SerializeProducer = OnceProducer<serde_json::Error>;

    type DeserializeConsumer = JsonConsumer;

    open spec fn serialize_producer_rel(
        &self,
        packet: &serde_json::Value,
        p: &OnceProducer<serde_json::Error>,
    ) -> bool {
        p.state matches OneShotState::Start(res) && res is Ok
    }

    open spec fn deserialize_consumer_rel(&self, c: &JsonConsumer) -> bool {
        c.buffer@ == Seq::<u8>::empty() && !c.done
    }

    fn incremental_serialize(&self, packet: &serde_json::Value) -> (p: OnceProducer<
        serde_json::Error,
    >) {
        OnceProducer { state: OneShotState::Start(json_to_vec(packet)) }
    }

    fn incremental_deserialize(&self) -> (c: JsonConsumer) {
        JsonConsumer { buffer: Vec::new(), done: false }
    }
}

/// The backlog model of the JSON consumer driven over a sequence of chunks:
/// each step scans the backlog plus the next chunk, continuing while the
/// scan reports a proper prefix and stopping at the first completed scan.
/// Returns the final scan class and the bytes scanned by the last step.
pub open spec fn json_drive(state: Seq<u8>, chunks: Seq<Seq<u8>>) -> (JsonScan, Seq<u8>)
    decreases chunks.len(),
{
    if chunks.len() == 0 {
        (JsonScan::Partial, state)
    } else {
        let all = state + chunks[0];
        match json_scan(all) {
            JsonScan::Partial => json_drive(all, chunks.drop_first()),
            outcome => (outcome, all),
        }
    }
}

proof fn lemma_json_drive_runs(state: Seq<u8>, chunks: Seq<Seq<u8>>)
    requires
        chunks.len() >= 1,
        forall|k: int|
            1 <= k < chunks.len() ==> json_scan(state + concat_chunks(#[trigger] chunks.take(k)))
                is Partial,
    ensures
        json_drive(state, chunks) == (
            json_scan(state + concat_chunks(chunks)),
            state + concat_chunks(chunks),
        ),
    decreases chunks.len(),
{
    let all0 = state + chunks[0];
    if chunks.len() == 1 {
        assert(concat_chunks(chunks.drop_first()) =~= Seq::<u8>::empty());
        assert(state + concat_chunks(chunks) =~= all0);
        assert(json_drive(all0, chunks.drop_first()) == (JsonScan::Partial, all0));
    } else {
        assert(concat_chunks(chunks.take(1)) =~= chunks[0]) by {
            assert(chunks.take(1).drop_first() =~= Seq::<Seq<u8>>::empty());
            assert(chunks.take(1)[0] == chunks[0]);
            assert(concat_chunks(Seq::<Seq<u8>>::empty()) =~= Seq::<u8>::empty());
        }
        assert(state + concat_chunks(chunks.take(1)) =~= all0);
        assert(json_scan(all0) is Partial);
        assert forall|k: int| 1 <= k < chunks.drop_first().len() implies json_scan(
            all0 + concat_chunks(#[trigger] chunks.drop_first().take(k)),
        ) is Partial by {
            assert(chunks.take(k + 1).drop_first() =~= chunks.drop_first().take(k));
            assert(chunks.take(k + 1)[0] == chunks[0]);
            assert(all0 + concat_chunks(chunks.drop_first().take(k)) =~= state + concat_chunks(
                chunks.take(k + 1),
            ));
            assert(json_scan(state + concat_chunks(chunks.take(k + 1))) is Partial);
        }
        lemma_json_drive_runs(all0, chunks.drop_first());
        assert(all0 + concat_chunks(chunks.drop_first()) =~= state + concat_chunks(chunks));
    }
}

/// Law: chunking never changes what the JSON consumer parses. Feeding any
/// partition of an input whose proper leading recombinations all scan as
/// incomplete input drives a fresh consumer to the outcome of scanning the
/// whole input at once — in particular, when the whole input scans
/// complete, the parsed value is `json_value_of` of the whole input, the
/// same for every such partition.
pub proof fn lemma_json_chunking_invariance(chunks: Seq<Seq<u8>>)
    requires
        chunks.len() >= 1,
        forall|k: int|
            1 <= k < chunks.len() ==> json_scan(concat_chunks(#[trigger] chunks.take(k)))
                is Partial,
    ensures
        json_drive(Seq::empty(), chunks) == (
            json_scan(concat_chunks(chunks)),
            concat_chunks(chunks),
        ),
{
    assert forall|k: int| 1 <= k < chunks.len() implies json_scan(
        Seq::empty() + concat_chunks(#[trigger] chunks.take(k)),
    ) is Partial by {
        assert(Seq::empty() + concat_chunks(chunks.take(k)) =~= concat_chunks(chunks.take(k)));
    }
    lemma_json_drive_runs(Seq::empty(), chunks);
    assert(Seq::empty() + concat_chunks(chunks) =~= concat_chunks(chunks));
}

} // verus!
