//! A line-oriented string codec: packets are UTF-8 text, framed by a
//! configurable newline separator through the separator-framing adapter.

use vstd::prelude::*;
use vstd::slice::slice_to_vec;
use vstd::utf8::{decode_utf8, encode_utf8, valid_utf8};

use crate::auto_separated::{
    append_separator, concat_chunks, drive, lemma_drive_frames_at_end, AutoSeparatedPacketSerializer,
    PacketSerializerWithSeparator, SepStep,
};
use crate::serializer::{IntoIncrementalPacketSerializer, PacketSerializer};
use crate::tools::{bytes_trim_end_matches, find_first, trim_end};

verus! {

/// The default cap on backlog growth while searching for a newline.
pub const DEFAULT_BUFFER_LIMIT: usize = 65536;

/// The newline styles a line codec can frame with.
#[derive(Clone, Copy, Debug)]
pub enum Newline {
    LF,
    CR,
    CRLF,
}

impl Newline {
    /// The characters of this newline.
    pub open spec fn spec_chars(self) -> Seq<char> {
        match self {
            Newline::LF => seq!['\n'],
            Newline::CR => seq!['\r'],
            Newline::CRLF => seq!['\r', '\n'],
        }
    }

    /// The bytes of this newline.
    pub open spec fn spec_bytes(self) -> Seq<u8> {
        match self {
            Newline::LF => seq![10u8],
            Newline::CR => seq![13u8],
            Newline::CRLF => seq![13u8, 10u8],
        }
    }

    pub fn as_str(&self) -> (r: &'static str)
        ensures
            r@ == self.spec_chars(),
    {
        match *self {
            Newline::LF => {
                let s = "\n";
                proof {
                    reveal_strlit("\n");
                    assert(s@ =~= self.spec_chars());
                }
                s
            },
            Newline::CR => {
                let s = "\r";
                proof {
                    reveal_strlit("\r");
                    assert(s@ =~= self.spec_chars());
                }
                s
            },
            Newline::CRLF => {
                let s = "\r\n";
                proof {
                    reveal_strlit("\r\n");
                    assert(s@ =~= self.spec_chars());
                }
                s
            },
        }
    }

    pub fn as_bytes(&self) -> (r: Vec<u8>)
        ensures
            r@ == self.spec_bytes(),
    {
        let mut v: Vec<u8> = Vec::new();
        match *self {
            Newline::LF => {
                v.push(10);
            },
            Newline::CR => {
                v.push(13);
            },
            Newline::CRLF => {
                v.push(13);
                v.push(10);
            },
        }
        proof {
            assert(v@ =~= self.spec_bytes());
        }
        v
    }
}

impl Default for Newline {
    fn default() -> (r: Self)
        ensures
            r is LF,
    {
        Newline::LF
    }
}

#[verifier::external_type_specification]
#[verifier::external_body]
pub struct ExUtf8Error(std::str::Utf8Error);

/// The line codec's deserialization error: the frame was not valid UTF-8.
#[derive(Debug)]
pub enum DeserializeError {
    Utf8(std::str::Utf8Error),
}

/// Relies on `String::from_utf8`: it succeeds exactly on valid UTF-8 input
/// and decodes it; on failure the underlying `Utf8Error` is carried over.
#[verifier::external_body]
fn string_from_utf8(bytes: Vec<u8>) -> (r: Result<String, DeserializeError>)
    ensures
        r is Ok <==> valid_utf8(bytes@),
        r matches Ok(s) ==> s@ == decode_utf8(bytes@),
        r matches Err(e) ==> e is Utf8,
{
    match String::from_utf8(bytes) {
        Ok(s) => Ok(s),
        Err(e) => Err(DeserializeError::Utf8(e.utf8_error())),
    }
}

/// A whole-buffer codec for UTF-8 text lines: serializing yields the text's
/// bytes; deserializing strips trailing newlines (unless they are kept) and
/// decodes UTF-8.
#[derive(Clone, Copy, Debug)]
pub struct StringLineSerializer {
    pub newline: Newline,
    pub limit: usize,
    pub keep_end: bool,
}

impl StringLineSerializer {
    pub fn new() -> (r: Self)
        ensures
            r.wf(),
            r.newline is LF,
            r.limit == DEFAULT_BUFFER_LIMIT,
            !r.keep_end,
    {
        Self { newline: Newline::LF, limit: DEFAULT_BUFFER_LIMIT, keep_end: false }
    }

    pub fn with_newline(self, newline: Newline) -> (r: Self)
        ensures
            r == (Self { newline, ..self }),
    {
        Self { newline, ..self }
    }

    pub fn with_buffer_limit(self, limit: usize) -> (r: Self)
        requires
            limit >= 1,
        ensures
            r == (Self { limit, ..self }),
    {
        Self { limit, ..self }
    }

    pub fn with_newline_at_end(self, keep_end: bool) -> (r: Self)
        ensures
            r == (Self { keep_end, ..self }),
    {
        Self { keep_end, ..self }
    }
}

impl Default for StringLineSerializer {
    fn default() -> (r: Self)
        ensures
            r.wf(),
            r.newline is LF,
            r.limit == DEFAULT_BUFFER_LIMIT,
            !r.keep_end,
    {
        StringLineSerializer::new()
    }
}

impl PacketSerializer for StringLineSerializer {
    type SerializedPacket = String;

    type DeserializedPacket = String;

    type SerializeError = ();

    type DeserializeError = DeserializeError;

    open spec fn wf(&self) -> bool {
        self.limit >= 1
    }

    open spec fn serialize_rel(&self, packet: &String, r: &Result<Vec<u8>, ()>) -> bool {
        r matches Ok(v) && v@ == encode_utf8(packet@)
    }

    open spec fn deserialize_rel(
        &self,
        data: Seq<u8>,
        r: &Result<String, DeserializeError>,
    ) -> bool {
        let d = if self.keep_end {
            data
        } else {
            trim_end(data, self.newline.spec_bytes())
        };
        match r {
            Ok(s) => valid_utf8(d) && s@ == decode_utf8(d),
            Err(e) => !valid_utf8(d) && *e is Utf8,
        }
    }

    fn serialize(&self, packet: &String) -> (r: Result<Vec<u8>, ()>) {
        Ok(slice_to_vec(packet.as_str().as_bytes()))
    }

    fn deserialize(&self, data: &[u8]) -> (r: Result<String, DeserializeError>) {
        if self.keep_end {
            string_from_utf8(slice_to_vec(data))
        } else {
            let sep = self.newline.as_bytes();
            let trimmed = bytes_trim_end_matches(data, sep.as_slice());
            string_from_utf8(slice_to_vec(trimmed))
        }
    }

    fn duplicate(&self) -> (r: Self) {
        *self
    }
}

impl PacketSerializerWithSeparator for StringLineSerializer {
    open spec fn spec_separator(&self) -> Seq<u8> {
        self.newline.spec_bytes()
    }

    open spec fn spec_keep_end(&self) -> bool {
        self.keep_end
    }

    open spec fn spec_limit(&self) -> int {
        self.limit as int
    }

    proof fn separator_wf(&self) {
    }

    fn separator(&self) -> (r: Vec<u8>) {
        self.newline.as_bytes()
    }

    fn keep_separator_at_end(&self) -> (r: bool) {
        self.keep_end
    }

    fn buffer_limit(&self) -> (r: usize) {
        self.limit
    }
}

impl IntoIncrementalPacketSerializer for StringLineSerializer {
    type IntoIncrementalSerializer = AutoSeparatedPacketSerializer<StringLineSerializer>;

    open spec fn into_incremental_serializer_rel(
        self,
        r: &AutoSeparatedPacketSerializer<StringLineSerializer>,
    ) -> bool {
        r.inner == self
    }

    fn into_incremental_serializer(self) -> (r: AutoSeparatedPacketSerializer<
        StringLineSerializer,
    >) {
        AutoSeparatedPacketSerializer::new(self)
    }
}

/// Law: round trip under arbitrary chunking. Serializing a message through
/// the line codec yields its UTF-8 bytes followed by the separator; feeding
/// any partition of those bytes into non-empty pieces through the framing
/// step function — the function that `AutoSeparatedConsumer`'s `consume`
/// contract follows on every call — ends with exactly that message decoded
/// back, with an empty remainder. The hypotheses exclude the messages on
/// which the codec cannot round-trip: those whose encoded form makes a
/// separator occurrence appear before the appended one, and those longer
/// than the buffer limit.
pub proof fn lemma_round_trip_chunked(m: Seq<char>, sep: Seq<u8>, limit: int, chunks: Seq<Seq<u8>>)
    requires
        sep.len() >= 1,
        chunks.len() >= 1,
        forall|i: int| 0 <= i < chunks.len() ==> #[trigger] chunks[i].len() >= 1,
        concat_chunks(chunks) == append_separator(encode_utf8(m), sep),
        find_first(encode_utf8(m) + sep, sep) == Some(encode_utf8(m).len() as int),
        encode_utf8(m).len() <= limit,
    ensures
        drive(Seq::empty(), chunks, sep, limit, false) matches SepStep::Frame(frame, rem)
            && rem == Seq::<u8>::empty() && frame == encode_utf8(m) && valid_utf8(
            trim_end(frame, sep),
        ) && decode_utf8(trim_end(frame, sep)) == m,
{
    let enc = encode_utf8(m);
    let w = enc + sep;
    crate::tools::lemma_find_first_spec(w, sep);
    assert(!crate::tools::ends_with_spec(enc, sep)) by {
        if crate::tools::ends_with_spec(enc, sep) {
            assert(crate::tools::contains_at(w, sep, enc.len() - sep.len())) by {
                assert(w.subrange(enc.len() - sep.len(), enc.len() as int) =~= enc.subrange(
                    enc.len() - sep.len(),
                    enc.len() as int,
                ));
            }
            assert(false);
        }
    }
    assert(concat_chunks(chunks) == w);
    assert(Seq::<u8>::empty() + concat_chunks(chunks) =~= w);
    lemma_drive_frames_at_end(Seq::empty(), chunks, sep, limit, false);
    let frame = w.take(w.len() - sep.len());
    assert(frame =~= enc);
    assert(trim_end(enc, sep) == enc);
    vstd::utf8::encode_utf8_valid_utf8(m);
    vstd::utf8::encode_utf8_decode_utf8(m);
}

} // verus!
