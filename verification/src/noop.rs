//! The identity codec and the identity converter: the simplest instances of
//! the serializer and converter contracts, handing every packet through
//! unchanged.

use core::marker::PhantomData;

use vstd::prelude::*;
use vstd::slice::slice_to_vec;

use crate::consumer::{Consumer, ConsumerState};
use crate::converters::PacketConverterComposite;
use crate::producer::{OnceProducer, OneShotState};
use crate::serializer::{IncrementalPacketSerializer, PacketSerializer};

verus! {

/// A codec whose packets are raw byte buffers, passed through unchanged.
#[derive(Clone, Copy, Debug)]
pub struct NoopSerializer;

impl PacketSerializer for NoopSerializer {
    type SerializedPacket = Vec<u8>;

    type DeserializedPacket = Vec<u8>;

    type SerializeError = ();

    type DeserializeError = ();

    open spec fn wf(&self) -> bool {
        true
    }

    open spec fn serialize_rel(&self, packet: &Vec<u8>, r: &Result<Vec<u8>, ()>) -> bool {
        r matches Ok(v) && v@ == packet@
    }

    open spec fn deserialize_rel(&self, data: Seq<u8>, r: &Result<Vec<u8>, ()>) -> bool {
        r matches Ok(v) && v@ == data
    }

    fn serialize(&self, packet: &Vec<u8>) -> (r: Result<Vec<u8>, ()>) {
        Ok(slice_to_vec(packet.as_slice()))
    }

    fn deserialize(&self, data: &[u8]) -> (r: Result<Vec<u8>, ()>) {
        Ok(slice_to_vec(data))
    }

    fn duplicate(&self) -> (r: Self) {
        NoopSerializer
    }
}

/// The consumer handed out by the identity codec: the first chunk fed is the
/// whole message, with an empty remainder.
pub struct NoopConsumer {
    pub done: bool,
}

impl Consumer for NoopConsumer {
    type Item = Vec<u8>;

    type Error = ();

    open spec fn inv(&self) -> bool {
        true
    }

    open spec fn complete(&self) -> bool {
        self.done
    }

    open spec fn consume_rel(
        &self,
        buf: Seq<u8>,
        r: &ConsumerState<Vec<u8>, ()>,
        post: &Self,
    ) -> bool {
        r matches ConsumerState::Complete(res, rem) && res matches Ok(v) && v@ == buf && rem@
            == Seq::<u8>::empty() && post.done
    }

    fn consume(&mut self, buf: &[u8]) -> (r: ConsumerState<Vec<u8>, ()>) {
        self.done = true;
        ConsumerState::Complete(Ok(slice_to_vec(buf)), Vec::new())
    }
}

impl IncrementalPacketSerializer for NoopSerializer {
    type IncrementalSerializeError = ();

    type IncrementalDeserializeError = ();

    type SerializeProducer = OnceProducer<()>;

    type DeserializeConsumer = NoopConsumer;

    open spec fn serialize_producer_rel(&self, packet: &Vec<u8>, p: &OnceProducer<()>) -> bool {
        p.state matches OneShotState::Start(res) && res matches Ok(b) && b@ == packet@
    }

    open spec fn deserialize_consumer_rel(&self, c: &NoopConsumer) -> bool {
        !c.done
    }

    fn incremental_serialize(&self, packet: &Vec<u8>) -> (p: OnceProducer<()>) {
        OnceProducer { state: OneShotState::Start(Ok(slice_to_vec(packet.as_slice()))) }
    }

    fn incremental_deserialize(&self) -> (c: NoopConsumer) {
        NoopConsumer { done: false }
    }
}

/// A converter that hands packets through unchanged, with independent sent
/// and received packet types.
pub struct NoopConverter<Sent, Received> {
    pub marker: PhantomData<(Sent, Received)>,
}

impl<Sent, Received> NoopConverter<Sent, Received> {
    pub fn new() -> (r: Self) {
        Self { marker: PhantomData }
    }
}

impl<Sent, Received> Default for NoopConverter<Sent, Received> {
    fn default() -> (r: Self) {
        NoopConverter::new()
    }
}

impl<Sent, Received> PacketConverterComposite for NoopConverter<Sent, Received> {
    type SentBusinessPacket = Sent;

    type ReceivedBusinessPacket = Received;

    type SentDTOPacket = Sent;

    type ReceivedDTOPacket = Received;

    type SentPacketConversionError = ();

    type ReceivedPacketConversionError = ();

    open spec fn convert_to_dto_rel(&self, packet: Sent, r: &Result<Sent, ()>) -> bool {
        *r == Ok::<Sent, ()>(packet)
    }

    open spec fn create_from_dto_rel(&self, packet: Received, r: &Result<Received, ()>) -> bool {
        *r == Ok::<Received, ()>(packet)
    }

    fn convert_to_dto_packet(&self, packet: Sent) -> (r: Result<Sent, ()>) {
        Ok(packet)
    }

    fn create_from_dto_packet(&self, packet: Received) -> (r: Result<Received, ()>) {
        Ok(packet)
    }

    fn duplicate(&self) -> (r: Self) {
        Self { marker: PhantomData }
    }
}

} // verus!
