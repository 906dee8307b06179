//! The whole-buffer codec contract (serialize one packet to bytes,
//! deserialize bytes back) and its incremental counterpart, which hands out
//! a producer per outgoing packet and a consumer per incoming one.

use vstd::prelude::*;

use crate::consumer::Consumer;
use crate::producer::Producer;

verus! {

/// A whole-buffer codec: one packet in, one buffer out, and back.
///
/// `wf` is the well-formedness of the codec's configuration;
/// `serialize_rel` and `deserialize_rel` relate each call to its result, as
/// precisely as the concrete codec allows.
pub trait PacketSerializer: Sized {
    type SerializedPacket;

    type DeserializedPacket;

    type SerializeError;

    type DeserializeError;

    spec fn wf(&self) -> bool;

    spec fn serialize_rel(
        &self,
        packet: &Self::SerializedPacket,
        r: &Result<Vec<u8>, Self::SerializeError>,
    ) -> bool;

    spec fn deserialize_rel(
        &self,
        data: Seq<u8>,
        r: &Result<Self::DeserializedPacket, Self::DeserializeError>,
    ) -> bool;

    fn serialize(&self, packet: &Self::SerializedPacket) -> (r: Result<
        Vec<u8>,
        Self::SerializeError,
    >)
        requires
            self.wf(),
        ensures
            self.serialize_rel(packet, &r),
    ;

    fn deserialize(&self, data: &[u8]) -> (r: Result<
        Self::DeserializedPacket,
        Self::DeserializeError,
    >)
        requires
            self.wf(),
        ensures
            self.deserialize_rel(data@, &r),
    ;

    /// An equal instance of this serializer, letting adapters embed a copy.
    fn duplicate(&self) -> (r: Self)
        ensures
            r == *self,
    ;
}

/// Conversion into a whole-buffer codec.
pub trait IntoPacketSerializer: Sized {
    type IntoSerializer: PacketSerializer;

    spec fn into_serializer_rel(self, r: &Self::IntoSerializer) -> bool;

    fn into_serializer(self) -> (r: Self::IntoSerializer)
        ensures
            self.into_serializer_rel(&r),
    ;
}

impl<S: PacketSerializer> IntoPacketSerializer for S {
    type IntoSerializer = Self;

    open spec fn into_serializer_rel(self, r: &Self) -> bool {
        *r == self
    }

    fn into_serializer(self) -> (r: Self) {
        self
    }
}

/// An incremental codec: serializes one packet into a sequence of chunks
/// pulled from a producer, and deserializes one packet from chunks pushed
/// into a consumer.
pub trait IncrementalPacketSerializer: PacketSerializer {
    type IncrementalSerializeError;

    type IncrementalDeserializeError;

    type SerializeProducer: Producer<Error = Self::IncrementalSerializeError>;

    type DeserializeConsumer: Consumer<
        Item = Self::DeserializedPacket,
        Error = Self::IncrementalDeserializeError,
    >;

    spec fn serialize_producer_rel(
        &self,
        packet: &Self::SerializedPacket,
        p: &Self::SerializeProducer,
    ) -> bool;

    spec fn deserialize_consumer_rel(&self, c: &Self::DeserializeConsumer) -> bool;

    fn incremental_serialize(&self, packet: &Self::SerializedPacket) -> (p:
        Self::SerializeProducer)
        requires
            self.wf(),
        ensures
            p.inv(),
            !p.complete(),
            self.serialize_producer_rel(packet, &p),
    ;

    fn incremental_deserialize(&self) -> (c: Self::DeserializeConsumer)
        requires
            self.wf(),
        ensures
            c.inv(),
            !c.complete(),
            self.deserialize_consumer_rel(&c),
    ;
}

/// Conversion into an incremental codec.
pub trait IntoIncrementalPacketSerializer: Sized {
    type IntoIncrementalSerializer: IncrementalPacketSerializer;

    spec fn into_incremental_serializer_rel(self, r: &Self::IntoIncrementalSerializer) -> bool;

    fn into_incremental_serializer(self) -> (r: Self::IntoIncrementalSerializer)
        ensures
            self.into_incremental_serializer_rel(&r),
    ;
}

impl<S: IncrementalPacketSerializer> IntoIncrementalPacketSerializer for S {
    type IntoIncrementalSerializer = Self;

    open spec fn into_incremental_serializer_rel(self, r: &Self) -> bool {
        *r == self
    }

    fn into_incremental_serializer(self) -> (r: Self) {
        self
    }
}

} // verus!
