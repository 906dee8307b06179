//! The high-level protocol objects: they wire a codec and an optional
//! converter together, for whole-datagram transports and for stream
//! transports, and pick the error types that distinguish conversion
//! failures from codec failures.

use vstd::pervasive::unreached;
use vstd::prelude::*;

use crate::consumer::{Consumer, ConsumerState};
use crate::converters::PacketConverterComposite;
use crate::producer::{Producer, ProducerState};
use crate::serializer::{IncrementalPacketSerializer, PacketSerializer};
use crate::Sealed;

verus! {

/// A protocol-level serialization failure: the codec failed, or the
/// conversion to the wire object failed.
#[derive(Debug)]
pub enum ProtocolSerializeError<SerializeError, ConversionError> {
    Serialization(SerializeError),
    Conversion(ConversionError),
}

/// A protocol-level parse failure: the codec failed, or the conversion from
/// the wire object failed.
#[derive(Debug)]
pub enum ProtocolParseError<DeserializeError, ConversionError> {
    Deserialization(DeserializeError),
    Conversion(ConversionError),
}

/// What a whole-datagram protocol does: one buffer per outgoing packet, one
/// packet per incoming buffer.
pub trait DatagramProtocolMethods: Sealed + Sized {
    type SerializedPacket;

    type SerializeError;

    type DeserializedPacket;

    type DeserializeError;

    spec fn wf(&self) -> bool;

    spec fn make_datagram_rel(
        &self,
        packet: Self::SerializedPacket,
        r: &Result<Vec<u8>, Self::SerializeError>,
    ) -> bool;

    spec fn build_packet_rel(
        &self,
        data: Seq<u8>,
        r: &Result<Self::DeserializedPacket, Self::DeserializeError>,
    ) -> bool;

    fn make_datagram(&self, packet: Self::SerializedPacket) -> (r: Result<
        Vec<u8>,
        Self::SerializeError,
    >)
        requires
            self.wf(),
        ensures
            self.make_datagram_rel(packet, &r),
    ;

    fn build_packet_from_datagram(&self, data: &[u8]) -> (r: Result<
        Self::DeserializedPacket,
        Self::DeserializeError,
    >)
        requires
            self.wf(),
        ensures
            self.build_packet_rel(data@, &r),
    ;
}

/// A codec with an optional converter, over a whole-datagram transport.
pub struct DatagramProtocol<Serializer, Converter> {
    pub serializer: Serializer,
    pub converter: Converter,
}

impl<Serializer, Converter> Sealed for DatagramProtocol<Serializer, Converter> {

}

impl<Serializer: PacketSerializer> DatagramProtocol<Serializer, ()> {
    pub fn new(serializer: Serializer) -> (r: Self)
        ensures
            r.serializer == serializer,
    {
        Self { serializer, converter: () }
    }

    pub fn with_converter<Converter: PacketConverterComposite>(self, converter: Converter) -> (r:
        DatagramProtocol<Serializer, Converter>)
        ensures
            r.serializer == self.serializer,
            r.converter == converter,
    {
        DatagramProtocol { serializer: self.serializer, converter }
    }
}

impl<Serializer: PacketSerializer> DatagramProtocolMethods for DatagramProtocol<Serializer, ()> {
    type SerializedPacket = Serializer::SerializedPacket;

    type SerializeError = Serializer::SerializeError;

    type DeserializedPacket = Serializer::DeserializedPacket;

    type DeserializeError = Serializer::DeserializeError;

    open spec fn wf(&self) -> bool {
        self.serializer.wf()
    }

    open spec fn make_datagram_rel(
        &self,
        packet: Serializer::SerializedPacket,
        r: &Result<Vec<u8>, Serializer::SerializeError>,
    ) -> bool {
        self.serializer.serialize_rel(&packet, r)
    }

    open spec fn build_packet_rel(
        &self,
        data: Seq<u8>,
        r: &Result<Serializer::DeserializedPacket, Serializer::DeserializeError>,
    ) -> bool {
        self.serializer.deserialize_rel(data, r)
    }

    fn make_datagram(&self, packet: Serializer::SerializedPacket) -> (r: Result<
        Vec<u8>,
        Serializer::SerializeError,
    >) {
        self.serializer.serialize(&packet)
    }

    fn build_packet_from_datagram(&self, data: &[u8]) -> (r: Result<
        Serializer::DeserializedPacket,
        Serializer::DeserializeError,
    >) {
        self.serializer.deserialize(data)
    }
}

impl<
    Serializer: PacketSerializer,
    Converter: PacketConverterComposite<
        SentDTOPacket = Serializer::SerializedPacket,
        ReceivedDTOPacket = Serializer::DeserializedPacket,
    >,
> DatagramProtocolMethods for DatagramProtocol<Serializer, Converter> {
    type SerializedPacket = Converter::SentBusinessPacket;

    type SerializeError = ProtocolSerializeError<
        Serializer::SerializeError,
        Converter::SentPacketConversionError,
    >;

    type DeserializedPacket = Converter::ReceivedBusinessPacket;

    type DeserializeError = ProtocolParseError<
        Serializer::DeserializeError,
        Converter::ReceivedPacketConversionError,
    >;

    open spec fn wf(&self) -> bool {
        self.serializer.wf()
    }

    open spec fn make_datagram_rel(
        &self,
        packet: Converter::SentBusinessPacket,
        r: &Result<
            Vec<u8>,
            ProtocolSerializeError<
                Serializer::SerializeError,
                Converter::SentPacketConversionError,
            >,
        >,
    ) -> bool {
        match r {
            Ok(bytes) => exists|dto: Serializer::SerializedPacket|
                #[trigger] self.converter.convert_to_dto_rel(packet, &Ok(dto))
                    && self.serializer.serialize_rel(&dto, &Ok(*bytes)),
            Err(ProtocolSerializeError::Conversion(e)) => self.converter.convert_to_dto_rel(
                packet,
                &Err(*e),
            ),
            Err(ProtocolSerializeError::Serialization(e)) => exists|
                dto: Serializer::SerializedPacket,
            |
                #[trigger] self.converter.convert_to_dto_rel(packet, &Ok(dto))
                    && self.serializer.serialize_rel(&dto, &Err(*e)),
        }
    }

    open spec fn build_packet_rel(
        &self,
        data: Seq<u8>,
        r: &Result<
            Converter::ReceivedBusinessPacket,
            ProtocolParseError<
                Serializer::DeserializeError,
                Converter::ReceivedPacketConversionError,
            >,
        >,
    ) -> bool {
        match r {
            Ok(business) => exists|dto: Serializer::DeserializedPacket|
                #[trigger] self.serializer.deserialize_rel(data, &Ok(dto))
                    && self.converter.create_from_dto_rel(dto, &Ok(*business)),
            Err(ProtocolParseError::Deserialization(e)) => self.serializer.deserialize_rel(
                data,
                &Err(*e),
            ),
            Err(ProtocolParseError::Conversion(e)) => exists|dto: Serializer::DeserializedPacket|
                #[trigger] self.serializer.deserialize_rel(data, &Ok(dto))
                    && self.converter.create_from_dto_rel(dto, &Err(*e)),
        }
    }

    fn make_datagram(&self, packet: Converter::SentBusinessPacket) -> (r: Result<
        Vec<u8>,
        ProtocolSerializeError<Serializer::SerializeError, Converter::SentPacketConversionError>,
    >) {
        match self.converter.convert_to_dto_packet(packet) {
            Ok(dto) => {
                let ghost dto0 = dto;
                match self.serializer.serialize(&dto) {
                    Ok(bytes) => {
                        let ghost bytes0 = bytes;
                        let out: Result<
                            Vec<u8>,
                            ProtocolSerializeError<
                                Serializer::SerializeError,
                                Converter::SentPacketConversionError,
                            >,
                        > = Ok(bytes);
                        proof {
                            assert(self.converter.convert_to_dto_rel(packet, &Ok(dto0))
                                && self.serializer.serialize_rel(&dto0, &Ok(bytes0)));
                            assert(self.make_datagram_rel(packet, &out));
                        }
                        out
                    },
                    Err(e) => {
                        let ghost e0 = e;
                        let out: Result<
                            Vec<u8>,
                            ProtocolSerializeError<
                                Serializer::SerializeError,
                                Converter::SentPacketConversionError,
                            >,
                        > = Err(
                            ProtocolSerializeError::Serialization(e),
                        );
                        proof {
                            assert(self.converter.convert_to_dto_rel(packet, &Ok(dto0))
                                && self.serializer.serialize_rel(&dto0, &Err(e0)));
                            assert(self.make_datagram_rel(packet, &out));
                        }
                        out
                    },
                }
            },
            Err(e) => Err(ProtocolSerializeError::Conversion(e)),
        }
    }

    fn build_packet_from_datagram(&self, data: &[u8]) -> (r: Result<
        Converter::ReceivedBusinessPacket,
        ProtocolParseError<Serializer::DeserializeError, Converter::ReceivedPacketConversionError>,
    >) {
        match self.serializer.deserialize(data) {
            Ok(dto) => {
                let ghost dto0 = dto;
                match self.converter.create_from_dto_packet(dto) {
                    Ok(business) => {
                        let ghost business0 = business;
                        let out: Result<
                            Converter::ReceivedBusinessPacket,
                            ProtocolParseError<
                                Serializer::DeserializeError,
                                Converter::ReceivedPacketConversionError,
                            >,
                        > = Ok(business);
                        proof {
                            assert(self.serializer.deserialize_rel(data@, &Ok(dto0))
                                && self.converter.create_from_dto_rel(dto0, &Ok(business0)));
                            assert(self.build_packet_rel(data@, &out));
                        }
                        out
                    },
                    Err(e) => {
                        let ghost e0 = e;
                        let out: Result<
                            Converter::ReceivedBusinessPacket,
                            ProtocolParseError<
                                Serializer::DeserializeError,
                                Converter::ReceivedPacketConversionError,
                            >,
                        > = Err(
                            ProtocolParseError::Conversion(e),
                        );
                        proof {
                            assert(self.serializer.deserialize_rel(data@, &Ok(dto0))
                                && self.converter.create_from_dto_rel(dto0, &Err(e0)));
                            assert(self.build_packet_rel(data@, &out));
                        }
                        out
                    },
                }
            },
            Err(e) => Err(ProtocolParseError::Deserialization(e)),
        }
    }
}

/// What a stream protocol does: a producer of chunks per outgoing packet, a
/// consumer of chunks per incoming packet.
pub trait StreamProtocolMethods: Sealed + Sized {
    type SerializedPacket;

    type SerializeError;

    type DeserializedPacket;

    type DeserializeError;

    type ChunkProducer: Producer<Error = Self::SerializeError>;

    type ChunkConsumer: Consumer<Item = Self::DeserializedPacket, Error = Self::DeserializeError>;

    spec fn wf(&self) -> bool;

    spec fn generate_chunks_rel(
        &self,
        packet: Self::SerializedPacket,
        p: &Self::ChunkProducer,
    ) -> bool;

    spec fn build_consumer_rel(&self, c: &Self::ChunkConsumer) -> bool;

    fn generate_chunks(&self, packet: Self::SerializedPacket) -> (p: Self::ChunkProducer)
        requires
            self.wf(),
        ensures
            p.inv(),
            !p.complete(),
            self.generate_chunks_rel(packet, &p),
    ;

    fn build_packet_from_chunks(&self) -> (c: Self::ChunkConsumer)
        requires
            self.wf(),
        ensures
            c.inv(),
            !c.complete(),
            self.build_consumer_rel(&c),
    ;
}

/// A codec with an optional converter, over a stream transport.
pub struct StreamProtocol<Serializer, Converter> {
    pub serializer: Serializer,
    pub converter: Converter,
}

impl<Serializer, Converter> Sealed for StreamProtocol<Serializer, Converter> {

}

impl<Serializer: IncrementalPacketSerializer> StreamProtocol<Serializer, ()> {
    pub fn new(serializer: Serializer) -> (r: Self)
        ensures
            r.serializer == serializer,
    {
        Self { serializer, converter: () }
    }

    pub fn with_converter<Converter: PacketConverterComposite>(self, converter: Converter) -> (r:
        StreamProtocol<Serializer, Converter>)
        ensures
            r.serializer == self.serializer,
            r.converter == converter,
    {
        StreamProtocol { serializer: self.serializer, converter }
    }
}

impl<Serializer: IncrementalPacketSerializer> StreamProtocolMethods for StreamProtocol<
    Serializer,
    (),
> {
    type SerializedPacket = Serializer::SerializedPacket;

    type SerializeError = Serializer::IncrementalSerializeError;

    type DeserializedPacket = Serializer::DeserializedPacket;

    type DeserializeError = Serializer::IncrementalDeserializeError;

    type ChunkProducer = Serializer::SerializeProducer;

    type ChunkConsumer = Serializer::DeserializeConsumer;

    open spec fn wf(&self) -> bool {
        self.serializer.wf()
    }

    open spec fn generate_chunks_rel(
        &self,
        packet: Serializer::SerializedPacket,
        p: &Serializer::SerializeProducer,
    ) -> bool {
        self.serializer.serialize_producer_rel(&packet, p)
    }

    open spec fn build_consumer_rel(&self, c: &Serializer::DeserializeConsumer) -> bool {
        self.serializer.deserialize_consumer_rel(c)
    }

    fn generate_chunks(&self, packet: Serializer::SerializedPacket) -> (p:
        Serializer::SerializeProducer) {
        self.serializer.incremental_serialize(&packet)
    }

    fn build_packet_from_chunks(&self) -> (c: Serializer::DeserializeConsumer) {
        self.serializer.incremental_deserialize()
    }
}

/// The states of a stream protocol's producer: conversion failed before any
/// chunk, the codec's producer is running, or terminal.
pub enum ProtocolProducerState<P, CE> {
    Failed(CE),
    Running(P),
    Complete,
}

/// The producer handed out by a converting stream protocol: it surfaces a
/// conversion failure as the terminal result of its first call, and
/// otherwise forwards the codec's producer, wrapping its error.
pub struct ProtocolProducer<P, CE> {
    pub state: ProtocolProducerState<P, CE>,
}

impl<P: Producer, CE> Producer for ProtocolProducer<P, CE> {
    type Error = ProtocolSerializeError<P::Error, CE>;

    open spec fn inv(&self) -> bool {
        self.state matches ProtocolProducerState::Running(p) ==> p.inv() && !p.complete()
    }

    open spec fn complete(&self) -> bool {
        self.state is Complete
    }

    open spec fn next_rel(
        &self,
        r: &ProducerState<ProtocolSerializeError<P::Error, CE>>,
        post: &Self,
    ) -> bool {
        match self.state {
            ProtocolProducerState::Failed(e) => *r == ProducerState::Complete(
                Err(ProtocolSerializeError::<P::Error, CE>::Conversion(e)),
            ) && post.state is Complete,
            ProtocolProducerState::Running(p) => match r {
                ProducerState::Yielded(b) => post.state matches ProtocolProducerState::Running(p1)
                    && p.next_rel(&ProducerState::Yielded(*b), &p1),
                ProducerState::Complete(res) => post.state is Complete && match res {
                    Ok(_) => exists|p1: P|
                        p.next_rel(&ProducerState::Complete(Ok(())), &p1),
                    Err(ProtocolSerializeError::Serialization(e)) => exists|p1: P|
                        p.next_rel(&ProducerState::Complete(Err(*e)), &p1),
                    Err(ProtocolSerializeError::Conversion(_)) => false,
                },
            },
            ProtocolProducerState::Complete => false,
        }
    }

    fn next(&mut self) -> (r: ProducerState<ProtocolSerializeError<P::Error, CE>>) {
        let mut taken = ProtocolProducerState::Complete;
        core::mem::swap(&mut self.state, &mut taken);
        match taken {
            ProtocolProducerState::Failed(e) => ProducerState::Complete(
                Err(ProtocolSerializeError::Conversion(e)),
            ),
            ProtocolProducerState::Running(mut p) => {
                let ghost p0 = p;
                match p.next() {
                    ProducerState::Yielded(b) => {
                        self.state = ProtocolProducerState::Running(p);
                        ProducerState::Yielded(b)
                    },
                    ProducerState::Complete(res) => {
                        proof {
                            assert(p0.next_rel(&ProducerState::Complete(res), &p));
                        }
                        match res {
                            Ok(u) => ProducerState::Complete(Ok(u)),
                            Err(e) => ProducerState::Complete(
                                Err(ProtocolSerializeError::Serialization(e)),
                            ),
                        }
                    },
                }
            },
            ProtocolProducerState::Complete => unreached(),
        }
    }
}

/// The consumer handed out by a converting stream protocol: it forwards the
/// codec's consumer and, on completion, converts the wire object to the
/// business object, wrapping either failure.
pub struct ProtocolConsumer<C, Conv> {
    pub inner: C,
    pub converter: Conv,
}

impl<
    C: Consumer,
    Conv: PacketConverterComposite<ReceivedDTOPacket = C::Item>,
> Consumer for ProtocolConsumer<C, Conv> {
    type Item = Conv::ReceivedBusinessPacket;

    type Error = ProtocolParseError<C::Error, Conv::ReceivedPacketConversionError>;

    open spec fn inv(&self) -> bool {
        !self.inner.complete() ==> self.inner.inv()
    }

    open spec fn complete(&self) -> bool {
        self.inner.complete()
    }

    open spec fn consume_rel(
        &self,
        buf: Seq<u8>,
        r: &ConsumerState<
            Conv::ReceivedBusinessPacket,
            ProtocolParseError<C::Error, Conv::ReceivedPacketConversionError>,
        >,
        post: &Self,
    ) -> bool {
        match r {
            ConsumerState::InputNeeded => post.converter == self.converter
                && self.inner.consume_rel(buf, &ConsumerState::InputNeeded, &post.inner),
            ConsumerState::Complete(res2, rem) => post.converter == self.converter && match res2 {
                Ok(business) => exists|dto: C::Item|
                    #[trigger] self.inner.consume_rel(
                        buf,
                        &ConsumerState::Complete(Ok(dto), *rem),
                        &post.inner,
                    ) && self.converter.create_from_dto_rel(dto, &Ok(*business)),
                Err(ProtocolParseError::Deserialization(e)) => self.inner.consume_rel(
                    buf,
                    &ConsumerState::Complete(Err(*e), *rem),
                    &post.inner,
                ),
                Err(ProtocolParseError::Conversion(e)) => exists|dto: C::Item|
                    #[trigger] self.inner.consume_rel(
                        buf,
                        &ConsumerState::Complete(Ok(dto), *rem),
                        &post.inner,
                    ) && self.converter.create_from_dto_rel(dto, &Err(*e)),
            },
        }
    }

    fn consume(&mut self, buf: &[u8]) -> (r: ConsumerState<
        Conv::ReceivedBusinessPacket,
        ProtocolParseError<C::Error, Conv::ReceivedPacketConversionError>,
    >) {
        match self.inner.consume(buf) {
            ConsumerState::InputNeeded => ConsumerState::InputNeeded,
            ConsumerState::Complete(res, rem) => {
                let ghost rem0 = rem;
                let ghost dto_opt = res;
                let mapped = match res {
                    Ok(dto) => {
                        match self.converter.create_from_dto_packet(dto) {
                            Ok(business) => Ok(business),
                            Err(e) => Err(ProtocolParseError::Conversion(e)),
                        }
                    },
                    Err(e) => Err(ProtocolParseError::Deserialization(e)),
                };
                let out = ConsumerState::Complete(mapped, rem);
                proof {
                    let post = ProtocolConsumer { inner: self.inner, converter: self.converter };
                    match dto_opt {
                        Ok(dto0) => {
                            assert(old(self).inner.consume_rel(
                                buf@,
                                &ConsumerState::Complete(Ok(dto0), rem0),
                                &post.inner,
                            ));
                        },
                        Err(e0) => {
                            assert(old(self).inner.consume_rel(
                                buf@,
                                &ConsumerState::Complete(Err(e0), rem0),
                                &post.inner,
                            ));
                        },
                    }
                    assert(old(self).consume_rel(buf@, &out, &post));
                }
                out
            },
        }
    }
}

impl<
    Serializer: IncrementalPacketSerializer,
    Converter: PacketConverterComposite<
        SentDTOPacket = Serializer::SerializedPacket,
        ReceivedDTOPacket = Serializer::DeserializedPacket,
    >,
> StreamProtocolMethods for StreamProtocol<Serializer, Converter> {
    type SerializedPacket = Converter::SentBusinessPacket;

    type SerializeError = ProtocolSerializeError<
        Serializer::IncrementalSerializeError,
        Converter::SentPacketConversionError,
    >;

    type DeserializedPacket = Converter::ReceivedBusinessPacket;

    type DeserializeError = ProtocolParseError<
        Serializer::IncrementalDeserializeError,
        Converter::ReceivedPacketConversionError,
    >;

    type ChunkProducer = ProtocolProducer<
        Serializer::SerializeProducer,
        Converter::SentPacketConversionError,
    >;

    type ChunkConsumer = ProtocolConsumer<Serializer::DeserializeConsumer, Converter>;

    open spec fn wf(&self) -> bool {
        self.serializer.wf()
    }

    open spec fn generate_chunks_rel(
        &self,
        packet: Converter::SentBusinessPacket,
        p: &ProtocolProducer<Serializer::SerializeProducer, Converter::SentPacketConversionError>,
    ) -> bool {
        match p.state {
            ProtocolProducerState::Running(inner) => exists|dto: Serializer::SerializedPacket|
                self.converter.convert_to_dto_rel(packet, &Ok(dto))
                    && self.serializer.serialize_producer_rel(&dto, &inner),
            ProtocolProducerState::Failed(e) => self.converter.convert_to_dto_rel(packet, &Err(e)),
            ProtocolProducerState::Complete => false,
        }
    }

    open spec fn build_consumer_rel(
        &self,
        c: &ProtocolConsumer<Serializer::DeserializeConsumer, Converter>,
    ) -> bool {
        self.serializer.deserialize_consumer_rel(&c.inner) && c.converter == self.converter
    }

    fn generate_chunks(&self, packet: Converter::SentBusinessPacket) -> (p: ProtocolProducer<
        Serializer::SerializeProducer,
        Converter::SentPacketConversionError,
    >) {
        match self.converter.convert_to_dto_packet(packet) {
            Ok(dto) => {
                let ghost dto0 = dto;
                let inner = self.serializer.incremental_serialize(&dto);
                proof {
                    assert(self.converter.convert_to_dto_rel(packet, &Ok(dto0)));
                }
                ProtocolProducer { state: ProtocolProducerState::Running(inner) }
            },
            Err(e) => ProtocolProducer { state: ProtocolProducerState::Failed(e) },
        }
    }

    fn build_packet_from_chunks(&self) -> (c: ProtocolConsumer<
        Serializer::DeserializeConsumer,
        Converter,
    >) {
        ProtocolConsumer {
            inner: self.serializer.incremental_deserialize(),
            converter: self.converter.duplicate(),
        }
    }
}

} // verus!
