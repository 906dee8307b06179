//! The business-object / wire-object conversion contract: a pair of pure,
//! fallible mapping functions between what the application handles and what
//! the codec serializes. Converters are external collaborators; the engine
//! only composes them.

use vstd::prelude::*;

verus! {

/// A converter whose sent and received sides may differ in every type.
pub trait PacketConverterComposite: Sized {
    type SentBusinessPacket;

    type ReceivedBusinessPacket;

    type SentDTOPacket;

    type ReceivedDTOPacket;

    type SentPacketConversionError;

    type ReceivedPacketConversionError;

    spec fn convert_to_dto_rel(
        &self,
        packet: Self::SentBusinessPacket,
        r: &Result<Self::SentDTOPacket, Self::SentPacketConversionError>,
    ) -> bool;

    spec fn create_from_dto_rel(
        &self,
        packet: Self::ReceivedDTOPacket,
        r: &Result<Self::ReceivedBusinessPacket, Self::ReceivedPacketConversionError>,
    ) -> bool;

    fn convert_to_dto_packet(&self, packet: Self::SentBusinessPacket) -> (r: Result<
        Self::SentDTOPacket,
        Self::SentPacketConversionError,
    >)
        ensures
            self.convert_to_dto_rel(packet, &r),
    ;

    fn create_from_dto_packet(&self, packet: Self::ReceivedDTOPacket) -> (r: Result<
        Self::ReceivedBusinessPacket,
        Self::ReceivedPacketConversionError,
    >)
        ensures
            self.create_from_dto_rel(packet, &r),
    ;

    /// An equal instance of this converter, letting adapters embed a copy.
    fn duplicate(&self) -> (r: Self)
        ensures
            r == *self,
    ;
}

/// A converter with one business type and one wire type, used for both
/// directions.
pub trait PacketConverter: Sized {
    type BusinessPacket;

    type DTOPacket;

    type SentPacketConversionError;

    type ReceivedPacketConversionError;

    spec fn to_dto_rel(
        &self,
        packet: Self::BusinessPacket,
        r: &Result<Self::DTOPacket, Self::SentPacketConversionError>,
    ) -> bool;

    spec fn from_dto_rel(
        &self,
        packet: Self::DTOPacket,
        r: &Result<Self::BusinessPacket, Self::ReceivedPacketConversionError>,
    ) -> bool;

    fn convert_to_dto_packet(&self, packet: Self::BusinessPacket) -> (r: Result<
        Self::DTOPacket,
        Self::SentPacketConversionError,
    >)
        ensures
            self.to_dto_rel(packet, &r),
    ;

    fn create_from_dto_packet(&self, packet: Self::DTOPacket) -> (r: Result<
        Self::BusinessPacket,
        Self::ReceivedPacketConversionError,
    >)
        ensures
            self.from_dto_rel(packet, &r),
    ;

    /// An equal instance of this converter.
    fn duplicate(&self) -> (r: Self)
        ensures
            r == *self,
    ;
}

impl<C: PacketConverter> PacketConverterComposite for C {
    type SentBusinessPacket = C::BusinessPacket;

    type ReceivedBusinessPacket = C::BusinessPacket;

    type SentDTOPacket = C::DTOPacket;

    type ReceivedDTOPacket = C::DTOPacket;

    type SentPacketConversionError = C::SentPacketConversionError;

    type ReceivedPacketConversionError = C::ReceivedPacketConversionError;

    open spec fn convert_to_dto_rel(
        &self,
        packet: C::BusinessPacket,
        r: &Result<C::DTOPacket, C::SentPacketConversionError>,
    ) -> bool {
        self.to_dto_rel(packet, r)
    }

    open spec fn create_from_dto_rel(
        &self,
        packet: C::DTOPacket,
        r: &Result<C::BusinessPacket, C::ReceivedPacketConversionError>,
    ) -> bool {
        self.from_dto_rel(packet, r)
    }

    fn convert_to_dto_packet(&self, packet: C::BusinessPacket) -> (r: Result<
        C::DTOPacket,
        C::SentPacketConversionError,
    >) {
        PacketConverter::convert_to_dto_packet(self, packet)
    }

    fn create_from_dto_packet(&self, packet: C::DTOPacket) -> (r: Result<
        C::BusinessPacket,
        C::ReceivedPacketConversionError,
    >) {
        PacketConverter::create_from_dto_packet(self, packet)
    }

    fn duplicate(&self) -> (r: Self) {
        PacketConverter::duplicate(self)
    }
}

} // verus!
