use packetcodec::consumer::{Consumer, ConsumerState};
use packetcodec::noop::{NoopConverter, NoopSerializer};
use packetcodec::producer::{Producer, ProducerState};
use packetcodec::line::StringLineSerializer;
use packetcodec::protocols::{
    DatagramProtocol, DatagramProtocolMethods, ProtocolParseError, StreamProtocol,
    StreamProtocolMethods,
};
use packetcodec::serializer::IntoIncrementalPacketSerializer;

#[test]
fn test_datagram_protocol_new() {
    let protocol = DatagramProtocol::new(NoopSerializer);

    assert_eq!(protocol.make_datagram(b"packet".to_vec()).expect("infallible"), b"packet".to_vec());
    assert_eq!(
        protocol.build_packet_from_datagram(b"packet").expect("infallible"),
        b"packet".to_vec()
    );
}

#[test]
fn test_datagram_protocol_new_with_converter() {
    let protocol = DatagramProtocol::new(NoopSerializer).with_converter(NoopConverter::default());

    assert_eq!(protocol.make_datagram(b"packet".to_vec()).expect("infallible"), b"packet".to_vec());
    assert_eq!(
        protocol.build_packet_from_datagram(b"packet").expect("infallible"),
        b"packet".to_vec()
    );
}

#[test]
fn test_stream_protocol_new() {
    let protocol = StreamProtocol::new(NoopSerializer);

    {
        let data = b"packet".to_vec();
        let mut producer = protocol.generate_chunks(data);
        assert!(matches!(producer.next(), ProducerState::Yielded(b) if *b == *b"packet"));
        assert!(matches!(producer.next(), ProducerState::Complete(Ok(()))));
    }
    {
        let mut consumer = protocol.build_packet_from_chunks();
        assert!(
            matches!(consumer.consume(b"packet"), ConsumerState::Complete(Ok(b), _) if *b == *b"packet")
        );
    }
}

#[test]
fn test_stream_protocol_new_with_converter_as_owned() {
    let protocol = StreamProtocol::new(NoopSerializer).with_converter(NoopConverter::default());

    {
        let data = b"packet".to_vec();
        let mut producer = protocol.generate_chunks(data);
        assert!(matches!(producer.next(), ProducerState::Yielded(b) if *b == *b"packet"));
        assert!(matches!(producer.next(), ProducerState::Complete(Ok(()))));
    }
    {
        let mut consumer = protocol.build_packet_from_chunks();
        assert!(
            matches!(consumer.consume(b"packet"), ConsumerState::Complete(Ok(b), _) if *b == *b"packet")
        );
    }
}

#[test]
fn datagram_protocol_wraps_deserialize_error() {

    let protocol = DatagramProtocol::new(StringLineSerializer::new())
        .with_converter(NoopConverter::<String, String>::default());

    assert_eq!(protocol.make_datagram("hi".to_string()).unwrap(), b"hi".to_vec());
    assert!(matches!(
        protocol.build_packet_from_datagram(&[0xff]),
        Err(ProtocolParseError::Deserialization(_))
    ));
}

#[test]
fn stream_protocol_wraps_deserialize_error() {

    let protocol = StreamProtocol::new(StringLineSerializer::new().into_incremental_serializer())
        .with_converter(NoopConverter::<String, String>::default());

    let mut consumer = protocol.build_packet_from_chunks();
    assert!(matches!(
        consumer.consume(&[0xff, b'\n']),
        ConsumerState::Complete(Err(ProtocolParseError::Deserialization(_)), _)
    ));
}

#[test]
fn stream_protocol_round_trips_through_converter() {

    let protocol = StreamProtocol::new(StringLineSerializer::new().into_incremental_serializer())
        .with_converter(NoopConverter::<String, String>::default());

    let mut producer = protocol.generate_chunks("hello".to_string());
    let wire = match producer.next() {
        ProducerState::Yielded(b) => b,
        _ => panic!("expected one chunk"),
    };
    assert!(matches!(producer.next(), ProducerState::Complete(Ok(()))));

    let mut consumer = protocol.build_packet_from_chunks();
    match consumer.consume(&wire) {
        ConsumerState::Complete(Ok(packet), remainder) => {
            assert_eq!(packet, "hello".to_string());
            assert!(remainder.is_empty());
        }
        _ => panic!("expected completion"),
    }
}
