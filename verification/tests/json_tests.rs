use packetcodec::consumer::{Consumer, ConsumerState};
use packetcodec::json::JSONSerializer;
use packetcodec::producer::{Producer, ProducerState};
use packetcodec::serializer::{IncrementalPacketSerializer, PacketSerializer};

fn value(text: &str) -> serde_json::Value {
    serde_json::from_str(text).unwrap()
}

#[test]
fn test_serialize() {
    let serializer: JSONSerializer = JSONSerializer::new();
    let packet = value("{\"key\": [1, 2, 3], \"data\": null}");

    assert_eq!(
        String::from_utf8(serializer.serialize(&packet).unwrap()).unwrap(),
        *"{\"data\":null,\"key\":[1,2,3]}"
    )
}

#[test]
fn test_incremental_serialize() {
    let serializer: JSONSerializer = JSONSerializer::new();
    let packet = value("{\"key\": [1, 2, 3], \"data\": null}");

    let mut producer = serializer.incremental_serialize(&packet);

    match producer.next() {
        ProducerState::Yielded(b) => {
            assert_eq!(String::from_utf8(b).unwrap(), "{\"data\":null,\"key\":[1,2,3]}");
        }
        _ => unreachable!(),
    };

    assert!(matches!(producer.next(), ProducerState::Complete(Ok(()))));
}

#[test]
fn test_deserialize() {
    let serializer: JSONSerializer = JSONSerializer::new();

    assert_eq!(
        serializer.deserialize(b"{\"data\":null,\"key\":[1,2,3]}").unwrap(),
        value("{\"key\": [1, 2, 3], \"data\": null}")
    );
}

#[test]
fn test_incremental_deserialize() {
    let serializer: JSONSerializer = JSONSerializer::new();

    let mut consumer = serializer.incremental_deserialize();

    assert!(matches!(consumer.consume(b"{\"data\":null"), ConsumerState::InputNeeded));

    match consumer.consume(b",\"key\":[1,2,3]}  {\"something\":\"remaining\"}") {
        ConsumerState::Complete(Ok(packet), remainder) => {
            assert_eq!(packet, value("{\"key\": [1, 2, 3], \"data\": null}"));
            assert_eq!(String::from_utf8(remainder).unwrap(), "{\"something\":\"remaining\"}");
        }
        _ => unreachable!(),
    }
}

#[test]
fn test_incremental_deserialize_all_at_once() {
    let serializer: JSONSerializer = JSONSerializer::new();

    let mut consumer = serializer.incremental_deserialize();

    match consumer.consume(b"[1,2,3]  {\"something\":\"remaining\"}") {
        ConsumerState::Complete(Ok(packet), remainder) => {
            assert_eq!(packet, value("[1, 2, 3]"));
            assert_eq!(std::str::from_utf8(&remainder).unwrap(), "{\"something\":\"remaining\"}");
        }
        _ => unreachable!(),
    }
}

#[test]
fn json_streaming_boundary() {
    let serializer: JSONSerializer = JSONSerializer::new();

    let mut consumer = serializer.incremental_deserialize();

    assert!(matches!(consumer.consume(b"{\"a\":1"), ConsumerState::InputNeeded));
    match consumer.consume(b"}  {\"b\":2}") {
        ConsumerState::Complete(Ok(packet), remainder) => {
            assert_eq!(packet, value("{\"a\":1}"));
            assert_eq!(remainder, b"{\"b\":2}".to_vec());
        }
        _ => unreachable!(),
    }
}

#[test]
fn json_syntax_error_discards_rest_of_input() {
    let serializer: JSONSerializer = JSONSerializer::new();

    let mut consumer = serializer.incremental_deserialize();

    match consumer.consume(b"}{\"ok\":true}") {
        ConsumerState::Complete(Err(e), remainder) => {
            assert!(e.is_syntax());
            assert!(remainder.is_empty());
        }
        _ => unreachable!(),
    }
}

#[test]
fn json_round_trip_through_chunks() {
    let serializer: JSONSerializer = JSONSerializer::new();
    let packet = value("{\"nested\": {\"list\": [true, false, null]}, \"n\": 42}");

    let mut producer = serializer.incremental_serialize(&packet);
    let wire = match producer.next() {
        ProducerState::Yielded(b) => b,
        _ => unreachable!(),
    };
    assert!(matches!(producer.next(), ProducerState::Complete(Ok(()))));

    let mut consumer = serializer.incremental_deserialize();
    let (head, tail) = wire.split_at(wire.len() / 2);
    assert!(matches!(consumer.consume(head), ConsumerState::InputNeeded));
    match consumer.consume(tail) {
        ConsumerState::Complete(Ok(parsed), remainder) => {
            assert_eq!(parsed, packet);
            assert!(remainder.is_empty());
        }
        _ => unreachable!(),
    }
}
