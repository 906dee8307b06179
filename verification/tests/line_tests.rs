use packetcodec::auto_separated::IncrementalDeserializeError;
use packetcodec::consumer::{Consumer, ConsumerState};
use packetcodec::line::{DeserializeError, Newline, StringLineSerializer};
use packetcodec::producer::{Producer, ProducerState};
use packetcodec::serializer::{
    IncrementalPacketSerializer, IntoIncrementalPacketSerializer, PacketSerializer,
};

#[test]
fn serialize() {
    let serializer = StringLineSerializer::new();

    assert_eq!(serializer.serialize(&"packet".to_string()).unwrap(), b"packet".to_vec());
}

#[test]
fn deserialize() {
    let serializer = StringLineSerializer::new();

    assert_eq!(serializer.deserialize(b"packet").unwrap(), "packet".to_owned());
}

#[test]
fn deserialize_no_newline_borrowed() {
    let serializer = StringLineSerializer::new();

    assert_eq!(serializer.deserialize(b"packet\n").unwrap(), "packet".to_owned());
}

#[test]
fn deserialize_no_newline_owned() {
    let serializer = StringLineSerializer::new();

    assert_eq!(serializer.deserialize(b"packet\n".to_vec().as_slice()).unwrap(), "packet".to_owned());
}

#[test]
fn deserialize_with_newline_borrowed() {
    let serializer = StringLineSerializer::new().with_newline_at_end(true);

    assert_eq!(serializer.deserialize(b"packet\n").unwrap(), "packet\n".to_owned());
}

#[test]
fn deserialize_with_newline_owned() {
    let serializer = StringLineSerializer::new().with_newline_at_end(true);

    assert_eq!(serializer.deserialize(b"packet\n".to_vec().as_slice()).unwrap(), "packet\n".to_owned());
}

#[test]
fn incremental_serialize() {
    let serializer = StringLineSerializer::new().into_incremental_serializer();

    let mut producer = serializer.incremental_serialize(&"packet".to_string());

    assert!(matches!(producer.next(), ProducerState::Yielded(packet) if packet == b"packet\n".to_vec()));
    assert!(matches!(producer.next(), ProducerState::Complete(Ok(()))));
}

#[test]
fn incremental_serialize_newline_already_present() {
    let serializer = StringLineSerializer::new().into_incremental_serializer();

    let mut producer = serializer.incremental_serialize(&"packet\n".to_string());

    assert!(matches!(producer.next(), ProducerState::Yielded(packet) if packet == b"packet\n".to_vec()));
    assert!(matches!(producer.next(), ProducerState::Complete(Ok(()))));
}

#[test]
fn incremental_deserialize() {
    let serializer = StringLineSerializer::new().into_incremental_serializer();

    let mut consumer = serializer.incremental_deserialize();

    assert!(matches!(consumer.consume(b"pa"), ConsumerState::InputNeeded));
    assert!(matches!(consumer.consume(b"ck"), ConsumerState::InputNeeded));
    assert!(
        matches!(consumer.consume(b"et\n"), ConsumerState::Complete(Ok(packet), remainder) if packet == "packet" && remainder.is_empty())
    );
}

#[test]
fn incremental_deserialize_newline_already_present() {
    let serializer = StringLineSerializer::new().into_incremental_serializer();

    let mut consumer = serializer.incremental_deserialize();

    assert!(
        matches!(consumer.consume(b"packet\n"), ConsumerState::Complete(Ok(packet), remainder) if packet == "packet" && remainder.is_empty())
    );
}

#[test]
fn incremental_deserialize_with_remainder() {
    let serializer = StringLineSerializer::new().into_incremental_serializer();

    let mut consumer = serializer.incremental_deserialize();

    assert!(matches!(consumer.consume(b"pa"), ConsumerState::InputNeeded));
    assert!(matches!(consumer.consume(b"ck"), ConsumerState::InputNeeded));
    assert!(
        matches!(consumer.consume(b"et\nALED"), ConsumerState::Complete(Ok(packet), remainder) if packet == "packet" && *remainder == *b"ALED",)
    );
}

#[test]
fn incremental_deserialize_with_remainder_and_newline_already_present() {
    let serializer = StringLineSerializer::new().into_incremental_serializer();

    let mut consumer = serializer.incremental_deserialize();

    assert!(matches!(consumer.consume(b"packet\nALED"),
        ConsumerState::Complete(Ok(packet), remainder) if packet == "packet" && *remainder == *b"ALED",
    ));
}

#[test]
fn round_trip_under_arbitrary_chunking() {
    let message = "hello world".to_string();
    let serializer = StringLineSerializer::new().into_incremental_serializer();

    let mut producer = serializer.incremental_serialize(&message);
    let wire = match producer.next() {
        ProducerState::Yielded(bytes) => bytes,
        _ => panic!("expected one chunk"),
    };
    assert!(matches!(producer.next(), ProducerState::Complete(Ok(()))));
    assert_eq!(wire, b"hello world\n".to_vec());

    let partitions: [&[usize]; 3] = [&[12], &[1, 11], &[3, 4, 4, 1]];
    for sizes in partitions {
        let mut consumer = serializer.incremental_deserialize();
        let mut offset = 0;
        let mut outcome = None;
        for &size in sizes {
            let piece = &wire[offset..offset + size];
            offset += size;
            match consumer.consume(piece) {
                ConsumerState::InputNeeded => assert!(offset < wire.len()),
                ConsumerState::Complete(res, rem) => {
                    outcome = Some((res, rem));
                }
            }
        }
        let (res, rem) = outcome.expect("the last piece must complete the message");
        assert_eq!(res.unwrap(), message);
        assert!(rem.is_empty());
    }
}

#[test]
fn split_separator_recognized_once() {
    let serializer = StringLineSerializer::new()
        .with_newline(Newline::CRLF)
        .into_incremental_serializer();

    let mut consumer = serializer.incremental_deserialize();

    assert!(matches!(consumer.consume(b"packet\r"), ConsumerState::InputNeeded));
    assert!(
        matches!(consumer.consume(b"\n"), ConsumerState::Complete(Ok(packet), remainder) if packet == "packet" && remainder.is_empty())
    );
}

#[test]
fn limit_overrun_reports_scanned_length() {
    let serializer = StringLineSerializer::new()
        .with_buffer_limit(3)
        .into_incremental_serializer();

    let mut consumer = serializer.incremental_deserialize();

    assert!(matches!(consumer.consume(b"pa"), ConsumerState::InputNeeded));
    match consumer.consume(b"cket") {
        ConsumerState::Complete(Err(IncrementalDeserializeError::LimitOverrun(e)), remainder) => {
            assert_eq!(e.consumed(), 6);
            assert!(remainder.is_empty());
        }
        _ => panic!("expected a limit overrun"),
    }
}

#[test]
fn limit_overrun_realigns_partial_separator() {
    let serializer = StringLineSerializer::new()
        .with_newline(Newline::CRLF)
        .with_buffer_limit(1)
        .into_incremental_serializer();

    let mut consumer = serializer.incremental_deserialize();

    match consumer.consume(b"xxx\r") {
        ConsumerState::Complete(Err(IncrementalDeserializeError::LimitOverrun(e)), remainder) => {
            assert_eq!(e.consumed(), 3);
            assert_eq!(remainder, b"\r".to_vec());
        }
        _ => panic!("expected a limit overrun"),
    }
}

#[test]
fn remainder_accounts_for_every_byte() {
    let serializer = StringLineSerializer::new().into_incremental_serializer();

    let mut consumer = serializer.incremental_deserialize();
    let fed: &[u8] = b"one\ntwo\nthr";
    match consumer.consume(fed) {
        ConsumerState::Complete(Ok(packet), remainder) => {
            let mut reassembled = packet.into_bytes();
            reassembled.extend_from_slice(b"\n");
            reassembled.extend_from_slice(&remainder);
            assert_eq!(reassembled, fed.to_vec());
        }
        _ => panic!("expected a parsed line"),
    }
}

#[test]
fn deserialize_rejects_invalid_utf8() {
    let serializer = StringLineSerializer::new();

    assert!(matches!(serializer.deserialize(&[0xff, 0xfe]), Err(DeserializeError::Utf8(_))));
}

#[test]
fn incremental_deserialize_wraps_inner_error() {
    let serializer = StringLineSerializer::new().into_incremental_serializer();

    let mut consumer = serializer.incremental_deserialize();

    assert!(matches!(
        consumer.consume(&[0xff, b'\n']),
        ConsumerState::Complete(Err(IncrementalDeserializeError::Deserialization(DeserializeError::Utf8(_))), _)
    ));
}

#[test]
fn newline_text_forms() {
    assert_eq!(Newline::LF.as_str(), "\n");
    assert_eq!(Newline::CR.as_str(), "\r");
    assert_eq!(Newline::CRLF.as_str(), "\r\n");
    assert_eq!(Newline::LF.as_bytes(), b"\n".to_vec());
    assert_eq!(Newline::CRLF.as_bytes(), b"\r\n".to_vec());
}

#[test]
fn incremental_deserialize_keeping_separator() {
    let serializer = StringLineSerializer::new()
        .with_newline_at_end(true)
        .into_incremental_serializer();

    let mut consumer = serializer.incremental_deserialize();

    assert!(matches!(consumer.consume(b"packet\nrest"),
        ConsumerState::Complete(Ok(packet), remainder) if packet == "packet\n" && *remainder == *b"rest",
    ));
}
