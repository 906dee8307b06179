use packetcodec::consumer::{self, Consumer, ConsumerState};
use packetcodec::producer::{self, Producer, ProducerState};
use packetcodec::serializer::{IncrementalPacketSerializer, IntoIncrementalPacketSerializer};
use packetcodec::line::StringLineSerializer;

#[test]
fn from_iter_yields_chunks_in_order() {
    let mut p = producer::from_iter(vec![b"pac".to_vec(), b"ket\n".to_vec()]);

    assert!(matches!(p.next(), ProducerState::Yielded(b) if *b == *b"pac"));
    assert!(matches!(p.next(), ProducerState::Yielded(b) if *b == *b"ket\n"));
    assert!(matches!(p.next(), ProducerState::Complete(Ok(()))));
}

#[test]
fn from_fn_once_yields_once_then_completes() {
    let mut p = producer::from_fn_once(|| Ok::<Vec<u8>, ()>(b"chunk".to_vec()));

    assert!(matches!(p.next(), ProducerState::Yielded(b) if *b == *b"chunk"));
    assert!(matches!(p.next(), ProducerState::Complete(Ok(()))));
}

#[test]
fn from_fn_once_reports_error_at_once() {
    let mut p = producer::from_fn_once(|| Err::<Vec<u8>, u32>(42));

    assert!(matches!(p.next(), ProducerState::Complete(Err(42))));
}

#[test]
fn map_producer_transforms_terminal_result() {
    let inner = producer::from_fn_once(|| Err::<Vec<u8>, u32>(7));
    let mut p = producer::map(inner, |res: Result<(), u32>| res.map_err(|e: u32| e + 1));

    assert!(matches!(p.next(), ProducerState::Complete(Err(8))));
}

#[test]
fn map_producer_passes_chunks_through() {
    let inner = producer::from_iter(vec![b"a".to_vec()]);
    let mut p = producer::map(inner, |res: Result<(), ()>| res);

    assert!(matches!(p.next(), ProducerState::Yielded(b) if *b == *b"a"));
    assert!(matches!(p.next(), ProducerState::Complete(Ok(()))));
}

#[test]
fn lazy_producer_defers_initialization() {
    let mut p = producer::lazy(|| Ok(producer::from_iter(vec![b"late".to_vec()])));

    assert!(matches!(p.next(), ProducerState::Yielded(b) if *b == *b"late"));
    assert!(matches!(p.next(), ProducerState::Complete(Ok(()))));
}

#[test]
fn lazy_producer_surfaces_initialization_error() {
    let mut p = producer::lazy(|| {
        if true {
            Err(())
        } else {
            Ok(producer::from_iter(vec![]))
        }
    });

    assert!(matches!(p.next(), ProducerState::Complete(Err(()))));
}

#[test]
fn map_consumer_transforms_terminal_result() {
    let serializer = StringLineSerializer::new().into_incremental_serializer();
    let inner = serializer.incremental_deserialize();
    let mut c = consumer::map(inner, |res| match res {
        Ok(s) => Ok(format!("<{}>", s)),
        Err(_) => Err("bad"),
    });

    assert!(matches!(c.consume(b"pack"), ConsumerState::InputNeeded));
    assert!(
        matches!(c.consume(b"et\nrest"), ConsumerState::Complete(Ok(s), rem) if s == "<packet>" && *rem == *b"rest")
    );
}
