use gelf_logger::buffer::{Action, Buffer, Event};
use gelf_logger::output::encode_batch;
use gelf_logger::{flush, BatchProcessor, Error, FullBufferPolicy, GelfLevel, GelfRecord};

fn rec(level: GelfLevel, body: &str) -> GelfRecord {
    GelfRecord::new(level, body.as_bytes().to_vec())
}

#[test]
fn full_buffer_discard_returns_full() {
    let (tx, rx) = std::sync::mpsc::sync_channel::<Event>(1);
    let processor =
        BatchProcessor::new(tx, GelfLevel::Informational, FullBufferPolicy::Discard);
    assert!(processor.send(&rec(GelfLevel::Error, "first")).is_ok());
    let result = processor.send(&rec(GelfLevel::Error, "second"));
    match result {
        Err(Error::FullChannelError(Event::Data(record))) => {
            assert_eq!(record.payload, b"second".to_vec());
        }
        other => panic!("expected a full channel error, got {:?}", other),
    }
    drop(rx);
}

#[test]
fn full_buffer_wait_succeeds_after_drain() {
    let (tx, rx) = std::sync::mpsc::sync_channel::<Event>(1);
    let processor = BatchProcessor::new(tx, GelfLevel::Informational, FullBufferPolicy::Wait);
    assert!(processor.send(&rec(GelfLevel::Error, "first")).is_ok());
    let event = rx.recv().expect("the first record must be queued");
    assert!(matches!(event, Event::Data(_)));
    assert!(processor.send(&rec(GelfLevel::Error, "second")).is_ok());
    let event = rx.recv().expect("the second record must be queued");
    match event {
        Event::Data(record) => assert_eq!(record.payload, b"second".to_vec()),
        Event::Flush(_) => panic!("expected a data event"),
    }
}

#[test]
fn disconnected_channel_reports_error() {
    let (tx, rx) = std::sync::mpsc::sync_channel::<Event>(1);
    let processor = BatchProcessor::new(tx, GelfLevel::Informational, FullBufferPolicy::Wait);
    drop(rx);
    match processor.send(&rec(GelfLevel::Error, "x")) {
        Err(Error::ChannelDisconnectedError(Event::Data(record))) => {
            assert_eq!(record.payload, b"x".to_vec());
        }
        other => panic!("expected a disconnected channel error, got {:?}", other),
    }
    match processor.flush() {
        Err(Error::ChannelDisconnectedError(Event::Flush(_))) => {}
        other => panic!("expected a disconnected channel error, got {:?}", other),
    }
}

#[test]
fn severity_filter_drops_records_before_the_queue() {
    let (tx, rx) = std::sync::mpsc::sync_channel::<Event>(5);
    let processor = BatchProcessor::new(tx, GelfLevel::Error, FullBufferPolicy::Discard);
    assert!(processor.send(&rec(GelfLevel::Debugging, "noise")).is_ok());
    assert!(processor.send(&rec(GelfLevel::Warning, "still noise")).is_ok());
    assert!(processor.send(&rec(GelfLevel::Emergency, "boom")).is_ok());
    match rx.try_recv().expect("the severe record must be queued") {
        Event::Data(record) => assert_eq!(record.payload, b"boom".to_vec()),
        Event::Flush(_) => panic!("expected a data event"),
    }
    assert!(rx.try_recv().is_err());
}

#[test]
fn flush_enqueues_request_with_ack_channel() {
    let (tx, rx) = std::sync::mpsc::sync_channel::<Event>(1);
    let processor =
        BatchProcessor::new(tx, GelfLevel::Informational, FullBufferPolicy::Discard);
    let result = flush(&processor);
    assert!(result.is_ok());
    match rx.try_recv().expect("the flush request must be queued") {
        Event::Flush(Some(_ack)) => {}
        other => panic!("expected a flush event with an ack channel, got {:?}", other),
    }
}

#[test]
fn end_to_end_scenario() {
    let (tx, rx) = std::sync::mpsc::sync_channel::<Event>(10);
    let processor =
        BatchProcessor::new(tx, GelfLevel::Informational, FullBufferPolicy::Discard);
    let mut buffer = Buffer::new(Some(2), None);
    let mut writes: Vec<Vec<u8>> = Vec::new();

    assert!(processor.send(&rec(GelfLevel::Informational, "A")).is_ok());
    assert!(processor.send(&rec(GelfLevel::Informational, "B")).is_ok());
    assert!(processor.send(&rec(GelfLevel::Informational, "C")).is_ok());
    assert!(processor.tx.send(Event::Flush(None)).is_ok());

    while let Ok(event) = rx.try_recv() {
        match buffer.handle_event(event) {
            Action::Buffered => {}
            Action::Deliver(ack) => {
                writes.push(encode_batch(buffer.pending(), false));
                buffer.apply_send_success();
                if let Some(ack) = ack {
                    let _ = ack.send(());
                }
            }
        }
    }

    assert_eq!(writes, vec![b"A\nB\n".to_vec(), b"C\n".to_vec()]);
    assert_eq!(buffer.pending().len(), 0);
}
