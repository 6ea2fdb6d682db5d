use gelf_logger::buffer::{Action, Buffer, Event, ERROR_THRESHOLD};
use gelf_logger::output::{encode_batch, frame_batch, frame_record};
use gelf_logger::{Error, GelfLevel, GelfRecord};

fn rec(body: &str) -> GelfRecord {
    GelfRecord::new(GelfLevel::Informational, body.as_bytes().to_vec())
}

#[test]
fn frame_appends_newline() {
    let mut out: Vec<u8> = Vec::new();
    frame_record(&mut out, &rec("hello"), false);
    assert_eq!(out, b"hello\n".to_vec());
}

#[test]
fn frame_appends_newline_and_nul() {
    let mut out: Vec<u8> = Vec::new();
    frame_record(&mut out, &rec("hello"), true);
    assert_eq!(out, b"hello\n\0".to_vec());
}

#[test]
fn encode_empty_batch_is_empty() {
    let records: Vec<GelfRecord> = Vec::new();
    assert_eq!(encode_batch(&records, true), Vec::<u8>::new());
}

#[test]
fn ordering_preserved_on_the_wire() {
    let mut buffer = Buffer::new(None, None);
    let bodies = ["one", "two", "three", "four", "five"];
    for body in bodies {
        assert!(!buffer.handle_data(rec(body)));
    }
    assert_eq!(buffer.pending().len(), bodies.len());
    let bytes = encode_batch(buffer.pending(), false);
    assert_eq!(bytes, b"one\ntwo\nthree\nfour\nfive\n".to_vec());
    let bytes_nul = encode_batch(buffer.pending(), true);
    assert_eq!(bytes_nul, b"one\n\0two\n\0three\n\0four\n\0five\n\0".to_vec());
}

#[test]
fn size_triggered_flush() {
    let mut buffer = Buffer::new(Some(3), None);
    assert!(!buffer.handle_data(rec("a")));
    assert!(!buffer.handle_data(rec("b")));
    assert!(buffer.handle_data(rec("c")));
    assert_eq!(buffer.pending().len(), 3);
    let bytes = encode_batch(buffer.pending(), false);
    assert_eq!(bytes, b"a\nb\nc\n".to_vec());
    buffer.apply_send_success();
    assert_eq!(buffer.pending().len(), 0);
}

#[test]
fn age_triggered_flush() {
    let mut buffer = Buffer::new(None, Some(100));
    assert_eq!(buffer.time_to_wait(0), None);
    assert!(!buffer.handle_data(rec("x")));
    assert_eq!(buffer.time_to_wait(0), Some(100));
    assert_eq!(buffer.time_to_wait(40), Some(60));
    assert_eq!(buffer.time_to_wait(100), Some(0));
    assert_eq!(buffer.time_to_wait(150), Some(0));
    let bytes = encode_batch(buffer.pending(), true);
    assert_eq!(bytes, b"x\n\0".to_vec());
    buffer.apply_send_success();
    assert_eq!(buffer.pending().len(), 0);
    assert_eq!(buffer.time_to_wait(200), None);
}

#[test]
fn no_deadline_without_age_limit() {
    let mut buffer = Buffer::new(Some(10), None);
    assert!(!buffer.handle_data(rec("x")));
    assert_eq!(buffer.time_to_wait(1_000_000), None);
}

#[test]
fn retry_on_failure_keeps_records() {
    let mut buffer = Buffer::new(None, None);
    assert!(!buffer.handle_data(rec("a")));
    assert!(!buffer.handle_data(rec("b")));
    let diagnostics = buffer.apply_send_failure(Error::IOError("connection reset".to_owned()));
    assert!(diagnostics.is_none());
    assert_eq!(buffer.pending().len(), 2);
    assert!(!buffer.handle_data(rec("c")));
    let bytes = encode_batch(buffer.pending(), false);
    assert_eq!(bytes, b"a\nb\nc\n".to_vec());
    buffer.apply_send_success();
    assert_eq!(buffer.pending().len(), 0);
}

#[test]
fn error_list_handed_out_at_threshold() {
    let mut buffer = Buffer::new(None, None);
    assert!(!buffer.handle_data(rec("kept")));
    for i in 0..ERROR_THRESHOLD - 1 {
        let diagnostics = buffer.apply_send_failure(Error::IOError(format!("attempt {}", i)));
        assert!(diagnostics.is_none());
    }
    let diagnostics = buffer.apply_send_failure(Error::IOError("last attempt".to_owned()));
    let list = diagnostics.expect("the error list is handed out at the threshold");
    assert_eq!(list.len(), ERROR_THRESHOLD);
    assert_eq!(buffer.pending().len(), 1);
    let diagnostics = buffer.apply_send_failure(Error::IOError("afresh".to_owned()));
    assert!(diagnostics.is_none());
    assert_eq!(buffer.pending().len(), 1);
}

#[test]
fn batch_of_two_then_explicit_flush() {
    let mut buffer = Buffer::new(Some(2), None);
    assert!(!buffer.handle_data(rec("A")));
    assert!(buffer.handle_data(rec("B")));
    let first_group = encode_batch(buffer.pending(), false);
    assert_eq!(first_group, b"A\nB\n".to_vec());
    buffer.apply_send_success();
    assert!(!buffer.handle_data(rec("C")));
    let second_group = encode_batch(buffer.pending(), false);
    assert_eq!(second_group, b"C\n".to_vec());
    buffer.apply_send_success();
    assert_eq!(buffer.pending().len(), 0);
}

#[test]
fn frame_batch_gives_one_frame_per_record() {
    let records = vec![rec("a"), rec("bb"), rec("ccc")];
    let frames = frame_batch(&records, true);
    assert_eq!(
        frames,
        vec![b"a\n\0".to_vec(), b"bb\n\0".to_vec(), b"ccc\n\0".to_vec()]
    );
}

#[test]
fn handle_event_decides_the_delivery() {
    let mut buffer = Buffer::new(Some(2), None);
    assert!(matches!(buffer.handle_event(Event::Data(rec("a"))), Action::Buffered));
    assert!(matches!(
        buffer.handle_event(Event::Data(rec("b"))),
        Action::Deliver(None)
    ));
    assert_eq!(buffer.pending().len(), 2);
    buffer.apply_send_success();
    assert!(matches!(
        buffer.handle_event(Event::Flush(None)),
        Action::Deliver(None)
    ));
    assert_eq!(buffer.pending().len(), 0);
}

#[test]
fn flush_event_carries_optional_ack() {
    let (ack_tx, ack_rx) = std::sync::mpsc::sync_channel::<()>(1);
    let event = Event::Flush(Some(ack_tx));
    match event {
        Event::Flush(Some(ack)) => {
            ack.send(()).expect("the acknowledgement must go through");
        }
        _ => panic!("a flush event must keep its acknowledgement channel"),
    }
    assert!(ack_rx.recv().is_ok());
}
