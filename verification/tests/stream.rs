use arpx::stream::LineSplitter;
use arpx::stream::PipeError;
use arpx::stream::PipedLine;

#[test]
fn lines_come_out_in_input_order() {
    let mut splitter = LineSplitter::new();
    let bytes: Vec<u8> = b"foo\nbar\nbaz\n".to_vec();
    let events = splitter.push_bytes(&bytes);
    let mut lines = Vec::new();
    for event in events {
        match event {
            Ok(PipedLine::Line(line)) => lines.push(line),
            other => panic!("unexpected event: {:?}", other),
        }
    }
    assert_eq!(lines, vec!["foo".to_string(), "bar".to_string(), "baz".to_string()]);
}

#[test]
fn bytes_after_last_line_feed_stay_pending() {
    let mut splitter = LineSplitter::new();
    let bytes: Vec<u8> = b"complete\npartial".to_vec();
    let events = splitter.push_bytes(&bytes);
    assert_eq!(events.len(), 1);
    assert_eq!(splitter.buf, b"partial".to_vec());
}

#[test]
fn invalid_utf8_line_is_an_error_not_a_crash() {
    let mut splitter = LineSplitter::new();
    let bytes: Vec<u8> = vec![0xff, 0xfe, 0x0a, b'o', b'k', 0x0a];
    let events = splitter.push_bytes(&bytes);
    assert_eq!(events.len(), 2);
    match &events[0] {
        Err(PipeError::NotUtf8(raw)) => assert_eq!(raw, &vec![0xff, 0xfe]),
        other => panic!("unexpected event: {:?}", other),
    }
    match &events[1] {
        Ok(PipedLine::Line(line)) => assert_eq!(line, "ok"),
        other => panic!("unexpected event: {:?}", other),
    }
}

#[test]
fn empty_line_is_delivered() {
    let mut splitter = LineSplitter::new();
    let events = splitter.push_bytes(&b"\n".to_vec());
    assert_eq!(events.len(), 1);
    match &events[0] {
        Ok(PipedLine::Line(line)) => assert_eq!(line, ""),
        other => panic!("unexpected event: {:?}", other),
    }
}

#[test]
fn push_byte_accumulates_until_line_feed() {
    let mut splitter = LineSplitter::new();
    assert!(splitter.push_byte(b'h').is_none());
    assert!(splitter.push_byte(b'i').is_none());
    match splitter.push_byte(b'\n') {
        Some(Ok(PipedLine::Line(line))) => assert_eq!(line, "hi"),
        other => panic!("unexpected event: {:?}", other),
    }
    assert!(splitter.buf.is_empty());
}
