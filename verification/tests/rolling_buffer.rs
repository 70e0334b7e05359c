use arpx::RollingBuffer;

#[test]
fn push_past_capacity_keeps_last_lines() {
    let mut buffer = RollingBuffer::new(2);
    buffer.push("one".to_string());
    buffer.push("two".to_string());
    buffer.push("three".to_string());
    assert_eq!(buffer.lines, vec!["two".to_string(), "three".to_string()]);
}

#[test]
fn push_under_capacity_keeps_everything() {
    let mut buffer = RollingBuffer::new(20);
    buffer.push("a".to_string());
    buffer.push("b".to_string());
    assert_eq!(buffer.lines, vec!["a".to_string(), "b".to_string()]);
    assert_eq!(buffer.size, 20);
}

#[test]
fn dump_joins_oldest_first() {
    let mut buffer = RollingBuffer::new(3);
    buffer.push("first".to_string());
    buffer.push("second".to_string());
    buffer.push("third".to_string());
    assert_eq!(buffer.dump(), "first\nsecond\nthird");
}

#[test]
fn dump_of_empty_buffer_is_empty() {
    let buffer = RollingBuffer::new(5);
    assert_eq!(buffer.dump(), "");
}

#[test]
fn zero_capacity_buffer_stays_empty() {
    let mut buffer = RollingBuffer::new(0);
    buffer.push("anything".to_string());
    assert!(buffer.lines.is_empty());
}
