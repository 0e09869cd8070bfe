use http_conn::buffer::Buffer;

#[test]
fn a_new_buffer_is_empty() {
    let buffer = Buffer::new();
    assert!(buffer.is_empty());
    assert_eq!(buffer.len(), 0);
    assert_eq!(buffer.bytes(), b"");
}

#[test]
fn bytes_wait_in_the_order_they_came() {
    let mut buffer = Buffer::new();
    buffer.put(b"GET ".to_vec());
    buffer.put(b"/".to_vec());
    assert!(!buffer.is_empty());
    assert_eq!(buffer.len(), 5);
    assert_eq!(buffer.bytes(), b"GET /");
}

#[test]
fn consumed_bytes_are_gone_from_the_front() {
    let mut buffer = Buffer::new();
    buffer.put(b"head body".to_vec());
    buffer.consume(5);
    assert_eq!(buffer.bytes(), b"body");
    buffer.consume(0);
    assert_eq!(buffer.bytes(), b"body");
    buffer.consume(4);
    assert!(buffer.is_empty());
}

#[test]
fn consuming_too_much_takes_all() {
    let mut buffer = Buffer::new();
    buffer.put(b"abc".to_vec());
    buffer.consume(4);
    assert_eq!(buffer.bytes(), b"");
}
