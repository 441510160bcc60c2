use bytes::Bytes;
use webtransport::generic::ErrorCode;
use webtransport::web::session::accepted;
use webtransport::web::{RecvStream, WebError};

#[test]
fn web_error_of_a_string_is_the_string() {
    let e = WebError::new(Some("locked".to_string()), "JsValue(\"locked\")".to_string());
    assert_eq!(e.message(), "locked");
}

#[test]
fn web_error_of_another_value_is_its_debug_form() {
    let e = WebError::new(None, "JsValue(Object({}))".to_string());
    assert_eq!(e.message(), "JsValue(Object({}))");
}

#[test]
fn web_error_has_no_code() {
    assert_eq!(WebError::new(Some("reset".to_string()), String::new()).code(), None);
    assert_eq!(WebError::new(None, "7".to_string()).code(), None);
}

#[test]
fn locked_stream_is_refused() {
    match RecvStream::new(true) {
        Ok(_) => panic!("a locked stream was accepted"),
        Err(e) => assert_eq!(e.message(), "locked"),
    }
}

#[test]
fn new_stream_wants_data() {
    let stream = RecvStream::new(false).unwrap();
    assert!(stream.wants_data());
}

#[test]
fn read_chunk_hands_out_a_large_chunk_in_pieces() {
    let mut stream = RecvStream::new(false).unwrap();
    let first = stream.read_chunk(2, Some(vec![1, 2, 3, 4, 5]));
    assert_eq!(first, Bytes::from(vec![1u8, 2]));
    assert!(!stream.wants_data());
    let second = stream.read_chunk(2, None);
    assert_eq!(second, Bytes::from(vec![3u8, 4]));
    let third = stream.read_chunk(2, None);
    assert_eq!(third, Bytes::from(vec![5u8]));
    assert!(stream.wants_data());
}

#[test]
fn read_chunk_ignores_what_was_fetched_while_bytes_wait() {
    let mut stream = RecvStream::new(false).unwrap();
    assert_eq!(stream.read_chunk(1, Some(vec![1, 2])), Bytes::from(vec![1u8]));
    assert_eq!(stream.read_chunk(8, Some(vec![9, 9])), Bytes::from(vec![2u8]));
}

#[test]
fn read_chunk_takes_a_small_chunk_whole() {
    let mut stream = RecvStream::new(false).unwrap();
    assert_eq!(stream.read_chunk(16, Some(vec![7, 8, 9])), Bytes::from(vec![7u8, 8, 9]));
    assert!(stream.wants_data());
}

#[test]
fn read_chunk_is_empty_at_the_end_of_the_stream() {
    let mut stream = RecvStream::new(false).unwrap();
    assert!(stream.read_chunk(16, None).is_empty());
    assert!(stream.wants_data());
}

#[test]
fn read_chunk_with_no_room_takes_nothing() {
    let mut stream = RecvStream::new(false).unwrap();
    assert!(stream.read_chunk(0, Some(vec![1, 2])).is_empty());
    assert!(!stream.wants_data());
    assert_eq!(stream.read_chunk(5, None), Bytes::from(vec![1u8, 2]));
}

#[test]
fn read_appends_to_the_buffer() {
    let mut stream = RecvStream::new(false).unwrap();
    let mut buf = vec![0xaa];
    assert_eq!(stream.read(&mut buf, 2, Some(vec![1, 2, 3])), Some(2));
    assert_eq!(buf, vec![0xaa, 1, 2]);
    assert_eq!(stream.read(&mut buf, 2, None), Some(1));
    assert_eq!(buf, vec![0xaa, 1, 2, 3]);
    assert_eq!(stream.read(&mut buf, 2, None), None);
    assert_eq!(buf, vec![0xaa, 1, 2, 3]);
}

#[test]
fn read_with_no_room_is_not_the_end() {
    let mut stream = RecvStream::new(false).unwrap();
    let mut buf = Vec::new();
    assert_eq!(stream.read(&mut buf, 0, Some(vec![1, 2])), Some(0));
    assert!(buf.is_empty());
    assert_eq!(stream.read(&mut buf, 0, None), Some(0));
    assert_eq!(stream.read(&mut buf, 4, None), Some(2));
    assert_eq!(buf, vec![1, 2]);
    assert_eq!(stream.read(&mut buf, 0, None), None);
    assert_eq!(stream.read(&mut buf, 4, None), None);
}

#[test]
fn accept_takes_the_stream_that_came() {
    assert_eq!(accepted(Some(7u8)), Ok(7));
}

#[test]
fn accept_fails_when_no_more_streams_come() {
    match accepted::<u8>(None) {
        Ok(_) => panic!("an accept succeeded without a stream"),
        Err(e) => assert_eq!(e.message(), "session closed"),
    }
}
