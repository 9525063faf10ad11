use rabbitmq::amqp::{
    announces_delivery, bytes_equal, frame_filled, reply_result, status_result, Frame,
    BASIC_ACK_METHOD,
    RESPONSE_LIBRARY_EXCEPTION, RESPONSE_NONE, RESPONSE_NORMAL, RESPONSE_SERVER_EXCEPTION,
    STATUS_OK, STATUS_TIMEOUT,
};
use rabbitmq::error::Error;

#[test]
fn status_codes_become_results() {
    assert_eq!(status_result(STATUS_OK), Ok(()));
    assert_eq!(status_result(STATUS_TIMEOUT), Err(Error::Status(-13)));
    assert_eq!(status_result(-9), Err(Error::Status(-9)));
    assert_eq!(status_result(3), Err(Error::Status(3)));
}

#[test]
fn replies_become_results() {
    assert_eq!(reply_result(RESPONSE_NORMAL), Ok(()));
    assert_eq!(reply_result(RESPONSE_NONE), Err(Error::Reply));
    assert_eq!(reply_result(RESPONSE_LIBRARY_EXCEPTION), Err(Error::Reply));
    assert_eq!(reply_result(RESPONSE_SERVER_EXCEPTION), Err(Error::Reply));
}

#[test]
fn a_wait_fills_a_frame_unless_it_fails() {
    assert!(frame_filled(STATUS_OK));
    assert!(!frame_filled(STATUS_TIMEOUT));
    assert!(!frame_filled(-1));
}

#[test]
fn only_basic_deliver_announces_a_delivery() {
    assert!(announces_delivery(&Frame::Method { channel: 1, method_id: 0x003C_003C }));
    assert!(!announces_delivery(&Frame::Method { channel: 1, method_id: BASIC_ACK_METHOD }));
    assert!(!announces_delivery(&Frame::Body { channel: 1, fragment: vec![] }));
}

#[test]
fn bytes_equal_compares_contents() {
    assert!(bytes_equal(b"abc", b"abc"));
    assert!(!bytes_equal(b"abc", b"abd"));
    assert!(!bytes_equal(b"ab", b"abc"));
    assert!(bytes_equal(b"", b""));
}
