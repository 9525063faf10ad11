use rabbitmq::amqp::{Frame, BASIC_DELIVER_METHOD, STATUS_OK};
use rabbitmq::error::{Error, NulError};
use rabbitmq::rpc::{rpc_publish, rpc_published, WaitMessage, WaitStep};

fn deliver() -> Option<Frame> {
    Some(Frame::Method { channel: 2, method_id: BASIC_DELIVER_METHOD })
}

fn header(size: u64, id: &[u8]) -> Option<Frame> {
    Some(Frame::Header { channel: 2, body_size: size, correlation_id: id.to_vec() })
}

fn body(bytes: &[u8]) -> Option<Frame> {
    Some(Frame::Body { channel: 2, fragment: bytes.to_vec() })
}

fn waiting(s: WaitStep, release: bool) -> WaitMessage {
    match s {
        WaitStep::Wait { next, release_buffers } => {
            assert_eq!(release_buffers, release);
            next
        }
        WaitStep::Finished(_) => panic!("finished early"),
    }
}

fn finished(s: WaitStep) -> Result<Option<Vec<u8>>, Error> {
    match s {
        WaitStep::Finished(r) => r.map(|o| o.map(|b| b.to_vec())),
        WaitStep::Wait { .. } => panic!("still waiting"),
    }
}

#[test]
fn rpc_publish_prepares_the_call() {
    let p = rpc_publish("rpc_server", "17").unwrap();
    assert_eq!(p.routing_key, b"rpc_server\0".to_vec());
    assert_eq!(p.correlation_id, b"17\0".to_vec());
    assert_eq!(p.content_type, b"text/plain\0".to_vec());
    assert_eq!(p.flags, 0x8600);
    assert_eq!((p.mandatory, p.immediate), (0, 0));
}

#[test]
fn rpc_publish_rejects_nul_bytes_correlation_id_first() {
    let e = rpc_publish("a\0", "b\0").err().unwrap();
    assert_eq!(e, NulError { position: 1, bytes: b"b\0".to_vec() });
    let e = rpc_publish("a\0", "b").err().unwrap();
    assert_eq!(e, NulError { position: 1, bytes: b"a\0".to_vec() });
}

#[test]
fn rpc_published_waits_only_after_a_successful_publish() {
    assert!(matches!(rpc_published(-3, "1"), Err(Error::Status(-3))));
    assert!(rpc_published(STATUS_OK, "1").is_ok());
}

#[test]
fn wait_returns_the_reply_body() {
    let w = rpc_published(STATUS_OK, "5").unwrap();
    let w = waiting(w.step(STATUS_OK, deliver()), false);
    assert!(w.fits(STATUS_OK, &header(4, b"5")));
    let w = waiting(w.step(STATUS_OK, header(4, b"5")), false);
    assert!(w.fits(STATUS_OK, &body(b"ab")));
    let w = waiting(w.step(STATUS_OK, body(b"ab")), false);
    assert_eq!(finished(w.step(STATUS_OK, body(b"cd"))), Ok(Some(b"abcd".to_vec())));
}

#[test]
fn wait_skips_other_replies() {
    let w = WaitMessage::new(b"5".to_vec());
    let w = waiting(w.step(STATUS_OK, deliver()), false);
    let w = waiting(w.step(STATUS_OK, header(2, b"6")), true);
    let w = waiting(w.step(STATUS_OK, body(b"xy")), true);
    let w = waiting(w.step(STATUS_OK, deliver()), false);
    let w = waiting(w.step(STATUS_OK, header(1, b"5")), false);
    assert_eq!(finished(w.step(STATUS_OK, body(b"z"))), Ok(Some(b"z".to_vec())));
}

#[test]
fn wait_gives_an_empty_body_at_once() {
    let w = WaitMessage::new(b"5".to_vec());
    let w = waiting(w.step(STATUS_OK, deliver()), false);
    assert_eq!(finished(w.step(STATUS_OK, header(0, b"5"))), Ok(Some(vec![])));
}

#[test]
fn wait_gives_nothing_when_the_connection_fails() {
    let w = WaitMessage::new(b"5".to_vec());
    assert_eq!(finished(w.step(-1, None)), Ok(None));
    let w = WaitMessage::new(b"5".to_vec());
    let w = waiting(w.step(STATUS_OK, deliver()), false);
    let w = waiting(w.step(STATUS_OK, header(3, b"5")), false);
    assert_eq!(finished(w.step(-7, None)), Ok(None));
}

#[test]
fn wait_gives_nothing_for_a_body_longer_than_announced() {
    let w = WaitMessage::new(b"5".to_vec());
    let w = waiting(w.step(STATUS_OK, deliver()), false);
    let w = waiting(w.step(STATUS_OK, header(2, b"5")), false);
    assert_eq!(finished(w.step(STATUS_OK, body(b"abc"))), Ok(None));
}

#[test]
fn wait_fails_on_frames_out_of_order() {
    let w = WaitMessage::new(b"5".to_vec());
    let w = waiting(w.step(STATUS_OK, deliver()), false);
    assert_eq!(finished(w.step(STATUS_OK, body(b"a"))), Err(Error::Reply));
    let w = WaitMessage::new(b"5".to_vec());
    let w = waiting(w.step(STATUS_OK, deliver()), false);
    let w = waiting(w.step(STATUS_OK, header(2, b"5")), false);
    assert_eq!(finished(w.step(STATUS_OK, deliver())), Err(Error::Reply));
}

#[test]
fn a_reply_too_large_to_buffer_does_not_fit() {
    let w = WaitMessage::new(b"5".to_vec());
    let w = waiting(w.step(STATUS_OK, deliver()), false);
    assert!(!w.fits(STATUS_OK, &header(u64::MAX, b"5")));
    assert!(w.fits(STATUS_OK, &header(u64::MAX, b"6")));
    assert!(w.fits(-1, &None));
}
