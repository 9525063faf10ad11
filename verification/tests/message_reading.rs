use rabbitmq::amqp::{Frame, Progress, BASIC_ACK_METHOD, BASIC_DELIVER_METHOD, STATUS_OK, STATUS_TIMEOUT};
use rabbitmq::error::Error;
use rabbitmq::read_message::ReadMessage;
use rabbitmq::rpc_message::RpcMessageFuture;

fn deliver() -> Option<Frame> {
    Some(Frame::Method { channel: 1, method_id: BASIC_DELIVER_METHOD })
}

fn header(size: u64, id: &[u8]) -> Option<Frame> {
    Some(Frame::Header { channel: 1, body_size: size, correlation_id: id.to_vec() })
}

fn body(bytes: &[u8]) -> Option<Frame> {
    Some(Frame::Body { channel: 1, fragment: bytes.to_vec() })
}

fn ready(p: Progress<bytes::BytesMut>) -> Vec<u8> {
    match p {
        Progress::Ready(b) => b.to_vec(),
        _ => panic!("not ready"),
    }
}

#[test]
fn message_is_read_whole() {
    let mut r = ReadMessage::new();
    assert!(matches!(r.poll(deliver().unwrap()), Progress::NotReady));
    assert!(matches!(r.poll(header(5, b"").unwrap()), Progress::NotReady));
    assert!(matches!(r.poll(body(b"he").unwrap()), Progress::NotReady));
    assert!(r.fits(&body(b"llo").unwrap()));
    assert_eq!(ready(r.poll(body(b"llo").unwrap())), b"hello".to_vec());
}

#[test]
fn read_skips_frames_before_a_delivery() {
    let mut r = ReadMessage::new();
    let ack = Some(Frame::Method { channel: 1, method_id: BASIC_ACK_METHOD });
    assert!(matches!(r.poll(ack.unwrap()), Progress::NotReady));
    assert!(matches!(r.poll(body(b"zz").unwrap()), Progress::NotReady));
    assert!(matches!(r.poll(deliver().unwrap()), Progress::NotReady));
    assert!(matches!(r.poll(header(1, b"").unwrap()), Progress::NotReady));
    assert_eq!(ready(r.poll(body(b"x").unwrap())), b"x".to_vec());
}

#[test]
fn read_takes_the_frame_in_the_buffer_again() {
    // a wait that fills nothing leaves the last frame in the buffer, and the
    // next poll reads it once more
    let mut r = ReadMessage::new();
    assert!(matches!(r.poll(deliver().unwrap()), Progress::NotReady));
    assert!(matches!(r.poll(deliver().unwrap()), Progress::Failed(Error::Frame)));
    assert!(matches!(r.poll(header(4, b"").unwrap()), Progress::NotReady));
    assert!(matches!(r.poll(body(b"ab").unwrap()), Progress::NotReady));
    assert_eq!(ready(r.poll(body(b"ab").unwrap())), b"abab".to_vec());
}

#[test]
fn read_fails_on_a_missing_header() {
    let mut r = ReadMessage::new();
    r.poll(deliver().unwrap());
    assert!(matches!(r.poll(body(b"x").unwrap()), Progress::Failed(Error::Frame)));
}

#[test]
fn read_fails_on_a_frame_other_than_a_body() {
    let mut r = ReadMessage::new();
    r.poll(deliver().unwrap());
    r.poll(header(4, b"").unwrap());
    assert!(matches!(r.poll(header(4, b"").unwrap()), Progress::Failed(Error::Frame)));
}

#[test]
fn reply_future_subscribes_on_its_first_poll_only() {
    let mut f = RpcMessageFuture::new(7, b"42".to_vec());
    assert_eq!(f.channel_id(), 7);
    assert!(f.begin_poll());
    assert!(!f.begin_poll());
}

#[test]
fn reply_future_reads_its_reply() {
    let mut f = RpcMessageFuture::new(7, b"42".to_vec());
    assert!(matches!(f.poll(STATUS_OK, deliver()), Progress::NotReady));
    assert!(matches!(f.poll(STATUS_OK, header(3, b"42")), Progress::NotReady));
    assert!(matches!(f.poll(STATUS_OK, body(b"ab")), Progress::NotReady));
    assert!(f.fits(STATUS_OK, &body(b"c")));
    assert_eq!(ready(f.poll(STATUS_OK, body(b"c"))), b"abc".to_vec());
}

#[test]
fn reply_future_fails_on_the_body_of_another_reply() {
    let mut f = RpcMessageFuture::new(7, b"42".to_vec());
    f.poll(STATUS_OK, deliver());
    assert!(matches!(f.poll(STATUS_OK, header(3, b"41")), Progress::NotReady));
    assert!(matches!(f.poll(STATUS_OK, body(b"abc")), Progress::Failed(Error::Frame)));
}

#[test]
fn reply_future_waits_on_timeouts_and_fails_on_errors() {
    let mut f = RpcMessageFuture::new(1, vec![]);
    assert!(matches!(f.poll(STATUS_TIMEOUT, None), Progress::NotReady));
    assert!(matches!(f.poll(-4, None), Progress::Failed(Error::Frame)));
}

#[test]
fn a_failed_poll_leaves_the_reader_as_it_was() {
    let mut r = ReadMessage::new();
    r.poll(deliver().unwrap());
    assert!(matches!(r.poll(body(b"x").unwrap()), Progress::Failed(Error::Frame)));
    assert!(matches!(r.poll(header(3, b"").unwrap()), Progress::NotReady));
    assert!(matches!(r.poll(body(b"a").unwrap()), Progress::NotReady));
    assert!(matches!(r.poll(header(9, b"").unwrap()), Progress::Failed(Error::Frame)));
    assert_eq!(ready(r.poll(body(b"bc").unwrap())), b"abc".to_vec());
}

#[test]
fn reply_future_keeps_its_progress_over_many_polls() {
    let mut f = RpcMessageFuture::new(3, b"9".to_vec());
    let mut subscriptions = 0;
    let polls = vec![
        (STATUS_TIMEOUT, None),
        (STATUS_OK, deliver()),
        (STATUS_TIMEOUT, None),
        (STATUS_OK, header(4, b"9")),
        (STATUS_OK, body(b"ab")),
        (STATUS_TIMEOUT, None),
    ];
    for (status, frame) in polls {
        if f.begin_poll() {
            subscriptions += 1;
        }
        assert!(matches!(f.poll(status, frame), Progress::NotReady));
    }
    assert!(!f.begin_poll());
    assert_eq!(ready(f.poll(STATUS_OK, body(b"cd"))), b"abcd".to_vec());
    assert_eq!(subscriptions, 1);
}
