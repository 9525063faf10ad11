use rabbitmq::amqp::{
    Frame, BASIC_ACK_METHOD, BASIC_RETURN_METHOD, CHANNEL_CLOSE_METHOD, CONNECTION_CLOSE_METHOD,
    RESPONSE_LIBRARY_EXCEPTION, RESPONSE_NORMAL, RESPONSE_SERVER_EXCEPTION, STATUS_OK,
    STATUS_UNEXPECTED_STATE,
};
use rabbitmq::consumer::{
    binding_keys, consumer_queue, on_consumed, on_frame, on_returned_read, ConsumeAction,
    FrameAction, DELIVERY_QUEUE_CAPACITY,
};
use rabbitmq::error::Error;
use rabbitmq::types::exchange::ExchangeType;

fn method(id: u32) -> Option<Frame> {
    Some(Frame::Method { channel: 9, method_id: id })
}

#[test]
fn consumed_messages_are_delivered() {
    assert_eq!(on_consumed(RESPONSE_NORMAL, 0), ConsumeAction::Deliver);
    assert_eq!(on_consumed(RESPONSE_NORMAL, STATUS_UNEXPECTED_STATE), ConsumeAction::Deliver);
}

#[test]
fn unexpected_state_means_a_frame_waits() {
    assert_eq!(
        on_consumed(RESPONSE_LIBRARY_EXCEPTION, STATUS_UNEXPECTED_STATE),
        ConsumeAction::AwaitFrame
    );
    assert_eq!(on_consumed(RESPONSE_LIBRARY_EXCEPTION, -13), ConsumeAction::Discard);
    assert_eq!(on_consumed(RESPONSE_SERVER_EXCEPTION, STATUS_UNEXPECTED_STATE), ConsumeAction::Discard);
}

#[test]
fn frames_decide_the_polling() {
    assert_eq!(on_frame(-1, None), FrameAction::Stop);
    assert_eq!(on_frame(STATUS_OK, method(BASIC_ACK_METHOD)), FrameAction::Ignore);
    assert_eq!(
        on_frame(STATUS_OK, method(BASIC_RETURN_METHOD)),
        FrameAction::ReadReturned { channel: 9 }
    );
    assert_eq!(on_frame(STATUS_OK, method(CHANNEL_CLOSE_METHOD)), FrameAction::Stop);
    assert_eq!(on_frame(STATUS_OK, method(CONNECTION_CLOSE_METHOD)), FrameAction::Stop);
    assert_eq!(
        on_frame(STATUS_OK, method(0x0014_000A)),
        FrameAction::ReportUnexpected { method_id: 0x0014_000A }
    );
    let body = Some(Frame::Body { channel: 9, fragment: vec![1, 2] });
    assert_eq!(on_frame(STATUS_OK, body), FrameAction::Ignore);
}

#[test]
fn a_failed_read_of_a_returned_message_stops() {
    assert!(on_returned_read(RESPONSE_NORMAL));
    assert!(!on_returned_read(RESPONSE_LIBRARY_EXCEPTION));
}

#[test]
fn only_topic_exchanges_bind_keys() {
    let keys = vec!["test".to_owned(), "other".to_owned()];
    assert_eq!(binding_keys(ExchangeType::Topic, keys.clone()), keys);
    assert!(binding_keys(ExchangeType::Direct, keys.clone()).is_empty());
    assert!(binding_keys(ExchangeType::Fanout, keys.clone()).is_empty());
    assert!(binding_keys(ExchangeType::Headers, keys).is_empty());
}

#[test]
fn the_consumer_queue_is_named_by_its_tag() {
    let q = consumer_queue("test_consumer").unwrap();
    assert_eq!(q.name_c, b"test_consumer\0".to_vec());
    assert!(!q.passive && !q.durable && !q.exclusive && !q.auto_delete);
    assert!(matches!(consumer_queue("a\0"), Err(Error::Cstring(_))));
    assert_eq!(DELIVERY_QUEUE_CAPACITY, 65536);
}
