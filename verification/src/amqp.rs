use vstd::prelude::*;
use crate::error::Error;

verus! {

// Frame types of AMQP 0-9-1 (as librabbitmq numbers them).
pub const FRAME_METHOD: u8 = 1;
pub const FRAME_HEADER: u8 = 2;
pub const FRAME_BODY: u8 = 3;

// Method numbers: class id in the high half, method id in the low half.
pub const BASIC_DELIVER_METHOD: u32 = 0x003C_003C;
pub const BASIC_ACK_METHOD: u32 = 0x003C_0050;
pub const BASIC_RETURN_METHOD: u32 = 0x003C_0032;
pub const CHANNEL_CLOSE_METHOD: u32 = 0x0014_0028;
pub const CONNECTION_CLOSE_METHOD: u32 = 0x000A_0032;

// Status codes returned by librabbitmq calls.
pub const STATUS_OK: i32 = 0;
pub const STATUS_TIMEOUT: i32 = -13;
pub const STATUS_UNEXPECTED_STATE: i32 = -16;

// Reply types of an RPC reply.
pub const RESPONSE_NONE: u32 = 0;
pub const RESPONSE_NORMAL: u32 = 1;
pub const RESPONSE_LIBRARY_EXCEPTION: u32 = 2;
pub const RESPONSE_SERVER_EXCEPTION: u32 = 3;

/// The reply code sent when a channel or a connection is closed normally.
pub const REPLY_SUCCESS: i32 = 200;

// The arguments with which this library subscribes to a queue: messages
// published on its own connection are taken too, the broker takes each
// message as acknowledged when it sends it, and no exclusive access is asked.
pub const CONSUME_NO_LOCAL: i32 = 0;
pub const CONSUME_NO_ACK: i32 = 1;
pub const CONSUME_EXCLUSIVE: i32 = 0;

// Flags of the basic properties that say which of them are present.
pub const BASIC_CONTENT_TYPE_FLAG: u32 = 0x8000;
pub const BASIC_CORRELATION_ID_FLAG: u32 = 0x0400;
pub const BASIC_REPLY_TO_FLAG: u32 = 0x0200;

/// A frame read from the broker, as far as this library reads it.
#[derive(Debug, Clone, PartialEq, Eq)]
pub enum Frame {
    /// A method frame: `method_id` names the method.
    Method { channel: u16, method_id: u32 },
    /// A content header: the size of the body that follows, and the
    /// correlation id of the message's properties.
    Header { channel: u16, body_size: u64, correlation_id: Vec<u8> },
    /// A piece of a message body.
    Body { channel: u16, fragment: Vec<u8> },
    /// Any other frame (a heartbeat, for one), with its type.
    Other { channel: u16, frame_type: u8 },
}

/// What one poll of a pending read came to.
#[derive(Debug)]
pub enum Progress<T> {
    /// The read is complete, with its result.
    Ready(T),
    /// The read goes on: poll again.
    NotReady,
    /// The read failed.
    Failed(Error),
}

/// Whether `frame` is the method frame that announces a delivered message.
pub open spec fn is_delivery(frame: Frame) -> bool {
    frame matches Frame::Method { method_id, .. } && method_id == BASIC_DELIVER_METHOD
}

/// Whether `frame` announces a delivered message.
pub fn announces_delivery(frame: &Frame) -> (r: bool)
    ensures
        r == is_delivery(*frame),
{
    match frame {
        Frame::Method { method_id, .. } => *method_id == BASIC_DELIVER_METHOD,
        _ => false,
    }
}

/// Whether `a` and `b` hold the same bytes.
pub fn bytes_equal(a: &[u8], b: &[u8]) -> (r: bool)
    ensures
        r == (a@ == b@),
{
    if a.len() != b.len() {
        return false;
    }
    let mut i: usize = 0;
    while i < a.len()
        invariant
            a@.len() == b@.len(),
            i <= a@.len(),
            forall|j: int| 0 <= j < i ==> a@[j] == b@[j],
        decreases a@.len() - i,
    {
        if a[i] != b[i] {
            return false;
        }
        i = i + 1;
    }
    assert(a@ =~= b@);
    true
}

/// Whether a wait for a frame with this status filled the frame: the waits
/// return `STATUS_OK` with a frame and a negative code without one.
pub fn frame_filled(status: i32) -> (r: bool)
    ensures
        r == (status >= 0),
{
    status >= 0
}

/// The result of a call that answers with a status code: success only for
/// `STATUS_OK`, else the code as an error.
pub open spec fn status_outcome(status: i32) -> Result<(), Error> {
    if status == STATUS_OK {
        Ok(())
    } else {
        Err(Error::Status(status))
    }
}

/// The result of a call that answers with a status code.
pub fn status_result(status: i32) -> (r: Result<(), Error>)
    ensures
        r == status_outcome(status),
{
    if status != STATUS_OK {
        Err(Error::Status(status))
    } else {
        Ok(())
    }
}

/// The result of a call that answers with an RPC reply: success only for a
/// normal reply.
pub open spec fn reply_outcome(reply_type: u32) -> Result<(), Error> {
    if reply_type == RESPONSE_NORMAL {
        Ok(())
    } else {
        Err(Error::Reply)
    }
}

/// The result of a call that answers with an RPC reply.
pub fn reply_result(reply_type: u32) -> (r: Result<(), Error>)
    ensures
        r == reply_outcome(reply_type),
{
    if reply_type == RESPONSE_NORMAL {
        Ok(())
    } else {
        Err(Error::Reply)
    }
}

/// The bytes of a body frame (none for another frame).
pub open spec fn fragment_of(f: Frame) -> Seq<u8> {
    match f {
        Frame::Body { fragment, .. } => fragment@,
        _ => Seq::empty(),
    }
}

/// The bytes that the body frames `frames` carry, in order.
pub open spec fn body_bytes(frames: Seq<Frame>) -> Seq<u8>
    decreases frames.len(),
{
    if frames.len() == 0 {
        Seq::empty()
    } else {
        fragment_of(frames[0]) + body_bytes(frames.drop_first())
    }
}

/// Whether every frame of `frames` is a body frame.
pub open spec fn all_bodies(frames: Seq<Frame>) -> bool {
    forall|i: int| 0 <= i < frames.len() ==> (#[trigger] frames[i] matches Frame::Body { .. })
}

/// Whether no frame of `frames` announces a delivery.
pub open spec fn no_delivery(frames: Seq<Frame>) -> bool {
    forall|i: int| 0 <= i < frames.len() ==> !is_delivery(#[trigger] frames[i])
}

/// The bytes of the frames after the first are the bytes of all the frames
/// but the first frame's.
pub proof fn lemma_body_bytes_rest(frames: Seq<Frame>)
    requires
        frames.len() > 0,
    ensures
        body_bytes(frames) == fragment_of(frames[0]) + body_bytes(frames.drop_first()),
        all_bodies(frames) ==> all_bodies(frames.drop_first()),
        no_delivery(frames) ==> no_delivery(frames.drop_first()),
{
    let rest = frames.drop_first();
    if all_bodies(frames) {
        assert forall|i: int| 0 <= i < rest.len() implies (#[trigger] rest[i] matches Frame::Body { .. }) by {
            assert(rest[i] == frames[i + 1]);
        }
    }
    if no_delivery(frames) {
        assert forall|i: int| 0 <= i < rest.len() implies !is_delivery(#[trigger] rest[i]) by {
            assert(rest[i] == frames[i + 1]);
        }
    }
}

/// The body frames carry at least the bytes of the last of them.
pub proof fn lemma_body_bytes_last(frames: Seq<Frame>)
    requires
        frames.len() > 0,
    ensures
        body_bytes(frames).len() >= fragment_of(frames.last()).len(),
    decreases frames.len(),
{
    if frames.len() > 1 {
        let rest = frames.drop_first();
        assert(rest.last() == frames.last());
        lemma_body_bytes_last(rest);
    }
}

/// A delivered message on the wire: its method frame, its content header
/// with the body's size and the correlation id, and its body frames.
pub open spec fn delivery(header: Frame, bodies: Seq<Frame>, channel: u16) -> Seq<Frame> {
    seq![Frame::Method { channel, method_id: BASIC_DELIVER_METHOD }, header] + bodies
}

/// A status call succeeds only on `STATUS_OK`: every other status, the
/// failures of opening a socket or resolving a host among them, is an error
/// that carries the status.
pub proof fn law_status_fails_unless_ok(status: i32)
    ensures
        status_outcome(status) is Ok <==> status == STATUS_OK,
        status != STATUS_OK ==> status_outcome(status) == Err::<(), Error>(Error::Status(status)),
{
}

/// A call answered with an RPC reply succeeds only on a normal reply; every
/// other reply is the reply error.
pub proof fn law_reply_fails_unless_normal(reply_type: u32)
    ensures
        reply_outcome(reply_type) is Ok <==> reply_type == RESPONSE_NORMAL,
        reply_type != RESPONSE_NORMAL ==> reply_outcome(reply_type) == Err::<(), Error>(Error::Reply),
{
}

/// Exactly the method frames of Basic.Deliver announce a delivery; no other
/// method (Basic.Return among them) and no other kind of frame does.
pub proof fn law_only_deliver_announces(frame: Frame)
    ensures
        is_delivery(frame) <==> frame == (Frame::Method {
            channel: frame->Method_channel,
            method_id: BASIC_DELIVER_METHOD,
        }),
{
}
} // verus!
