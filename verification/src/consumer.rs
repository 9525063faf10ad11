use vstd::prelude::*;
use crate::amqp::{
    Frame, STATUS_OK, STATUS_UNEXPECTED_STATE, RESPONSE_NORMAL, RESPONSE_LIBRARY_EXCEPTION,
    BASIC_ACK_METHOD, BASIC_RETURN_METHOD, CHANNEL_CLOSE_METHOD, CONNECTION_CLOSE_METHOD,
};
use crate::cstring::{nul_free, is_first_nul};
use crate::error::Error;
use crate::types::exchange::ExchangeType;
use crate::types::queue::QueueDeclare;
use vstd::string::StringSliceAdditionalSpecFns;

verus! {

/// How many delivered messages may wait between the polling thread and the
/// handler.
pub const DELIVERY_QUEUE_CAPACITY: usize = 65536;

/// What the consumer does with the envelope of a consume call.
#[derive(Debug, Clone, Copy, PartialEq, Eq, Structural)]
pub enum ConsumeAction {
    /// A message came: hand the envelope on to the handler.
    Deliver,
    /// The connection has a frame other than a delivery waiting: read it,
    /// then drop the envelope.
    AwaitFrame,
    /// Drop the envelope and consume on.
    Discard,
}

/// What the consumer does with the frame it waited for.
#[derive(Debug, Clone, Copy, PartialEq, Eq, Structural)]
pub enum FrameAction {
    /// End the polling loop.
    Stop,
    /// A published message came back unroutable: read it from this channel
    /// and drop it.
    ReadReturned { channel: u16 },
    /// Nothing to do but drop the envelope.
    Ignore,
    /// A method this consumer does not expect: report it and drop the
    /// envelope.
    ReportUnexpected { method_id: u32 },
}

/// What to do after a consume call answered with this reply type and
/// library error.
pub open spec fn consume_action(reply_type: u32, library_error: i32) -> ConsumeAction {
    if reply_type == RESPONSE_NORMAL {
        ConsumeAction::Deliver
    } else if reply_type == RESPONSE_LIBRARY_EXCEPTION && library_error == STATUS_UNEXPECTED_STATE {
        ConsumeAction::AwaitFrame
    } else {
        ConsumeAction::Discard
    }
}

/// What to do after waiting for a frame returned `status` (and `frame` where
/// it filled one).
pub open spec fn frame_action(status: i32, frame: Option<Frame>) -> FrameAction {
    if status != STATUS_OK {
        FrameAction::Stop
    } else {
        match frame.unwrap() {
            Frame::Method { channel, method_id } => {
                if method_id == BASIC_ACK_METHOD {
                    FrameAction::Ignore
                } else if method_id == BASIC_RETURN_METHOD {
                    FrameAction::ReadReturned { channel }
                } else if method_id == CHANNEL_CLOSE_METHOD || method_id == CONNECTION_CLOSE_METHOD {
                    FrameAction::Stop
                } else {
                    FrameAction::ReportUnexpected { method_id }
                }
            },
            _ => FrameAction::Ignore,
        }
    }
}

/// What to do after a consume call answered with this reply type and library
/// error.
pub fn on_consumed(reply_type: u32, library_error: i32) -> (a: ConsumeAction)
    ensures
        a == consume_action(reply_type, library_error),
{
    if reply_type != RESPONSE_NORMAL {
        if reply_type == RESPONSE_LIBRARY_EXCEPTION && library_error == STATUS_UNEXPECTED_STATE {
            ConsumeAction::AwaitFrame
        } else {
            ConsumeAction::Discard
        }
    } else {
        ConsumeAction::Deliver
    }
}

/// What to do after waiting for a frame.
pub fn on_frame(status: i32, frame: Option<Frame>) -> (a: FrameAction)
    requires
        status >= 0 ==> frame is Some,
    ensures
        a == frame_action(status, frame),
{
    if status != STATUS_OK {
        return FrameAction::Stop;
    }
    match frame.unwrap() {
        Frame::Method { channel, method_id } => {
            if method_id == BASIC_ACK_METHOD {
                FrameAction::Ignore
            } else if method_id == BASIC_RETURN_METHOD {
                FrameAction::ReadReturned { channel }
            } else if method_id == CHANNEL_CLOSE_METHOD || method_id == CONNECTION_CLOSE_METHOD {
                FrameAction::Stop
            } else {
                FrameAction::ReportUnexpected { method_id }
            }
        },
        _ => FrameAction::Ignore,
    }
}

/// Whether the consumer goes on after reading a returned message whose read
/// answered with this reply type: only after a normal reply.
pub fn on_returned_read(reply_type: u32) -> (go_on: bool)
    ensures
        go_on == (reply_type == RESPONSE_NORMAL),
{
    reply_type == RESPONSE_NORMAL
}

/// The routing keys the consumer's queue is bound with: all of them for a
/// topic exchange, none for another.
pub fn binding_keys(exchange_type: ExchangeType, routing_keys: Vec<String>) -> (keys: Vec<String>)
    ensures
        keys@ == (if exchange_type == ExchangeType::Topic {
            routing_keys@
        } else {
            Seq::<String>::empty()
        }),
{
    if exchange_type == ExchangeType::Topic {
        routing_keys
    } else {
        Vec::new()
    }
}

/// The queue the consumer declares: named by its consumer tag, neither
/// passive, durable, exclusive nor deleted when unused.
pub fn consumer_queue(consumer_tag: &str) -> (r: Result<QueueDeclare, Error>)
    ensures
        match r {
            Ok(d) => {
                &&& nul_free(consumer_tag.spec_bytes())
                &&& d.name_c@ == consumer_tag.spec_bytes().push(0)
                &&& !d.passive && !d.durable && !d.exclusive && !d.auto_delete
            },
            Err(e) => e matches Error::Cstring(n) && n.bytes@ == consumer_tag.spec_bytes()
                && is_first_nul(consumer_tag.spec_bytes(), n.position as int),
        },
{
    QueueDeclare::new(consumer_tag, false, false, false, false)
}

/// A consumer never stops on a delivered message and never drops one: a
/// normal reply to a consume call hands the envelope on.
pub proof fn law_deliveries_are_handed_on(library_error: i32)
    ensures
        consume_action(RESPONSE_NORMAL, library_error) == ConsumeAction::Deliver,
{
}

/// A consumer stops polling when its channel or its connection is closed, or
/// when waiting for a frame fails.
pub proof fn law_close_stops(status: i32, frame: Option<Frame>)
    requires
        status >= 0 ==> frame is Some,
        status != STATUS_OK || (frame matches Some(Frame::Method { method_id, .. })
            && (method_id == CHANNEL_CLOSE_METHOD || method_id == CONNECTION_CLOSE_METHOD)),
    ensures
        frame_action(status, frame) == FrameAction::Stop,
{
}

/// An envelope is handed on only after a normal reply: whatever the library
/// error, a consume call that did not answer normally never delivers; the
/// consumer waits for a frame only on the library's unexpected-state
/// exception.
pub proof fn law_only_normal_replies_deliver(reply_type: u32, library_error: i32)
    ensures
        consume_action(reply_type, library_error) == ConsumeAction::Deliver
            <==> reply_type == RESPONSE_NORMAL,
        consume_action(reply_type, library_error) == ConsumeAction::AwaitFrame
            <==> (reply_type == RESPONSE_LIBRARY_EXCEPTION && library_error == STATUS_UNEXPECTED_STATE),
{
}
/// After a frame wait: a failed wait, a channel close or a connection close
/// stops the consumer; Basic.Return has the returned message read from the
/// frame's channel; Basic.Ack and frames other than method frames are
/// ignored; any other method is reported.
pub proof fn law_frame_actions(status: i32, frame: Option<Frame>)
    requires
        status >= 0 ==> frame is Some,
    ensures
        status != STATUS_OK ==> frame_action(status, frame) == FrameAction::Stop,
        status == STATUS_OK ==> match frame.unwrap() {
            Frame::Method { channel, method_id } => frame_action(status, frame) == (
                if method_id == CHANNEL_CLOSE_METHOD || method_id == CONNECTION_CLOSE_METHOD {
                    FrameAction::Stop
                } else if method_id == BASIC_RETURN_METHOD {
                    FrameAction::ReadReturned { channel }
                } else if method_id == BASIC_ACK_METHOD {
                    FrameAction::Ignore
                } else {
                    FrameAction::ReportUnexpected { method_id }
                }
            ),
            _ => frame_action(status, frame) == FrameAction::Ignore,
        },
{
}
} // verus!
