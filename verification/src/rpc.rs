use vstd::prelude::*;
use vstd::string::StringSliceAdditionalSpecFns;
use crate::amqp::{
    Frame, STATUS_OK, BASIC_DELIVER_METHOD, body_bytes, fragment_of, all_bodies, no_delivery, delivery, lemma_body_bytes_rest, BASIC_CONTENT_TYPE_FLAG, BASIC_REPLY_TO_FLAG, BASIC_CORRELATION_ID_FLAG,
    is_delivery, announces_delivery, bytes_equal,
};
use crate::buffer::{buffer_contents, buffer_with_capacity, buffer_append, buffer_len};
use crate::cstring::{c_string, c_string_result, nul_free};
use crate::error::{Error, NulError};

verus! {

/// The bytes of the C string "text/plain", the content type of a call.
pub open spec fn text_plain() -> Seq<u8> {
    seq![116u8, 101, 120, 116, 47, 112, 108, 97, 105, 110, 0]
}

/// The properties flags of a call: content type, reply-to and correlation id
/// are set.
pub open spec fn rpc_flags() -> u32 {
    BASIC_CONTENT_TYPE_FLAG | BASIC_REPLY_TO_FLAG | BASIC_CORRELATION_ID_FLAG
}

/// What an RPC call publishes, besides the reply queue and the body: the
/// routing key and the correlation id as C strings, the properties flags and
/// content type, and the mandatory and immediate flags (both off).
pub struct RpcPublish {
    pub routing_key: Vec<u8>,
    pub correlation_id: Vec<u8>,
    pub flags: u32,
    pub content_type: Vec<u8>,
    pub mandatory: i32,
    pub immediate: i32,
}

/// Prepares the publish of an RPC call; fails where the correlation id, or
/// else the routing key, holds a nul byte.
pub fn rpc_publish(routing_key: &str, correlation_id: &str) -> (r: Result<RpcPublish, NulError>)
    ensures
        match r {
            Ok(p) => {
                &&& c_string_result(correlation_id.spec_bytes(), Ok(p.correlation_id))
                &&& c_string_result(routing_key.spec_bytes(), Ok(p.routing_key))
                &&& p.flags == rpc_flags()
                &&& p.content_type@ == text_plain()
                &&& p.mandatory == 0
                &&& p.immediate == 0
            },
            Err(e) => if !nul_free(correlation_id.spec_bytes()) {
                c_string_result(correlation_id.spec_bytes(), Err(e))
            } else {
                c_string_result(routing_key.spec_bytes(), Err(e))
            },
        },
        r is Ok <==> (nul_free(correlation_id.spec_bytes()) && nul_free(routing_key.spec_bytes())),
{
    let correlation = c_string(correlation_id)?;
    let key = c_string(routing_key)?;
    let content_type: Vec<u8> = vec![116u8, 101, 120, 116, 47, 112, 108, 97, 105, 110, 0];
    Ok(RpcPublish {
        routing_key: key,
        correlation_id: correlation,
        flags: BASIC_CONTENT_TYPE_FLAG | BASIC_REPLY_TO_FLAG | BASIC_CORRELATION_ID_FLAG,
        content_type,
        mandatory: 0,
        immediate: 0,
    })
}

/// Where a blocking wait for the reply to a call stands.
enum WaitPhase {
    Delivery,
    Header,
    Body { target: u64, received: usize, buf: bytes::BytesMut },
}

/// A blocking wait for the reply to a call: frames are read one after the
/// other until the reply with the call's correlation id is complete.
pub struct WaitMessage {
    correlation_id: Vec<u8>,
    phase: WaitPhase,
}

/// Where a wait for a reply stands, as plain values.
pub enum WaitPhaseView {
    /// Waiting for the method frame of a delivery.
    Delivery,
    /// Waiting for the content header of a delivery.
    Header,
    /// Reading the body of the reply: `target` bytes are expected, `received`
    /// have come and `data` holds them.
    Body { target: u64, received: usize, data: Seq<u8> },
}

/// A wait for a reply, as plain values.
pub struct WaitMessageView {
    pub correlation_id: Seq<u8>,
    pub phase: WaitPhaseView,
}

impl View for WaitMessage {
    type V = WaitMessageView;

    closed spec fn view(&self) -> WaitMessageView {
        WaitMessageView {
            correlation_id: self.correlation_id@,
            phase: match self.phase {
                WaitPhase::Delivery => WaitPhaseView::Delivery,
                WaitPhase::Header => WaitPhaseView::Header,
                WaitPhase::Body { target, received, buf } => WaitPhaseView::Body {
                    target,
                    received,
                    data: buffer_contents(buf),
                },
            },
        }
    }
}

/// What the wait does after a frame: wait for another frame (first releasing
/// the connection's buffers where `release_buffers` says so), or finish with
/// the reply's body, `None` where the connection failed or the body came out
/// other than announced, or an error.
pub enum WaitStep {
    Wait { next: WaitMessage, release_buffers: bool },
    Finished(Result<Option<bytes::BytesMut>, Error>),
}

/// A `WaitStep` as plain values.
pub enum WaitStepView {
    Wait { next: WaitMessageView, release_buffers: bool },
    Finished(Result<Option<Seq<u8>>, Error>),
}

impl View for WaitStep {
    type V = WaitStepView;

    open spec fn view(&self) -> WaitStepView {
        match self {
            WaitStep::Wait { next, release_buffers } => WaitStepView::Wait {
                next: next@,
                release_buffers: *release_buffers,
            },
            WaitStep::Finished(r) => WaitStepView::Finished(match r {
                Ok(Some(b)) => Ok(Some(buffer_contents(*b))),
                Ok(None) => Ok(None),
                Err(e) => Err(*e),
            }),
        }
    }
}

/// Whether the frame that a wait in state `v` takes in stays within the
/// machine's limits: a reply's announced size must be a capacity that can be
/// allocated, and the body read so far must fit.
pub open spec fn wait_fits(v: WaitMessageView, status: i32, frame: Option<Frame>) -> bool {
    status >= 0 ==> match (v.phase, frame) {
        (WaitPhaseView::Header, Some(Frame::Header { body_size, correlation_id, .. })) =>
            correlation_id@ == v.correlation_id ==> body_size as usize <= isize::MAX,
        (WaitPhaseView::Body { received, data, .. }, Some(Frame::Body { fragment, .. })) => {
            &&& received + fragment@.len() <= usize::MAX
            &&& data.len() + fragment@.len() <= isize::MAX
        },
        _ => true,
    }
}

/// One step of a wait for a reply, after the frame wait returned `status`
/// (and `frame` where it filled one). A failed wait ends the wait with no
/// reply. Frames other than a delivery's method frame are skipped, and so is
/// a delivery whose header carries another correlation id; a frame of the
/// wrong type after a delivery's method frame is an error.
pub open spec fn wait_next(v: WaitMessageView, status: i32, frame: Option<Frame>) -> WaitStepView {
    if status < 0 {
        WaitStepView::Finished(Ok(None))
    } else {
        let f = frame.unwrap();
        match v.phase {
            WaitPhaseView::Delivery => if is_delivery(f) {
                WaitStepView::Wait {
                    next: WaitMessageView { phase: WaitPhaseView::Header, ..v },
                    release_buffers: false,
                }
            } else {
                WaitStepView::Wait { next: v, release_buffers: true }
            },
            WaitPhaseView::Header => match f {
                Frame::Header { body_size, correlation_id, .. } => {
                    if correlation_id@ != v.correlation_id {
                        WaitStepView::Wait {
                            next: WaitMessageView { phase: WaitPhaseView::Delivery, ..v },
                            release_buffers: true,
                        }
                    } else if body_size == 0 {
                        WaitStepView::Finished(Ok(Some(Seq::empty())))
                    } else {
                        WaitStepView::Wait {
                            next: WaitMessageView {
                                phase: WaitPhaseView::Body {
                                    target: body_size,
                                    received: 0,
                                    data: Seq::empty(),
                                },
                                ..v
                            },
                            release_buffers: false,
                        }
                    }
                },
                _ => WaitStepView::Finished(Err(Error::Reply)),
            },
            WaitPhaseView::Body { target, received, data } => match f {
                Frame::Body { fragment, .. } => {
                    let now = (received + fragment@.len()) as usize;
                    let all = data + fragment@;
                    if now < target {
                        WaitStepView::Wait {
                            next: WaitMessageView {
                                phase: WaitPhaseView::Body { target, received: now, data: all },
                                ..v
                            },
                            release_buffers: false,
                        }
                    } else if now == target {
                        WaitStepView::Finished(Ok(Some(all)))
                    } else {
                        WaitStepView::Finished(Ok(None))
                    }
                },
                _ => WaitStepView::Finished(Err(Error::Reply)),
            },
        }
    }
}

impl WaitMessage {
    /// A wait for the reply with this correlation id; the first frame wait
    /// comes after releasing the connection's buffers.
    pub fn new(correlation_id: Vec<u8>) -> (w: WaitMessage)
        ensures
            w@ == (WaitMessageView {
                correlation_id: correlation_id@,
                phase: WaitPhaseView::Delivery,
            }),
    {
        WaitMessage { correlation_id, phase: WaitPhase::Delivery }
    }

    /// Whether taking in this wait's outcome stays within the machine's
    /// limits (where it does not, the step would allocate past what a buffer
    /// can hold or overflow its counter).
    pub fn fits(&self, status: i32, frame: &Option<Frame>) -> (r: bool)
        ensures
            r == wait_fits(self@, status, *frame),
    {
        if status < 0 {
            return true;
        }
        match (&self.phase, frame) {
            (WaitPhase::Header, Some(Frame::Header { body_size, correlation_id, .. })) => {
                !bytes_equal(correlation_id.as_slice(), self.correlation_id.as_slice())
                    || (*body_size as usize) <= isize::MAX as usize
            },
            (WaitPhase::Body { received, buf, .. }, Some(Frame::Body { fragment, .. })) => {
                let len: usize = fragment.len();
                *received <= usize::MAX - len && len <= isize::MAX as usize
                    && buffer_len(buf) <= (isize::MAX as usize) - len
            },
            _ => true,
        }
    }

    /// Takes in the outcome of one blocking wait for a frame.
    pub fn step(self, status: i32, frame: Option<Frame>) -> (r: WaitStep)
        requires
            status >= 0 ==> frame is Some,
            wait_fits(self@, status, frame),
        ensures
            r@ == wait_next(self@, status, frame),
    {
        if status < 0 {
            return WaitStep::Finished(Ok(None));
        }
        let f = frame.unwrap();
        let WaitMessage { correlation_id, phase } = self;
        match phase {
            WaitPhase::Delivery => {
                if announces_delivery(&f) {
                    WaitStep::Wait {
                        next: WaitMessage { correlation_id, phase: WaitPhase::Header },
                        release_buffers: false,
                    }
                } else {
                    WaitStep::Wait {
                        next: WaitMessage { correlation_id, phase: WaitPhase::Delivery },
                        release_buffers: true,
                    }
                }
            },
            WaitPhase::Header => match f {
                Frame::Header { body_size, correlation_id: received_id, .. } => {
                    if !bytes_equal(received_id.as_slice(), correlation_id.as_slice()) {
                        WaitStep::Wait {
                            next: WaitMessage { correlation_id, phase: WaitPhase::Delivery },
                            release_buffers: true,
                        }
                    } else {
                        let buf = buffer_with_capacity(body_size as usize);
                        if 0 < body_size {
                            WaitStep::Wait {
                                next: WaitMessage {
                                    correlation_id,
                                    phase: WaitPhase::Body { target: body_size, received: 0, buf },
                                },
                                release_buffers: false,
                            }
                        } else {
                            WaitStep::Finished(Ok(Some(buf)))
                        }
                    }
                },
                _ => WaitStep::Finished(Err(Error::Reply)),
            },
            WaitPhase::Body { target, received, mut buf } => match f {
                Frame::Body { fragment, .. } => {
                    let now: usize = received + fragment.len();
                    buffer_append(&mut buf, fragment.as_slice());
                    if (now as u64) < target {
                        WaitStep::Wait {
                            next: WaitMessage {
                                correlation_id,
                                phase: WaitPhase::Body { target, received: now, buf },
                            },
                            release_buffers: false,
                        }
                    } else if now as u64 == target {
                        WaitStep::Finished(Ok(Some(buf)))
                    } else {
                        WaitStep::Finished(Ok(None))
                    }
                },
                _ => WaitStep::Finished(Err(Error::Reply)),
            },
        }
    }
}

/// What follows a successful publish of a call: a wait for the reply with the
/// call's correlation id; a failed publish gives its status as the error.
pub fn rpc_published(status: i32, correlation_id: &str) -> (r: Result<WaitMessage, Error>)
    ensures
        match r {
            Ok(w) => status == STATUS_OK && w@ == (WaitMessageView {
                correlation_id: correlation_id.spec_bytes(),
                phase: WaitPhaseView::Delivery,
            }),
            Err(e) => status != STATUS_OK && e == Error::Status(status),
        },
{
    if status != STATUS_OK {
        Err(Error::Status(status))
    } else {
        Ok(WaitMessage::new(vstd::slice::slice_to_vec(correlation_id.as_bytes())))
    }
}

/// Where a wait stands after the frames `frames` arrive one by one, each
/// frame wait succeeding.
pub open spec fn wait_feed(s: WaitStepView, frames: Seq<Frame>) -> WaitStepView
    decreases frames.len(),
{
    if frames.len() == 0 {
        s
    } else {
        match s {
            WaitStepView::Wait { next, .. } => wait_feed(
                wait_next(next, STATUS_OK, Some(frames[0])),
                frames.drop_first(),
            ),
            WaitStepView::Finished(_) => s,
        }
    }
}

/// A fresh wait for the reply with correlation id `c`.
pub open spec fn fresh_wait(c: Seq<u8>) -> WaitStepView {
    WaitStepView::Wait {
        next: WaitMessageView { correlation_id: c, phase: WaitPhaseView::Delivery },
        release_buffers: true,
    }
}

/// Feeding frames in two parts is feeding them at once.
pub proof fn lemma_wait_feed_append(s: WaitStepView, a: Seq<Frame>, b: Seq<Frame>)
    ensures
        wait_feed(s, a + b) == wait_feed(wait_feed(s, a), b),
    decreases a.len(),
{
    if a.len() == 0 {
        assert(a + b =~= b);
    } else {
        assert((a + b).drop_first() =~= a.drop_first() + b);
        match s {
            WaitStepView::Wait { next, .. } => {
                lemma_wait_feed_append(
                    wait_next(next, STATUS_OK, Some(a[0])),
                    a.drop_first(),
                    b,
                );
            },
            WaitStepView::Finished(_) => {
                lemma_wait_feed_finished(s, b);
            },
        }
    }
}

/// A finished wait takes in no more frames.
proof fn lemma_wait_feed_finished(s: WaitStepView, b: Seq<Frame>)
    requires
        s is Finished,
    ensures
        wait_feed(s, b) == s,
    decreases b.len(),
{
}

/// Reading a body whose size is announced and not yet reached: body frames
/// that carry the missing bytes complete it; frames after that are not taken.
proof fn lemma_body_completes(
    c: Seq<u8>,
    target: u64,
    received: usize,
    data: Seq<u8>,
    bodies: Seq<Frame>,
)
    requires
        all_bodies(bodies),
        received + body_bytes(bodies).len() == target,
        received < target,
        target <= usize::MAX,
    ensures
        wait_feed(
            WaitStepView::Wait {
                next: WaitMessageView {
                    correlation_id: c,
                    phase: WaitPhaseView::Body { target, received, data },
                },
                release_buffers: false,
            },
            bodies,
        ) == WaitStepView::Finished(Ok(Some(data + body_bytes(bodies)))),
    decreases bodies.len(),
{
    if bodies.len() == 0 {
        assert(body_bytes(bodies) =~= Seq::<u8>::empty());
    } else {
        let f = bodies[0];
        assert(f matches Frame::Body { .. });
        let g = fragment_of(f);
        let rest = bodies.drop_first();
        lemma_body_bytes_rest(bodies);
        let now = (received + g.len()) as usize;
        let next = wait_next(
            WaitMessageView { correlation_id: c, phase: WaitPhaseView::Body { target, received, data } },
            STATUS_OK,
            Some(f),
        );
        assert(data + g + body_bytes(rest) =~= data + body_bytes(bodies));
        if now < target {
            lemma_body_completes(c, target, now, data + g, rest);
        } else {
            assert(body_bytes(rest).len() == 0);
            assert(body_bytes(rest) =~= Seq::<u8>::empty());
            assert(data + g =~= data + body_bytes(bodies));
            assert(next == WaitStepView::Finished(Ok(Some(data + body_bytes(bodies)))));
            lemma_wait_feed_finished(next, rest);
        }
    }
}

/// Frames that announce no delivery are passed over: a fresh wait stays
/// fresh.
pub proof fn law_non_deliveries_are_skipped(c: Seq<u8>, frames: Seq<Frame>)
    requires
        no_delivery(frames),
    ensures
        wait_feed(fresh_wait(c), frames) == fresh_wait(c),
    decreases frames.len(),
{
    if frames.len() > 0 {
        assert(!is_delivery(frames[0]));
        lemma_body_bytes_rest(frames);
        law_non_deliveries_are_skipped(c, frames.drop_first());
    }
}

/// A call gets its reply: a wait for the reply with correlation id `c` that
/// reads frames none of which announces a delivery, then a delivery whose
/// header carries `c` and announces a body of the size that its body frames
/// carry, returns exactly those bytes; frames that follow are not taken.
pub proof fn law_reply_is_assembled(
    c: Seq<u8>,
    prefix: Seq<Frame>,
    header: Frame,
    bodies: Seq<Frame>,
    channel: u16,
    after: Seq<Frame>,
)
    requires
        no_delivery(prefix),
        header matches Frame::Header { body_size, correlation_id, .. }
            && correlation_id@ == c && body_size == body_bytes(bodies).len(),
        all_bodies(bodies),
        body_bytes(bodies).len() <= usize::MAX,
    ensures
        wait_feed(fresh_wait(c), prefix + delivery(header, bodies, channel) + after)
            == WaitStepView::Finished(Ok(Some(body_bytes(bodies)))),
{
    let d = delivery(header, bodies, channel);
    law_non_deliveries_are_skipped(c, prefix);
    lemma_wait_feed_append(fresh_wait(c), prefix, d);
    lemma_wait_feed_append(fresh_wait(c), prefix + d, after);
    let start = seq![Frame::Method { channel, method_id: BASIC_DELIVER_METHOD }, header];
    assert(d =~= start + bodies);
    lemma_wait_feed_append(fresh_wait(c), start, bodies);
    assert(start.drop_first().drop_first() =~= Seq::<Frame>::empty());
    assert(start[0] == Frame::Method { channel, method_id: BASIC_DELIVER_METHOD });
    assert(start.drop_first()[0] == header);
    reveal_with_fuel(wait_feed, 3);
    if body_bytes(bodies).len() == 0 {
        assert(body_bytes(bodies) =~= Seq::<u8>::empty());
        assert(wait_feed(fresh_wait(c), start) == WaitStepView::Finished(Ok(Some(Seq::<u8>::empty()))));
        lemma_wait_feed_finished(wait_feed(fresh_wait(c), start), bodies);
    } else {
        lemma_body_completes(c, (body_bytes(bodies).len()) as u64, 0, Seq::empty(), bodies);
        assert(Seq::<u8>::empty() + body_bytes(bodies) =~= body_bytes(bodies));
    }
    lemma_wait_feed_finished(wait_feed(fresh_wait(c), prefix + d), after);
}

/// Replies to other calls are passed over: a wait for the reply with
/// correlation id `c` that reads a delivery whose header carries another
/// correlation id, whatever body frames follow, is back to waiting for a
/// delivery, as it was at the start.
pub proof fn law_foreign_reply_is_skipped(c: Seq<u8>, header: Frame, bodies: Seq<Frame>, channel: u16)
    requires
        header matches Frame::Header { correlation_id, .. } && correlation_id@ != c,
        all_bodies(bodies),
    ensures
        wait_feed(fresh_wait(c), delivery(header, bodies, channel)) == fresh_wait(c),
{
    let d = delivery(header, bodies, channel);
    let start = seq![Frame::Method { channel, method_id: BASIC_DELIVER_METHOD }, header];
    assert(d =~= start + bodies);
    lemma_wait_feed_append(fresh_wait(c), start, bodies);
    assert(start.drop_first().drop_first() =~= Seq::<Frame>::empty());
    assert(start[0] == Frame::Method { channel, method_id: BASIC_DELIVER_METHOD });
    assert(start.drop_first()[0] == header);
    reveal_with_fuel(wait_feed, 3);
    assert(wait_feed(fresh_wait(c), start) == fresh_wait(c));
    assert(no_delivery(bodies)) by {
        assert forall|i: int| 0 <= i < bodies.len() implies !is_delivery(#[trigger] bodies[i]) by {
            assert(bodies[i] matches Frame::Body { .. });
        }
    }
    law_non_deliveries_are_skipped(c, bodies);
}

/// A call's reply is found behind replies to other calls: a wait that reads
/// first a delivery carrying another correlation id and then one carrying its
/// own returns its own reply's body.
pub proof fn law_reply_found_after_foreign(
    c: Seq<u8>,
    foreign_header: Frame,
    foreign_bodies: Seq<Frame>,
    header: Frame,
    bodies: Seq<Frame>,
    channel: u16,
)
    requires
        foreign_header matches Frame::Header { correlation_id, .. } && correlation_id@ != c,
        all_bodies(foreign_bodies),
        header matches Frame::Header { body_size, correlation_id, .. }
            && correlation_id@ == c && body_size == body_bytes(bodies).len(),
        all_bodies(bodies),
        body_bytes(bodies).len() <= usize::MAX,
    ensures
        wait_feed(
            fresh_wait(c),
            delivery(foreign_header, foreign_bodies, channel) + delivery(header, bodies, channel),
        ) == WaitStepView::Finished(Ok(Some(body_bytes(bodies)))),
{
    let empty = Seq::<Frame>::empty();
    let d = delivery(header, bodies, channel);
    lemma_wait_feed_append(fresh_wait(c), delivery(foreign_header, foreign_bodies, channel), d);
    law_foreign_reply_is_skipped(c, foreign_header, foreign_bodies, channel);
    law_reply_is_assembled(c, empty, header, bodies, channel, empty);
    assert(empty + d + empty =~= d);
}

/// A failed frame wait ends the call with no reply: in every phase, a wait
/// for a frame that returns a negative status finishes with `Ok(None)`,
/// whatever frame is at hand.
pub proof fn law_failed_wait_ends_the_call(v: WaitMessageView, status: i32, frame: Option<Frame>)
    requires
        status < 0,
    ensures
        wait_next(v, status, frame) == WaitStepView::Finished(Ok(None)),
{
}

/// A wait takes a reply's body only from a header with its own correlation
/// id: a header with another id sends it back to waiting for a delivery,
/// after releasing the connection's buffers.
pub proof fn law_wait_skips_other_ids(
    v: WaitMessageView,
    channel: u16,
    body_size: u64,
    correlation_id: Vec<u8>,
)
    requires
        v.phase is Header,
        correlation_id@ != v.correlation_id,
    ensures
        wait_next(v, STATUS_OK, Some(Frame::Header { channel, body_size, correlation_id }))
            == (WaitStepView::Wait {
                next: WaitMessageView { phase: WaitPhaseView::Delivery, ..v },
                release_buffers: true,
            }),
{
}
/// While waiting for a delivery, a wait skips every frame that does not
/// announce one (releasing the buffers before the next frame), and a
/// delivery's method frame moves it on to its header.
pub proof fn law_wait_for_delivery(v: WaitMessageView, frame: Frame)
    requires
        v.phase is Delivery,
    ensures
        !is_delivery(frame) ==> wait_next(v, STATUS_OK, Some(frame))
            == (WaitStepView::Wait { next: v, release_buffers: true }),
        is_delivery(frame) ==> wait_next(v, STATUS_OK, Some(frame)) == (WaitStepView::Wait {
            next: WaitMessageView { phase: WaitPhaseView::Header, ..v },
            release_buffers: false,
        }),
{
}

/// After a delivery's method frame, anything but a content header ends the
/// call with the reply error.
pub proof fn law_wait_needs_a_header(v: WaitMessageView, frame: Frame)
    requires
        v.phase is Header,
        !(frame is Header),
    ensures
        wait_next(v, STATUS_OK, Some(frame)) == WaitStepView::Finished(Err(Error::Reply)),
{
}

/// Reading a reply's body: a frame other than a body frame ends the call
/// with the reply error; a body frame adds its bytes, the wait going on while
/// fewer bytes than announced have come, ending with the bytes when exactly
/// that many have, and ending with no reply when more have.
pub proof fn law_wait_body(v: WaitMessageView, frame: Frame)
    requires
        v.phase is Body,
        wait_fits(v, STATUS_OK, Some(frame)),
    ensures
        !(frame is Body) ==> wait_next(v, STATUS_OK, Some(frame)) == WaitStepView::Finished(Err(Error::Reply)),
        frame is Body ==> ({
            let target = v.phase->Body_target;
            let now = v.phase->Body_received + frame->Body_fragment@.len();
            let all = v.phase->Body_data + frame->Body_fragment@;
            &&& now < target ==> wait_next(v, STATUS_OK, Some(frame)) == (WaitStepView::Wait {
                next: WaitMessageView {
                    phase: WaitPhaseView::Body { target, received: now as usize, data: all },
                    ..v
                },
                release_buffers: false,
            })
            &&& now == target ==> wait_next(v, STATUS_OK, Some(frame))
                == WaitStepView::Finished(Ok(Some(all)))
            &&& now > target ==> wait_next(v, STATUS_OK, Some(frame)) == WaitStepView::Finished(Ok(None))
        }),
{
}
} // verus!
