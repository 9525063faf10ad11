use vstd::prelude::*;
use crate::amqp::{
    Frame, Progress, STATUS_OK, STATUS_TIMEOUT, BASIC_DELIVER_METHOD, is_delivery, announces_delivery,
    bytes_equal, body_bytes, fragment_of, all_bodies, no_delivery, delivery, lemma_body_bytes_rest,
    lemma_body_bytes_last,
};
use crate::buffer::{buffer_contents, buffer_with_capacity, buffer_append, buffer_take, buffer_len};
use crate::error::Error;
use crate::read_message::{fragment_fits, progress_bytes};

verus! {

/// The capacity with which the reply buffer starts.
pub const REPLY_BUFFER_CAPACITY: usize = 4096;

/// The reply to an RPC call, read frame by frame without blocking: on the
/// first poll the caller subscribes to the reply queue; then the delivery
/// method frame, the content header of the reply whose correlation id is the
/// call's, and body frames until the body's size has come.
pub struct RpcMessageFuture {
    polled: bool,
    method_delivered: bool,
    body_target: Option<usize>,
    body_received: usize,
    buf: bytes::BytesMut,
    channel_id: u16,
    correlation_id: Vec<u8>,
}

/// The state of an `RpcMessageFuture` as plain values.
pub struct RpcMessageView {
    pub polled: bool,
    pub method_delivered: bool,
    pub body_target: Option<usize>,
    pub body_received: usize,
    pub buffered: Seq<u8>,
    pub channel_id: u16,
    pub correlation_id: Seq<u8>,
}

impl View for RpcMessageFuture {
    type V = RpcMessageView;

    closed spec fn view(&self) -> RpcMessageView {
        RpcMessageView {
            polled: self.polled,
            method_delivered: self.method_delivered,
            body_target: self.body_target,
            body_received: self.body_received,
            buffered: buffer_contents(self.buf),
            channel_id: self.channel_id,
            correlation_id: self.correlation_id@,
        }
    }
}

/// Whether polling in state `v` with this wait's outcome stays within the
/// machine's limits.
pub open spec fn rpc_message_fits(v: RpcMessageView, status: i32, frame: Option<Frame>) -> bool {
    (status == STATUS_OK && v.method_delivered && v.body_target is Some) ==> match frame {
        Some(Frame::Body { fragment, .. }) => fragment_fits(
            v.body_received,
            v.buffered,
            fragment@.len(),
        ),
        _ => true,
    }
}

/// One poll of an `RpcMessageFuture` after its frame wait returned `status`
/// (and `frame` where it filled one): the next state and what the poll came
/// to. A content header whose correlation id is not the call's leaves the
/// body size unknown, so the next body frame fails the read.
pub open spec fn rpc_message_next(v: RpcMessageView, status: i32, frame: Option<Frame>)
    -> (RpcMessageView, Progress<Seq<u8>>)
{
    if status == STATUS_OK {
        let f = frame.unwrap();
        if !v.method_delivered {
            (RpcMessageView { method_delivered: is_delivery(f), ..v }, Progress::NotReady)
        } else {
            match v.body_target {
                Some(target) => match f {
                    Frame::Body { fragment, .. } => {
                        let received = (v.body_received + fragment@.len()) as usize;
                        let data = v.buffered + fragment@;
                        if received < target {
                            (
                                RpcMessageView { body_received: received, buffered: data, ..v },
                                Progress::NotReady,
                            )
                        } else {
                            (
                                RpcMessageView {
                                    body_received: received,
                                    buffered: Seq::empty(),
                                    ..v
                                },
                                Progress::Ready(data),
                            )
                        }
                    },
                    _ => (v, Progress::Failed(Error::Frame)),
                },
                None => match f {
                    Frame::Header { body_size, correlation_id, .. } => {
                        if correlation_id@ == v.correlation_id {
                            (
                                RpcMessageView { body_target: Some(body_size as usize), ..v },
                                Progress::NotReady,
                            )
                        } else {
                            (v, Progress::NotReady)
                        }
                    },
                    _ => (v, Progress::Failed(Error::Frame)),
                },
            }
        }
    } else if status == STATUS_TIMEOUT {
        (v, Progress::NotReady)
    } else {
        (v, Progress::Failed(Error::Frame))
    }
}

impl RpcMessageFuture {
    /// The reply to the call with this correlation id, on this channel.
    pub fn new(channel_id: u16, correlation_id: Vec<u8>) -> (r: RpcMessageFuture)
        ensures
            r@ == (RpcMessageView {
                polled: false,
                method_delivered: false,
                body_target: None,
                body_received: 0,
                buffered: Seq::empty(),
                channel_id,
                correlation_id: correlation_id@,
            }),
    {
        RpcMessageFuture {
            polled: false,
            method_delivered: false,
            body_target: None,
            body_received: 0,
            buf: buffer_with_capacity(REPLY_BUFFER_CAPACITY),
            channel_id,
            correlation_id,
        }
    }

    /// The channel the reply comes on.
    pub fn channel_id(&self) -> (c: u16)
        ensures
            c == self@.channel_id,
    {
        self.channel_id
    }

    /// Whether polling with this wait's outcome stays within the machine's
    /// limits (where it does not, the poll would overflow its counters).
    pub fn fits(&self, status: i32, frame: &Option<Frame>) -> (r: bool)
        ensures
            r == rpc_message_fits(self@, status, *frame),
    {
        if status == STATUS_OK && self.method_delivered && self.body_target.is_some() {
            match frame {
                Some(Frame::Body { fragment, .. }) => {
                    let len: usize = fragment.len();
                    self.body_received <= usize::MAX - len && len <= isize::MAX as usize
                        && buffer_len(&self.buf) <= (isize::MAX as usize) - len
                },
                _ => true,
            }
        } else {
            true
        }
    }

    /// Marks the future as polled; true on the first poll only, when the
    /// caller must subscribe to the reply queue before reading on.
    pub fn begin_poll(&mut self) -> (subscribe: bool)
        ensures
            subscribe == !old(self)@.polled,
            final(self)@ == (RpcMessageView { polled: true, ..old(self)@ }),
    {
        let first = !self.polled;
        self.polled = true;
        first
    }

    /// Takes in the outcome of one non-blocking wait for a frame.
    pub fn poll(&mut self, status: i32, frame: Option<Frame>) -> (p: Progress<bytes::BytesMut>)
        requires
            status >= 0 ==> frame is Some,
            rpc_message_fits(old(self)@, status, frame),
        ensures
            (final(self)@, progress_bytes(p)) == rpc_message_next(old(self)@, status, frame),
    {
        if status == STATUS_OK {
            let f = frame.unwrap();
            if !self.method_delivered {
                if announces_delivery(&f) {
                    self.method_delivered = true;
                }
                Progress::NotReady
            } else {
                match self.body_target {
                    Some(body_target) => match f {
                        Frame::Body { fragment, .. } => {
                            self.body_received = self.body_received + fragment.len();
                            buffer_append(&mut self.buf, fragment.as_slice());
                            if self.body_received < body_target {
                                Progress::NotReady
                            } else {
                                Progress::Ready(buffer_take(&mut self.buf))
                            }
                        },
                        _ => Progress::Failed(Error::Frame),
                    },
                    None => match f {
                        Frame::Header { body_size, correlation_id, .. } => {
                            if bytes_equal(correlation_id.as_slice(), self.correlation_id.as_slice()) {
                                self.body_target = Some(body_size as usize);
                            }
                            Progress::NotReady
                        },
                        _ => Progress::Failed(Error::Frame),
                    },
                }
            }
        } else if status == STATUS_TIMEOUT {
            Progress::NotReady
        } else {
            Progress::Failed(Error::Frame)
        }
    }
}

/// Where a reply future stands, and what its last poll came to, after it is
/// polled once for each of the frames `frames`, each wait succeeding.
pub open spec fn rpc_feed(v: RpcMessageView, frames: Seq<Frame>) -> (RpcMessageView, Progress<Seq<u8>>)
    decreases frames.len(),
{
    if frames.len() == 0 {
        (v, Progress::NotReady)
    } else {
        let (w, p) = rpc_message_next(v, STATUS_OK, Some(frames[0]));
        if frames.len() == 1 {
            (w, p)
        } else {
            rpc_feed(w, frames.drop_first())
        }
    }
}

/// Polling with frames in two parts, the second not empty, is polling with
/// them at once.
pub proof fn lemma_rpc_feed_append(v: RpcMessageView, a: Seq<Frame>, b: Seq<Frame>)
    requires
        b.len() > 0,
    ensures
        rpc_feed(v, a + b) == rpc_feed(rpc_feed(v, a).0, b),
    decreases a.len(),
{
    if a.len() == 0 {
        assert(a + b =~= b);
    } else {
        let (w, p) = rpc_message_next(v, STATUS_OK, Some(a[0]));
        assert((a + b)[0] == a[0]);
        assert((a + b).drop_first() =~= a.drop_first() + b);
        lemma_rpc_feed_append(w, a.drop_first(), b);
    }
}

/// Until a delivery's method frame comes, a reply future takes no notice of
/// frames: polled with frames none of which announces a delivery, a future
/// that has seen no delivery stays as it is.
pub proof fn law_reply_future_waits_for_delivery(v: RpcMessageView, frames: Seq<Frame>)
    requires
        !v.method_delivered,
        no_delivery(frames),
    ensures
        rpc_feed(v, frames).0 == v,
        frames.len() > 0 ==> rpc_feed(v, frames).1 == Progress::<Seq<u8>>::NotReady,
    decreases frames.len(),
{
    if frames.len() > 0 {
        assert(!is_delivery(frames[0]));
        lemma_body_bytes_rest(frames);
        law_reply_future_waits_for_delivery(v, frames.drop_first());
    }
}

/// Reading a reply body whose size is known and not yet reached: body frames
/// whose last one carries a byte complete it with their bytes.
proof fn lemma_rpc_body(v: RpcMessageView, bodies: Seq<Frame>)
    requires
        v.method_delivered,
        v.body_target matches Some(t) && v.body_received + body_bytes(bodies).len() == t,
        bodies.len() >= 1,
        all_bodies(bodies),
        fragment_of(bodies.last()).len() > 0,
    ensures
        rpc_feed(v, bodies).1 == Progress::Ready(v.buffered + body_bytes(bodies)),
    decreases bodies.len(),
{
    let f = bodies[0];
    assert(f matches Frame::Body { .. });
    let g = fragment_of(f);
    let rest = bodies.drop_first();
    lemma_body_bytes_rest(bodies);
    let (w, p) = rpc_message_next(v, STATUS_OK, Some(f));
    if rest.len() == 0 {
        assert(body_bytes(rest) =~= Seq::<u8>::empty());
        assert(body_bytes(bodies) =~= g);
    } else {
        assert(rest.last() == bodies.last());
        lemma_body_bytes_last(rest);
        assert(v.buffered + g + body_bytes(rest) =~= v.buffered + body_bytes(bodies));
        lemma_rpc_body(w, rest);
    }
}

/// A reply of size zero: every body frame (none carries a byte) makes the
/// future ready with no bytes.
proof fn lemma_rpc_empty_body(v: RpcMessageView, bodies: Seq<Frame>)
    requires
        v.method_delivered,
        v.body_target == Some(0usize),
        v.body_received == 0,
        v.buffered == Seq::<u8>::empty(),
        bodies.len() >= 1,
        all_bodies(bodies),
        body_bytes(bodies).len() == 0,
    ensures
        rpc_feed(v, bodies).1 == Progress::Ready(Seq::<u8>::empty()),
    decreases bodies.len(),
{
    let f = bodies[0];
    assert(f matches Frame::Body { .. });
    lemma_body_bytes_rest(bodies);
    let (w, p) = rpc_message_next(v, STATUS_OK, Some(f));
    assert(fragment_of(f).len() == 0);
    assert(w == v);
    if bodies.len() > 1 {
        lemma_rpc_empty_body(w, bodies.drop_first());
    }
}

/// A reply future gets its call's reply: a future that has seen no delivery,
/// polled with frames none of which announces a delivery, then a delivery's
/// method frame, its content header carrying the call's correlation id and
/// announcing the body's size, and body frames that carry that many bytes
/// (the last of them at least one, unless the size is zero), ends ready with
/// exactly those bytes.
pub proof fn law_reply_future_is_ready(
    v: RpcMessageView,
    prefix: Seq<Frame>,
    header: Frame,
    bodies: Seq<Frame>,
    channel: u16,
)
    requires
        !v.method_delivered && v.body_target is None && v.body_received == 0
            && v.buffered == Seq::<u8>::empty(),
        no_delivery(prefix),
        header matches Frame::Header { body_size, correlation_id, .. }
            && body_size == body_bytes(bodies).len() && correlation_id@ == v.correlation_id,
        bodies.len() >= 1,
        all_bodies(bodies),
        body_bytes(bodies).len() == 0 || fragment_of(bodies.last()).len() > 0,
        body_bytes(bodies).len() <= usize::MAX,
    ensures
        rpc_feed(v, prefix + delivery(header, bodies, channel)).1
            == Progress::Ready(body_bytes(bodies)),
{
    let d = delivery(header, bodies, channel);
    law_reply_future_waits_for_delivery(v, prefix);
    lemma_rpc_feed_append(v, prefix, d);
    let method = Frame::Method { channel, method_id: BASIC_DELIVER_METHOD };
    assert(d[0] == method);
    assert(d.drop_first()[0] == header);
    assert(d.drop_first().drop_first() =~= bodies);
    let (v1, p1) = rpc_message_next(v, STATUS_OK, Some(method));
    let (v2, p2) = rpc_message_next(v1, STATUS_OK, Some(header));
    assert(rpc_feed(v, d) == rpc_feed(v1, d.drop_first()));
    assert(rpc_feed(v1, d.drop_first()) == rpc_feed(v2, bodies));
    if body_bytes(bodies).len() == 0 {
        lemma_rpc_empty_body(v2, bodies);
    } else {
        lemma_rpc_body(v2, bodies);
        assert(Seq::<u8>::empty() + body_bytes(bodies) =~= body_bytes(bodies));
    }
}

/// One poll of a reply future as the caller makes it: `begin_poll`, then
/// `poll` with the wait's outcome. Gives the state after it, whether the poll
/// asked the caller to subscribe to the reply queue, and what it came to.
pub open spec fn rpc_poll_next(v: RpcMessageView, status: i32, frame: Option<Frame>)
    -> (RpcMessageView, bool, Progress<Seq<u8>>)
{
    let (w, p) = rpc_message_next(RpcMessageView { polled: true, ..v }, status, frame);
    (w, !v.polled, p)
}

/// The states, subscription requests and results of polling a reply future
/// in state `v` once for each wait outcome of `polls`, in order.
pub open spec fn rpc_run(v: RpcMessageView, polls: Seq<(i32, Option<Frame>)>)
    -> Seq<(RpcMessageView, bool, Progress<Seq<u8>>)>
    decreases polls.len(),
{
    if polls.len() == 0 {
        Seq::empty()
    } else {
        let (w, subscribe, p) = rpc_poll_next(v, polls[0].0, polls[0].1);
        seq![(w, subscribe, p)] + rpc_run(w, polls.drop_first())
    }
}

/// A reply future subscribes once: polled any number of times from a future
/// not yet polled, the first poll asks the caller to subscribe to the reply
/// queue and no later one does, and after every poll the future is polled.
pub proof fn law_subscribes_once(v: RpcMessageView, polls: Seq<(i32, Option<Frame>)>)
    requires
        !v.polled,
    ensures
        ({
            let r = rpc_run(v, polls);
            &&& r.len() == polls.len()
            &&& forall|i: int| 0 <= i < r.len() ==> (#[trigger] r[i]).1 == (i == 0) && r[i].0.polled
        }),
    decreases polls.len(),
{
    if polls.len() > 0 {
        let (w, subscribe, p) = rpc_poll_next(v, polls[0].0, polls[0].1);
        lemma_polled_stays(w, polls.drop_first());
        let r = rpc_run(v, polls);
        let rest = rpc_run(w, polls.drop_first());
        assert(r =~= seq![(w, subscribe, p)] + rest);
        assert forall|i: int| 0 <= i < r.len() implies (#[trigger] r[i]).1 == (i == 0)
            && r[i].0.polled by {
            if i > 0 {
                assert(r[i] == rest[i - 1]);
            }
        }
    }
}

/// Polls of a future already polled ask for no subscription and keep it
/// polled.
proof fn lemma_polled_stays(v: RpcMessageView, polls: Seq<(i32, Option<Frame>)>)
    requires
        v.polled,
    ensures
        ({
            let r = rpc_run(v, polls);
            &&& r.len() == polls.len()
            &&& forall|i: int| 0 <= i < r.len() ==> !(#[trigger] r[i]).1 && r[i].0.polled
        }),
    decreases polls.len(),
{
    if polls.len() > 0 {
        let (w, subscribe, p) = rpc_poll_next(v, polls[0].0, polls[0].1);
        lemma_polled_stays(w, polls.drop_first());
        let r = rpc_run(v, polls);
        let rest = rpc_run(w, polls.drop_first());
        assert(r =~= seq![(w, subscribe, p)] + rest);
        assert forall|i: int| 0 <= i < r.len() implies !(#[trigger] r[i]).1 && r[i].0.polled by {
            if i > 0 {
                assert(r[i] == rest[i - 1]);
            }
        }
    }
}

/// A reply future's state is consistent: it knows a body size only after a
/// delivery's method frame.
pub open spec fn rpc_valid(v: RpcMessageView) -> bool {
    v.body_target is Some ==> v.method_delivered
}

/// From state `v` to state `w` nothing a reply future has learnt is lost: it
/// stays polled, a delivery stays seen, a known body size stays the same, the
/// count of body bytes received does not go down, and its channel and
/// correlation id do not change.
pub open spec fn rpc_keeps(v: RpcMessageView, w: RpcMessageView) -> bool {
    &&& v.polled ==> w.polled
    &&& v.method_delivered ==> w.method_delivered
    &&& v.body_target is Some ==> w.body_target == v.body_target
    &&& v.body_received <= w.body_received
    &&& w.channel_id == v.channel_id
    &&& w.correlation_id == v.correlation_id
}

/// Whether a poll with this wait outcome is one the future can take: a
/// successful wait filled a frame, and the poll stays within the machine's
/// limits.
pub open spec fn rpc_poll_ok(v: RpcMessageView, status: i32, frame: Option<Frame>) -> bool {
    &&& status >= 0 ==> frame is Some
    &&& rpc_message_fits(v, status, frame)
}

/// Whether every poll of `polls`, made one after the other from state `v`,
/// is one the future can take.
pub open spec fn rpc_run_ok(v: RpcMessageView, polls: Seq<(i32, Option<Frame>)>) -> bool
    decreases polls.len(),
{
    polls.len() == 0 || (rpc_poll_ok(v, polls[0].0, polls[0].1) && rpc_run_ok(
        rpc_poll_next(v, polls[0].0, polls[0].1).0,
        polls.drop_first(),
    ))
}

/// One poll of a reply future keeps it consistent and loses nothing it has
/// learnt, and while no reply is ready the buffer holds exactly the body
/// bytes received.
pub proof fn law_rpc_poll_keeps_state(v: RpcMessageView, status: i32, frame: Option<Frame>)
    requires
        rpc_valid(v),
        rpc_poll_ok(v, status, frame),
    ensures
        ({
            let (w, subscribe, p) = rpc_poll_next(v, status, frame);
            &&& rpc_valid(w)
            &&& rpc_keeps(v, w)
            &&& w.polled
            &&& (v.buffered.len() == v.body_received && !(p is Ready))
                ==> w.buffered.len() == w.body_received
        }),
{
}

/// Over any sequence of polls a reply future stays consistent: it stays
/// polled, a delivery once seen stays seen, the body size is set once and only
/// after the delivery, the count of received bytes never goes down, and until
/// the first poll that is ready the buffer holds exactly the body bytes
/// received.
pub proof fn law_rpc_polls_keep_state(v: RpcMessageView, polls: Seq<(i32, Option<Frame>)>)
    requires
        rpc_valid(v),
        rpc_run_ok(v, polls),
    ensures
        ({
            let r = rpc_run(v, polls);
            &&& r.len() == polls.len()
            &&& forall|i: int| 0 <= i < r.len() ==> rpc_valid(#[trigger] r[i].0)
                && rpc_keeps(v, r[i].0) && r[i].0.polled
            &&& forall|i: int, j: int| 0 <= i < j < r.len() ==> rpc_keeps(
                #[trigger] r[i].0,
                #[trigger] r[j].0,
            )
            &&& v.buffered.len() == v.body_received ==> forall|i: int| 0 <= i < r.len()
                && (forall|k: int| 0 <= k <= i ==> !(#[trigger] r[k].2 is Ready))
                ==> (#[trigger] r[i].0).buffered.len() == r[i].0.body_received
        }),
    decreases polls.len(),
{
    if polls.len() > 0 {
        let (w, subscribe, p) = rpc_poll_next(v, polls[0].0, polls[0].1);
        law_rpc_poll_keeps_state(v, polls[0].0, polls[0].1);
        let rest = rpc_run(w, polls.drop_first());
        law_rpc_polls_keep_state(w, polls.drop_first());
        let r = rpc_run(v, polls);
        assert(r =~= seq![(w, subscribe, p)] + rest);
        assert forall|i: int| 0 <= i < r.len() implies rpc_valid(#[trigger] r[i].0)
            && rpc_keeps(v, r[i].0) && r[i].0.polled by {
            if i > 0 {
                assert(r[i] == rest[i - 1]);
            }
        }
        assert forall|i: int, j: int| 0 <= i < j < r.len() implies rpc_keeps(
            #[trigger] r[i].0,
            #[trigger] r[j].0,
        ) by {
            assert(r[j] == rest[j - 1]);
            if i > 0 {
                assert(r[i] == rest[i - 1]);
            }
        }
        if v.buffered.len() == v.body_received {
            assert forall|i: int| 0 <= i < r.len()
                && (forall|k: int| 0 <= k <= i ==> !(#[trigger] r[k].2 is Ready))
                implies (#[trigger] r[i].0).buffered.len() == r[i].0.body_received by {
                assert(!(r[0].2 is Ready));
                if i > 0 {
                    assert(r[i] == rest[i - 1]);
                    assert forall|k: int| 0 <= k <= i - 1 implies !(#[trigger] rest[k].2 is Ready) by {
                        assert(r[k + 1] == rest[k]);
                    }
                }
            }
        }
    }
}

/// Only the call's own reply is taken: after the delivery's method frame, a
/// content header whose correlation id differs from the call's (as byte
/// sequences) leaves the future as it was, with no body size, so the body
/// frame that follows fails the read and can never make it ready; a header
/// with the call's correlation id sets the body size it announces.
pub proof fn law_only_own_reply_is_taken(
    v: RpcMessageView,
    channel: u16,
    body_size: u64,
    correlation_id: Vec<u8>,
    body: Frame,
)
    requires
        v.method_delivered,
        v.body_target is None,
        body matches Frame::Body { .. },
    ensures
        ({
            let header = Frame::Header { channel, body_size, correlation_id };
            let (w, p) = rpc_message_next(v, STATUS_OK, Some(header));
            &&& correlation_id@ != v.correlation_id ==> {
                &&& w == v
                &&& w.body_target is None
                &&& p == Progress::<Seq<u8>>::NotReady
                &&& rpc_message_next(w, STATUS_OK, Some(body)).1 == Progress::<Seq<u8>>::Failed(Error::Frame)
            }
            &&& correlation_id@ == v.correlation_id ==> w.body_target == Some(body_size as usize)
        }),
{
}

/// Only Basic.Deliver starts a reply: a future that has seen no delivery,
/// polled with a method frame of any other method (Basic.Return among them),
/// stays as it was and is not ready.
pub proof fn law_reply_starts_only_on_deliver(v: RpcMessageView, channel: u16, method_id: u32)
    requires
        !v.method_delivered,
        method_id != BASIC_DELIVER_METHOD,
    ensures
        rpc_message_next(v, STATUS_OK, Some(Frame::Method { channel, method_id }))
            == (v, Progress::<Seq<u8>>::NotReady),
{
}

/// A reply future waits on a timeout and fails on any other status than
/// success, leaving its state as it was either way.
pub proof fn law_reply_future_status(v: RpcMessageView, status: i32, frame: Option<Frame>)
    requires
        status != STATUS_OK,
    ensures
        rpc_message_next(v, status, frame) == (if status == STATUS_TIMEOUT {
            (v, Progress::<Seq<u8>>::NotReady)
        } else {
            (v, Progress::<Seq<u8>>::Failed(Error::Frame))
        }),
{
}
/// Once its reply's body size is known, a future takes only body frames:
/// each adds its bytes to the count and to the buffered bytes, and the future
/// is ready, with all the buffered bytes, exactly when the count reaches the
/// size; any other frame fails the read and leaves the future as it was.
pub proof fn law_reply_body_frames_fill_the_reply(v: RpcMessageView, frame: Frame)
    requires
        v.method_delivered,
        v.body_target is Some,
        rpc_message_fits(v, STATUS_OK, Some(frame)),
    ensures
        !(frame is Body) ==> rpc_message_next(v, STATUS_OK, Some(frame))
            == (v, Progress::<Seq<u8>>::Failed(Error::Frame)),
        frame is Body ==> ({
            let (w, p) = rpc_message_next(v, STATUS_OK, Some(frame));
            let data = v.buffered + frame->Body_fragment@;
            &&& w.body_received == v.body_received + frame->Body_fragment@.len()
            &&& w.method_delivered && w.body_target == v.body_target
            &&& w.correlation_id == v.correlation_id && w.channel_id == v.channel_id
            &&& (w.body_received >= v.body_target.unwrap()) == (p is Ready)
            &&& p is Ready ==> p == Progress::Ready(data) && w.buffered == Seq::<u8>::empty()
            &&& !(p is Ready) ==> p is NotReady && w.buffered == data
        }),
{
}

/// After the delivery a future waits for a content header: any other frame
/// fails the read and leaves the future as it was.
pub proof fn law_reply_needs_a_header(v: RpcMessageView, frame: Frame)
    requires
        v.method_delivered,
        v.body_target is None,
        !(frame is Header),
    ensures
        rpc_message_next(v, STATUS_OK, Some(frame)) == (v, Progress::<Seq<u8>>::Failed(Error::Frame)),
{
}
} // verus!
