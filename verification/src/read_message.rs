use vstd::prelude::*;
use crate::amqp::{
    Frame, Progress, BASIC_DELIVER_METHOD, is_delivery, announces_delivery, body_bytes, fragment_of,
    all_bodies, no_delivery, delivery, lemma_body_bytes_rest, lemma_body_bytes_last,
};
use crate::buffer::{buffer_contents, buffer_new, buffer_append, buffer_take, buffer_len};
use crate::error::Error;

verus! {

/// A message being read frame by frame from a connection, without blocking:
/// first the delivery method frame, then the content header that gives the
/// body's size, then body frames until that many bytes have come. Each poll
/// reads the frame buffer whatever the wait before it returned, so a wait
/// that filled nothing (a timeout, an error) has the frame left in the buffer
/// from before read again.
pub struct ReadMessage {
    method_delivered: bool,
    body_target: Option<usize>,
    body_received: usize,
    buf: bytes::BytesMut,
}

/// The state of a `ReadMessage` as plain values.
pub struct ReadMessageView {
    pub method_delivered: bool,
    pub body_target: Option<usize>,
    pub body_received: usize,
    pub buffered: Seq<u8>,
}

impl View for ReadMessage {
    type V = ReadMessageView;

    closed spec fn view(&self) -> ReadMessageView {
        ReadMessageView {
            method_delivered: self.method_delivered,
            body_target: self.body_target,
            body_received: self.body_received,
            buffered: buffer_contents(self.buf),
        }
    }
}

/// A progress with the bytes of its result in place of the buffer.
pub open spec fn progress_bytes(p: Progress<bytes::BytesMut>) -> Progress<Seq<u8>> {
    match p {
        Progress::Ready(b) => Progress::Ready(buffer_contents(b)),
        Progress::NotReady => Progress::NotReady,
        Progress::Failed(e) => Progress::Failed(e),
    }
}

/// Whether a body fragment of `len` bytes can be taken in by a reader that
/// has received `received` bytes and buffers `buffered`: the count must fit in
/// a `usize` and the buffer's length in an `isize`.
pub open spec fn fragment_fits(received: usize, buffered: Seq<u8>, len: nat) -> bool {
    &&& received + len <= usize::MAX
    &&& buffered.len() + len <= isize::MAX
}

/// Whether taking in `frame` in state `v` stays within the machine's limits.
pub open spec fn read_message_fits(v: ReadMessageView, frame: Frame) -> bool {
    (v.method_delivered && v.body_target is Some) ==> match frame {
        Frame::Body { fragment, .. } => fragment_fits(v.body_received, v.buffered, fragment@.len()),
        _ => true,
    }
}

/// One poll of a `ReadMessage` that reads `frame` from the frame buffer: the
/// next state and what the poll came to.
pub open spec fn read_message_next(v: ReadMessageView, frame: Frame) -> (ReadMessageView, Progress<Seq<u8>>) {
    if !v.method_delivered {
        (ReadMessageView { method_delivered: is_delivery(frame), ..v }, Progress::NotReady)
    } else {
        match v.body_target {
            Some(target) => match frame {
                Frame::Body { fragment, .. } => {
                    let received = (v.body_received + fragment@.len()) as usize;
                    let data = v.buffered + fragment@;
                    if received < target {
                        (
                            ReadMessageView { body_received: received, buffered: data, ..v },
                            Progress::NotReady,
                        )
                    } else {
                        (
                            ReadMessageView { body_received: received, buffered: Seq::empty(), ..v },
                            Progress::Ready(data),
                        )
                    }
                },
                _ => (v, Progress::Failed(Error::Frame)),
            },
            None => match frame {
                Frame::Header { body_size, .. } => (
                    ReadMessageView { body_target: Some(body_size as usize), ..v },
                    Progress::NotReady,
                ),
                _ => (v, Progress::Failed(Error::Frame)),
            },
        }
    }
}

impl ReadMessage {
    /// A reader that waits for a delivery.
    pub fn new() -> (r: ReadMessage)
        ensures
            r@ == fresh_reader(),
    {
        ReadMessage {
            method_delivered: false,
            body_target: None,
            body_received: 0,
            buf: buffer_new(),
        }
    }

    /// Whether taking in `frame` stays within the machine's limits (where it
    /// does not, the poll would overflow its counters).
    pub fn fits(&self, frame: &Frame) -> (r: bool)
        ensures
            r == read_message_fits(self@, *frame),
    {
        if self.method_delivered && self.body_target.is_some() {
            match frame {
                Frame::Body { fragment, .. } => {
                    let len: usize = fragment.len();
                    self.body_received <= usize::MAX - len && len <= isize::MAX as usize
                        && buffer_len(&self.buf) <= (isize::MAX as usize) - len
                },
                _ => true,
            }
        } else {
            true
        }
    }

    /// Takes in the frame that the frame buffer holds after one non-blocking
    /// wait, whatever the wait returned.
    pub fn poll(&mut self, frame: Frame) -> (p: Progress<bytes::BytesMut>)
        requires
            read_message_fits(old(self)@, frame),
        ensures
            (final(self)@, progress_bytes(p)) == read_message_next(old(self)@, frame),
    {
        if !self.method_delivered {
            if announces_delivery(&frame) {
                self.method_delivered = true;
            }
            Progress::NotReady
        } else {
            match self.body_target {
                Some(body_target) => match frame {
                    Frame::Body { fragment, .. } => {
                        self.body_received = self.body_received + fragment.len();
                        buffer_append(&mut self.buf, fragment.as_slice());
                        if self.body_received < body_target {
                            Progress::NotReady
                        } else {
                            Progress::Ready(buffer_take(&mut self.buf))
                        }
                    },
                    _ => Progress::Failed(Error::Frame),
                },
                None => match frame {
                    Frame::Header { body_size, .. } => {
                        self.body_target = Some(body_size as usize);
                        Progress::NotReady
                    },
                    _ => Progress::Failed(Error::Frame),
                },
            }
        }
    }
}

/// A reader that waits for a delivery, as plain values.
pub open spec fn fresh_reader() -> ReadMessageView {
    ReadMessageView {
        method_delivered: false,
        body_target: None,
        body_received: 0,
        buffered: Seq::empty(),
    }
}

/// Where a reader stands, and what its last poll came to, after it is polled
/// once for each of the frames `frames`.
pub open spec fn read_feed(v: ReadMessageView, frames: Seq<Frame>) -> (ReadMessageView, Progress<Seq<u8>>)
    decreases frames.len(),
{
    if frames.len() == 0 {
        (v, Progress::NotReady)
    } else {
        let (w, p) = read_message_next(v, frames[0]);
        if frames.len() == 1 {
            (w, p)
        } else {
            read_feed(w, frames.drop_first())
        }
    }
}

/// Polling with frames in two parts, the second not empty, is polling with
/// them at once.
pub proof fn lemma_read_feed_append(v: ReadMessageView, a: Seq<Frame>, b: Seq<Frame>)
    requires
        b.len() > 0,
    ensures
        read_feed(v, a + b) == read_feed(read_feed(v, a).0, b),
    decreases a.len(),
{
    if a.len() == 0 {
        assert(a + b =~= b);
    } else {
        let (w, p) = read_message_next(v, a[0]);
        assert((a + b)[0] == a[0]);
        assert((a + b).drop_first() =~= a.drop_first() + b);
        lemma_read_feed_append(w, a.drop_first(), b);
    }
}

/// Until a delivery's method frame comes, a reader takes no notice of frames:
/// polled with frames none of which announces a delivery, a new reader is
/// still new.
pub proof fn law_reader_waits_for_delivery(frames: Seq<Frame>)
    requires
        no_delivery(frames),
    ensures
        read_feed(fresh_reader(), frames).0 == fresh_reader(),
        frames.len() > 0 ==> read_feed(fresh_reader(), frames).1 == Progress::<Seq<u8>>::NotReady,
    decreases frames.len(),
{
    if frames.len() > 0 {
        assert(!is_delivery(frames[0]));
        lemma_body_bytes_rest(frames);
        law_reader_waits_for_delivery(frames.drop_first());
    }
}

/// Reading a body whose size is known and not yet reached: body frames whose
/// last one carries a byte complete it with their bytes.
proof fn lemma_read_body(v: ReadMessageView, bodies: Seq<Frame>)
    requires
        v.method_delivered,
        v.body_target matches Some(t) && v.body_received + body_bytes(bodies).len() == t,
        bodies.len() >= 1,
        all_bodies(bodies),
        fragment_of(bodies.last()).len() > 0,
    ensures
        read_feed(v, bodies).1 == Progress::Ready(v.buffered + body_bytes(bodies)),
    decreases bodies.len(),
{
    let f = bodies[0];
    assert(f matches Frame::Body { .. });
    let g = fragment_of(f);
    let rest = bodies.drop_first();
    lemma_body_bytes_rest(bodies);
    let (w, p) = read_message_next(v, f);
    if rest.len() == 0 {
        assert(body_bytes(rest) =~= Seq::<u8>::empty());
        assert(body_bytes(bodies) =~= g);
    } else {
        assert(rest.last() == bodies.last());
        lemma_body_bytes_last(rest);
        assert(v.buffered + g + body_bytes(rest) =~= v.buffered + body_bytes(bodies));
        lemma_read_body(w, rest);
    }
}

/// A body of size zero: every body frame (none carries a byte) makes the
/// reader ready with no bytes.
proof fn lemma_read_empty_body(v: ReadMessageView, bodies: Seq<Frame>)
    requires
        v.method_delivered,
        v.body_target == Some(0usize),
        v.body_received == 0,
        v.buffered == Seq::<u8>::empty(),
        bodies.len() >= 1,
        all_bodies(bodies),
        body_bytes(bodies).len() == 0,
    ensures
        read_feed(v, bodies).1 == Progress::Ready(Seq::<u8>::empty()),
    decreases bodies.len(),
{
    let f = bodies[0];
    assert(f matches Frame::Body { .. });
    lemma_body_bytes_rest(bodies);
    let (w, p) = read_message_next(v, f);
    assert(fragment_of(f).len() == 0);
    assert(w == v);
    if bodies.len() > 1 {
        lemma_read_empty_body(w, bodies.drop_first());
    }
}

/// A delivered message is read whole: a new reader polled with frames none
/// of which announces a delivery, then a delivery's method frame, its content
/// header announcing the body's size, and body frames that carry that many
/// bytes (the last of them at least one, unless the size is zero), ends
/// ready with exactly those bytes.
pub proof fn law_message_is_read(prefix: Seq<Frame>, header: Frame, bodies: Seq<Frame>, channel: u16)
    requires
        no_delivery(prefix),
        header matches Frame::Header { body_size, .. } && body_size == body_bytes(bodies).len(),
        bodies.len() >= 1,
        all_bodies(bodies),
        body_bytes(bodies).len() == 0 || fragment_of(bodies.last()).len() > 0,
        body_bytes(bodies).len() <= usize::MAX,
    ensures
        read_feed(fresh_reader(), prefix + delivery(header, bodies, channel)).1
            == Progress::Ready(body_bytes(bodies)),
{
    let d = delivery(header, bodies, channel);
    law_reader_waits_for_delivery(prefix);
    lemma_read_feed_append(fresh_reader(), prefix, d);
    let method = Frame::Method { channel, method_id: BASIC_DELIVER_METHOD };
    assert(d[0] == method);
    assert(d.drop_first()[0] == header);
    assert(d.drop_first().drop_first() =~= bodies);
    let (v1, p1) = read_message_next(fresh_reader(), method);
    let (v2, p2) = read_message_next(v1, header);
    assert(read_feed(fresh_reader(), d) == read_feed(v1, d.drop_first()));
    assert(read_feed(v1, d.drop_first()) == read_feed(v2, bodies));
    if body_bytes(bodies).len() == 0 {
        lemma_read_empty_body(v2, bodies);
    } else {
        lemma_read_body(v2, bodies);
        assert(Seq::<u8>::empty() + body_bytes(bodies) =~= body_bytes(bodies));
    }
}

/// A reader's state is consistent: it knows a body size only after a
/// delivery's method frame.
pub open spec fn read_valid(v: ReadMessageView) -> bool {
    v.body_target is Some ==> v.method_delivered
}

/// From state `v` to state `w` nothing a reader has learnt is lost: a
/// delivery stays seen, a known body size stays the same, and the count of
/// body bytes received does not go down.
pub open spec fn read_keeps(v: ReadMessageView, w: ReadMessageView) -> bool {
    &&& v.method_delivered ==> w.method_delivered
    &&& v.body_target is Some ==> w.body_target == v.body_target
    &&& v.body_received <= w.body_received
}

/// The states and results of polling a reader in state `v` once for each
/// frame of `frames`, in order.
pub open spec fn read_run(v: ReadMessageView, frames: Seq<Frame>)
    -> Seq<(ReadMessageView, Progress<Seq<u8>>)>
    decreases frames.len(),
{
    if frames.len() == 0 {
        Seq::empty()
    } else {
        let (w, p) = read_message_next(v, frames[0]);
        seq![(w, p)] + read_run(w, frames.drop_first())
    }
}

/// Whether every poll of a run from state `v` with `frames` stays within the
/// machine's limits.
pub open spec fn read_run_ok(v: ReadMessageView, frames: Seq<Frame>) -> bool
    decreases frames.len(),
{
    frames.len() == 0 || (read_message_fits(v, frames[0]) && read_run_ok(
        read_message_next(v, frames[0]).0,
        frames.drop_first(),
    ))
}

/// The state before the `i`-th poll of a run from `v`.
pub open spec fn read_before(
    v: ReadMessageView,
    r: Seq<(ReadMessageView, Progress<Seq<u8>>)>,
    i: int,
) -> ReadMessageView {
    if i == 0 { v } else { r[i - 1].0 }
}

/// One poll of a reader keeps it consistent and loses nothing it has
/// learnt; a failing poll leaves its state as it was; and while no message is
/// ready, the buffer holds exactly the body bytes received.
pub proof fn law_read_poll_keeps_state(v: ReadMessageView, frame: Frame)
    requires
        read_valid(v),
        read_message_fits(v, frame),
    ensures
        ({
            let (w, p) = read_message_next(v, frame);
            &&& read_valid(w)
            &&& read_keeps(v, w)
            &&& p is Failed ==> w == v
            &&& (v.buffered.len() == v.body_received && !(p is Ready))
                ==> w.buffered.len() == w.body_received
        }),
{
}

/// Over any sequence of polls a reader stays consistent: a delivery once seen
/// stays seen, the body size is set once and only after the delivery, the
/// count of received bytes never goes down, every failing poll leaves the
/// state as it was, and until the first poll that is ready the buffer holds
/// exactly the body bytes received.
pub proof fn law_read_polls_keep_state(v: ReadMessageView, frames: Seq<Frame>)
    requires
        read_valid(v),
        read_run_ok(v, frames),
    ensures
        ({
            let r = read_run(v, frames);
            &&& r.len() == frames.len()
            &&& forall|i: int| 0 <= i < r.len() ==> read_valid(#[trigger] r[i].0)
                && read_keeps(v, r[i].0)
            &&& forall|i: int, j: int| 0 <= i < j < r.len() ==> read_keeps(
                #[trigger] r[i].0,
                #[trigger] r[j].0,
            )
            &&& forall|i: int| 0 <= i < r.len() && (#[trigger] r[i].1) is Failed
                ==> r[i].0 == read_before(v, r, i)
            &&& v.buffered.len() == v.body_received ==> forall|i: int| 0 <= i < r.len()
                && (forall|k: int| 0 <= k <= i ==> !(#[trigger] r[k].1 is Ready))
                ==> (#[trigger] r[i].0).buffered.len() == r[i].0.body_received
        }),
    decreases frames.len(),
{
    if frames.len() > 0 {
        let (w, p) = read_message_next(v, frames[0]);
        law_read_poll_keeps_state(v, frames[0]);
        let rest = read_run(w, frames.drop_first());
        law_read_polls_keep_state(w, frames.drop_first());
        let r = read_run(v, frames);
        assert(r =~= seq![(w, p)] + rest);
        assert forall|i: int| 0 <= i < r.len() implies read_valid(#[trigger] r[i].0)
            && read_keeps(v, r[i].0) by {
            if i > 0 {
                assert(r[i] == rest[i - 1]);
            }
        }
        assert forall|i: int, j: int| 0 <= i < j < r.len() implies read_keeps(
            #[trigger] r[i].0,
            #[trigger] r[j].0,
        ) by {
            assert(r[j] == rest[j - 1]);
            if i > 0 {
                assert(r[i] == rest[i - 1]);
            }
        }
        assert forall|i: int| 0 <= i < r.len() && (#[trigger] r[i].1) is Failed
            implies r[i].0 == read_before(v, r, i) by {
            if i > 0 {
                assert(r[i] == rest[i - 1]);
                assert(read_before(v, r, i) == read_before(w, rest, i - 1)) by {
                    if i > 1 {
                        assert(r[i - 1] == rest[i - 2]);
                    }
                }
            }
        }
        if v.buffered.len() == v.body_received {
            assert forall|i: int| 0 <= i < r.len()
                && (forall|k: int| 0 <= k <= i ==> !(#[trigger] r[k].1 is Ready))
                implies (#[trigger] r[i].0).buffered.len() == r[i].0.body_received by {
                assert(!(r[0].1 is Ready));
                if i > 0 {
                    assert(r[i] == rest[i - 1]);
                    assert forall|k: int| 0 <= k <= i - 1 implies !(#[trigger] rest[k].1 is Ready) by {
                        assert(r[k + 1] == rest[k]);
                    }
                }
            }
        }
    }
}

/// Only Basic.Deliver starts a message: a reader that has seen no delivery,
/// polled with a method frame of any other method (Basic.Return among them),
/// stays as it was and is not ready; polled with Basic.Deliver it has seen the
/// delivery and nothing else changes.
pub proof fn law_message_starts_only_on_deliver(v: ReadMessageView, channel: u16, method_id: u32)
    requires
        !v.method_delivered,
    ensures
        method_id != BASIC_DELIVER_METHOD ==> read_message_next(v, Frame::Method { channel, method_id })
            == (v, Progress::<Seq<u8>>::NotReady),
        method_id == BASIC_DELIVER_METHOD ==> read_message_next(v, Frame::Method { channel, method_id })
            == (ReadMessageView { method_delivered: true, ..v }, Progress::<Seq<u8>>::NotReady),
{
}

/// Before a delivery a reader is never ready and never fails, whatever frame
/// it reads.
pub proof fn law_nothing_before_delivery(v: ReadMessageView, frame: Frame)
    requires
        !v.method_delivered,
    ensures
        read_message_next(v, frame).1 == Progress::<Seq<u8>>::NotReady,
        read_message_next(v, frame).0.body_target == v.body_target,
        read_message_next(v, frame).0.buffered == v.buffered,
{
}
/// Once the delivery is seen, the next frame must be its content header:
/// a header sets the body size it announces, any other frame fails the read
/// and leaves the reader as it was.
pub proof fn law_header_follows_delivery(v: ReadMessageView, frame: Frame)
    requires
        v.method_delivered,
        v.body_target is None,
    ensures
        frame is Header ==> read_message_next(v, frame) == (
            ReadMessageView { body_target: Some(frame->Header_body_size as usize), ..v },
            Progress::<Seq<u8>>::NotReady,
        ),
        !(frame is Header) ==> read_message_next(v, frame) == (v, Progress::<Seq<u8>>::Failed(Error::Frame)),
{
}

/// Once the body size is known, only body frames are taken: each adds its
/// bytes to the count and to the buffered bytes, and the read is ready, with
/// all the buffered bytes, exactly when the count reaches the size; any other
/// frame fails the read and leaves the reader as it was.
pub proof fn law_body_frames_fill_the_message(v: ReadMessageView, frame: Frame)
    requires
        v.method_delivered,
        v.body_target is Some,
        read_message_fits(v, frame),
    ensures
        !(frame is Body) ==> read_message_next(v, frame) == (v, Progress::<Seq<u8>>::Failed(Error::Frame)),
        frame is Body ==> ({
            let (w, p) = read_message_next(v, frame);
            let data = v.buffered + frame->Body_fragment@;
            &&& w.body_received == v.body_received + frame->Body_fragment@.len()
            &&& w.method_delivered && w.body_target == v.body_target
            &&& (w.body_received >= v.body_target.unwrap()) == (p is Ready)
            &&& p is Ready ==> p == Progress::Ready(data) && w.buffered == Seq::<u8>::empty()
            &&& !(p is Ready) ==> p is NotReady && w.buffered == data
        }),
{
}
} // verus!
