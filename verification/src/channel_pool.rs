use vstd::prelude::*;
use std::collections::VecDeque;

verus! {

/// The idle channels of a channel pool, handed out first in, first out, and
/// the number of channels the pool was opened with.
pub struct SharedPool<T> {
    channels: VecDeque<T>,
    capacity: usize,
}

/// A pool's state as plain values.
pub struct SharedPoolView<T> {
    pub channels: Seq<T>,
    pub capacity: usize,
}

impl<T> View for SharedPool<T> {
    type V = SharedPoolView<T>;

    closed spec fn view(&self) -> SharedPoolView<T> {
        SharedPoolView { channels: self.channels@, capacity: self.capacity }
    }
}

/// Taking a channel from the idle channels `s`: the one that has waited
/// longest, and the channels left; nothing where none is idle.
pub open spec fn pool_take<T>(s: Seq<T>) -> (Option<T>, Seq<T>) {
    if s.len() == 0 {
        (None, s)
    } else {
        (Some(s[0]), s.drop_first())
    }
}

/// The ids of the channels a pool of `capacity` channels opens: 1, 2, ... up
/// to `capacity` taken as a `u16`.
pub open spec fn idle_ids(capacity: usize) -> Seq<u16> {
    Seq::new((capacity as u16) as nat, |i: int| (i + 1) as u16)
}

/// The ids of the channels a pool of `capacity` channels opens. The count is
/// `capacity` cut to 16 bits, and one more than it must fit in a `u16`.
pub fn idle_channel_ids(capacity: usize) -> (ids: Vec<u16>)
    requires
        (capacity as u16) < u16::MAX,
    ensures
        ids@ == idle_ids(capacity),
{
    let end: u16 = (capacity as u16) + 1;
    let mut ids: Vec<u16> = Vec::new();
    let mut id: u16 = 1;
    while id < end
        invariant
            end == (capacity as u16) + 1,
            1 <= id <= end,
            ids@.len() == id - 1,
            forall|j: int| 0 <= j < ids@.len() ==> ids@[j] == j + 1,
        decreases end - id,
    {
        ids.push(id);
        id = id + 1;
    }
    assert(ids@ =~= idle_ids(capacity));
    ids
}

impl<T> SharedPool<T> {
    /// An empty pool for `capacity` channels.
    pub fn new(capacity: usize) -> (p: SharedPool<T>)
        ensures
            p@.channels == Seq::<T>::empty(),
            p@.capacity == capacity,
    {
        SharedPool { channels: VecDeque::with_capacity(capacity), capacity }
    }

    /// The number of channels the pool was opened with.
    pub fn capacity(&self) -> (c: usize)
        ensures
            c == self@.capacity,
    {
        self.capacity
    }

    /// Hands out the channel that has been idle longest, if any.
    pub fn try_get(&mut self) -> (c: Option<T>)
        ensures
            (c, final(self)@.channels) == pool_take(old(self)@.channels),
            final(self)@.capacity == old(self)@.capacity,
    {
        let c = self.channels.pop_front();
        proof {
            if c is Some {
                assert(self.channels@ =~= old(self)@.channels.drop_first());
            }
        }
        c
    }

    /// Takes a channel back: it waits behind the idle ones.
    pub fn put_back(&mut self, channel: T)
        ensures
            final(self)@.channels == old(self)@.channels.push(channel),
            final(self)@.capacity == old(self)@.capacity,
    {
        self.channels.push_back(channel);
    }
}

/// A channel put back waits behind those already idle: taking from the idle
/// channels `s` with `x` put back gives what taking from `s` gives, with `x`
/// waiting last, and gives `x` where nothing else is idle.
pub proof fn law_put_back_waits_last<T>(s: Seq<T>, x: T)
    ensures
        pool_take(s.push(x)) == (if s.len() == 0 {
            (Some(x), Seq::<T>::empty())
        } else {
            (Some(s[0]), s.drop_first().push(x))
        }),
{
    if s.len() == 0 {
        assert(s.push(x).drop_first() =~= Seq::<T>::empty());
    } else {
        assert(s.push(x).drop_first() =~= s.drop_first().push(x));
    }
}

/// Getting a channel and putting it back loses none: the idle channels are
/// the same, the first moved to the end.
pub proof fn law_get_then_put_back_rotates<T>(s: Seq<T>)
    requires
        s.len() > 0,
    ensures
        ({
            let (c, rest) = pool_take(s);
            &&& c == Some(s[0])
            &&& rest.push(c.unwrap()) == s.drop_first().push(s[0])
            &&& rest.push(c.unwrap()).to_multiset() == s.to_multiset()
        }),
{
    let rest = s.drop_first();
    let head = seq![s[0]];
    assert(s =~= head + rest);
    assert(rest.push(s[0]) =~= rest + head);
    vstd::seq_lib::lemma_seq_union_to_multiset_commutative(rest, head);
    assert((rest + head).to_multiset() == (head + rest).to_multiset());
    assert(rest.push(s[0]).to_multiset() == s.to_multiset());
}

/// The channels a pool opens have distinct ids, from 1 up to its capacity
/// cut to 16 bits.
pub proof fn law_idle_ids_distinct(capacity: usize)
    requires
        (capacity as u16) < u16::MAX,
    ensures
        idle_ids(capacity).len() == capacity as u16,
        forall|i: int| 0 <= i < idle_ids(capacity).len() ==>
            1 <= #[trigger] idle_ids(capacity)[i] <= capacity as u16,
        idle_ids(capacity).no_duplicates(),
{
}

} // verus!
