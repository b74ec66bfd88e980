//! Fan-out of encoded frames to any number of viewers, each at its own
//! pace. Every viewer has a bounded queue; when it is full the oldest
//! pending frame makes room for the new one and the viewer's lag count
//! goes up. Publishing never waits and never fails.

use crate::frame::{EncodedFrame, EncodedFrameView};
use std::collections::VecDeque;
use vstd::prelude::*;

verus! {

/// Names one attached viewer.
#[derive(Debug, Clone, Copy, PartialEq, Eq, Structural)]
pub struct SubscriberHandle {
    id: u64,
}

impl View for SubscriberHandle {
    type V = nat;

    closed spec fn view(&self) -> nat {
        self.id as nat
    }
}

impl SubscriberHandle {
    /// The number that tells this handle from every other of its hub.
    pub fn id(&self) -> (id: u64)
        ensures
            id == self@,
    {
        self.id
    }
}

/// One viewer as the hub sees it: who it is, the frames waiting for it
/// (oldest first), and how many frames were dropped on it so far.
pub struct SubscriberView {
    pub id: nat,
    pub pending: Seq<EncodedFrameView>,
    pub lag: nat,
}

/// A lag count one higher, held at the largest count that can be kept.
pub open spec fn bump(lag: nat) -> nat {
    if lag < u64::MAX {
        lag + 1
    } else {
        lag
    }
}

/// A viewer after `frame` was published to it: the frame joins the end of
/// its queue, and if the queue was full the oldest frame is dropped and
/// counted.
pub open spec fn enqueue(sub: SubscriberView, frame: EncodedFrameView, capacity: nat)
    -> SubscriberView {
    if sub.pending.len() < capacity {
        SubscriberView { id: sub.id, pending: sub.pending.push(frame), lag: sub.lag }
    } else {
        SubscriberView {
            id: sub.id,
            pending: sub.pending.drop_first().push(frame),
            lag: bump(sub.lag),
        }
    }
}

/// All viewers after `frame` was published: each one got it.
pub open spec fn delivered(subs: Seq<SubscriberView>, frame: EncodedFrameView, capacity: nat)
    -> Seq<SubscriberView> {
    Seq::new(subs.len(), |i: int| enqueue(subs[i], frame, capacity))
}

/// The place of viewer `id` among `subs`, or `subs.len()` if it is not
/// among them.
pub open spec fn slot_of(subs: Seq<SubscriberView>, id: nat) -> int
    decreases subs.len(),
{
    if subs.len() == 0 {
        0
    } else if subs.last().id == id {
        subs.len() - 1
    } else {
        let rest = slot_of(subs.drop_last(), id);
        if rest < subs.len() - 1 {
            rest
        } else {
            subs.len() as int
        }
    }
}

/// Viewer `id` is among `subs`.
pub open spec fn attached(subs: Seq<SubscriberView>, id: nat) -> bool {
    slot_of(subs, id) < subs.len()
}

/// No viewer holds more frames than `capacity`.
pub open spec fn within_capacity(subs: Seq<SubscriberView>, capacity: nat) -> bool {
    forall|i: int| 0 <= i < subs.len() ==> (#[trigger] subs[i]).pending.len() <= capacity
}

/// No two viewers share an id.
pub open spec fn distinct_ids(subs: Seq<SubscriberView>) -> bool {
    forall|i: int, j: int|
        0 <= i < subs.len() && 0 <= j < subs.len() && i != j ==> (#[trigger] subs[i]).id != (
        #[trigger] subs[j]).id
}

/// Where a viewer is found is where its id is, and nowhere without it.
pub proof fn lemma_slot_of(subs: Seq<SubscriberView>, id: nat)
    ensures
        0 <= slot_of(subs, id) <= subs.len(),
        attached(subs, id) ==> subs[slot_of(subs, id)].id == id,
        !attached(subs, id) ==> forall|i: int| 0 <= i < subs.len() ==> subs[i].id != id,
    decreases subs.len(),
{
    if subs.len() > 0 && subs.last().id != id {
        let rest = subs.drop_last();
        lemma_slot_of(rest, id);
        assert(forall|i: int| 0 <= i < rest.len() ==> rest[i] == subs[i]);
    }
}

/// Among viewers with distinct ids, the place of a viewer's id is its own.
pub proof fn lemma_slot_found(subs: Seq<SubscriberView>, at: int)
    requires
        distinct_ids(subs),
        0 <= at < subs.len(),
    ensures
        slot_of(subs, subs[at].id) == at,
{
    lemma_slot_of(subs, subs[at].id);
}

/// A viewer after each of `frames` was published to it in turn, none
/// taken out in between.
pub open spec fn enqueue_all(sub: SubscriberView, frames: Seq<EncodedFrameView>, capacity: nat)
    -> SubscriberView
    decreases frames.len(),
{
    if frames.len() == 0 {
        sub
    } else {
        enqueue(enqueue_all(sub, frames.drop_last(), capacity), frames.last(), capacity)
    }
}

/// All viewers after each of `frames` was published in turn, with nobody
/// attaching, detaching or taking a frame in between.
pub open spec fn delivered_all(
    subs: Seq<SubscriberView>,
    frames: Seq<EncodedFrameView>,
    capacity: nat,
) -> Seq<SubscriberView>
    decreases frames.len(),
{
    if frames.len() == 0 {
        subs
    } else {
        delivered(delivered_all(subs, frames.drop_last(), capacity), frames.last(), capacity)
    }
}

/// How many of `count` frames in a row do not fit a queue of `capacity`.
pub open spec fn overflow_of(count: nat, capacity: nat) -> nat {
    if count > capacity {
        (count - capacity) as nat
    } else {
        0
    }
}

/// A lag count raised by `by`, held at the largest count that can be kept.
pub open spec fn raised(lag: nat, by: nat) -> nat {
    if lag + by <= u64::MAX {
        lag + by
    } else {
        u64::MAX as nat
    }
}

/// Publishing a run of frames treats every viewer on its own: each ends
/// as if the run had been published to it alone.
pub proof fn lemma_delivered_all_each(
    subs: Seq<SubscriberView>,
    frames: Seq<EncodedFrameView>,
    capacity: nat,
)
    ensures
        delivered_all(subs, frames, capacity).len() == subs.len(),
        forall|i: int|
            0 <= i < subs.len() ==> #[trigger] delivered_all(subs, frames, capacity)[i]
                == enqueue_all(subs[i], frames, capacity),
    decreases frames.len(),
{
    if frames.len() > 0 {
        lemma_delivered_all_each(subs, frames.drop_last(), capacity);
    }
}

/// What a run of published frames leaves with a viewer that takes none
/// out: the newest frames that fit, in the order published, and a lag
/// raised by the number of frames that did not fit.
pub proof fn lemma_enqueue_all(sub: SubscriberView, frames: Seq<EncodedFrameView>, capacity: nat)
    requires
        capacity >= 1,
        sub.pending.len() <= capacity,
        sub.lag <= u64::MAX,
    ensures
        ({
            let all = sub.pending + frames;
            let excess = overflow_of(all.len(), capacity);
            let after = enqueue_all(sub, frames, capacity);
            &&& after.id == sub.id
            &&& after.pending == all.subrange(excess as int, all.len() as int)
            &&& after.lag == raised(sub.lag, excess)
        }),
    decreases frames.len(),
{
    let all = sub.pending + frames;
    let excess = overflow_of(all.len(), capacity);
    let after = enqueue_all(sub, frames, capacity);
    if frames.len() == 0 {
        assert(all =~= sub.pending);
        assert(after.pending =~= all.subrange(excess as int, all.len() as int));
    } else {
        let shorter = frames.drop_last();
        lemma_enqueue_all(sub, shorter, capacity);
        let all_before = sub.pending + shorter;
        let excess_before = overflow_of(all_before.len(), capacity);
        let before = enqueue_all(sub, shorter, capacity);
        assert(all =~= all_before.push(frames.last()));
        assert(before.pending.len() == all_before.len() - excess_before);
        assert(after.pending =~= all.subrange(excess as int, all.len() as int));
    }
}

/// A viewer that attached with an empty queue of capacity `k` and took
/// nothing out while `n > k` frames were published has a lag of `n - k`,
/// and holds the last `k` frames in the order published.
pub proof fn lemma_lag_of_idle_subscriber(
    id: nat,
    frames: Seq<EncodedFrameView>,
    capacity: nat,
)
    requires
        capacity >= 1,
        frames.len() > capacity,
        frames.len() - capacity <= u64::MAX,
    ensures
        ({
            let fresh = SubscriberView { id, pending: Seq::empty(), lag: 0 };
            let after = enqueue_all(fresh, frames, capacity);
            &&& after.lag == frames.len() - capacity
            &&& after.pending == frames.subrange(frames.len() - capacity, frames.len() as int)
        }),
{
    let fresh = SubscriberView { id, pending: Seq::empty(), lag: 0 };
    lemma_enqueue_all(fresh, frames, capacity);
    assert(fresh.pending + frames =~= frames);
}

/// In a hub whose queues hold `k` frames, a viewer with an empty queue and
/// no lag that takes nothing out while `n > k` frames are published ends
/// with a lag of `n - k`, holding the last `k` frames in the order
/// published.
pub proof fn lemma_hub_lag_of_idle_subscriber(
    subs: Seq<SubscriberView>,
    at: int,
    frames: Seq<EncodedFrameView>,
    capacity: nat,
)
    requires
        0 <= at < subs.len(),
        subs[at].pending.len() == 0,
        subs[at].lag == 0,
        capacity >= 1,
        frames.len() > capacity,
        frames.len() - capacity <= u64::MAX,
    ensures
        ({
            let after = delivered_all(subs, frames, capacity)[at];
            &&& after.id == subs[at].id
            &&& after.lag == frames.len() - capacity
            &&& after.pending == frames.subrange(frames.len() - capacity, frames.len() as int)
        }),
{
    lemma_delivered_all_each(subs, frames, capacity);
    lemma_enqueue_all(subs[at], frames, capacity);
    assert(subs[at].pending + frames =~= frames);
}

/// The viewers without the one named `id`, if it was among them.
pub open spec fn without(subs: Seq<SubscriberView>, id: nat) -> Seq<SubscriberView> {
    if attached(subs, id) {
        subs.remove(slot_of(subs, id))
    } else {
        subs
    }
}

/// Detaching one viewer leaves every other viewer attached, with its
/// queue and lag as they were.
pub proof fn lemma_detach_keeps_others(subs: Seq<SubscriberView>, gone: nat, other: nat)
    requires
        distinct_ids(subs),
        gone != other,
        attached(subs, other),
    ensures
        distinct_ids(without(subs, gone)),
        attached(without(subs, gone), other),
        without(subs, gone)[slot_of(without(subs, gone), other)] == subs[slot_of(subs, other)],
{
    let rest = without(subs, gone);
    lemma_slot_of(subs, gone);
    lemma_slot_of(subs, other);
    let at = slot_of(subs, other);
    if attached(subs, gone) {
        let hole = slot_of(subs, gone);
        assert forall|i: int, j: int|
            0 <= i < rest.len() && 0 <= j < rest.len() && i != j implies (#[trigger] rest[i]).id
            != (#[trigger] rest[j]).id by {
            let oi = if i < hole { i } else { i + 1 };
            let oj = if j < hole { j } else { j + 1 };
            assert(rest[i] == subs[oi]);
            assert(rest[j] == subs[oj]);
        }
        let moved = if at < hole { at } else { at - 1 };
        assert(rest[moved] == subs[at]);
        lemma_slot_found(rest, moved);
    }
}

/// Publishing keeps every viewer in its place: who is attached, and
/// where, does not change.
pub proof fn lemma_publish_keeps_slots(
    subs: Seq<SubscriberView>,
    frame: EncodedFrameView,
    capacity: nat,
    id: nat,
)
    ensures
        slot_of(delivered(subs, frame, capacity), id) == slot_of(subs, id),
        delivered(subs, frame, capacity).len() == subs.len(),
        attached(subs, id) ==> delivered(subs, frame, capacity)[slot_of(subs, id)] == enqueue(
            subs[slot_of(subs, id)],
            frame,
            capacity,
        ),
    decreases subs.len(),
{
    let after = delivered(subs, frame, capacity);
    lemma_slot_of(subs, id);
    if subs.len() > 0 {
        assert(after.last().id == subs.last().id);
        if subs.last().id != id {
            lemma_publish_keeps_slots(subs.drop_last(), frame, capacity, id);
            assert(after.drop_last() =~= delivered(subs.drop_last(), frame, capacity));
        }
    }
}

/// Changing what waits for one viewer keeps every viewer in its place.
pub proof fn lemma_update_keeps_slots(
    subs: Seq<SubscriberView>,
    at: int,
    changed: SubscriberView,
    id: nat,
)
    requires
        0 <= at < subs.len(),
        changed.id == subs[at].id,
    ensures
        slot_of(subs.update(at, changed), id) == slot_of(subs, id),
    decreases subs.len(),
{
    let after = subs.update(at, changed);
    assert(after.last().id == subs.last().id);
    if subs.last().id != id {
        if at < subs.len() - 1 {
            lemma_update_keeps_slots(subs.drop_last(), at, changed, id);
            assert(after.drop_last() =~= subs.drop_last().update(at, changed));
        } else {
            assert(after.drop_last() =~= subs.drop_last());
        }
    }
}

struct Subscriber {
    id: u64,
    queue: VecDeque<EncodedFrame>,
    lag: u64,
}

impl View for Subscriber {
    type V = SubscriberView;

    closed spec fn view(&self) -> SubscriberView {
        SubscriberView {
            id: self.id as nat,
            pending: Seq::new(self.queue@.len(), |i: int| self.queue@[i]@),
            lag: self.lag as nat,
        }
    }
}

/// The hub: every attached viewer with its queue, in the order in which
/// they attached.
pub struct BroadcastHub {
    capacity: usize,
    next_id: u64,
    subscribers: Vec<Subscriber>,
}

impl View for BroadcastHub {
    type V = Seq<SubscriberView>;

    closed spec fn view(&self) -> Seq<SubscriberView> {
        Seq::new(self.subscribers@.len(), |i: int| self.subscribers@[i]@)
    }
}

impl BroadcastHub {
    /// The most frames that wait for one viewer.
    pub closed spec fn spec_capacity(&self) -> nat {
        self.capacity as nat
    }

    /// Every id given out so far is below the next one to give.
    pub closed spec fn ids_are_used(&self) -> bool {
        forall|i: int| 0 <= i < self@.len() ==> (#[trigger] self@[i]).id < self.next_id
    }

    /// The number of handles given out so far, detached ones included. A
    /// handle's id is the number of handles given before it.
    pub closed spec fn handles_given(&self) -> nat {
        self.next_id as nat
    }

    /// Another viewer can attach: the ids are not used up.
    pub open spec fn has_free_handle(&self) -> bool {
        self.handles_given() < u64::MAX
    }

    /// The hub's invariant: a capacity of at least one, no viewer over it,
    /// and no id given twice.
    pub open spec fn wf(&self) -> bool {
        &&& self.spec_capacity() >= 1
        &&& within_capacity(self@, self.spec_capacity())
        &&& distinct_ids(self@)
        &&& self.ids_are_used()
    }

    /// A hub without viewers whose queues will hold `capacity` frames each.
    pub fn new(capacity: usize) -> (hub: BroadcastHub)
        requires
            capacity >= 1,
        ensures
            hub.wf(),
            hub@ == Seq::<SubscriberView>::empty(),
            hub.spec_capacity() == capacity,
            hub.handles_given() == 0,
    {
        let hub = BroadcastHub { capacity, next_id: 0, subscribers: Vec::new() };
        assert(hub@ =~= Seq::<SubscriberView>::empty());
        hub
    }

    /// The most frames that wait for one viewer.
    pub fn capacity(&self) -> (capacity: usize)
        ensures
            capacity == self.spec_capacity(),
    {
        self.capacity
    }

    /// The number of attached viewers.
    pub fn subscriber_count(&self) -> (count: usize)
        ensures
            count == self@.len(),
    {
        self.subscribers.len()
    }

    /// Whether another viewer can attach.
    pub fn can_attach(&self) -> (free: bool)
        ensures
            free == self.has_free_handle(),
    {
        self.next_id < u64::MAX
    }

    /// Where the viewer of `handle` is kept, if it is attached.
    fn find(&self, handle: SubscriberHandle) -> (at: usize)
        requires
            self.wf(),
        ensures
            at == slot_of(self@, handle@),
            at <= self.subscribers@.len(),
    {
        let mut i: usize = 0;
        while i < self.subscribers.len()
            invariant
                i <= self.subscribers@.len(),
                self.wf(),
                self@.len() == self.subscribers@.len(),
                forall|j: int| 0 <= j < i ==> self@[j].id != handle@,
            decreases self.subscribers@.len() - i,
        {
            if self.subscribers[i].id == handle.id {
                proof {
                    assert(self@[i as int].id == handle@);
                    lemma_slot_found(self@, i as int);
                }
                return i;
            }
            i = i + 1;
        }
        proof {
            lemma_slot_of(self@, handle@);
        }
        i
    }

    /// Whether the viewer of `handle` is attached.
    pub fn is_attached(&self, handle: SubscriberHandle) -> (yes: bool)
        requires
            self.wf(),
        ensures
            yes == attached(self@, handle@),
    {
        self.find(handle) < self.subscribers.len()
    }

    /// How many frames were dropped on the viewer of `handle`; `None` if it
    /// is not attached.
    pub fn lag(&self, handle: SubscriberHandle) -> (lag: Option<u64>)
        requires
            self.wf(),
        ensures
            lag is Some <==> attached(self@, handle@),
            lag matches Some(n) ==> n == self@[slot_of(self@, handle@)].lag,
    {
        let at = self.find(handle);
        if at < self.subscribers.len() {
            Some(self.subscribers[at].lag)
        } else {
            None
        }
    }

    /// How many frames wait for the viewer of `handle`; `None` if it is not
    /// attached.
    pub fn pending(&self, handle: SubscriberHandle) -> (count: Option<usize>)
        requires
            self.wf(),
        ensures
            count is Some <==> attached(self@, handle@),
            count matches Some(n) ==> n == self@[slot_of(self@, handle@)].pending.len(),
    {
        let at = self.find(handle);
        if at < self.subscribers.len() {
            Some(self.subscribers[at].queue.len())
        } else {
            None
        }
    }

    /// Attaches a new viewer, with an empty queue and no lag, after those
    /// already attached. Its handle is one that no viewer had before: its
    /// id is the number of handles given so far.
    pub fn attach(&mut self) -> (handle: SubscriberHandle)
        requires
            old(self).wf(),
            old(self).has_free_handle(),
        ensures
            final(self).wf(),
            final(self).spec_capacity() == old(self).spec_capacity(),
            final(self).handles_given() == old(self).handles_given() + 1,
            handle@ == old(self).handles_given(),
            !attached(old(self)@, handle@),
            final(self)@ == old(self)@.push(
                SubscriberView { id: handle@, pending: Seq::empty(), lag: 0 },
            ),
    {
        let id: u64 = self.next_id;
        proof {
            lemma_slot_of(self@, id as nat);
        }
        let sub = Subscriber { id, queue: VecDeque::new(), lag: 0 };
        assert(sub@.pending =~= Seq::<EncodedFrameView>::empty());
        self.subscribers.push(sub);
        self.next_id = id + 1;
        assert(self@ =~= old(self)@.push(
            SubscriberView { id: id as nat, pending: Seq::empty(), lag: 0 },
        ));
        SubscriberHandle { id }
    }

    /// Detaches the viewer of `handle` and drops what waited for it. The
    /// other viewers are untouched; a handle that is not attached is no
    /// error.
    pub fn detach(&mut self, handle: SubscriberHandle)
        requires
            old(self).wf(),
        ensures
            final(self).wf(),
            final(self).spec_capacity() == old(self).spec_capacity(),
            final(self).handles_given() == old(self).handles_given(),
            !attached(final(self)@, handle@),
            final(self)@ == without(old(self)@, handle@),
    {
        let at = self.find(handle);
        if at < self.subscribers.len() {
            let _ = self.subscribers.remove(at);
            assert(self@ =~= old(self)@.remove(at as int));
            proof {
                lemma_slot_of(old(self)@, handle@);
                let gone = old(self)@[at as int];
                assert forall|i: int| 0 <= i < self@.len() implies self@[i].id != handle@ by {
                    if i < at {
                        assert(self@[i] == old(self)@[i]);
                        assert(old(self)@[i].id != gone.id);
                    } else {
                        assert(self@[i] == old(self)@[i + 1]);
                        assert(old(self)@[i + 1].id != gone.id);
                    }
                }
                lemma_slot_of(self@, handle@);
            }
        } else {
            proof {
                lemma_slot_of(self@, handle@);
            }
        }
    }

    /// Publishes `frame` to every attached viewer, in their order. A full
    /// queue drops its oldest frame and counts it as lag. Never waits,
    /// never fails.
    pub fn publish(&mut self, frame: EncodedFrame)
        requires
            old(self).wf(),
        ensures
            final(self).wf(),
            final(self).spec_capacity() == old(self).spec_capacity(),
            final(self).handles_given() == old(self).handles_given(),
            final(self)@ == delivered(old(self)@, frame@, old(self).spec_capacity()),
    {
        let capacity: usize = self.capacity;
        let mut i: usize = 0;
        while i < self.subscribers.len()
            invariant
                i <= self.subscribers@.len(),
                self.capacity == capacity,
                capacity >= 1,
                self.next_id == old(self).next_id,
                self@.len() == old(self)@.len(),
                self@.len() == self.subscribers@.len(),
                forall|j: int|
                    0 <= j < i ==> #[trigger] self@[j] == enqueue(
                        old(self)@[j],
                        frame@,
                        capacity as nat,
                    ),
                forall|j: int| i <= j < self@.len() ==> #[trigger] self@[j] == old(self)@[j],
                old(self).wf(),
            decreases self.subscribers@.len() - i,
        {
            let copy = frame.clone();
            let ghost before = self@;
            let sub = &mut self.subscribers[i];
            if sub.queue.len() >= capacity {
                let _ = sub.queue.pop_front();
                sub.lag = sub.lag.saturating_add(1);
            }
            sub.queue.push_back(copy);
            proof {
                let now = self@[i as int];
                let want = enqueue(before[i as int], frame@, capacity as nat);
                assert(now.id == want.id);
                assert(now.lag == want.lag);
                assert(now.pending =~= want.pending);
                assert(now == want);
                assert(before[i as int] == old(self)@[i as int]);
                assert forall|j: int| 0 <= j < self@.len() && j != i implies #[trigger] self@[j]
                    == before[j] by {}
            }
            i = i + 1;
        }
        proof {
            assert(self@ =~= delivered(old(self)@, frame@, capacity as nat));
        }
    }

    /// Takes the oldest frame that waits for the viewer of `handle`:
    /// `None` when nothing waits or the viewer is not attached.
    pub fn next_frame(&mut self, handle: SubscriberHandle) -> (frame: Option<EncodedFrame>)
        requires
            old(self).wf(),
        ensures
            final(self).wf(),
            final(self).spec_capacity() == old(self).spec_capacity(),
            final(self).handles_given() == old(self).handles_given(),
            frame is Some <==> attached(old(self)@, handle@) && old(self)@[slot_of(
                old(self)@,
                handle@,
            )].pending.len() > 0,
            frame matches Some(f) ==> {
                let at = slot_of(old(self)@, handle@);
                let sub = old(self)@[at];
                &&& f@ == sub.pending[0]
                &&& final(self)@ == old(self)@.update(
                    at,
                    SubscriberView { id: sub.id, pending: sub.pending.drop_first(), lag: sub.lag },
                )
            },
            frame is None ==> final(self)@ == old(self)@,
    {
        let at = self.find(handle);
        if at >= self.subscribers.len() {
            return None;
        }
        let sub = &mut self.subscribers[at];
        let frame = sub.queue.pop_front();
        proof {
            if frame is Some {
                let was = old(self)@[at as int];
                assert(self@[at as int].pending =~= was.pending.drop_first());
                assert(self@ =~= old(self)@.update(
                    at as int,
                    SubscriberView { id: was.id, pending: was.pending.drop_first(), lag: was.lag },
                ));
            } else {
                assert(self@[at as int].pending =~= old(self)@[at as int].pending);
                assert(self@ =~= old(self)@);
            }
        }
        frame
    }
}

} // verus!
