//! Data-plane hub: broadcasts each encoded frame packet to every connected
//! subscriber. A subscriber whose channel is full misses that frame and the
//! drop is counted; a subscriber that has gone away is pruned.
use vstd::prelude::*;
use std::sync::Arc;
use std::sync::atomic::{AtomicU64, Ordering};
use bytes::{Bytes, BytesMut};
use tokio::sync::mpsc::{Receiver, Sender};
use crate::bus::BLENDSHAPE_FRAME_BYTES;
use crate::bytes_buf::{bytes_clone, bytes_mut_clear, bytes_mut_clone, bytes_mut_contents, bytes_mut_freeze};
use crate::channel::{ask_closed, filter_by, is_pruning_of, keep_open, open_channel, open_flags, reported_closed, try_send, SendOutcome};
use crate::core_types::share_arc;
use crate::frame::{encode, packet_bytes, KINEMATIC_FRAME_BYTES};

verus! {

/// Frames a subscriber's channel holds before frames are dropped for it
/// (a third of a second at 60 FPS).
pub const SUBSCRIBER_CHANNEL_DEPTH: usize = 20;

/// One subscriber: its channel and its own dropped-frame counter.
pub struct Subscriber {
    tx: Sender<Bytes>,
    dropped: Arc<AtomicU64>,
}

/// The sender half of a subscriber's channel.
pub closed spec fn subscriber_sender(s: Subscriber) -> Sender<Bytes> {
    s.tx
}

/// `kept` is `all` with exactly the subscribers dropped whose own channel,
/// asked about itself, was reported closed; the rest keep their order.
pub open spec fn subscribers_pruned_by_own_answers(kept: Seq<Subscriber>, all: Seq<Subscriber>) -> bool {
    exists|closed: Seq<bool>|
        #![trigger filter_by(all, open_flags(closed))]
        closed.len() == all.len()
        && (forall|j: int| 0 <= j < all.len() ==> #[trigger] reported_closed(subscriber_sender(all[j]), closed[j]))
        && kept == filter_by(all, open_flags(closed))
}

/// Adds one to a subscriber's own dropped-frame counter. The counter is
/// shared with the subscriber's owner, who reads it; the hub only adds.
fn note_drop(counter: &AtomicU64) {
    let _ = counter.fetch_add(1, Ordering::Relaxed);
}

/// Number of `Full` outcomes in `outcomes`.
pub open spec fn count_full(outcomes: Seq<SendOutcome>) -> nat
    decreases outcomes.len(),
{
    if outcomes.len() == 0 {
        0
    } else {
        count_full(outcomes.drop_last()) + (if outcomes.last() == SendOutcome::Full { 1nat } else { 0nat })
    }
}

/// `count` added to the wrapping counter `c`.
pub open spec fn wrapped_add(c: u64, count: int) -> u64 {
    ((c as int + count) % (u64::MAX as int + 1)) as u64
}

/// The data-plane broadcast hub.
pub struct DataChannelHub {
    subscribers: Vec<Subscriber>,
    /// Packets sent to at least one subscriber, wrapping.
    frames_broadcast: u64,
    /// Packets dropped across all subscribers, wrapping.
    total_dropped: u64,
}

impl DataChannelHub {
    /// The registered subscribers, oldest first.
    pub closed spec fn spec_subscribers(&self) -> Seq<Subscriber> {
        self.subscribers@
    }

    /// Packets sent to at least one subscriber so far.
    pub closed spec fn spec_frames_broadcast(&self) -> u64 {
        self.frames_broadcast
    }

    /// Packets dropped so far.
    pub closed spec fn spec_total_dropped(&self) -> u64 {
        self.total_dropped
    }

    /// A hub with no subscribers and zeroed counters.
    pub fn new() -> (h: Self)
        ensures
            h.spec_subscribers() == Seq::<Subscriber>::empty(),
            h.spec_frames_broadcast() == 0,
            h.spec_total_dropped() == 0,
    {
        DataChannelHub { subscribers: Vec::new(), frames_broadcast: 0, total_dropped: 0 }
    }

    /// Registers a subscriber. Returns its receive end, holding up to
    /// [`SUBSCRIBER_CHANNEL_DEPTH`] packets, and its dropped-frame counter.
    pub fn subscribe(&mut self) -> (r: (Receiver<Bytes>, Arc<AtomicU64>))
        ensures
            final(self).spec_subscribers().len() == old(self).spec_subscribers().len() + 1,
            final(self).spec_subscribers().drop_last() == old(self).spec_subscribers(),
            final(self).spec_frames_broadcast() == old(self).spec_frames_broadcast(),
            final(self).spec_total_dropped() == old(self).spec_total_dropped(),
    {
        let dropped = Arc::new(AtomicU64::new(0));
        let (tx, rx) = open_channel(SUBSCRIBER_CHANNEL_DEPTH);
        let mine = share_arc(&dropped);
        self.subscribers.push(Subscriber { tx, dropped: mine });
        assert(self.subscribers@.drop_last() =~= old(self).subscribers@);
        (rx, dropped)
    }

    /// Counts the outcomes of sending one packet to each subscriber, in
    /// order: each `Full` adds one to that subscriber's counter and to the
    /// hub's total. Returns whether any subscriber had gone away and
    /// whether any subscriber was sent the packet.
    pub fn record_send_outcomes(&mut self, outcomes: &Vec<SendOutcome>) -> (r: (bool, bool))
        requires
            outcomes@.len() == old(self).spec_subscribers().len(),
        ensures
            final(self).spec_total_dropped() == wrapped_add(old(self).spec_total_dropped(), count_full(outcomes@) as int),
            r.0 == outcomes@.contains(SendOutcome::Closed),
            r.1 == outcomes@.contains(SendOutcome::Sent),
            final(self).spec_subscribers() == old(self).spec_subscribers(),
            final(self).spec_frames_broadcast() == old(self).spec_frames_broadcast(),
    {
        let mut any_closed = false;
        let mut any_sent = false;
        let mut i: usize = 0;
        while i < outcomes.len()
            invariant
                i <= outcomes@.len(),
                outcomes@.len() == self.subscribers@.len(),
                self.subscribers@ == old(self).subscribers@,
                self.frames_broadcast == old(self).frames_broadcast,
                self.total_dropped == wrapped_add(old(self).total_dropped, count_full(outcomes@.take(i as int)) as int),
                any_closed == outcomes@.take(i as int).contains(SendOutcome::Closed),
                any_sent == outcomes@.take(i as int).contains(SendOutcome::Sent),
            decreases outcomes@.len() - i,
        {
            proof {
                assert(outcomes@.take(i as int + 1).drop_last() =~= outcomes@.take(i as int));
                lemma_take_one_more_contains(outcomes@, i as int, SendOutcome::Closed);
                lemma_take_one_more_contains(outcomes@, i as int, SendOutcome::Sent);
            }
            match outcomes[i] {
                SendOutcome::Sent => {
                    any_sent = true;
                },
                SendOutcome::Full => {
                    note_drop(&self.subscribers[i].dropped);
                    proof {
                        let c = count_full(outcomes@.take(i as int)) as int;
                        let m = u64::MAX as int + 1;
                        let t = self.total_dropped as int;
                        vstd::arithmetic::div_mod::lemma_add_mod_noop(old(self).total_dropped as int + c, 1, m);
                        vstd::arithmetic::div_mod::lemma_small_mod(1, m as nat);
                        vstd::arithmetic::div_mod::lemma_small_mod(t as nat, m as nat);
                        if t + 1 == m {
                            vstd::arithmetic::div_mod::lemma_mod_self_0(m);
                        } else {
                            vstd::arithmetic::div_mod::lemma_small_mod((t + 1) as nat, m as nat);
                        }
                    }
                    self.total_dropped = self.total_dropped.wrapping_add(1);
                },
                SendOutcome::Closed => {
                    any_closed = true;
                },
            }
            i = i + 1;
        }
        assert(outcomes@.take(outcomes@.len() as int) =~= outcomes@);
        (any_closed, any_sent)
    }

    /// Drops the subscribers whose receiving side has gone away.
    fn prune_closed(&mut self)
        ensures
            is_pruning_of(final(self).spec_subscribers(), old(self).spec_subscribers()),
            subscribers_pruned_by_own_answers(final(self).spec_subscribers(), old(self).spec_subscribers()),
            final(self).spec_frames_broadcast() == old(self).spec_frames_broadcast(),
            final(self).spec_total_dropped() == old(self).spec_total_dropped(),
    {
        let mut closed: Vec<bool> = Vec::new();
        let mut i: usize = 0;
        while i < self.subscribers.len()
            invariant
                i <= self.subscribers@.len(),
                closed@.len() == i,
                self.subscribers@ == old(self).subscribers@,
                forall|j: int| 0 <= j < i ==> #[trigger] reported_closed(subscriber_sender(self.subscribers@[j]), closed@[j]),
            decreases self.subscribers@.len() - i,
        {
            closed.push(ask_closed(&self.subscribers[i].tx));
            i = i + 1;
        }
        let mut all: Vec<Subscriber> = Vec::new();
        std::mem::swap(&mut all, &mut self.subscribers);
        self.subscribers = keep_open(all, &closed);
        assert(subscribers_pruned_by_own_answers(self.subscribers@, old(self).subscribers@));
    }

    /// Encodes one frame pair into `scratch` and sends the packet to every
    /// subscriber. With no subscribers nothing else happens. Otherwise, for
    /// the outcomes of those sends, the broadcast counter advances by one
    /// exactly when some subscriber was sent the packet, every subscriber
    /// whose channel was full gets one more drop counted, and, when some
    /// send found its subscriber gone, subscribers that have gone away are
    /// pruned; otherwise the subscriber list is left as it was.
    pub fn broadcast(&mut self, blend: &[u8], kin: &[u8], scratch: &mut BytesMut)
        requires
            blend@.len() == BLENDSHAPE_FRAME_BYTES,
            kin@.len() == KINEMATIC_FRAME_BYTES,
        ensures
            bytes_mut_contents(*final(scratch)) == packet_bytes(blend@, kin@),
            old(self).spec_subscribers().len() == 0 ==> {
                &&& final(self).spec_subscribers() == old(self).spec_subscribers()
                &&& final(self).spec_frames_broadcast() == old(self).spec_frames_broadcast()
                &&& final(self).spec_total_dropped() == old(self).spec_total_dropped()
            },
            old(self).spec_subscribers().len() > 0 ==> {
                &&& exists|outcomes: Seq<SendOutcome>|
                        #![trigger count_full(outcomes)]
                        outcomes.len() == old(self).spec_subscribers().len()
                        && final(self).spec_total_dropped() == wrapped_add(
                            old(self).spec_total_dropped(), count_full(outcomes) as int)
                        && final(self).spec_frames_broadcast() == (if outcomes.contains(SendOutcome::Sent) {
                            wrapped_add(old(self).spec_frames_broadcast(), 1)
                        } else {
                            old(self).spec_frames_broadcast()
                        })
                        && (!outcomes.contains(SendOutcome::Closed)
                            ==> final(self).spec_subscribers() == old(self).spec_subscribers())
                        && (outcomes.contains(SendOutcome::Closed)
                            ==> subscribers_pruned_by_own_answers(final(self).spec_subscribers(), old(self).spec_subscribers()))
                &&& is_pruning_of(final(self).spec_subscribers(), old(self).spec_subscribers())
            },
    {
        bytes_mut_clear(scratch);
        proof {
            assert(0nat % (crate::frame::PACKET_SIZE as nat) == 0);
        }
        encode(blend, kin, scratch);
        assert(Seq::<u8>::empty() + packet_bytes(blend@, kin@) =~= packet_bytes(blend@, kin@));
        let packet = bytes_mut_freeze(bytes_mut_clone(scratch));
        if self.subscribers.len() == 0 {
            return;
        }
        let mut outcomes: Vec<SendOutcome> = Vec::new();
        let mut i: usize = 0;
        while i < self.subscribers.len()
            invariant
                i <= self.subscribers@.len(),
                outcomes@.len() == i,
            decreases self.subscribers@.len() - i,
        {
            let outcome = try_send(&self.subscribers[i].tx, bytes_clone(&packet));
            outcomes.push(outcome);
            i = i + 1;
        }
        let ghost before = self.subscribers@;
        let (any_closed, any_sent) = self.record_send_outcomes(&outcomes);
        if any_sent {
            self.frames_broadcast = self.frames_broadcast.wrapping_add(1);
            assert(self.frames_broadcast == wrapped_add(old(self).frames_broadcast, 1)) by {
                let m = u64::MAX as int + 1;
                if old(self).frames_broadcast == u64::MAX {
                    vstd::arithmetic::div_mod::lemma_mod_self_0(m);
                } else {
                    vstd::arithmetic::div_mod::lemma_small_mod((old(self).frames_broadcast + 1) as nat, m as nat);
                }
            }
        }
        if any_closed {
            self.prune_closed();
        } else {
            proof {
                let keep = Seq::new(before.len(), |j: int| true);
                lemma_filter_all(before, keep);
            }
        }
        assert(self.total_dropped == wrapped_add(old(self).total_dropped, count_full(outcomes@) as int));
    }

    /// Number of registered subscribers.
    pub fn subscriber_count(&self) -> (n: usize)
        ensures
            n == self.spec_subscribers().len(),
    {
        self.subscribers.len()
    }

    /// Packets sent to at least one subscriber.
    pub fn frames_broadcast(&self) -> (n: u64)
        ensures
            n == self.spec_frames_broadcast(),
    {
        self.frames_broadcast
    }

    /// Packets dropped across all subscribers because a channel was full.
    pub fn total_dropped(&self) -> (n: u64)
        ensures
            n == self.spec_total_dropped(),
    {
        self.total_dropped
    }
}

/// Whether the first `i + 1` entries contain `x`: the first `i` do, or
/// entry `i` is `x`.
proof fn lemma_take_one_more_contains<T>(s: Seq<T>, i: int, x: T)
    requires
        0 <= i < s.len(),
    ensures
        s.take(i + 1).contains(x) <==> (s.take(i).contains(x) || s[i] == x),
{
    let t = s.take(i + 1);
    assert(t[i] == s[i]);
    if s.take(i).contains(x) {
        let j = choose|j: int| 0 <= j < i && s.take(i)[j] == x;
        assert(t[j] == x);
    }
    if t.contains(x) {
        let j = choose|j: int| 0 <= j < t.len() && t[j] == x;
        if j < i {
            assert(s.take(i)[j] == x);
        }
    }
}

/// Keeping every entry keeps the whole sequence.
proof fn lemma_filter_all<T>(all: Seq<T>, keep: Seq<bool>)
    requires
        keep.len() == all.len(),
        forall|j: int| 0 <= j < keep.len() ==> keep[j],
    ensures
        filter_by(all, keep) == all,
    decreases all.len(),
{
    if all.len() > 0 {
        lemma_filter_all(all.drop_last(), keep.drop_last());
        assert(all.drop_last().push(all.last()) =~= all);
    }
}

} // verus!
