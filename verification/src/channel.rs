//! Bounded subscriber channels from `tokio::sync::mpsc`, as the broadcast
//! hubs use them. What a send or a closed-check returns depends on the
//! receiving side, which this library does not see, so those wrappers state
//! nothing of their results; the hubs' own contracts hold for every result.
use vstd::prelude::*;
use tokio::sync::mpsc::{Receiver, Sender};
use tokio::sync::mpsc::error::TrySendError;

verus! {

#[verifier::external_type_specification]
#[verifier::external_body]
#[verifier::reject_recursive_types(T)]
pub struct ExSender<T>(tokio::sync::mpsc::Sender<T>);

#[verifier::external_type_specification]
#[verifier::external_body]
#[verifier::reject_recursive_types(T)]
pub struct ExReceiver<T>(tokio::sync::mpsc::Receiver<T>);

/// How one non-blocking send went.
#[derive(Debug, Clone, Copy, PartialEq, Eq, Structural)]
pub enum SendOutcome {
    /// The message was queued.
    Sent,
    /// The subscriber's channel was full; the message was dropped.
    Full,
    /// The subscriber has gone away.
    Closed,
}

/// Largest channel depth tokio accepts (its semaphore's permit limit).
pub open spec fn max_channel_depth() -> int {
    (usize::MAX / 8) as int
}

/// `tokio::sync::mpsc::channel`: a bounded channel holding up to `depth`
/// messages. It panics for a depth of zero or above the permit limit.
#[verifier::external_body]
pub(crate) fn open_channel<T>(depth: usize) -> (Sender<T>, Receiver<T>)
    requires
        0 < depth <= max_channel_depth(),
{
    tokio::sync::mpsc::channel(depth)
}

/// `Sender::try_send`: queues `message` without waiting. The result depends
/// on the receiving side (how much it has drained, whether it still
/// exists), so nothing is stated of it.
#[verifier::external_body]
pub(crate) fn try_send<T>(tx: &Sender<T>, message: T) -> SendOutcome {
    match tx.try_send(message) {
        Ok(()) => SendOutcome::Sent,
        Err(TrySendError::Full(_)) => SendOutcome::Full,
        Err(TrySendError::Closed(_)) => SendOutcome::Closed,
    }
}

/// `Sender::is_closed`: whether the receiving side has gone away. It
/// depends on the receiving side, so nothing is stated of it.
#[verifier::external_body]
pub(crate) fn sender_is_closed<T>(tx: &Sender<T>) -> bool {
    tx.is_closed()
}

/// `closed` is an answer that asking tokio whether `tx`'s receiving side
/// has gone away ([`sender_is_closed`] on `tx` itself) may have given.
pub closed spec fn reported_closed<T>(tx: Sender<T>, closed: bool) -> bool {
    call_ensures(sender_is_closed::<T>, (&tx,), closed)
}

/// Asks whether `tx`'s receiving side has gone away; the answer is one
/// that question about `tx` may give.
pub(crate) fn ask_closed<T>(tx: &Sender<T>) -> (closed: bool)
    ensures
        reported_closed(*tx, closed),
{
    let ask = sender_is_closed::<T>;
    ask(tx)
}

/// The entries of `all` whose flag in `keep` is set, in their original order.
pub open spec fn filter_by<T>(all: Seq<T>, keep: Seq<bool>) -> Seq<T>
    decreases all.len(),
{
    if all.len() == 0 || keep.len() == 0 {
        Seq::empty()
    } else {
        let rest = filter_by(all.drop_last(), keep.drop_last());
        if keep.last() {
            rest.push(all.last())
        } else {
            rest
        }
    }
}

/// `kept` is what remains of `all` after dropping some entries, the rest
/// keeping their order.
pub open spec fn is_pruning_of<T>(kept: Seq<T>, all: Seq<T>) -> bool {
    exists|keep: Seq<bool>| keep.len() == all.len() && kept == filter_by(all, keep)
}

/// Pruning never adds entries.
pub proof fn lemma_filter_by_len<T>(all: Seq<T>, keep: Seq<bool>)
    ensures
        filter_by(all, keep).len() <= all.len(),
    decreases all.len(),
{
    if all.len() > 0 && keep.len() > 0 {
        lemma_filter_by_len(all.drop_last(), keep.drop_last());
    }
}

/// The keep-flags for entries with the given closed-flags: keep exactly
/// the entries that are not closed.
pub open spec fn open_flags(closed: Seq<bool>) -> Seq<bool> {
    closed.map_values(|c: bool| !c)
}

/// Pruning by closed-flags keeps exactly the open entries: every entry
/// whose flag is false is kept, every kept entry is one whose flag is
/// false, and the kept list is as long as the number of false flags.
pub proof fn law_pruning_keeps_exactly_the_open_entries<T>(all: Seq<T>, closed: Seq<bool>)
    requires
        closed.len() == all.len(),
    ensures
        forall|j: int| 0 <= j < all.len() && !closed[j] ==> filter_by(all, open_flags(closed)).contains(#[trigger] all[j]),
        forall|k: int| 0 <= k < filter_by(all, open_flags(closed)).len() ==>
            exists|j: int| 0 <= j < all.len() && !closed[j] && all[j] == #[trigger] filter_by(all, open_flags(closed))[k],
        filter_by(all, open_flags(closed)).len() == closed.filter(|c: bool| !c).len(),
    decreases all.len(),
{
    let kept = filter_by(all, open_flags(closed));
    if all.len() > 0 {
        let a = all.drop_last();
        let c = closed.drop_last();
        assert(open_flags(closed).drop_last() =~= open_flags(c));
        law_pruning_keeps_exactly_the_open_entries(a, c);
        let rest = filter_by(a, open_flags(c));
        assert(closed =~= c.push(closed.last()));
        reveal(Seq::filter);
        assert(c.push(closed.last()).filter(|c: bool| !c) == if !closed.last() {
            c.filter(|c: bool| !c).push(closed.last())
        } else {
            c.filter(|c: bool| !c)
        }) by {
            assert(c.push(closed.last()).drop_last() =~= c);
        }
        assert forall|j: int| 0 <= j < all.len() && !closed[j] implies kept.contains(#[trigger] all[j]) by {
            if j < all.len() - 1 {
                assert(a[j] == all[j] && c[j] == closed[j]);
                assert(rest.contains(a[j]));
                let k = choose|k: int| 0 <= k < rest.len() && rest[k] == a[j];
                assert(kept[k] == all[j]);
            } else {
                assert(kept[kept.len() - 1] == all[j]);
            }
        }
        assert forall|k: int| 0 <= k < kept.len() implies
            exists|j: int| 0 <= j < all.len() && !closed[j] && all[j] == #[trigger] kept[k] by {
            if k < rest.len() {
                assert(kept[k] == rest[k]);
                let j = choose|j: int| 0 <= j < a.len() && !c[j] && a[j] == #[trigger] rest[k];
                assert(all[j] == a[j] && closed[j] == c[j]);
            } else {
                assert(kept[k] == all.last() && !closed[all.len() - 1]);
            }
        }
    } else {
        assert(closed.filter(|c: bool| !c) =~= Seq::<bool>::empty()) by {
            reveal(Seq::filter);
        }
    }
}

/// Keeps, in order, exactly the entries whose flag in `closed` is false.
pub fn keep_open<T>(entries: Vec<T>, closed: &Vec<bool>) -> (r: Vec<T>)
    requires
        closed@.len() == entries@.len(),
    ensures
        r@ == filter_by(entries@, open_flags(closed@)),
{
    let ghost all = entries@;
    let ghost flags = open_flags(closed@);
    let mut rest = entries;
    let mut kept: Vec<T> = Vec::new();
    let mut i: usize = 0;
    let n = rest.len();
    while rest.len() > 0
        invariant
            n == all.len(),
            closed@.len() == n,
            flags == open_flags(closed@),
            i + rest@.len() == n,
            rest@ == all.skip(i as int),
            kept@ == filter_by(all.take(i as int), flags.take(i as int)),
        decreases rest@.len(),
    {
        let item = rest.remove(0);
        proof {
            assert(all.take(i as int + 1).drop_last() =~= all.take(i as int));
            assert(all.take(i as int + 1).last() == item);
            assert(flags.take(i as int + 1).drop_last() =~= flags.take(i as int));
            assert(flags.take(i as int + 1).last() == !closed@[i as int]);
            assert(all.skip(i as int).drop_first() =~= all.skip(i as int + 1));
        }
        if !closed[i] {
            kept.push(item);
        }
        i = i + 1;
    }
    assert(all.take(n as int) =~= all);
    assert(flags.take(n as int) =~= flags);
    kept
}

/// `kept` is `all` with exactly the senders dropped that were each, asked
/// about themselves, reported closed; the rest keep their order.
pub open spec fn pruned_by_own_answers<T>(kept: Seq<Sender<T>>, all: Seq<Sender<T>>) -> bool {
    exists|closed: Seq<bool>|
        #![trigger filter_by(all, open_flags(closed))]
        closed.len() == all.len()
        && (forall|j: int| 0 <= j < all.len() ==> #[trigger] reported_closed(all[j], closed[j]))
        && kept == filter_by(all, open_flags(closed))
}

/// Keeps, in order, the senders whose receiving side is still there: each
/// sender is judged by the answer about itself.
pub fn retain_open<T>(subs: Vec<Sender<T>>) -> (r: Vec<Sender<T>>)
    ensures
        is_pruning_of(r@, subs@),
        r@.len() <= subs@.len(),
        pruned_by_own_answers(r@, subs@),
{
    let mut closed: Vec<bool> = Vec::new();
    let mut i: usize = 0;
    while i < subs.len()
        invariant
            i <= subs@.len(),
            closed@.len() == i,
            forall|j: int| 0 <= j < i ==> #[trigger] reported_closed(subs@[j], closed@[j]),
        decreases subs@.len() - i,
    {
        closed.push(ask_closed(&subs[i]));
        i = i + 1;
    }
    let ghost all = subs@;
    let kept = keep_open(subs, &closed);
    proof {
        lemma_filter_by_len(all, open_flags(closed@));
    }
    kept
}

} // verus!
