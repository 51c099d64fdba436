use vstd::multiset::Multiset;
use vstd::prelude::*;

use crate::oneshot::{Answers, ChanView, Polled};
use crate::queue::{attached, distinct, emptied, registered, wakers_of, with_waker, without, Waiter};
use crate::runs::Op;

verus! {

/// The entry of a wake slot that holds `waker`.
pub open spec fn entry<W>(slot: u64, waker: W) -> Waiter<W> {
    Waiter { slot, waker: Some(waker) }
}

/// `op` takes the wake slot `slot` out of the queue or empties it.
pub open spec fn gives_up<T, W>(op: Op<T, W>, slot: u64) -> bool {
    match op {
        Op::DropReceiver { slot: s } => s == slot,
        Op::IntoPeeker { slot: s } => s == slot,
        Op::DropPeeker { slot: s } => s == slot,
        Op::PeekAsync { slot: s } => s == slot,
        _ => false,
    }
}

impl<T, W> ChanView<T, W> {
    /// `op` wakes all who wait: it sends the message, or it gives up the sending end.
    pub open spec fn woken_by(self, op: Op<T, W>) -> bool {
        self.sent_by(op) is Some || (op is DropSender && !self.flags.tx_closed)
    }

    /// The waker that `op` leaves with the channel, if it leaves one.
    pub open spec fn left_by(self, op: Op<T, W>) -> Option<W> {
        match op {
            Op::PollReceive { slot, waker, answers } => if self.recv_asks_cancellation(
                slot,
                answers,
            ) && !answers.cancellation && answers.lock_queue {
                Some(waker)
            } else {
                None
            },
            Op::PollPeek { slot, waker, answers } => if self.peek_asks_cancellation(slot)
                && !answers.cancellation && answers.lock_queue {
                Some(waker)
            } else {
                None
            },
            _ => None,
        }
    }

    /// All wakers that the channel keeps, whether they wait or are due.
    pub open spec fn kept_wakers(self) -> Multiset<W> {
        self.woken.to_multiset().add(wakers_of(self.waiters).to_multiset())
    }
}

/// The waker of an entry is among the wakers of the queue.
proof fn lemma_wakers_contain<W>(s: Seq<Waiter<W>>, slot: u64, waker: W)
    requires
        s.contains(entry(slot, waker)),
    ensures
        wakers_of(s).contains(waker),
    decreases s.len(),
{
    let i = choose|i: int| 0 <= i < s.len() && s[i] == entry(slot, waker);
    let init = wakers_of(s.drop_last());
    if i == s.len() - 1 {
        assert(wakers_of(s) == init.push(waker));
        assert(init.push(waker)[init.len() as int] == waker);
    } else {
        assert(s.drop_last()[i] == entry(slot, waker));
        lemma_wakers_contain(s.drop_last(), slot, waker);
        let j = choose|j: int| 0 <= j < init.len() && init[j] == waker;
        assert(wakers_of(s)[j] == waker);
    }
}

/// A waker that is put into another slot leaves an entry where it is.
proof fn lemma_with_waker_keeps<W>(s: Seq<Waiter<W>>, slot: u64, waker: W, other: u64, w: W)
    requires
        s.contains(entry(slot, waker)),
        other != slot,
    ensures
        with_waker(s, other, w).contains(entry(slot, waker)),
{
    let i = choose|i: int| 0 <= i < s.len() && s[i] == entry(slot, waker);
    assert(with_waker(s, other, w)[i] == entry(slot, waker));
}

/// An entry stays when another slot is taken out of the queue.
proof fn lemma_without_keeps<W>(s: Seq<Waiter<W>>, slot: u64, waker: W, other: u64)
    requires
        s.contains(entry(slot, waker)),
        other != slot,
    ensures
        without(s, other).contains(entry(slot, waker)),
{
    let i = choose|i: int| 0 <= i < s.len() && s[i] == entry(slot, waker);
    s.lemma_filter_contains(|w: Waiter<W>| w.slot != other, i);
}

/// Who is told to wait hangs in the queue with a waker: with the one that was just given, or, if
/// the slot held one already, with that.
pub proof fn law_pending_waits<T, W>(chan: ChanView<T, W>, slot: u64, waker: W, a: Answers)
    requires
        chan.wf(),
    ensures
        chan.recv_result(slot, a) is Pending ==> {
            &&& registered(chan.recv_next(slot, waker, a).waiters, slot)
            &&& !registered(chan.waiters, slot) ==> chan.recv_next(
                slot,
                waker,
                a,
            ).waiters.contains(entry(slot, waker))
        },
        chan.peek_poll_result(slot, a) is Pending ==> {
            &&& registered(chan.peek_poll_next(slot, waker, a).waiters, slot)
            &&& !registered(chan.waiters, slot) ==> chan.peek_poll_next(
                slot,
                waker,
                a,
            ).waiters.contains(entry(slot, waker))
        },
{
    let s = chan.waiters;
    let t = with_waker(s, slot, waker);
    assert(t.contains(entry(slot, waker)) && registered(t, slot)) by {
        if attached(s, slot) {
            let i = choose|i: int| 0 <= i < s.len() && (#[trigger] s[i]).slot == slot;
            assert(t[i] == entry(slot, waker));
        } else {
            assert(t[s.len() as int] == entry(slot, waker));
        }
    }
}

/// Who waits is not forgotten: unless its slot is given up, each thing that is done to the
/// channel leaves its waker in the queue, but for those that make it one of those due.
pub proof fn law_waiter_is_kept<T, W>(chan: ChanView<T, W>, op: Op<T, W>, slot: u64, waker: W)
    requires
        chan.wf(),
        chan.waiters.contains(entry(slot, waker)),
        !gives_up(op, slot),
    ensures
        chan.woken_by(op) ==> chan.after(op).woken.contains(waker),
        !chan.woken_by(op) ==> chan.after(op).waiters.contains(entry(slot, waker)),
{
    let s = chan.waiters;
    let i = choose|i: int| 0 <= i < s.len() && s[i] == entry(slot, waker);
    assert(registered(s, slot));
    match op {
        Op::DropReceiver { slot: other } => lemma_without_keeps(s, slot, waker, other),
        Op::IntoPeeker { slot: other } => lemma_without_keeps(s, slot, waker, other),
        Op::DropPeeker { slot: other } => lemma_without_keeps(s, slot, waker, other),
        Op::PollReceive { slot: other, waker: w, answers } => {
            if other != slot {
                lemma_with_waker_keeps(s, slot, waker, other, w);
            }
        },
        Op::PollPeek { slot: other, waker: w, answers } => {
            if other != slot {
                lemma_with_waker_keeps(s, slot, waker, other, w);
            }
        },
        Op::PeekAsync { slot: other } => {
            assert(emptied(s, other)[i] == entry(slot, waker));
        },
        _ => {
            if chan.woken_by(op) {
                law_waiter_is_woken(chan, op, slot, waker);
            }
        },
    }
}

/// Who waits is woken when the message is sent and when the sending end is given up, and nobody
/// waits any longer.
pub proof fn law_waiter_is_woken<T, W>(chan: ChanView<T, W>, op: Op<T, W>, slot: u64, waker: W)
    requires
        chan.waiters.contains(entry(slot, waker)),
        chan.woken_by(op),
    ensures
        chan.after(op).woken.contains(waker),
        chan.after(op).waiters.len() == 0,
{
    lemma_wakers_contain(chan.waiters, slot, waker);
    let k = wakers_of(chan.waiters);
    let j = choose|j: int| 0 <= j < k.len() && k[j] == waker;
    assert((chan.woken + k)[chan.woken.len() + j] == waker);
}

/// Who has no need to join the queue gets none by what is done to the channel, unless its slot is
/// given up: the message came, or none will come, or the slot keeps its waker.
pub proof fn law_no_need_to_join<T, W>(chan: ChanView<T, W>, op: Op<T, W>, slot: u64)
    requires
        chan.wf(),
        !chan.joins(slot),
        !gives_up(op, slot),
    ensures
        !chan.after(op).joins(slot),
{
    let s = chan.waiters;
    if !chan.flags.tx_expire && !chan.flags.tx_closed {
        let i = choose|i: int| 0 <= i < s.len() && (#[trigger] s[i]).slot == slot && s[i].waker is Some;
        let waker = s[i].waker->0;
        assert(s[i] == entry(slot, waker));
        law_waiter_is_kept(chan, op, slot, waker);
        let t = chan.after(op).waiters;
        if t.contains(entry(slot, waker)) {
            let j = choose|j: int| 0 <= j < t.len() && t[j] == entry(slot, waker);
            assert(t[j].slot == slot);
        }
    }
}

/// The wakers of a queue, each as often as it occurs.
spec fn waiting<W>(s: Seq<Waiter<W>>) -> Multiset<W> {
    wakers_of(s).to_multiset()
}

/// The wakers of an entry.
spec fn waker_in<W>(w: Waiter<W>) -> Multiset<W> {
    match w.waker {
        Some(k) => Multiset::singleton(k),
        None => Multiset::empty(),
    }
}

/// The wakers of a queue are those of its last entry and those before it.
proof fn lemma_waiting_last<W>(s: Seq<Waiter<W>>)
    requires
        s.len() > 0,
    ensures
        waiting(s) == waiting(s.drop_last()).add(waker_in(s.last())),
{
    broadcast use vstd::seq_lib::group_to_multiset_ensures;

    assert(waiting(s) =~= waiting(s.drop_last()).add(waker_in(s.last())));
}

/// The wakers of a queue in which one entry is replaced.
proof fn lemma_waiting_update<W>(s: Seq<Waiter<W>>, i: int, w: Waiter<W>)
    requires
        0 <= i < s.len(),
    ensures
        waiting(s.update(i, w)).add(waker_in(s[i])) == waiting(s).add(waker_in(w)),
    decreases s.len(),
{
    let t = s.update(i, w);
    lemma_waiting_last(s);
    lemma_waiting_last(t);
    if i == s.len() - 1 {
        assert(t.drop_last() =~= s.drop_last());
    } else {
        assert(t.drop_last() =~= s.drop_last().update(i, w));
        lemma_waiting_update(s.drop_last(), i, w);
    }
    assert(waiting(t).add(waker_in(s[i])) =~= waiting(s).add(waker_in(w))) by {
        assert forall|k: W| #[trigger]
            waiting(t).add(waker_in(s[i])).count(k) == waiting(s).add(waker_in(w)).count(k) by {
            if i != s.len() - 1 {
                assert(waiting(t.drop_last()).add(waker_in(s[i])).count(k) == waiting(
                    s.drop_last(),
                ).add(waker_in(w)).count(k));
            }
        }
    }
}

/// The wakers of a queue out of which one entry is taken.
proof fn lemma_waiting_remove<W>(s: Seq<Waiter<W>>, i: int)
    requires
        0 <= i < s.len(),
    ensures
        waiting(s.remove(i)).add(waker_in(s[i])) == waiting(s),
    decreases s.len(),
{
    let t = s.remove(i);
    lemma_waiting_last(s);
    if i == s.len() - 1 {
        assert(t =~= s.drop_last());
    } else {
        lemma_waiting_last(t);
        assert(t.drop_last() =~= s.drop_last().remove(i));
        assert(t.last() == s.last());
        lemma_waiting_remove(s.drop_last(), i);
        assert(waiting(t).add(waker_in(s[i])) =~= waiting(s)) by {
            assert forall|k: W| #[trigger]
                waiting(t).add(waker_in(s[i])).count(k) == waiting(s).count(k) by {
                assert(waiting(t.drop_last()).add(waker_in(s[i])).count(k) == waiting(
                    s.drop_last(),
                ).count(k));
            }
        }
    }
}

/// A queue out of which a slot is taken keeps no waker more often than before.
proof fn lemma_waiting_without<W>(s: Seq<Waiter<W>>, slot: u64, k: W)
    requires
        distinct(s),
    ensures
        waiting(without(s, slot)).count(k) <= waiting(s).count(k),
{
    if attached(s, slot) {
        let i = choose|i: int| 0 <= i < s.len() && (#[trigger] s[i]).slot == slot;
        crate::queue::lemma_without_present(s, slot, i);
        lemma_waiting_remove(s, i);
        assert(waiting(s.remove(i)).add(waker_in(s[i])).count(k) == waiting(s).count(k));
    } else {
        crate::queue::lemma_without_absent(s, slot);
    }
}

/// A queue in which a slot is emptied keeps no waker more often than before.
proof fn lemma_waiting_emptied<W>(s: Seq<Waiter<W>>, slot: u64, k: W)
    requires
        distinct(s),
    ensures
        waiting(emptied(s, slot)).count(k) <= waiting(s).count(k),
{
    if attached(s, slot) {
        let i = choose|i: int| 0 <= i < s.len() && (#[trigger] s[i]).slot == slot;
        let w = Waiter::<W> { slot, waker: None };
        assert(emptied(s, slot) =~= s.update(i, w));
        lemma_waiting_update(s, i, w);
        assert(waiting(s.update(i, w)).add(waker_in(s[i])).count(k) == waiting(s).add(
            waker_in(w),
        ).count(k));
    } else {
        assert(emptied(s, slot) =~= s);
    }
}

/// A queue in which a waker is put into an empty slot keeps that waker once more, and the others
/// as often as before.
proof fn lemma_waiting_with_waker<W>(s: Seq<Waiter<W>>, slot: u64, waker: W)
    requires
        distinct(s),
        !registered(s, slot),
    ensures
        waiting(with_waker(s, slot, waker)) == waiting(s).insert(waker),
{
    let e = entry(slot, waker);
    let t = with_waker(s, slot, waker);
    if attached(s, slot) {
        let i = choose|i: int| 0 <= i < s.len() && (#[trigger] s[i]).slot == slot;
        assert(s[i].waker is None);
        assert(t =~= s.update(i, e));
        lemma_waiting_update(s, i, e);
        assert(waiting(t) =~= waiting(s).insert(waker)) by {
            assert forall|k: W| #[trigger]
                waiting(t).count(k) == waiting(s).insert(waker).count(k) by {
                assert(waiting(t).add(waker_in(s[i])).count(k) == waiting(s).add(
                    waker_in(e),
                ).count(k));
            }
        }
    } else {
        lemma_waiting_last(t);
        assert(t.drop_last() =~= s);
        assert(waiting(t) =~= waiting(s).insert(waker));
    }
}

/// No waker is ever doubled, so that none is woken more often than it was left: the channel keeps
/// each waker after a thing that is done to it no more often than before, but for the waker that
/// is left with it, which it keeps once more.
pub proof fn law_no_waker_is_doubled<T, W>(chan: ChanView<T, W>, op: Op<T, W>, k: W)
    requires
        chan.wf(),
    ensures
        chan.after(op).kept_wakers().count(k) <= chan.kept_wakers().count(k) + if chan.left_by(op)
            == Some(k) {
            1nat
        } else {
            0nat
        },
{
    broadcast use vstd::seq_lib::group_to_multiset_ensures;

    let s = chan.waiters;
    let t = chan.after(op);
    assert(chan.kept_wakers().count(k) == chan.woken.to_multiset().count(k) + waiting(s).count(k));
    assert(t.kept_wakers().count(k) == t.woken.to_multiset().count(k) + waiting(t.waiters).count(
        k,
    ));
    match op {
        Op::DropReceiver { slot } => lemma_waiting_without(s, slot, k),
        Op::IntoPeeker { slot } => lemma_waiting_without(s, slot, k),
        Op::DropPeeker { slot } => lemma_waiting_without(s, slot, k),
        Op::PeekAsync { slot } => lemma_waiting_emptied(s, slot, k),
        Op::PollReceive { slot, waker, answers } => {
            if chan.left_by(op) is Some {
                lemma_waiting_with_waker(s, slot, waker);
            }
        },
        Op::PollPeek { slot, waker, answers } => {
            if chan.left_by(op) is Some {
                lemma_waiting_with_waker(s, slot, waker);
            }
        },
        _ => {
            if chan.woken_by(op) {
                vstd::seq_lib::lemma_multiset_commutative(chan.woken, wakers_of(s));
                assert(t.woken.to_multiset().count(k) == chan.woken.to_multiset().count(k)
                    + waiting(s).count(k));
            }
        },
    }
}

} // verus!
