use vstd::prelude::*;

use crate::oneshot::{Answers, ChanView, Polled};
use crate::queue::{attached, distinct, emptied, registered, with_waker, without, Waiter};
use crate::recver::RxError;
use crate::runs::{
    law_peekers_are_counted, law_run_in_order, legal, lemma_receivers, living_peekers,
    living_receivers, receiver_converted, receiver_given_up, run, Op,
};
use crate::sender::TxError;
use crate::waking::entry;

verus! {

/// In the course of `ops` the sending end was given up.
pub open spec fn sender_given_up<T, W>(ops: Seq<Op<T, W>>) -> bool
    decreases ops.len(),
{
    ops.len() > 0 && (sender_given_up(ops.drop_last()) || ops.last() is DropSender)
}

/// After `ops` somebody is there to see what is sent, or nobody has left yet: a peeker is there, or
/// no receiver was given up, and one is there or none was turned into a peeker.
pub open spec fn audience<T, W>(ops: Seq<Op<T, W>>) -> bool {
    living_peekers(ops) > 0 || (!receiver_given_up(ops) && (living_receivers(ops) > 0
        || !receiver_converted(ops)))
}

/// The message that was sent in the course of `ops`: that of the first send that got the lock while
/// somebody was there to see it.
pub open spec fn message<T, W>(ops: Seq<Op<T, W>>) -> Option<T>
    decreases ops.len(),
{
    if ops.len() == 0 {
        None
    } else if message(ops.drop_last()) is Some {
        message(ops.drop_last())
    } else {
        match ops.last() {
            Op::Send { data, acquired } => if acquired && audience(ops.drop_last()) {
                Some(data)
            } else {
                None
            },
            _ => None,
        }
    }
}

/// In the course of `ops` the message was taken: a receiver polled after it was sent.
pub open spec fn taken<T, W>(ops: Seq<Op<T, W>>) -> bool
    decreases ops.len(),
{
    ops.len() > 0 && (taken(ops.drop_last()) || (ops.last() is PollReceive && message(
        ops.drop_last(),
    ) is Some))
}

/// After `ops` the lock on the value is held: it was taken, and since then neither given back, nor
/// by a send that got it or a receiver that took the message.
pub open spec fn value_locked<T, W>(ops: Seq<Op<T, W>>) -> bool
    decreases ops.len(),
{
    if ops.len() == 0 {
        false
    } else {
        let before = value_locked(ops.drop_last());
        match ops.last() {
            Op::LockValue => true,
            Op::UnlockValue => false,
            Op::Send { data, acquired } => before && !acquired,
            Op::PollReceive { slot, waker, answers } => before && (message(ops.drop_last()) is None
                || taken(ops.drop_last())),
            _ => before,
        }
    }
}

/// After `ops` a message may still come: none was sent, and the sending end was not given up.
pub open spec fn open_ended<T, W>(ops: Seq<Op<T, W>>) -> bool {
    message(ops) is None && !sender_given_up(ops)
}

/// The waker that waits in the wake slot `slot` after `ops`, if one does: that of the first poll by
/// this slot that was not cancelled, as long as a message may still come and the slot was neither
/// given back nor emptied for a new wait.
pub open spec fn waiting_in<T, W>(ops: Seq<Op<T, W>>, slot: u64) -> Option<W>
    decreases ops.len(),
{
    if ops.len() == 0 || !open_ended(ops) {
        None
    } else {
        let before = waiting_in(ops.drop_last(), slot);
        match ops.last() {
            Op::DropReceiver { slot: s } => if s == slot {
                None
            } else {
                before
            },
            Op::IntoPeeker { slot: s } => if s == slot {
                None
            } else {
                before
            },
            Op::DropPeeker { slot: s } => if s == slot {
                None
            } else {
                before
            },
            Op::PeekAsync { slot: s } => if s == slot {
                None
            } else {
                before
            },
            Op::PollReceive { slot: s, waker, answers } => if s == slot && before is None
                && !answers.is_cancelled && !answers.cancellation && answers.lock_queue {
                Some(waker)
            } else {
                before
            },
            Op::PollPeek { slot: s, waker, answers } => if s == slot && before is None
                && !answers.cancellation && answers.lock_queue {
                Some(waker)
            } else {
                before
            },
            _ => before,
        }
    }
}

/// The channel tells its history: whether the sending end was given up, whether a receiver was,
/// whether one was turned into a peeker, how many receivers and peekers there are, whether a message
/// was sent, which one lies in it, and whether its lock is held.
pub proof fn law_channel_tells_its_history<T, W>(id: u64, ops: Seq<Op<T, W>>)
    requires
        legal(id, ops),
    ensures
        run(id, ops).id == id,
        run(id, ops).flags.tx_closed <==> sender_given_up(ops),
        run(id, ops).flags.rx_closed <==> receiver_given_up(ops),
        run(id, ops).converted <==> receiver_converted(ops),
        run(id, ops).flags.peekers == living_peekers(ops),
        run(id, ops).receivers() == living_receivers(ops),
        run(id, ops).flags.tx_expire <==> message(ops) is Some,
        run(id, ops).flags.data_valid <==> message(ops) is Some && !taken(ops),
        run(id, ops).value == if taken(ops) {
            None
        } else {
            message(ops)
        },
        run(id, ops).flags.acquired <==> value_locked(ops),
        taken(ops) ==> message(ops) is Some,
    decreases ops.len(),
{
    lemma_receivers(id, ops);
    law_peekers_are_counted(id, ops);
    law_run_in_order(id, ops);
    if ops.len() > 0 {
        let init = ops.drop_last();
        law_channel_tells_its_history(id, init);
        law_run_in_order(id, init);
        lemma_receivers(id, init);
    }
}

/// What a channel answers to whoever asks it follows from its history.
pub proof fn law_questions_by_history<T, W>(id: u64, ops: Seq<Op<T, W>>)
    requires
        legal(id, ops),
    ensures
        run(id, ops).can_send() <==> message(ops) is None && audience(ops),
        run(id, ops).flags.can_receive() <==> (message(ops) is Some && !taken(ops))
            || !sender_given_up(ops),
        run(id, ops).flags.can_peek() <==> (message(ops) is Some && !taken(ops))
            || !sender_given_up(ops),
{
    law_channel_tells_its_history(id, ops);
    law_run_in_order(id, ops);
    lemma_receivers(id, ops);
}

/// What a send is answered follows from the history: it is cancelled exactly if it does not get the
/// lock, stuffed exactly if a message was sent before, divorced exactly if none was and nobody is
/// there to see it.
pub proof fn law_send_by_history<T, W>(id: u64, ops: Seq<Op<T, W>>, data: T, acquired: bool)
    requires
        legal(id, ops),
    ensures
        run(id, ops).send_result(data, acquired) == if !acquired {
            Err::<(), TxError<T>>(TxError::Cancelled)
        } else if message(ops) is Some {
            Err(TxError::Stuffed(data))
        } else if !audience(ops) {
            Err(TxError::Divorced(data))
        } else {
            Ok(())
        },
{
    law_channel_tells_its_history(id, ops);
    law_questions_by_history(id, ops);
}

/// What a look shows follows from the history: the message if it was sent and not taken, that it was
/// moved exactly if it was taken, that the sending end is gone exactly if it was given up before
/// anything was sent, and nothing as long as a message may still come.
pub proof fn law_look_by_history<T, W>(id: u64, ops: Seq<Op<T, W>>)
    requires
        legal(id, ops),
    ensures
        message(ops) is Some && !taken(ops) ==> run(id, ops).peek_result() == Ok::<
            Option<T>,
            RxError<()>,
        >(message(ops)),
        run(id, ops).peek_result() == Err::<Option<T>, RxError<()>>(RxError::Drained(()))
            <==> taken(ops),
        run(id, ops).peek_result() == Err::<Option<T>, RxError<()>>(RxError::Divorced(()))
            <==> message(ops) is None && sender_given_up(ops),
        run(id, ops).peek_result() == Ok::<Option<T>, RxError<()>>(None) <==> open_ended(ops),
{
    law_channel_tells_its_history(id, ops);
    law_run_in_order(id, ops);
}

/// What a poll for the message, by any slot, comes to follows from the history.
pub proof fn law_receive_by_history<T, W>(id: u64, ops: Seq<Op<T, W>>, slot: u64, a: Answers)
    requires
        legal(id, ops),
    ensures
        run(id, ops).recv_result(slot, a) == if message(ops) is Some && !taken(ops) {
            Polled::<Result<T, RxError<()>>>::Ready(Ok(message(ops)->0))
        } else if a.is_cancelled {
            Polled::Ready(Err(RxError::Cancelled))
        } else if taken(ops) {
            Polled::Ready(Err(RxError::Drained(())))
        } else if sender_given_up(ops) {
            Polled::Ready(Err(RxError::Divorced(())))
        } else if waiting_in(ops, slot) is None && (a.cancellation || !a.lock_queue) {
            Polled::Ready(Err(RxError::Cancelled))
        } else {
            Polled::Pending
        },
{
    law_channel_tells_its_history(id, ops);
    law_waiting_by_history(id, ops, slot);
}

/// What a poll for a look, by any slot, comes to follows from the history.
pub proof fn law_peek_by_history<T, W>(id: u64, ops: Seq<Op<T, W>>, slot: u64, a: Answers)
    requires
        legal(id, ops),
    ensures
        run(id, ops).peek_poll_result(slot, a) == if message(ops) is Some && !taken(ops) {
            Polled::<Result<T, RxError<()>>>::Ready(Ok(message(ops)->0))
        } else if taken(ops) {
            Polled::Ready(Err(RxError::Drained(())))
        } else if sender_given_up(ops) {
            Polled::Ready(Err(RxError::Divorced(())))
        } else if waiting_in(ops, slot) is None && (a.cancellation || !a.lock_queue) {
            Polled::Ready(Err(RxError::Cancelled))
        } else {
            Polled::Pending
        },
{
    law_channel_tells_its_history(id, ops);
    law_waiting_by_history(id, ops, slot);
}

/// Who waits, and with which waker, follows from the history.
pub proof fn law_waiting_by_history<T, W>(id: u64, ops: Seq<Op<T, W>>, slot: u64)
    requires
        legal(id, ops),
    ensures
        registered(run(id, ops).waiters, slot) <==> waiting_in(ops, slot) is Some,
        forall|w: W| #[trigger]
            run(id, ops).waiters.contains(entry(slot, w)) <==> waiting_in(ops, slot) == Some(w),
    decreases ops.len(),
{
    let chan = run(id, ops);
    law_run_in_order(id, ops);
    law_channel_tells_its_history(id, ops);
    assert forall|w: W| #[trigger]
        chan.waiters.contains(entry(slot, w)) <==> waiting_in(ops, slot) == Some(w) by {
        if ops.len() > 0 && open_ended(ops) {
            let init = ops.drop_last();
            law_waiting_by_history(id, init, slot);
            law_run_in_order(id, init);
            law_channel_tells_its_history(id, init);
            assert(run(id, init).waiters.contains(entry(slot, w)) <==> waiting_in(init, slot)
                == Some(w));
            lemma_step(run(id, init), ops.last(), slot, w);
        }
    }
    lemma_registered(chan.waiters, slot);
    if let Some(w) = waiting_in(ops, slot) {
        assert(chan.waiters.contains(entry(slot, w)));
    }
    if registered(chan.waiters, slot) {
        let w = choose|w: W| #[trigger] chan.waiters.contains(entry(slot, w));
        assert(waiting_in(ops, slot) == Some(w));
    }
}

/// A slot is registered exactly if its entry with some waker is in the queue.
proof fn lemma_registered<W>(s: Seq<Waiter<W>>, slot: u64)
    ensures
        registered(s, slot) <==> exists|w: W| #[trigger] s.contains(entry(slot, w)),
{
    if registered(s, slot) {
        let i = choose|i: int|
            0 <= i < s.len() && (#[trigger] s[i]).slot == slot && s[i].waker is Some;
        let w = s[i].waker->0;
        assert(s[i] == entry(slot, w));
        assert(s.contains(entry(slot, w)));
    }
    if exists|w: W| #[trigger] s.contains(entry(slot, w)) {
        let w = choose|w: W| #[trigger] s.contains(entry(slot, w));
        let i = choose|i: int| 0 <= i < s.len() && s[i] == entry(slot, w);
        assert(s[i].slot == slot);
    }
}

/// The entries of a queue after a waker was put into a slot, a slot was taken out and a slot was
/// emptied.
proof fn lemma_entries<W>(s: Seq<Waiter<W>>, slot: u64, w: W, other: u64, k: W)
    requires
        distinct(s),
    ensures
        with_waker(s, other, k).contains(entry(slot, w)) <==> if slot == other {
            w == k
        } else {
            s.contains(entry(slot, w))
        },
        without(s, other).contains(entry(slot, w)) <==> slot != other && s.contains(entry(slot, w)),
        emptied(s, other).contains(entry(slot, w)) <==> slot != other && s.contains(entry(slot, w)),
{
    let e = entry(slot, w);
    let a = with_waker(s, other, k);
    let b = without(s, other);
    let c = emptied(s, other);
    if s.contains(e) {
        let i = choose|i: int| 0 <= i < s.len() && s[i] == e;
        if slot != other {
            assert(a[i] == e);
            assert(c[i] == e);
            s.lemma_filter_contains(|x: Waiter<W>| x.slot != other, i);
        }
    }
    if slot == other {
        if attached(s, slot) {
            let i = choose|i: int| 0 <= i < s.len() && (#[trigger] s[i]).slot == slot;
            assert(a[i] == entry(slot, k));
        } else {
            assert(a[s.len() as int] == entry(slot, k));
        }
    }
    if a.contains(e) {
        let i = choose|i: int| 0 <= i < a.len() && a[i] == e;
        if i < s.len() && slot != other {
            assert(s[i] == e);
        } else if i < s.len() {
            assert(s[i].slot == slot);
            assert(attached(s, slot));
        }
    }
    if b.contains(e) {
        crate::queue::lemma_without_kept(s, other);
        let i = choose|i: int| 0 <= i < b.len() && b[i] == e;
        assert(s.contains(b[i]));
    }
    if c.contains(e) {
        let i = choose|i: int| 0 <= i < c.len() && c[i] == e;
        assert(s[i] == e);
    }
}

/// The entries of the queue after one thing was done to a channel.
proof fn lemma_step<T, W>(chan: ChanView<T, W>, op: Op<T, W>, slot: u64, w: W)
    requires
        chan.wf(),
        !chan.after(op).flags.tx_expire,
        !chan.after(op).flags.tx_closed,
    ensures
        chan.after(op).waiters.contains(entry(slot, w)) <==> match op {
            Op::DropReceiver { slot: s } => s != slot && chan.waiters.contains(entry(slot, w)),
            Op::IntoPeeker { slot: s } => s != slot && chan.waiters.contains(entry(slot, w)),
            Op::DropPeeker { slot: s } => s != slot && chan.waiters.contains(entry(slot, w)),
            Op::PeekAsync { slot: s } => s != slot && chan.waiters.contains(entry(slot, w)),
            Op::PollReceive { slot: s, waker, answers } => if s == slot && !registered(
                chan.waiters,
                slot,
            ) && !answers.is_cancelled && !answers.cancellation && answers.lock_queue {
                w == waker
            } else {
                chan.waiters.contains(entry(slot, w))
            },
            Op::PollPeek { slot: s, waker, answers } => if s == slot && !registered(
                chan.waiters,
                slot,
            ) && !answers.cancellation && answers.lock_queue {
                w == waker
            } else {
                chan.waiters.contains(entry(slot, w))
            },
            _ => chan.waiters.contains(entry(slot, w)),
        },
{
    match op {
        Op::DropReceiver { slot: s } => lemma_entries(chan.waiters, slot, w, s, w),
        Op::IntoPeeker { slot: s } => lemma_entries(chan.waiters, slot, w, s, w),
        Op::DropPeeker { slot: s } => lemma_entries(chan.waiters, slot, w, s, w),
        Op::PeekAsync { slot: s } => lemma_entries(chan.waiters, slot, w, s, w),
        Op::PollReceive { slot: s, waker, answers } => lemma_entries(
            chan.waiters,
            slot,
            w,
            s,
            waker,
        ),
        Op::PollPeek { slot: s, waker, answers } => lemma_entries(chan.waiters, slot, w, s, waker),
        _ => {},
    }
}

} // verus!
