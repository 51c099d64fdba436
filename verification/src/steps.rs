use vstd::prelude::*;
use vstd::std_specs::cmp::PartialEqSpec;

use crate::flags::{FlagsView, K_PEEKERS_NUM_MASK};
use crate::oneshot::{Answers, ChanView, Polled};
use crate::peeker::Peeker;
use crate::queue::{wakers_of, Waiter};
use crate::recver::{Receiver, RxError};
use crate::runs::Op;
use crate::sender::TxError;

verus! {

/// The two are the same channel, with the same wake slots, of which the same are held, and the same
/// is noted of conversions.
pub open spec fn same_place<T, W>(a: ChanView<T, W>, b: ChanView<T, W>) -> bool {
    a.id == b.id && a.slots == b.slots && a.free == b.free && a.converted == b.converted
}

/// A fresh channel holds no message, nothing was sent through it, both its ends are there, its lock
/// is free, and nobody waits, looks or is due.
pub proof fn law_fresh_channel<T, W>(id: u64)
    ensures
        ChanView::<T, W>::initial(id).id == id,
        ChanView::<T, W>::initial(id).value is None,
        ChanView::<T, W>::initial(id).waiters.len() == 0,
        ChanView::<T, W>::initial(id).woken.len() == 0,
        ChanView::<T, W>::initial(id).slots == 0,
        ChanView::<T, W>::initial(id).free.len() == 0,
        !ChanView::<T, W>::initial(id).converted,
        !ChanView::<T, W>::initial(id).flags.acquired,
        !ChanView::<T, W>::initial(id).flags.data_valid,
        !ChanView::<T, W>::initial(id).flags.tx_expire,
        !ChanView::<T, W>::initial(id).flags.tx_closed,
        !ChanView::<T, W>::initial(id).flags.rx_closed,
        ChanView::<T, W>::initial(id).flags.peekers == 0,
        ChanView::<T, W>::initial(id).wf(),
{
}

/// What a channel answers when it is asked. It can be received from, and looked into, exactly if a
/// message is there or the sending end is, also after a message was received. It can send exactly
/// if nothing was sent, and a peeker is there, or no receiver was given up and, if one was turned
/// into a peeker, somebody still holds a wake slot.
pub proof fn law_channel_answers<T, W>(chan: ChanView<T, W>)
    requires
        chan.wf(),
    ensures
        chan.flags.can_receive() <==> chan.value is Some || !chan.flags.tx_closed,
        chan.flags.can_peek() <==> chan.value is Some || !chan.flags.tx_closed,
        chan.can_send() <==> !chan.flags.tx_expire && (chan.flags.peekers > 0 || (
        !chan.flags.rx_closed && (!chan.converted || chan.slots > chan.free.len()))),
        chan.abandoned() <==> chan.converted && chan.slots == chan.free.len(),
        chan.receivers() + chan.flags.peekers == chan.slots - chan.free.len(),
{
    assert(chan.free.len() <= chan.slots);
}

/// A wake slot is held exactly if it is one of those that there are and was not given back.
pub proof fn law_held_slot<T, W>(chan: ChanView<T, W>, slot: u64)
    ensures
        chan.holds(slot) <==> slot < chan.slots && forall|i: int|
            0 <= i < chan.free.len() ==> (#[trigger] chan.free[i]) != slot,
{
    if forall|i: int| 0 <= i < chan.free.len() ==> (#[trigger] chan.free[i]) != slot {
        assert(!chan.free.contains(slot));
    }
}

/// What it is to be in order.
pub proof fn law_in_order<T, W>(chan: ChanView<T, W>)
    ensures
        chan.wf() <==> {
            &&& chan.flags.data_valid == (chan.value is Some)
            &&& chan.value is Some ==> chan.flags.tx_expire
            &&& chan.waiters.len() > 0 ==> !chan.flags.tx_expire && !chan.flags.tx_closed
            &&& forall|i: int, j: int|
                0 <= i < j < chan.waiters.len() ==> (#[trigger] chan.waiters[i]).slot != (
                #[trigger] chan.waiters[j]).slot
            &&& forall|i: int|
                0 <= i < chan.waiters.len() ==> chan.holds((#[trigger] chan.waiters[i]).slot)
            &&& forall|i: int, j: int|
                0 <= i < j < chan.free.len() ==> (#[trigger] chan.free[i]) != (
                #[trigger] chan.free[j])
            &&& forall|i: int| 0 <= i < chan.free.len() ==> (#[trigger] chan.free[i]) < chan.slots
            &&& chan.flags.peekers <= K_PEEKERS_NUM_MASK
            &&& chan.flags.peekers <= chan.slots - chan.free.len()
            &&& chan.slots - chan.free.len() <= chan.flags.peekers + K_PEEKERS_NUM_MASK
        },
{
}

/// What can be done to a channel. A send, the loss of the sending end, the handing out of wakers and
/// the lock are always possible; whoever acts by a wake slot has to hold it; who leaves has to be
/// counted; and who comes has to fit into the count.
pub proof fn law_what_is_possible<T, W>(
    chan: ChanView<T, W>,
    data: T,
    acquired: bool,
    slot: u64,
    waker: W,
    answers: Answers,
)
    ensures
        chan.admits(Op::Send { data, acquired }),
        chan.admits(Op::DropSender),
        chan.admits(Op::TakeWoken),
        chan.admits(Op::LockValue),
        chan.admits(Op::UnlockValue),
        chan.admits(Op::PollReceive { slot, waker, answers }) <==> chan.holds(slot),
        chan.admits(Op::PollPeek { slot, waker, answers }) <==> chan.holds(slot),
        chan.admits(Op::PeekAsync { slot }) <==> chan.holds(slot),
        chan.admits(Op::DropPeeker { slot }) <==> chan.holds(slot) && chan.flags.peekers > 0,
        chan.admits(Op::DropReceiver { slot }) <==> chan.holds(slot) && chan.slots
            - chan.free.len() > chan.flags.peekers,
        chan.admits(Op::IntoPeeker { slot }) <==> chan.holds(slot) && chan.slots - chan.free.len()
            > chan.flags.peekers && chan.flags.peekers < K_PEEKERS_NUM_MASK,
        chan.admits(Op::NewPeeker) <==> chan.flags.peekers < K_PEEKERS_NUM_MASK,
        chan.admits(Op::Split) <==> chan.slots - chan.free.len() < chan.flags.peekers
            + K_PEEKERS_NUM_MASK,
{
}

/// What a send is answered: that it was cancelled if it did not get the lock; else the message comes
/// back as stuffed if something was sent before, and as divorced if nobody is there to see it; else
/// it is sent.
pub proof fn law_send_answers<T, W>(chan: ChanView<T, W>, data: T, acquired: bool)
    requires
        chan.wf(),
    ensures
        !acquired ==> chan.send_result(data, acquired) == Err::<(), TxError<T>>(TxError::Cancelled),
        acquired && chan.flags.tx_expire ==> chan.send_result(data, acquired)
            == Err::<(), TxError<T>>(TxError::Stuffed(data)),
        acquired && !chan.flags.tx_expire && chan.flags.peekers > 0 ==> chan.send_result(
            data,
            acquired,
        ) == Ok::<(), TxError<T>>(()),
        acquired && !chan.flags.tx_expire && chan.flags.peekers == 0 && chan.flags.rx_closed
            ==> chan.send_result(data, acquired) == Err::<(), TxError<T>>(TxError::Divorced(data)),
        acquired && !chan.flags.tx_expire && chan.flags.peekers == 0 && !chan.flags.rx_closed
            && chan.converted && chan.slots == chan.free.len() ==> chan.send_result(data, acquired)
            == Err::<(), TxError<T>>(TxError::Divorced(data)),
        acquired && !chan.flags.tx_expire && !chan.flags.rx_closed && (!chan.converted
            || chan.slots > chan.free.len()) ==> chan.send_result(data, acquired)
            == Ok::<(), TxError<T>>(()),
{
}

/// What a send does: one that succeeds leaves the message in the channel, notes that it was sent,
/// and makes all who wait due, behind those who are due already, in the order in which they came;
/// one that is refused changes nothing of that. Either gives the lock back, which it had to get, and
/// one that did not get it changes nothing at all.
pub proof fn law_send_does<T, W>(chan: ChanView<T, W>, data: T, acquired: bool)
    ensures
        same_place(chan.send_next(data, acquired), chan),
        chan.send_next(data, acquired).flags.tx_closed == chan.flags.tx_closed,
        chan.send_next(data, acquired).flags.rx_closed == chan.flags.rx_closed,
        chan.send_next(data, acquired).flags.peekers == chan.flags.peekers,
        chan.send_next(data, acquired).flags.acquired == (chan.flags.acquired && !acquired),
        chan.send_result(data, acquired) is Ok ==> {
            &&& chan.send_next(data, acquired).value == Some(data)
            &&& chan.send_next(data, acquired).flags.data_valid
            &&& chan.send_next(data, acquired).flags.tx_expire
            &&& chan.send_next(data, acquired).waiters.len() == 0
            &&& chan.send_next(data, acquired).woken == chan.woken + wakers_of(chan.waiters)
        },
        chan.send_result(data, acquired) is Err ==> {
            &&& chan.send_next(data, acquired).value == chan.value
            &&& chan.send_next(data, acquired).flags.data_valid == chan.flags.data_valid
            &&& chan.send_next(data, acquired).flags.tx_expire == chan.flags.tx_expire
            &&& chan.send_next(data, acquired).waiters == chan.waiters
            &&& chan.send_next(data, acquired).woken == chan.woken
        },
{
}

/// What a look shows: the message if it is there; else that it was moved if one was sent; else that
/// the sending end is gone if it is; else that there is nothing yet.
pub proof fn law_look_answers<T, W>(chan: ChanView<T, W>)
    ensures
        chan.value matches Some(x) ==> chan.peek_result() == Ok::<Option<T>, RxError<()>>(Some(x)),
        chan.value is None && chan.flags.tx_expire ==> chan.peek_result()
            == Err::<Option<T>, RxError<()>>(RxError::Drained(())),
        chan.value is None && !chan.flags.tx_expire && chan.flags.tx_closed ==> chan.peek_result()
            == Err::<Option<T>, RxError<()>>(RxError::Divorced(())),
        chan.value is None && !chan.flags.tx_expire && !chan.flags.tx_closed ==> chan.peek_result()
            == Ok::<Option<T>, RxError<()>>(None),
        chan.absent_error() == if chan.flags.tx_expire {
            RxError::Drained(())
        } else {
            RxError::Divorced(())
        },
{
}

/// What a poll for the message comes to. A message that is there is received, whatever is answered.
/// Where there is none, a cancellation that was raised is told, whether the slot holds a waker
/// already or not; else that the message was moved, if one was sent; else that the sending end is
/// gone, if it is; else the poll waits, but for a slot that holds no waker and whose cancellation is
/// ready or whose wait for the queue was cancelled.
pub proof fn law_poll_for_message_answers<T, W>(chan: ChanView<T, W>, slot: u64, a: Answers)
    ensures
        chan.value matches Some(x) ==> chan.recv_result(slot, a) == Polled::<
            Result<T, RxError<()>>,
        >::Ready(Ok(x)),
        chan.value is None && a.is_cancelled ==> chan.recv_result(slot, a) == Polled::<
            Result<T, RxError<()>>,
        >::Ready(Err(RxError::Cancelled)),
        chan.value is None && !a.is_cancelled && chan.flags.tx_expire ==> chan.recv_result(slot, a)
            == Polled::<Result<T, RxError<()>>>::Ready(Err(RxError::Drained(()))),
        chan.value is None && !a.is_cancelled && !chan.flags.tx_expire && chan.flags.tx_closed
            ==> chan.recv_result(slot, a) == Polled::<Result<T, RxError<()>>>::Ready(
            Err(RxError::Divorced(())),
        ),
        chan.value is None && !a.is_cancelled && !chan.flags.tx_expire && !chan.flags.tx_closed
            && !a.cancellation && a.lock_queue ==> chan.recv_result(slot, a) is Pending,
        forall|i: int|
            chan.value is None && !a.is_cancelled && !chan.flags.tx_expire && !chan.flags.tx_closed
                && 0 <= i < chan.waiters.len() && (#[trigger] chan.waiters[i]).slot == slot
                && chan.waiters[i].waker is Some ==> chan.recv_result(slot, a) is Pending,
        chan.value is None && !a.is_cancelled && !chan.flags.tx_expire && !chan.flags.tx_closed && (
        a.cancellation || !a.lock_queue) && (forall|i: int|
            0 <= i < chan.waiters.len() && (#[trigger] chan.waiters[i]).slot == slot
                ==> chan.waiters[i].waker is None) ==> chan.recv_result(slot, a) == Polled::<
            Result<T, RxError<()>>,
        >::Ready(Err(RxError::Cancelled)),
{
}

/// What a poll for the message asks: whether the cancellation was raised exactly if no message is
/// there, and the cancellation itself exactly if moreover it was not, a message may still come, and
/// the slot holds no waker.
pub proof fn law_poll_for_message_asks<T, W>(chan: ChanView<T, W>, slot: u64, a: Answers)
    ensures
        chan.recv_asks_is_cancelled() <==> chan.value is None,
        chan.recv_asks_cancellation(slot, a) <==> {
            &&& chan.value is None
            &&& !a.is_cancelled
            &&& !chan.flags.tx_expire
            &&& !chan.flags.tx_closed
            &&& forall|i: int|
                0 <= i < chan.waiters.len() && (#[trigger] chan.waiters[i]).slot == slot
                    ==> chan.waiters[i].waker is None
        },
        chan.joins(slot) <==> {
            &&& chan.value is None
            &&& !chan.flags.tx_expire
            &&& !chan.flags.tx_closed
            &&& forall|i: int|
                0 <= i < chan.waiters.len() && (#[trigger] chan.waiters[i]).slot == slot
                    ==> chan.waiters[i].waker is None
        },
{
    if forall|i: int|
        0 <= i < chan.waiters.len() && (#[trigger] chan.waiters[i]).slot == slot
            ==> chan.waiters[i].waker is None {
        assert(!crate::queue::registered(chan.waiters, slot));
    }
}

/// What a poll for the message does: it takes the message, if it is there, under the lock, which is
/// free afterwards; it puts the waker into the slot if it waits and the slot held none; and else it
/// does nothing. It never changes what was sent, who is there, or who is due.
pub proof fn law_poll_for_message_does<T, W>(chan: ChanView<T, W>, slot: u64, waker: W, a: Answers)
    requires
        chan.wf(),
    ensures
        same_place(chan.recv_next(slot, waker, a), chan),
        chan.recv_next(slot, waker, a).value is None,
        !chan.recv_next(slot, waker, a).flags.data_valid,
        chan.recv_next(slot, waker, a).flags.tx_expire == chan.flags.tx_expire,
        chan.recv_next(slot, waker, a).flags.tx_closed == chan.flags.tx_closed,
        chan.recv_next(slot, waker, a).flags.rx_closed == chan.flags.rx_closed,
        chan.recv_next(slot, waker, a).flags.peekers == chan.flags.peekers,
        chan.recv_next(slot, waker, a).flags.acquired == (chan.flags.acquired
            && chan.value is None),
        chan.recv_next(slot, waker, a).woken == chan.woken,
        chan.recv_result(slot, a) is Ready ==> chan.recv_next(slot, waker, a).waiters
            == chan.waiters,
        forall|i: int|
            0 <= i < chan.waiters.len() && (#[trigger] chan.waiters[i]).slot == slot
                && chan.waiters[i].waker is Some ==> chan.recv_next(slot, waker, a).waiters
                == chan.waiters,
        forall|i: int|
            chan.recv_result(slot, a) is Pending && 0 <= i < chan.waiters.len() && (
            #[trigger] chan.waiters[i]).slot == slot && chan.waiters[i].waker is None
                ==> chan.recv_next(slot, waker, a).waiters == chan.waiters.update(
                i,
                Waiter { slot, waker: Some(waker) },
            ),
        chan.recv_result(slot, a) is Pending && (forall|i: int|
            0 <= i < chan.waiters.len() ==> (#[trigger] chan.waiters[i]).slot != slot)
            ==> chan.recv_next(slot, waker, a).waiters == chan.waiters.push(
            Waiter { slot, waker: Some(waker) },
        ),
{
    lemma_join(chan, slot, waker);
}

/// What becomes of the queue when a wait joins it.
proof fn lemma_join<T, W>(chan: ChanView<T, W>, slot: u64, waker: W)
    requires
        chan.wf(),
    ensures
        forall|i: int|
            0 <= i < chan.waiters.len() && (#[trigger] chan.waiters[i]).slot == slot
                ==> crate::queue::with_waker(chan.waiters, slot, waker) == chan.waiters.update(
                i,
                Waiter { slot, waker: Some(waker) },
            ),
        forall|i: int|
            0 <= i < chan.waiters.len() && (#[trigger] chan.waiters[i]).slot == slot
                && chan.waiters[i].waker is Some ==> crate::queue::registered(chan.waiters, slot),
        forall|i: int|
            0 <= i < chan.waiters.len() && (#[trigger] chan.waiters[i]).slot == slot
                && chan.waiters[i].waker is None ==> !crate::queue::registered(chan.waiters, slot),
{
    assert forall|i: int|
        0 <= i < chan.waiters.len() && (#[trigger] chan.waiters[i]).slot
            == slot implies crate::queue::with_waker(chan.waiters, slot, waker)
        == chan.waiters.update(i, Waiter { slot, waker: Some(waker) }) by {
        crate::queue::law_waiter_keeps_its_place(chan.waiters, i, waker);
    }
    assert forall|i: int|
        0 <= i < chan.waiters.len() && (#[trigger] chan.waiters[i]).slot == slot
            && chan.waiters[i].waker is None implies !crate::queue::registered(
        chan.waiters,
        slot,
    ) by {
        if crate::queue::registered(chan.waiters, slot) {
            let j = choose|j: int|
                0 <= j < chan.waiters.len() && (#[trigger] chan.waiters[j]).slot == slot
                    && chan.waiters[j].waker is Some;
            crate::queue::law_attached(chan.waiters, slot);
            assert(chan.waiters[i].slot == chan.waiters[j].slot);
        }
    }
}

/// What a poll for a look comes to. A message that is there is seen, whatever is answered; else the
/// peeker is told that it was moved, if one was sent; else that the sending end is gone before
/// sending anything, if it is; else the poll waits, but for a slot that holds no waker and whose
/// cancellation is ready or whose wait for the queue was cancelled.
pub proof fn law_poll_for_look_answers<T, W>(chan: ChanView<T, W>, slot: u64, a: Answers)
    ensures
        chan.value matches Some(x) ==> chan.peek_poll_result(slot, a) == Polled::<
            Result<T, RxError<()>>,
        >::Ready(Ok(x)),
        chan.value is None && chan.flags.tx_expire ==> chan.peek_poll_result(slot, a) == Polled::<
            Result<T, RxError<()>>,
        >::Ready(Err(RxError::Drained(()))),
        chan.value is None && !chan.flags.tx_expire && chan.flags.tx_closed
            ==> chan.peek_poll_result(slot, a) == Polled::<Result<T, RxError<()>>>::Ready(
            Err(RxError::Divorced(())),
        ),
        chan.value is None && !chan.flags.tx_expire && !chan.flags.tx_closed && !a.cancellation
            && a.lock_queue ==> chan.peek_poll_result(slot, a) is Pending,
        forall|i: int|
            chan.value is None && !chan.flags.tx_expire && !chan.flags.tx_closed && 0 <= i
                < chan.waiters.len() && (#[trigger] chan.waiters[i]).slot == slot
                && chan.waiters[i].waker is Some ==> chan.peek_poll_result(slot, a) is Pending,
        chan.value is None && !chan.flags.tx_expire && !chan.flags.tx_closed && (a.cancellation
            || !a.lock_queue) && (forall|i: int|
            0 <= i < chan.waiters.len() && (#[trigger] chan.waiters[i]).slot == slot
                ==> chan.waiters[i].waker is None) ==> chan.peek_poll_result(slot, a) == Polled::<
            Result<T, RxError<()>>,
        >::Ready(Err(RxError::Cancelled)),
        chan.peek_asks_cancellation(slot) <==> {
            &&& chan.value is None
            &&& !chan.flags.tx_expire
            &&& !chan.flags.tx_closed
            &&& forall|i: int|
                0 <= i < chan.waiters.len() && (#[trigger] chan.waiters[i]).slot == slot
                    ==> chan.waiters[i].waker is None
        },
{
    law_poll_for_message_asks(chan, slot, a);
}

/// What a poll for a look does: it puts the waker into the slot if it waits and the slot held none,
/// and else nothing at all.
pub proof fn law_poll_for_look_does<T, W>(chan: ChanView<T, W>, slot: u64, waker: W, a: Answers)
    requires
        chan.wf(),
    ensures
        same_place(chan.peek_poll_next(slot, waker, a), chan),
        chan.peek_poll_next(slot, waker, a).value == chan.value,
        chan.peek_poll_next(slot, waker, a).flags == chan.flags,
        chan.peek_poll_next(slot, waker, a).woken == chan.woken,
        chan.peek_poll_result(slot, a) is Ready ==> chan.peek_poll_next(slot, waker, a).waiters
            == chan.waiters,
        forall|i: int|
            0 <= i < chan.waiters.len() && (#[trigger] chan.waiters[i]).slot == slot
                && chan.waiters[i].waker is Some ==> chan.peek_poll_next(slot, waker, a).waiters
                == chan.waiters,
        forall|i: int|
            chan.peek_poll_result(slot, a) is Pending && 0 <= i < chan.waiters.len() && (
            #[trigger] chan.waiters[i]).slot == slot && chan.waiters[i].waker is None
                ==> chan.peek_poll_next(slot, waker, a).waiters == chan.waiters.update(
                i,
                Waiter { slot, waker: Some(waker) },
            ),
        chan.peek_poll_result(slot, a) is Pending && (forall|i: int|
            0 <= i < chan.waiters.len() ==> (#[trigger] chan.waiters[i]).slot != slot)
            ==> chan.peek_poll_next(slot, waker, a).waiters == chan.waiters.push(
            Waiter { slot, waker: Some(waker) },
        ),
{
    lemma_join(chan, slot, waker);
}

/// After the sending end is given up the channel says so, whoever waits or not. All who wait become
/// due, behind those who are due already, in the order in which they came, unless the sending end
/// was gone already; nothing else changes.
pub proof fn law_loss_of_the_sender<T, W>(chan: ChanView<T, W>)
    ensures
        chan.close_tx().flags == (FlagsView { tx_closed: true, ..chan.flags }),
        chan.close_tx().value == chan.value,
        same_place(chan.close_tx(), chan),
        !chan.flags.tx_closed ==> chan.close_tx().waiters.len() == 0,
        !chan.flags.tx_closed ==> chan.close_tx().woken == chan.woken + wakers_of(chan.waiters),
        chan.flags.tx_closed ==> chan.close_tx() == chan,
        chan.wake_all().waiters.len() == 0,
        chan.wake_all().woken == chan.woken + wakers_of(chan.waiters),
        chan.wake_all().flags == chan.flags,
        chan.wake_all().value == chan.value,
        same_place(chan.wake_all(), chan),
{
}

/// Who polls after the sending end was given up, with nothing sent, is told so at once, and the
/// channel can neither be received from nor looked into.
pub proof fn law_after_the_loss_of_the_sender<T, W>(chan: ChanView<T, W>, slot: u64, a: Answers)
    requires
        chan.wf(),
        !chan.flags.tx_expire,
    ensures
        !a.is_cancelled ==> chan.close_tx().recv_result(slot, a) == Polled::<
            Result<T, RxError<()>>,
        >::Ready(Err(RxError::Divorced(()))),
        chan.close_tx().peek_poll_result(slot, a) == Polled::<Result<T, RxError<()>>>::Ready(
            Err(RxError::Divorced(())),
        ),
        chan.close_tx().peek_result() == Err::<Option<T>, RxError<()>>(RxError::Divorced(())),
        !chan.close_tx().flags.can_receive(),
        !chan.close_tx().flags.can_peek(),
{
}

/// What is done to single flags changes no other and nothing else: that a receiver was given up,
/// that one was turned into a peeker, that a peeker comes or goes, and that the lock is taken or
/// given back.
pub proof fn law_single_flags<T, W>(chan: ChanView<T, W>)
    ensures
        chan.close_rx().flags == (FlagsView { rx_closed: true, ..chan.flags }),
        chan.lock_value().flags == (FlagsView { acquired: true, ..chan.flags }),
        chan.unlock_value().flags == (FlagsView { acquired: false, ..chan.flags }),
        chan.add_peeker().flags == (FlagsView { peekers: chan.flags.peekers + 1, ..chan.flags }),
        chan.flags.peekers > 0 ==> chan.remove_peeker().flags.peekers + 1 == chan.flags.peekers,
        chan.remove_peeker().flags == (FlagsView {
            peekers: chan.remove_peeker().flags.peekers,
            ..chan.flags
        }),
        chan.close_rx() == (ChanView { flags: chan.close_rx().flags, ..chan }),
        chan.lock_value() == (ChanView { flags: chan.lock_value().flags, ..chan }),
        chan.unlock_value() == (ChanView { flags: chan.unlock_value().flags, ..chan }),
        chan.add_peeker() == (ChanView { flags: chan.add_peeker().flags, ..chan }),
        chan.remove_peeker() == (ChanView { flags: chan.remove_peeker().flags, ..chan }),
        chan.convert().converted,
        chan.convert() == (ChanView { converted: chan.convert().converted, ..chan }),
{
}

/// Handing out the wakers that are due leaves none due and changes nothing else.
pub proof fn law_woken_once<T, W>(chan: ChanView<T, W>)
    ensures
        chan.take_woken().woken.len() == 0,
        chan.take_woken() == (ChanView { woken: chan.take_woken().woken, ..chan }),
{
}

/// Taking the message leaves none, and the lock free, and changes nothing else: that it was sent
/// stays noted.
pub proof fn law_message_is_taken<T, W>(chan: ChanView<T, W>)
    ensures
        chan.take_value().value is None,
        !chan.take_value().flags.data_valid,
        !chan.take_value().flags.acquired,
        chan.take_value().flags.tx_expire == chan.flags.tx_expire,
        chan.take_value().flags.tx_closed == chan.flags.tx_closed,
        chan.take_value().flags.rx_closed == chan.flags.rx_closed,
        chan.take_value().flags.peekers == chan.flags.peekers,
        chan.take_value().waiters == chan.waiters,
        chan.take_value().woken == chan.woken,
        same_place(chan.take_value(), chan),
{
}

/// The wake slot that is given out next is the last that was given back, or, if none is left of
/// those, the first that was never given out; a slot that is given back leaves the queue. Nothing
/// else of the channel changes by either.
pub proof fn law_wake_slots<T, W>(chan: ChanView<T, W>, slot: u64, waker: W)
    ensures
        chan.detach(slot).free == chan.free.push(slot),
        chan.detach(slot).next_slot() == slot,
        chan.detach(slot).add_slot().free == chan.free,
        chan.free.len() == 0 && chan.slots <= u64::MAX ==> chan.next_slot() == chan.slots,
        chan.free.len() == 0 ==> chan.add_slot().slots == chan.slots + 1,
        chan.free.len() == 0 ==> chan.add_slot().free == chan.free,
        chan.free.len() > 0 ==> chan.add_slot().slots == chan.slots,
        chan.free.len() > 0 ==> chan.add_slot().free.push(chan.next_slot()) == chan.free,
        chan.add_slot() == (ChanView {
            slots: chan.add_slot().slots,
            free: chan.add_slot().free,
            ..chan
        }),
        chan.detach(slot).waiters == crate::queue::without(chan.waiters, slot),
        chan.detach(slot) == (ChanView {
            waiters: chan.detach(slot).waiters,
            free: chan.detach(slot).free,
            ..chan
        }),
        chan.empty_slot(slot).waiters == crate::queue::emptied(chan.waiters, slot),
        chan.empty_slot(slot) == (ChanView { waiters: chan.empty_slot(slot).waiters, ..chan }),
        chan.register(slot, waker).waiters == crate::queue::with_waker(chan.waiters, slot, waker),
        chan.register(slot, waker) == (ChanView {
            waiters: chan.register(slot, waker).waiters,
            ..chan
        }),
{
    assert(chan.free.push(slot).drop_last() =~= chan.free);
    if chan.free.len() > 0 {
        assert(chan.free.drop_last().push(chan.free.last()) =~= chan.free);
    }
}

/// Whoever shares a channel is its only owner if there are no more than one strong reference and no
/// weak one; more than one strong reference, or any weak one, is another owner.
pub proof fn law_only_owner(strong: usize, weak: usize)
    ensures
        strong > 1 ==> !crate::oneshot::only_owner(strong, weak),
        weak > 0 ==> !crate::oneshot::only_owner(strong, weak),
        strong <= 1 && weak == 0 ==> crate::oneshot::only_owner(strong, weak),
{
}

/// An end belongs to a channel exactly if it has its `id`, holds its wake slot there and is one of
/// those that are counted there.
pub proof fn law_belonging<T, W>(chan: ChanView<T, W>, rx: Receiver, p: Peeker)
    ensures
        rx.belongs_to(chan) <==> rx.id() == chan.id && chan.holds(rx.slot()) && chan.slots
            - chan.free.len() > chan.flags.peekers,
        p.belongs_to(chan) <==> p.id() == chan.id && chan.holds(p.slot()) && chan.flags.peekers > 0,
{
}

/// Two peekers are equal exactly if they look into the same channel.
pub proof fn law_equal_peekers(p: Peeker, q: Peeker)
    ensures
        p.eq_spec(&q) <==> p.id() == q.id(),
{
}

/// An error carries what was put into it, and one that tells of a cancellation carries nothing.
pub proof fn law_errors_carry<T>(t: T)
    ensures
        TxError::<T>::Cancelled.inner() is None,
        TxError::Divorced(t).inner() == Some(t),
        TxError::Stuffed(t).inner() == Some(t),
        RxError::<T>::Cancelled.inner() is None,
        RxError::Divorced(t).inner() == Some(t),
        RxError::Drained(t).inner() == Some(t),
{
}

/// The text of an error names its kind and holds what it carries between brackets.
pub proof fn law_error_text(t: String)
    ensures
        RxError::Divorced(t).text() == "ReceiverError::Divoced("@ + t@ + ")"@,
        RxError::Drained(t).text() == "ReceiverError::Drained("@ + t@ + ")"@,
        RxError::<String>::Cancelled.text() == "ReceiverError::Cancelled"@,
{
}

} // verus!
