use vstd::prelude::*;
use vstd::std_specs::cmp::PartialEqSpec;

use crate::oneshot::{Answers, ChanView, Polled};
use crate::peeker::Peeker;
use crate::queue::attached;
use crate::recver::{Receiver, RxError};
use crate::runs::{law_new_slot, law_slot_stays_held, Op};
use crate::sender::{Sender, TxError};

verus! {

/// Answers of which none speaks of a cancellation.
pub open spec fn uncancelled(a: Answers) -> bool {
    !a.is_cancelled && !a.cancellation && a.lock_queue
}

/// Exactly when `can_send` says so, a send that gets the lock on the value succeeds.
pub proof fn law_can_send<T, W>(chan: ChanView<T, W>, data: T)
    ensures
        chan.can_send() <==> chan.send_result(data, true) is Ok,
{
}

/// A send fails as cancelled exactly if it did not get the lock on the value, and then the
/// channel is unchanged. Every other refused send gives the message back and leaves the channel
/// as it is, with the lock on the value free.
pub proof fn law_refused_send<T, W>(chan: ChanView<T, W>, data: T, acquired: bool)
    ensures
        chan.send_result(data, acquired) == Err::<(), TxError<T>>(TxError::Cancelled)
            <==> !acquired,
        !acquired ==> chan.send_next(data, acquired) == chan,
        acquired ==> (chan.send_result(data, acquired) matches Err(e) ==> {
            &&& e.inner() == Some(data)
            &&& chan.send_next(data, acquired).value == chan.value
            &&& chan.send_next(data, acquired).waiters == chan.waiters
            &&& chan.send_next(data, acquired).woken == chan.woken
            &&& chan.send_next(data, acquired).flags == (crate::flags::FlagsView {
                acquired: false,
                ..chan.flags
            })
        }),
{
}

/// A send is refused as stuffed exactly if something was sent before, and as divorced exactly if
/// nothing was, no peeker is there, and a receiver was given up or the last was turned into a
/// peeker.
pub proof fn law_why_refused<T, W>(chan: ChanView<T, W>, data: T)
    requires
        chan.wf(),
    ensures
        chan.send_result(data, true) == Err::<(), TxError<T>>(TxError::Stuffed(data))
            <==> chan.flags.tx_expire,
        chan.send_result(data, true) == Err::<(), TxError<T>>(TxError::Divorced(data))
            <==> !chan.flags.tx_expire && chan.flags.peekers == 0 && (chan.flags.rx_closed || (
        chan.converted && chan.receivers() == 0)),
{
}

/// As long as nothing was sent and no receiver was given up, a send succeeds if a receiver is
/// there, whether others were turned into peekers or not. As long as nothing was sent, it succeeds
/// if a peeker is there.
pub proof fn law_send_with_an_audience<T, W>(chan: ChanView<T, W>, data: T)
    requires
        chan.wf(),
        !chan.flags.tx_expire,
        (!chan.flags.rx_closed && chan.receivers() > 0) || chan.flags.peekers > 0,
    ensures
        chan.send_result(data, true) is Ok,
{
}

/// What was sent is what a look shows and what the receiver gets, cancelled or not.
pub proof fn law_sent_is_received<T, W>(chan: ChanView<T, W>, data: T, slot: u64, a: Answers)
    requires
        chan.can_send(),
    ensures
        chan.send_next(data, true).peek_result() == Ok::<Option<T>, RxError<()>>(Some(data)),
        chan.send_next(data, true).peek_poll_result(slot, a)
            == Polled::<Result<T, RxError<()>>>::Ready(Ok(data)),
        chan.send_next(data, true).recv_result(slot, a)
            == Polled::<Result<T, RxError<()>>>::Ready(Ok(data)),
{
}

/// After one send that succeeded, every other is refused as stuffed, whether the message was
/// received meanwhile or not.
pub proof fn law_second_send<T, W>(chan: ChanView<T, W>, data: T, other: T)
    requires
        chan.can_send(),
    ensures
        chan.send_next(data, true).send_result(other, true)
            == Err::<(), TxError<T>>(TxError::Stuffed(other)),
        chan.send_next(data, true).take_value().send_result(other, true)
            == Err::<(), TxError<T>>(TxError::Stuffed(other)),
{
}

/// A message that was received is gone: no poll gets it again, no look shows it, and both say that
/// it was moved, whether the sending end is there or not.
pub proof fn law_received_is_gone<T, W>(chan: ChanView<T, W>, slot: u64, a: Answers)
    requires
        chan.wf(),
        chan.value is Some,
    ensures
        !chan.take_value().flags.data_valid,
        !(chan.take_value().recv_result(slot, a) matches Polled::Ready(Ok(_))),
        chan.take_value().peek_result() == Err::<Option<T>, RxError<()>>(RxError::Drained(())),
        chan.take_value().peek_poll_result(slot, a) == Polled::<Result<T, RxError<()>>>::Ready(
            Err(RxError::Drained(())),
        ),
        !a.is_cancelled ==> chan.take_value().recv_result(slot, a) == Polled::<
            Result<T, RxError<()>>,
        >::Ready(Err(RxError::Drained(()))),
{
}

/// A poll for a look leaves the message, and whether it is ready, as they are.
pub proof fn law_peeking_changes_nothing<T, W>(
    chan: ChanView<T, W>,
    slot: u64,
    waker: W,
    a: Answers,
)
    ensures
        chan.peek_poll_next(slot, waker, a).value == chan.value,
        chan.peek_poll_next(slot, waker, a).flags == chan.flags,
{
}

/// A receiver, or a peeker, is told of a cancellation only if there is no message.
pub proof fn law_cancelled_only_if_absent<T, W>(chan: ChanView<T, W>, slot: u64, a: Answers)
    ensures
        chan.recv_result(slot, a) == Polled::<Result<T, RxError<()>>>::Ready(
            Err(RxError::Cancelled),
        ) ==> chan.value is None,
        chan.peek_poll_result(slot, a) == Polled::<Result<T, RxError<()>>>::Ready(
            Err(RxError::Cancelled),
        ) ==> chan.value is None,
{
}

/// A receiver, or a peeker, is told of a cancellation only if one was raised.
pub proof fn law_cancelled_only_if_raised<T, W>(chan: ChanView<T, W>, slot: u64, a: Answers)
    requires
        uncancelled(a),
    ensures
        chan.recv_result(slot, a) != Polled::<Result<T, RxError<()>>>::Ready(
            Err(RxError::Cancelled),
        ),
        chan.peek_poll_result(slot, a) != Polled::<Result<T, RxError<()>>>::Ready(
            Err(RxError::Cancelled),
        ),
{
}

/// As long as the message was not received, a poll that nobody cancels gets it or keeps waiting
/// exactly when `can_receive` says so, and a poll for a look does exactly when `can_peek` says so.
pub proof fn law_can_receive<T, W>(chan: ChanView<T, W>, slot: u64, a: Answers)
    requires
        chan.wf(),
        chan.flags.tx_expire ==> chan.value is Some,
        uncancelled(a),
    ensures
        chan.flags.can_receive() <==> !(chan.recv_result(slot, a) matches Polled::Ready(Err(_))),
        chan.flags.can_peek() <==> !(chan.peek_poll_result(slot, a) matches Polled::Ready(Err(_))),
{
}

/// A clone `c` of the peeker `p` is a peeker of the same channel: the two are equal and paired with
/// the same sending ends, the channel counts one peeker more and is otherwise as it was, a look
/// shows the same, and the clone does not wait, even if `p` does.
pub proof fn law_clone<T, W>(chan: ChanView<T, W>, p: Peeker, c: Peeker, tx: Sender)
    requires
        chan.wf(),
        p.belongs_to(chan),
        c.id() == p.id(),
        c.slot() == chan.next_slot(),
    ensures
        c.eq_spec(&p),
        c.id() == tx.id() <==> p.id() == tx.id(),
        c.slot() != p.slot(),
        p.belongs_to(chan.after(Op::NewPeeker)),
        c.belongs_to(chan.after(Op::NewPeeker)),
        chan.after(Op::NewPeeker).flags == (crate::flags::FlagsView {
            peekers: chan.flags.peekers + 1,
            ..chan.flags
        }),
        chan.after(Op::NewPeeker).value == chan.value,
        chan.after(Op::NewPeeker).waiters == chan.waiters,
        chan.after(Op::NewPeeker).woken == chan.woken,
        chan.after(Op::NewPeeker).peek_result() == chan.peek_result(),
        !attached(chan.after(Op::NewPeeker).waiters, c.slot()),
{
    law_new_slot(chan);
    law_slot_stays_held(chan, Op::NewPeeker, p.slot());
}

/// Giving up a clone of the peeker `p` undoes the cloning: the flags, among them the number of
/// peekers, the message, what a look shows and those who wait are as they were before.
pub proof fn law_clone_given_up<T, W>(chan: ChanView<T, W>, p: Peeker)
    requires
        chan.wf(),
        p.belongs_to(chan),
    ensures
        ({
            let after = chan.after(Op::NewPeeker).after(Op::DropPeeker { slot: chan.next_slot() });
            &&& after.flags == chan.flags
            &&& after.value == chan.value
            &&& after.peek_result() == chan.peek_result()
            &&& after.waiters == chan.waiters
            &&& after.woken == chan.woken
            &&& p.belongs_to(after)
        }),
{
    let next = chan.after(Op::NewPeeker);
    law_new_slot(chan);
    law_slot_stays_held(chan, Op::NewPeeker, p.slot());
    law_slot_stays_held(next, Op::DropPeeker { slot: chan.next_slot() }, p.slot());
    assert(!attached(chan.waiters, chan.next_slot()));
    crate::queue::lemma_without_absent(chan.waiters, chan.next_slot());
}

/// Giving up a peeker neither drops nor takes the message, and leaves what is known of it as it
/// was.
pub proof fn law_dropped_peeker<T, W>(chan: ChanView<T, W>, slot: u64)
    ensures
        chan.after(Op::DropPeeker { slot }).value == chan.value,
        chan.after(Op::DropPeeker { slot }).flags.data_valid == chan.flags.data_valid,
        chan.after(Op::DropPeeker { slot }).flags.tx_expire == chan.flags.tx_expire,
        chan.after(Op::DropPeeker { slot }).peek_result() == chan.peek_result(),
{
}

/// The ends of a channel are paired with its sending ends, and neither paired with those of another
/// channel nor fit to act on it.
pub proof fn law_ends_know_their_channel<T, W>(
    chan: ChanView<T, W>,
    other: ChanView<T, W>,
    rx: Receiver,
    p: Peeker,
    tx: Sender,
)
    requires
        chan.id != other.id,
        rx.belongs_to(chan),
        p.belongs_to(chan),
    ensures
        tx.id() == chan.id ==> rx.id() == tx.id() && p.id() == tx.id(),
        tx.id() == other.id ==> rx.id() != tx.id() && p.id() != tx.id(),
        !rx.belongs_to(other),
        !p.belongs_to(other),
{
}

} // verus!
