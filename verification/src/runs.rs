use vstd::prelude::*;

use crate::flags::K_PEEKERS_NUM_MASK;
use crate::oneshot::{Answers, ChanView, Polled};
use crate::queue::{attached, distinct};
use crate::recver::RxError;

verus! {

/// What can be done to a channel, one thing at a time.
pub enum Op<T, W> {
    /// It is split.
    Split,
    /// A send that gets the lock on the value or not.
    Send { data: T, acquired: bool },
    /// The sending end is given up.
    DropSender,
    /// The receiver with this wake slot is given up.
    DropReceiver { slot: u64 },
    /// The receiver with this wake slot is turned into a peeker.
    IntoPeeker { slot: u64 },
    /// A peeker is made, by the channel or as a clone.
    NewPeeker,
    /// The peeker with this wake slot is given up.
    DropPeeker { slot: u64 },
    /// A receiver polls for the message.
    PollReceive { slot: u64, waker: W, answers: Answers },
    /// A peeker begins a wait.
    PeekAsync { slot: u64 },
    /// A peeker polls for a look.
    PollPeek { slot: u64, waker: W, answers: Answers },
    /// The wakers that are due are handed out.
    TakeWoken,
    /// The lock on the value is taken.
    LockValue,
    /// The lock on the value is given back.
    UnlockValue,
}

impl<T, W> ChanView<T, W> {
    /// `op` can be done to the channel.
    pub open spec fn admits(self, op: Op<T, W>) -> bool {
        match op {
            Op::Split => self.receivers() < K_PEEKERS_NUM_MASK,
            Op::DropReceiver { slot } => self.holds(slot) && self.receivers() > 0,
            Op::IntoPeeker { slot } => self.holds(slot) && self.receivers() > 0
                && self.flags.peekers < K_PEEKERS_NUM_MASK,
            Op::NewPeeker => self.flags.peekers < K_PEEKERS_NUM_MASK,
            Op::DropPeeker { slot } => self.holds(slot) && self.flags.peekers > 0,
            Op::PollReceive { slot, waker, answers } => self.holds(slot),
            Op::PeekAsync { slot } => self.holds(slot),
            Op::PollPeek { slot, waker, answers } => self.holds(slot),
            _ => true,
        }
    }

    /// The channel after `op`.
    pub open spec fn after(self, op: Op<T, W>) -> Self {
        match op {
            Op::Split => self.add_slot(),
            Op::Send { data, acquired } => self.send_next(data, acquired),
            Op::DropSender => self.close_tx(),
            Op::DropReceiver { slot } => self.detach(slot).close_rx(),
            Op::IntoPeeker { slot } => self.add_peeker().add_slot().detach(slot).convert(),
            Op::NewPeeker => self.add_peeker().add_slot(),
            Op::DropPeeker { slot } => self.remove_peeker().detach(slot),
            Op::PollReceive { slot, waker, answers } => self.recv_next(slot, waker, answers),
            Op::PeekAsync { slot } => self.empty_slot(slot),
            Op::PollPeek { slot, waker, answers } => self.peek_poll_next(slot, waker, answers),
            Op::TakeWoken => self.take_woken(),
            Op::LockValue => self.lock_value(),
            Op::UnlockValue => self.unlock_value(),
        }
    }

    /// What `op` sends, if it is a send that succeeds.
    pub open spec fn sent_by(self, op: Op<T, W>) -> Option<T> {
        match op {
            Op::Send { data, acquired } => if self.send_result(data, acquired) is Ok {
                Some(data)
            } else {
                None
            },
            _ => None,
        }
    }

    /// What `op` receives, if it is a poll that gets the message.
    pub open spec fn received_by(self, op: Op<T, W>) -> Option<T> {
        match op {
            Op::PollReceive { slot, waker, answers } => match self.recv_result(slot, answers) {
                Polled::Ready(Ok(x)) => Some(x),
                _ => None,
            },
            _ => None,
        }
    }
}

/// A fresh channel after `ops`, one after the other.
pub open spec fn run<T, W>(id: u64, ops: Seq<Op<T, W>>) -> ChanView<T, W>
    decreases ops.len(),
{
    if ops.len() == 0 {
        ChanView::initial(id)
    } else {
        run(id, ops.drop_last()).after(ops.last())
    }
}

/// Each of `ops` can be done when its turn comes.
pub open spec fn legal<T, W>(id: u64, ops: Seq<Op<T, W>>) -> bool
    decreases ops.len(),
{
    ops.len() > 0 ==> legal(id, ops.drop_last()) && run(id, ops.drop_last()).admits(ops.last())
}

/// All that was sent in the course of `ops`.
pub open spec fn sent<T, W>(id: u64, ops: Seq<Op<T, W>>) -> Seq<T>
    decreases ops.len(),
{
    if ops.len() == 0 {
        Seq::empty()
    } else {
        let before = sent(id, ops.drop_last());
        match run(id, ops.drop_last()).sent_by(ops.last()) {
            Some(x) => before.push(x),
            None => before,
        }
    }
}

/// All that was received in the course of `ops`.
pub open spec fn received<T, W>(id: u64, ops: Seq<Op<T, W>>) -> Seq<T>
    decreases ops.len(),
{
    if ops.len() == 0 {
        Seq::empty()
    } else {
        let before = received(id, ops.drop_last());
        match run(id, ops.drop_last()).received_by(ops.last()) {
            Some(x) => before.push(x),
            None => before,
        }
    }
}

/// How many peekers were made and not given up in the course of `ops`.
pub open spec fn living_peekers<T, W>(ops: Seq<Op<T, W>>) -> int
    decreases ops.len(),
{
    if ops.len() == 0 {
        0
    } else {
        let before = living_peekers(ops.drop_last());
        match ops.last() {
            Op::NewPeeker => before + 1,
            Op::IntoPeeker { slot } => before + 1,
            Op::DropPeeker { slot } => before - 1,
            _ => before,
        }
    }
}

/// How many receivers were made and neither given up nor turned into peekers in the course of
/// `ops`.
pub open spec fn living_receivers<T, W>(ops: Seq<Op<T, W>>) -> int
    decreases ops.len(),
{
    if ops.len() == 0 {
        0
    } else {
        let before = living_receivers(ops.drop_last());
        match ops.last() {
            Op::Split => before + 1,
            Op::IntoPeeker { slot } => before - 1,
            Op::DropReceiver { slot } => before - 1,
            _ => before,
        }
    }
}

/// In the course of `ops` the channel was split.
pub open spec fn was_split<T, W>(ops: Seq<Op<T, W>>) -> bool
    decreases ops.len(),
{
    ops.len() > 0 && (was_split(ops.drop_last()) || ops.last() is Split)
}

/// In the course of `ops` a receiver was given up.
pub open spec fn receiver_given_up<T, W>(ops: Seq<Op<T, W>>) -> bool
    decreases ops.len(),
{
    ops.len() > 0 && (receiver_given_up(ops.drop_last()) || ops.last() is DropReceiver)
}

/// In the course of `ops` a receiver was turned into a peeker.
pub open spec fn receiver_converted<T, W>(ops: Seq<Op<T, W>>) -> bool
    decreases ops.len(),
{
    ops.len() > 0 && (receiver_converted(ops.drop_last()) || ops.last() is IntoPeeker)
}

/// Whatever is done to a channel that is in order leaves it in order.
pub proof fn law_after_keeps_order<T, W>(chan: ChanView<T, W>, op: Op<T, W>)
    requires
        chan.wf(),
        chan.admits(op),
    ensures
        chan.after(op).wf(),
{
    match op {
        Op::Split => lemma_add_slot_in_order(chan),
        Op::NewPeeker => lemma_add_slot_in_order(chan.add_peeker()),
        Op::DropReceiver { slot } => lemma_detach_in_order(chan, slot),
        Op::IntoPeeker { slot } => {
            lemma_add_slot_in_order(chan.add_peeker());
            lemma_detach_in_order(chan.add_peeker().add_slot(), slot);
        },
        Op::DropPeeker { slot } => lemma_detach_in_order(chan.remove_peeker(), slot),
        _ => {},
    }
}

/// The wake slots are in order: those that hang in the queue are held, none of them twice, and
/// none was given back twice.
spec fn slots_in_order<T, W>(chan: ChanView<T, W>) -> bool {
    &&& distinct(chan.waiters)
    &&& forall|i: int|
        0 <= i < chan.waiters.len() ==> chan.holds((#[trigger] chan.waiters[i]).slot)
    &&& chan.free.no_duplicates()
    &&& forall|i: int| 0 <= i < chan.free.len() ==> (#[trigger] chan.free[i]) < chan.slots
}

/// Giving out a slot leaves the slots in order, and those that were held are held.
proof fn lemma_add_slot_in_order<T, W>(chan: ChanView<T, W>)
    requires
        slots_in_order(chan),
    ensures
        slots_in_order(chan.add_slot()),
        forall|slot: u64| #[trigger] chan.holds(slot) ==> chan.add_slot().holds(slot),
        chan.add_slot().slots - chan.add_slot().free.len() == chan.slots - chan.free.len() + 1,
{
    let next = chan.add_slot();
    assert forall|slot: u64| #[trigger] chan.holds(slot) implies next.holds(slot) by {
        if chan.free.len() > 0 && next.free.contains(slot) {
            let i = choose|i: int| 0 <= i < next.free.len() && next.free[i] == slot;
            assert(chan.free[i] == slot);
        }
    }
    assert forall|i: int| 0 <= i < next.waiters.len() implies next.holds(
        (#[trigger] next.waiters[i]).slot,
    ) by {
        assert(chan.holds(chan.waiters[i].slot));
    }
}

/// Taking back a slot that is held leaves the slots in order.
proof fn lemma_detach_in_order<T, W>(chan: ChanView<T, W>, slot: u64)
    requires
        slots_in_order(chan),
        chan.holds(slot),
    ensures
        slots_in_order(chan.detach(slot)),
        chan.detach(slot).waiters.len() <= chan.waiters.len(),
{
    let s = chan.waiters;
    let next = chan.detach(slot);
    crate::queue::lemma_without_kept(s, slot);
    if attached(s, slot) {
        let i = choose|i: int| 0 <= i < s.len() && (#[trigger] s[i]).slot == slot;
        crate::queue::lemma_without_present(s, slot, i);
    } else {
        crate::queue::lemma_without_absent(s, slot);
    }
    assert(next.free.no_duplicates()) by {
        assert forall|i: int, j: int|
            0 <= i < next.free.len() && 0 <= j < next.free.len() && i != j implies next.free[i]
            != next.free[j] by {
            if i == chan.free.len() {
                assert(chan.free.contains(chan.free[j]));
            } else if j == chan.free.len() {
                assert(chan.free.contains(chan.free[i]));
            }
        }
    }
    assert forall|i: int| 0 <= i < next.waiters.len() implies next.holds(
        (#[trigger] next.waiters[i]).slot,
    ) by {
        let w = next.waiters[i];
        assert(s.contains(w) && w.slot != slot);
        let j = choose|j: int| 0 <= j < s.len() && s[j] == w;
        assert(chan.holds(s[j].slot));
        if next.free.contains(w.slot) {
            let k = choose|k: int| 0 <= k < next.free.len() && next.free[k] == w.slot;
            assert(k < chan.free.len());
            assert(chan.free[k] == w.slot);
        }
    }
}

/// A channel is in order after any course of things.
pub proof fn law_run_in_order<T, W>(id: u64, ops: Seq<Op<T, W>>)
    requires
        legal(id, ops),
    ensures
        run(id, ops).wf(),
    decreases ops.len(),
{
    if ops.len() > 0 {
        law_run_in_order(id, ops.drop_last());
        law_after_keeps_order(run(id, ops.drop_last()), ops.last());
    }
}

/// A channel carries a single message, once: in any course of things at most one send succeeds,
/// the message is received at most once, and what is received is what was sent before. While it
/// was sent and not received it lies in the channel.
pub proof fn law_single_message<T, W>(id: u64, ops: Seq<Op<T, W>>)
    requires
        legal(id, ops),
    ensures
        sent(id, ops).len() <= 1,
        received(id, ops).len() <= sent(id, ops).len(),
        received(id, ops).len() == 1 ==> received(id, ops)[0] == sent(id, ops)[0],
        run(id, ops).flags.tx_expire <==> sent(id, ops).len() == 1,
        run(id, ops).value == if received(id, ops).len() < sent(id, ops).len() {
            Some(sent(id, ops)[0])
        } else {
            None
        },
    decreases ops.len(),
{
    if ops.len() > 0 {
        let init = ops.drop_last();
        law_single_message(id, init);
        law_run_in_order(id, init);
    }
}

/// Who asks for the message is told that it was moved exactly if it was received, and that the
/// sending end left before sending anything exactly if it did.
pub proof fn law_errors_are_true<T, W>(id: u64, ops: Seq<Op<T, W>>, slot: u64, a: Answers)
    requires
        legal(id, ops),
    ensures
        run(id, ops).recv_result(slot, a) == Polled::<Result<T, RxError<()>>>::Ready(
            Err(RxError::Drained(())),
        ) <==> !a.is_cancelled && received(id, ops).len() == 1,
        run(id, ops).recv_result(slot, a) == Polled::<Result<T, RxError<()>>>::Ready(
            Err(RxError::Divorced(())),
        ) <==> !a.is_cancelled && run(id, ops).flags.tx_closed && sent(id, ops).len() == 0,
        run(id, ops).peek_result() == Err::<Option<T>, RxError<()>>(RxError::Drained(()))
            <==> received(id, ops).len() == 1,
        run(id, ops).peek_result() == Err::<Option<T>, RxError<()>>(RxError::Divorced(()))
            <==> run(id, ops).flags.tx_closed && sent(id, ops).len() == 0,
        run(id, ops).peek_poll_result(slot, a) == Polled::<Result<T, RxError<()>>>::Ready(
            Err(RxError::Drained(())),
        ) <==> received(id, ops).len() == 1,
        run(id, ops).peek_poll_result(slot, a) == Polled::<Result<T, RxError<()>>>::Ready(
            Err(RxError::Divorced(())),
        ) <==> run(id, ops).flags.tx_closed && sent(id, ops).len() == 0,
{
    law_single_message(id, ops);
}

/// `op` gives the wake slot `slot` back.
pub open spec fn gives_back<T, W>(op: Op<T, W>, slot: u64) -> bool {
    match op {
        Op::DropReceiver { slot: s } => s == slot,
        Op::IntoPeeker { slot: s } => s == slot,
        Op::DropPeeker { slot: s } => s == slot,
        _ => false,
    }
}

/// The wake slot that is given out next is held by nobody and does not hang in the queue, and who
/// gets it holds it.
pub proof fn law_new_slot<T, W>(chan: ChanView<T, W>)
    requires
        chan.wf(),
    ensures
        !chan.holds(chan.next_slot()),
        !attached(chan.waiters, chan.next_slot()),
        chan.add_slot().holds(chan.next_slot()),
{
    let slot = chan.next_slot();
    if chan.free.len() > 0 {
        assert(chan.free[chan.free.len() - 1] == slot);
        let next = chan.add_slot();
        if next.free.contains(slot) {
            let i = choose|i: int| 0 <= i < next.free.len() && next.free[i] == slot;
            assert(chan.free[i] == slot);
        }
    }
    if attached(chan.waiters, slot) {
        let i = choose|i: int| 0 <= i < chan.waiters.len() && (#[trigger] chan.waiters[i]).slot
            == slot;
        assert(chan.holds(chan.waiters[i].slot));
    }
}

/// Who holds a wake slot holds it until it is given back.
pub proof fn law_slot_stays_held<T, W>(chan: ChanView<T, W>, op: Op<T, W>, slot: u64)
    requires
        chan.holds(slot),
        !gives_back(op, slot),
    ensures
        chan.after(op).holds(slot),
{
    let next = chan.after(op);
    if next.free.contains(slot) {
        let i = choose|i: int| 0 <= i < next.free.len() && next.free[i] == slot;
        if i < chan.free.len() {
            assert(chan.free[i] == slot);
        }
    }
}

/// The channel always counts the peekers and the receivers that are there.
pub proof fn law_peekers_are_counted<T, W>(id: u64, ops: Seq<Op<T, W>>)
    requires
        legal(id, ops),
    ensures
        run(id, ops).flags.peekers == living_peekers(ops),
        run(id, ops).receivers() == living_receivers(ops),
    decreases ops.len(),
{
    if ops.len() > 0 {
        law_peekers_are_counted(id, ops.drop_last());
    }
}

/// What becomes of receivers: without a split there is none to give up or to turn into a peeker,
/// and one that was neither is still there.
pub(crate) proof fn lemma_receivers<T, W>(id: u64, ops: Seq<Op<T, W>>)
    requires
        legal(id, ops),
    ensures
        run(id, ops).flags.rx_closed <==> receiver_given_up(ops),
        run(id, ops).converted <==> receiver_converted(ops),
        living_receivers(ops) >= 0,
        !was_split(ops) ==> living_receivers(ops) == 0 && !receiver_given_up(ops)
            && !receiver_converted(ops),
        was_split(ops) && !receiver_given_up(ops) && !receiver_converted(ops) ==> living_receivers(
            ops,
        ) > 0,
    decreases ops.len(),
{
    if ops.len() > 0 {
        let init = ops.drop_last();
        lemma_receivers(id, init);
        law_run_in_order(id, init);
        law_peekers_are_counted(id, init);
    }
}

/// When a channel can send.
///
/// A channel that was split can send only if nothing was ever sent and a receiver or at least one
/// peeker is alive, and as long as no receiver was given up, it can whenever that is so. After a
/// receiver was given up it can as long as a peeker is alive. A channel that was never split can
/// send until something was sent, though nobody may be there to see it.
pub proof fn law_when_can_send<T, W>(id: u64, ops: Seq<Op<T, W>>)
    requires
        legal(id, ops),
    ensures
        was_split(ops) && run(id, ops).can_send() ==> sent(id, ops).len() == 0 && (
        living_receivers(ops) > 0 || living_peekers(ops) > 0),
        was_split(ops) && !receiver_given_up(ops) ==> (run(id, ops).can_send() <==> sent(
            id,
            ops,
        ).len() == 0 && (living_receivers(ops) > 0 || living_peekers(ops) > 0)),
        receiver_given_up(ops) ==> (run(id, ops).can_send() <==> sent(id, ops).len() == 0
            && living_peekers(ops) > 0),
        !was_split(ops) ==> (run(id, ops).can_send() <==> sent(id, ops).len() == 0),
{
    law_single_message(id, ops);
    law_run_in_order(id, ops);
    law_peekers_are_counted(id, ops);
    lemma_receivers(id, ops);
}

/// That the message was sent, that the sending end is gone, that a receiver was given up and that
/// one was turned into a peeker are never unsaid.
pub proof fn law_flags_are_final<T, W>(chan: ChanView<T, W>, op: Op<T, W>)
    ensures
        chan.flags.tx_expire ==> chan.after(op).flags.tx_expire,
        chan.flags.tx_closed ==> chan.after(op).flags.tx_closed,
        chan.flags.rx_closed ==> chan.after(op).flags.rx_closed,
        chan.converted ==> chan.after(op).converted,
        chan.after(op).id == chan.id,
        chan.after(op).slots >= chan.slots,
{
}

} // verus!
