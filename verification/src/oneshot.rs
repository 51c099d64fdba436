use vstd::prelude::*;

use crate::flags::{Flags, FlagsView, K_PEEKERS_NUM_MASK};
use crate::peeker::Peeker;
use crate::queue::{WakeQueue, Waiter};
use crate::recver::{Receiver, RxError};
use crate::sender::{SendTask, Sender, TxError};

verus! {

/// What one poll comes to.
#[derive(Debug, PartialEq, Eq)]
pub enum Polled<R> {
    /// It is over, with this result.
    Ready(R),
    /// It is not over; a waker is kept until the channel changes.
    Pending,
}

/// What those whom a poll asks may answer.
pub struct Answers {
    /// The cancellation was raised.
    pub is_cancelled: bool,
    /// A poll of the cancellation was ready.
    pub cancellation: bool,
    /// The lock on the wake queue was got before the wait for it was cancelled.
    pub lock_queue: bool,
}

/// What a channel is at one moment.
pub struct ChanView<T, W> {
    /// Which channel it is.
    pub id: u64,
    /// What its flag word says.
    pub flags: FlagsView,
    /// The message that lies in it.
    pub value: Option<T>,
    /// Those who wait for it to change, from head to tail.
    pub waiters: Seq<Waiter<W>>,
    /// The wakers that are due to be woken.
    pub woken: Seq<W>,
    /// How many wake slots there are.
    pub slots: nat,
    /// The wake slots that were given back, the next to be given out last.
    pub free: Seq<u64>,
    /// A receiver was turned into a peeker.
    pub converted: bool,
}

impl<T, W> ChanView<T, W> {
    /// A fresh channel.
    pub open spec fn initial(id: u64) -> Self {
        ChanView {
            id,
            flags: FlagsView::initial(),
            value: None,
            waiters: Seq::empty(),
            woken: Seq::empty(),
            slots: 0,
            free: Seq::empty(),
            converted: false,
        }
    }

    /// Somebody holds the wake slot `slot`.
    pub open spec fn holds(self, slot: u64) -> bool {
        slot < self.slots && !self.free.contains(slot)
    }

    /// How many receivers there are: each receiver and each peeker holds one wake slot.
    pub open spec fn receivers(self) -> int {
        self.slots - self.free.len() - self.flags.peekers
    }

    /// The flags tell the truth about the message, a message in the channel was sent, nobody
    /// waits once something was sent or the sending end is gone, only slots that somebody holds
    /// hang in the queue, none of them twice, no slot was given back twice, and neither the
    /// receivers nor the peekers are too many to be counted.
    pub open spec fn wf(self) -> bool {
        &&& self.flags.data_valid <==> self.value is Some
        &&& self.flags.data_valid ==> self.flags.tx_expire
        &&& self.flags.tx_expire || self.flags.tx_closed ==> self.waiters.len() == 0
        &&& crate::queue::distinct(self.waiters)
        &&& forall|i: int|
            0 <= i < self.waiters.len() ==> self.holds((#[trigger] self.waiters[i]).slot)
        &&& self.free.no_duplicates()
        &&& forall|i: int| 0 <= i < self.free.len() ==> (#[trigger] self.free[i]) < self.slots
        &&& 0 <= self.receivers() <= K_PEEKERS_NUM_MASK
        &&& self.flags.peekers <= K_PEEKERS_NUM_MASK
    }

    /// A receiver was turned into a peeker, and now neither a receiver nor a peeker is there.
    pub open spec fn abandoned(self) -> bool {
        self.converted && self.slots == self.free.len()
    }

    /// Nothing was sent yet, and somebody can see what is sent.
    pub open spec fn can_send(self) -> bool {
        self.flags.can_send() && !self.abandoned()
    }

    /// The channel after all who wait were woken.
    pub open spec fn wake_all(self) -> Self {
        ChanView {
            waiters: Seq::empty(),
            woken: self.woken + crate::queue::wakers_of(self.waiters),
            ..self
        }
    }

    /// What a send is answered; `acquired` tells whether it gets the lock on the value.
    pub open spec fn send_result(self, data: T, acquired: bool) -> Result<(), TxError<T>> {
        if !acquired {
            Err(TxError::Cancelled)
        } else if self.can_send() {
            Ok(())
        } else if self.flags.tx_expire {
            Err(TxError::Stuffed(data))
        } else {
            Err(TxError::Divorced(data))
        }
    }

    /// The channel after a send, which gives the lock on the value back if it got it.
    pub open spec fn send_next(self, data: T, acquired: bool) -> Self {
        if !acquired {
            self
        } else if self.can_send() {
            ChanView {
                flags: FlagsView { acquired: false, ..self.flags.after_sent() },
                value: Some(data),
                ..self.wake_all()
            }
        } else {
            ChanView { flags: FlagsView { acquired: false, ..self.flags }, ..self }
        }
    }

    /// Why there is no message and never will be.
    pub open spec fn absent_error(self) -> RxError<()> {
        if self.flags.tx_expire {
            RxError::Drained(())
        } else {
            RxError::Divorced(())
        }
    }

    /// What a look at the message shows.
    pub open spec fn peek_result(self) -> Result<Option<T>, RxError<()>> {
        if self.value is Some {
            Ok(self.value)
        } else if self.flags.tx_expire || self.flags.tx_closed {
            Err(self.absent_error())
        } else {
            Ok(None)
        }
    }

    /// A wait with the wake slot `slot` has to join the wake queue: there is no message, one may
    /// still come, and the slot holds no waker yet.
    pub open spec fn joins(self, slot: u64) -> bool {
        &&& self.value is None
        &&& !self.flags.tx_expire
        &&& !self.flags.tx_closed
        &&& !crate::queue::registered(self.waiters, slot)
    }

    /// A poll for the message has to ask whether the cancellation was raised.
    pub open spec fn recv_asks_is_cancelled(self) -> bool {
        self.value is None
    }

    /// A poll for the message has to poll the cancellation, and unless that is ready, to take
    /// the lock on the wake queue.
    pub open spec fn recv_asks_cancellation(self, slot: u64, a: Answers) -> bool {
        !a.is_cancelled && self.joins(slot)
    }

    /// What a poll for the message, with the wake slot `slot`, comes to.
    pub open spec fn recv_result(self, slot: u64, a: Answers) -> Polled<Result<T, RxError<()>>> {
        match self.value {
            Some(x) => Polled::Ready(Ok(x)),
            None => if a.is_cancelled {
                Polled::Ready(Err(RxError::Cancelled))
            } else if self.flags.tx_expire || self.flags.tx_closed {
                Polled::Ready(Err(self.absent_error()))
            } else if crate::queue::registered(self.waiters, slot) {
                Polled::Pending
            } else if a.cancellation || !a.lock_queue {
                Polled::Ready(Err(RxError::Cancelled))
            } else {
                Polled::Pending
            },
        }
    }

    /// The channel after a poll for the message.
    pub open spec fn recv_next(self, slot: u64, waker: W, a: Answers) -> Self {
        if self.value is Some {
            self.take_value()
        } else if self.recv_asks_cancellation(slot, a) && !a.cancellation && a.lock_queue {
            self.register(slot, waker)
        } else {
            self
        }
    }

    /// A poll for a look has to poll the cancellation, and unless that is ready, to take the
    /// lock on the wake queue.
    pub open spec fn peek_asks_cancellation(self, slot: u64) -> bool {
        self.joins(slot)
    }

    /// What a poll for a look, with the wake slot `slot`, comes to.
    pub open spec fn peek_poll_result(self, slot: u64, a: Answers) -> Polled<
        Result<T, RxError<()>>,
    > {
        match self.peek_result() {
            Err(e) => Polled::Ready(Err(e)),
            Ok(Some(t)) => Polled::Ready(Ok(t)),
            Ok(None) => if crate::queue::registered(self.waiters, slot) {
                Polled::Pending
            } else if a.cancellation || !a.lock_queue {
                Polled::Ready(Err(RxError::Cancelled))
            } else {
                Polled::Pending
            },
        }
    }

    /// The channel after a poll for a look.
    pub open spec fn peek_poll_next(self, slot: u64, waker: W, a: Answers) -> Self {
        if self.peek_asks_cancellation(slot) && !a.cancellation && a.lock_queue {
            self.register(slot, waker)
        } else {
            self
        }
    }

    /// The channel after the sending end is gone.
    pub open spec fn close_tx(self) -> Self {
        if self.flags.tx_closed {
            self
        } else {
            ChanView { flags: FlagsView { tx_closed: true, ..self.flags }, ..self.wake_all() }
        }
    }

    /// The channel after the receiver is gone.
    pub open spec fn close_rx(self) -> Self {
        ChanView { flags: FlagsView { rx_closed: true, ..self.flags }, ..self }
    }

    /// The channel after a receiver was turned into a peeker.
    pub open spec fn convert(self) -> Self {
        ChanView { converted: true, ..self }
    }

    /// The channel with one peeker more.
    pub open spec fn add_peeker(self) -> Self {
        ChanView { flags: FlagsView { peekers: self.flags.peekers + 1, ..self.flags }, ..self }
    }

    /// The channel with one peeker less.
    pub open spec fn remove_peeker(self) -> Self {
        ChanView {
            flags: FlagsView { peekers: (self.flags.peekers - 1) as nat, ..self.flags },
            ..self
        }
    }

    /// The channel with the lock on the value taken.
    pub open spec fn lock_value(self) -> Self {
        ChanView { flags: FlagsView { acquired: true, ..self.flags }, ..self }
    }

    /// The channel with the lock on the value free.
    pub open spec fn unlock_value(self) -> Self {
        ChanView { flags: FlagsView { acquired: false, ..self.flags }, ..self }
    }

    /// The channel with the wakers that are due handed out.
    pub open spec fn take_woken(self) -> Self {
        ChanView { woken: Seq::empty(), ..self }
    }

    /// The channel after the message was moved out.
    pub open spec fn take_value(self) -> Self {
        ChanView {
            flags: FlagsView { acquired: false, data_valid: false, ..self.flags },
            value: None,
            ..self
        }
    }

    /// The wake slot that is given out next: the last that was given back, else a new one.
    pub open spec fn next_slot(self) -> u64 {
        if self.free.len() > 0 {
            self.free.last()
        } else {
            self.slots as u64
        }
    }

    /// The channel with the next wake slot given out.
    pub open spec fn add_slot(self) -> Self {
        if self.free.len() > 0 {
            ChanView { free: self.free.drop_last(), ..self }
        } else {
            ChanView { slots: self.slots + 1, ..self }
        }
    }

    /// The channel with `waker` in the wake slot `slot`.
    pub open spec fn register(self, slot: u64, waker: W) -> Self {
        ChanView { waiters: crate::queue::with_waker(self.waiters, slot, waker), ..self }
    }

    /// The channel with the wake slot `slot` emptied.
    pub open spec fn empty_slot(self, slot: u64) -> Self {
        ChanView { waiters: crate::queue::emptied(self.waiters, slot), ..self }
    }

    /// The channel with the wake slot `slot` out of the wake queue and given back.
    pub open spec fn detach(self, slot: u64) -> Self {
        ChanView {
            waiters: crate::queue::without(self.waiters, slot),
            free: self.free.push(slot),
            ..self
        }
    }
}

/// One strong reference at most and no weak one: whoever counts them is the only owner.
pub open spec fn only_owner(strong: usize, weak: usize) -> bool {
    strong <= 1 && weak == 0
}

/// Tells whether who shares something is its only owner; `strong_count` and `weak_count` tell how
/// many strong and weak references to it there are, and the second is asked only if the first
/// leaves it open.
pub fn is_only_owner(
    strong_count: impl FnOnce() -> usize,
    weak_count: impl FnOnce() -> usize,
) -> (r: bool)
    requires
        strong_count.requires(()),
        forall|strong: usize|
            #![trigger strong_count.ensures((), strong)]
            strong_count.ensures((), strong) && strong <= 1 ==> weak_count.requires(()),
    ensures
        exists|strong: usize, weak: usize|
            {
                &&& strong_count.ensures((), strong)
                &&& strong <= 1 ==> weak_count.ensures((), weak)
                &&& r == #[trigger] only_owner(strong, weak)
            },
        (forall|n: usize| #[trigger] strong_count.ensures((), n) ==> n > 1) ==> !r,
        (forall|n: usize| #[trigger] weak_count.ensures((), n) ==> n > 0) ==> !r,
        (forall|n: usize| #[trigger] strong_count.ensures((), n) ==> n <= 1) && (forall|n: usize|
            #[trigger] weak_count.ensures((), n) ==> n == 0) ==> r,
{
    let strong: usize = strong_count();
    if strong > 1 {
        assert(!only_owner(strong, 0));
        return false;
    }
    let weak: usize = weak_count();
    let r: bool = weak == 0;
    assert(r == only_owner(strong, weak));
    r
}

/// A channel that carries a single message, once.
///
/// `W` is what wakes somebody who waits. Whoever uses the channel wakes those that
/// `take_woken` hands out.
///
/// A channel has an `id`, as other things have an address, and no two channels that are there at
/// the same time have the same. The ends of a channel know it by its `id`: they act only on that
/// channel, and are paired by it.
pub struct Oneshot<T, W> {
    id_: u64,
    flags_: Flags,
    queue_: WakeQueue<W>,
    value_: Option<T>,
    woken_: Vec<W>,
    slots_: u64,
    free_: Vec<u64>,
    converted_: bool,
}

impl<T, W> View for Oneshot<T, W> {
    type V = ChanView<T, W>;

    closed spec fn view(&self) -> ChanView<T, W> {
        ChanView {
            id: self.id_,
            flags: self.flags_@,
            value: self.value_,
            waiters: self.queue_@,
            woken: self.woken_@,
            slots: self.slots_ as nat,
            free: self.free_@,
            converted: self.converted_,
        }
    }
}

impl<T, W> Oneshot<T, W> {
    /// The channel is in order.
    pub open spec fn wf(&self) -> bool {
        self@.wf()
    }

    /// A fresh channel, which is told from others by its `id`.
    pub fn new(id: u64) -> (r: Self)
        ensures
            r.wf(),
            r@ == ChanView::<T, W>::initial(id),
    {
        Oneshot {
            id_: id,
            flags_: Flags::new(0),
            queue_: WakeQueue::new(),
            value_: None,
            woken_: Vec::new(),
            slots_: 0,
            free_: Vec::new(),
            converted_: false,
        }
    }

    /// Splits the channel into a sending end and a receiver.
    ///
    /// No more receivers can be there at a time than peekers.
    pub fn split(&mut self) -> (r: (Sender, Receiver))
        requires
            old(self).wf(),
            old(self)@.receivers() < K_PEEKERS_NUM_MASK,
        ensures
            final(self).wf(),
            final(self)@ == old(self)@.add_slot(),
            r.0.id() == old(self)@.id,
            r.1.id() == old(self)@.id,
            r.1.slot() == old(self)@.next_slot(),
            r.1.belongs_to(final(self)@),
    {
        let sender = Sender::new(self);
        let recver = Receiver::new(self);
        (sender, recver)
    }

    /// Splits the channel if whoever shares it is its only owner; `strong_count` and
    /// `weak_count` tell how many strong and weak references to it there are, and the second is
    /// asked only if the first leaves it open.
    pub fn try_split(
        &mut self,
        strong_count: impl FnOnce() -> usize,
        weak_count: impl FnOnce() -> usize,
    ) -> (r: Option<(Sender, Receiver)>)
        requires
            old(self).wf(),
            old(self)@.receivers() < K_PEEKERS_NUM_MASK,
            strong_count.requires(()),
            forall|strong: usize|
                #![trigger strong_count.ensures((), strong)]
                strong_count.ensures((), strong) && strong <= 1 ==> weak_count.requires(()),
        ensures
            final(self).wf(),
            exists|strong: usize, weak: usize|
                {
                    &&& strong_count.ensures((), strong)
                    &&& strong <= 1 ==> weak_count.ensures((), weak)
                    &&& r is Some <==> #[trigger] only_owner(strong, weak)
                },
            (forall|n: usize| #[trigger] strong_count.ensures((), n) ==> n > 1) ==> r is None,
            (forall|n: usize| #[trigger] weak_count.ensures((), n) ==> n > 0) ==> r is None,
            (forall|n: usize| #[trigger] strong_count.ensures((), n) ==> n <= 1) && (forall|
                n: usize,
            | #[trigger]
                weak_count.ensures((), n) ==> n == 0) ==> r is Some,
            r is None ==> *final(self) == *old(self),
            r matches Some(ends) ==> {
                &&& final(self)@ == old(self)@.add_slot()
                &&& ends.0.id() == old(self)@.id
                &&& ends.1.id() == old(self)@.id
                &&& ends.1.slot() == old(self)@.next_slot()
                &&& ends.1.belongs_to(final(self)@)
            },
    {
        if !is_only_owner(strong_count, weak_count) {
            None
        } else {
            Some(self.split())
        }
    }

    /// Tells whether the sending end has sent.
    pub fn is_triggered(&self) -> (r: bool)
        ensures
            r == self@.flags.tx_expire,
    {
        self.flags_.has_tx_sent()
    }

    /// Tells whether the sending end has sent and the receiver has not yet received.
    ///
    /// Peeking does not change this.
    pub fn is_data_ready(&self) -> (r: bool)
        ensures
            r == self@.flags.data_valid,
            self.wf() ==> r == self@.value is Some,
    {
        self.flags_.is_data_ready()
    }

    /// Tells whether nothing was sent yet and the receiver or at least one peeker is there.
    pub fn can_send(&self) -> (r: bool)
        ensures
            r == self@.can_send(),
            r ==> !self@.flags.tx_expire && !self@.flags.data_valid,
            r ==> self@.flags.peekers > 0 || !self@.flags.rx_closed,
    {
        self.flags_.can_send() && !self.is_abandoned()
    }

    /// Tells whether a receiver was turned into a peeker and now neither a receiver nor a peeker
    /// is there.
    fn is_abandoned(&self) -> (r: bool)
        ensures
            r == self@.abandoned(),
    {
        self.converted_ && self.slots_ == self.free_.len() as u64
    }

    /// Tells whether a message is there or the sending end still is.
    pub fn can_receive(&self) -> (r: bool)
        ensures
            r == self@.flags.can_receive(),
            r == (self@.flags.data_valid || !self@.flags.tx_closed),
            self.wf() ==> r == (self@.value is Some || !self@.flags.tx_closed),
    {
        self.flags_.can_receive()
    }

    /// Tells whether a message is there or the sending end still is.
    pub fn can_peek(&self) -> (r: bool)
        ensures
            r == self@.flags.can_peek(),
            r == (self@.flags.data_valid || !self@.flags.tx_closed),
            self.wf() ==> r == (self@.value is Some || !self@.flags.tx_closed),
    {
        self.flags_.can_peek()
    }

    /// Looks at the message, which stays where it is.
    ///
    /// Whoever holds the lock on the value has to give it back before.
    pub fn try_peek(&self) -> (r: Result<Option<&T>, RxError<()>>)
        requires
            self.wf(),
            self@.value is Some ==> !self@.flags.acquired,
        ensures
            match self@.peek_result() {
                Ok(Some(t)) => r matches Ok(Some(u)) && *u == t,
                Ok(None) => r matches Ok(None),
                Err(e) => r matches Err(d) && d == e,
            },
    {
        let s: usize = self.flags_.value();
        if Flags::expect_data_valid(s) {
            return Ok(self.value_.as_ref());
        }
        if Flags::expect_tx_expire(s) || Flags::expect_tx_closed(s) {
            Err(self.absent_error())
        } else {
            Ok(None)
        }
    }

    /// Why there is no message and never will be, once it was received or the sending end is
    /// gone.
    pub(crate) fn absent_error(&self) -> (r: RxError<()>)
        ensures
            r == self@.absent_error(),
    {
        if self.flags_.has_tx_sent() {
            RxError::Drained(())
        } else {
            RxError::Divorced(())
        }
    }

    /// A send of `data` that is still to be carried out.
    pub fn send(&mut self, data: T) -> (r: SendTask<'_, T, W>)
        ensures
            r.data == data,
            *r.oneshot == *old(self),
            *final(r.oneshot) == *final(self),
    {
        SendTask::new(self, data)
    }

    /// Sends `data`, unless the lock on the value is held at this moment.
    pub fn try_send(&mut self, data: T) -> (r: Result<(), TxError<T>>)
        requires
            old(self).wf(),
        ensures
            final(self).wf(),
            r == old(self)@.send_result(data, !old(self)@.flags.acquired),
            final(self)@ == old(self)@.send_next(data, !old(self)@.flags.acquired),
    {
        let acquired: bool = self.try_lock_value();
        self.send_with_cancel_(data, acquired)
    }

    /// Sends `data`; `acquired` tells whether the lock on the value was got, and is held now,
    /// before the send was cancelled.
    pub(crate) fn send_with_cancel_(&mut self, data: T, acquired: bool) -> (r: Result<
        (),
        TxError<T>,
    >)
        requires
            old(self).wf(),
            acquired ==> old(self)@.flags.acquired,
        ensures
            final(self).wf(),
            r == old(self)@.send_result(data, acquired),
            final(self)@ == old(self)@.send_next(data, acquired),
    {
        if !acquired {
            return Err(TxError::Cancelled);
        }
        if self.is_abandoned() && !self.flags_.has_tx_sent() {
            let _ = self.unlock_value();
            return Err(TxError::Divorced(data));
        }
        match self.flags_.try_set_sent() {
            Err(s) => {
                let e = if Flags::expect_data_valid(s) || Flags::expect_tx_expire(s) {
                    TxError::Stuffed(data)
                } else {
                    TxError::Divorced(data)
                };
                let _ = self.unlock_value();
                return Err(e);
            },
            Ok(_) => {},
        }
        self.value_ = Some(data);
        let _ = self.flags_.release();
        self.wake_all();
        Ok(())
    }

    /// Takes the lock on the value, if it is free, and tells whether it was.
    pub fn try_lock_value(&mut self) -> (r: bool)
        requires
            old(self).wf(),
        ensures
            final(self).wf(),
            r == !old(self)@.flags.acquired,
            final(self)@ == old(self)@.lock_value(),
    {
        self.flags_.try_acquire()
    }

    /// Gives the lock on the value back, if it is held, and tells whether it was.
    pub fn unlock_value(&mut self) -> (r: bool)
        requires
            old(self).wf(),
        ensures
            final(self).wf(),
            r == old(self)@.flags.acquired,
            final(self)@ == old(self)@.unlock_value(),
    {
        self.flags_.release()
    }

    /// Wakes all who wait.
    pub(crate) fn wake_all(&mut self)
        ensures
            final(self)@ == old(self)@.wake_all(),
    {
        self.queue_.clear(&mut self.woken_);
    }

    /// Marks the sending end as gone and, unless it was so marked already, wakes all who wait;
    /// returns the flag word that it found.
    pub(crate) fn try_set_tx_closed(&mut self) -> (r: Result<usize, usize>)
        requires
            old(self).wf(),
        ensures
            final(self).wf(),
            match r {
                Ok(s) => !old(self)@.flags.tx_closed && crate::flags::decode(s) == old(self)@.flags,
                Err(s) => old(self)@.flags.tx_closed && crate::flags::decode(s) == old(self)@.flags,
            },
            final(self)@ == old(self)@.close_tx(),
            final(self)@.flags.tx_closed,
            final(self)@.waiters.len() == 0,
            final(self)@.value == old(self)@.value,
    {
        let r: Result<usize, usize> = self.flags_.try_set_tx_closed();
        if r.is_ok() {
            self.wake_all();
        }
        r
    }

    /// Marks the receiver as gone; returns the flag word that it found.
    pub(crate) fn try_set_rx_closed(&mut self) -> (r: Result<usize, usize>)
        requires
            old(self).wf(),
        ensures
            final(self).wf(),
            match r {
                Ok(s) => !old(self)@.flags.rx_closed && crate::flags::decode(s) == old(self)@.flags,
                Err(s) => old(self)@.flags.rx_closed && crate::flags::decode(s) == old(self)@.flags,
            },
            final(self)@ == old(self)@.close_rx(),
    {
        self.flags_.try_set_rx_closed()
    }

    /// Notes that a receiver was turned into a peeker.
    pub(crate) fn set_converted(&mut self)
        ensures
            final(self)@ == old(self)@.convert(),
    {
        self.converted_ = true;
    }

    /// Counts one peeker more and returns how many there were.
    pub(crate) fn increase_peeker_count(&mut self) -> (r: usize)
        requires
            old(self)@.flags.peekers < K_PEEKERS_NUM_MASK,
        ensures
            r == old(self)@.flags.peekers,
            final(self)@ == old(self)@.add_peeker(),
    {
        self.flags_.increase_peeker_count()
    }

    /// Counts one peeker less and returns how many there were.
    pub(crate) fn decrease_peeker_count(&mut self) -> (r: usize)
        requires
            old(self)@.flags.peekers > 0,
        ensures
            r == old(self)@.flags.peekers,
            final(self)@ == old(self)@.remove_peeker(),
    {
        self.flags_.decrease_peeker_count()
    }

    /// The number of peekers.
    pub fn peeker_count(&self) -> (r: usize)
        ensures
            r == self@.flags.peekers,
    {
        self.flags_.peeker_count()
    }

    /// Moves the message out, under the lock on the value.
    fn take_value(&mut self) -> (r: T)
        requires
            old(self).wf(),
            old(self)@.value is Some,
            !old(self)@.flags.acquired,
        ensures
            final(self).wf(),
            Some(r) == old(self)@.value,
            final(self)@ == old(self)@.take_value(),
    {
        let _ = self.flags_.try_acquire();
        let _ = self.flags_.try_set_data_valid(false);
        let x = self.value_.take().unwrap();
        let _ = self.flags_.release();
        x
    }

    /// The number of receivers.
    pub fn receiver_count(&self) -> (r: usize)
        requires
            self.wf(),
        ensures
            r == self@.receivers(),
    {
        (self.slots_ - self.free_.len() as u64 - self.peeker_count() as u64) as usize
    }

    /// Gives out a wake slot.
    pub(crate) fn new_slot(&mut self) -> (r: u64)
        requires
            old(self).wf(),
        ensures
            r == old(self)@.next_slot(),
            final(self)@ == old(self)@.add_slot(),
    {
        match self.free_.pop() {
            Some(slot) => slot,
            None => {
                let slot: u64 = self.slots_;
                self.slots_ = slot + 1;
                slot
            },
        }
    }

    /// Tells whether the wake slot holds a waker.
    pub(crate) fn is_registered(&self, slot: u64) -> (r: bool)
        requires
            self.wf(),
        ensures
            r == crate::queue::registered(self@.waiters, slot),
    {
        self.queue_.is_registered(slot)
    }

    /// Tells whether a wait with the wake slot has to join the wake queue.
    pub(crate) fn joins(&self, slot: u64) -> (r: bool)
        requires
            self.wf(),
        ensures
            r == self@.joins(slot),
    {
        let s: usize = self.flags_.value();
        !Flags::expect_tx_expire(s) && !Flags::expect_tx_closed(s) && !self.is_registered(slot)
    }

    /// Puts `waker` into the wake slot.
    pub(crate) fn register(&mut self, slot: u64, waker: W)
        requires
            old(self).wf(),
            old(self)@.holds(slot),
            !old(self)@.flags.tx_expire,
            !old(self)@.flags.tx_closed,
        ensures
            final(self).wf(),
            final(self)@ == old(self)@.register(slot, waker),
    {
        self.queue_.register(slot, waker);
    }

    /// Empties the wake slot and hands out the waker that it held.
    pub(crate) fn empty_slot(&mut self, slot: u64) -> (r: Option<W>)
        requires
            old(self).wf(),
        ensures
            final(self).wf(),
            final(self)@ == old(self)@.empty_slot(slot),
            r is Some <==> crate::queue::registered(old(self)@.waiters, slot),
            r matches Some(w) ==> old(self)@.waiters.contains(Waiter { slot, waker: Some(w) }),
    {
        self.queue_.take(slot)
    }

    /// Takes the wake slot out of the wake queue and back.
    pub(crate) fn detach(&mut self, slot: u64)
        requires
            crate::queue::distinct(old(self)@.waiters),
        ensures
            final(self)@ == old(self)@.detach(slot),
    {
        self.queue_.detach(slot);
        self.free_.push(slot);
    }

    /// Hands out the wakers that are due to be woken.
    pub fn take_woken(&mut self) -> (r: Vec<W>)
        requires
            old(self).wf(),
        ensures
            final(self).wf(),
            r@ == old(self)@.woken,
            final(self)@ == old(self)@.take_woken(),
    {
        let mut woken: Vec<W> = Vec::new();
        std::mem::swap(&mut woken, &mut self.woken_);
        woken
    }

    /// One more peeker of the channel.
    pub fn peeker(&mut self) -> (r: Peeker)
        requires
            old(self).wf(),
            old(self)@.flags.peekers < K_PEEKERS_NUM_MASK,
        ensures
            final(self).wf(),
            final(self)@ == old(self)@.add_peeker().add_slot(),
            r.id() == old(self)@.id,
            r.slot() == old(self)@.next_slot(),
            r.belongs_to(final(self)@),
    {
        Peeker::new(self)
    }

    /// Gives the channel up: both ends are gone, all who wait are woken, and the message that
    /// nobody received, if there is one, is handed out to be dropped.
    pub fn drop(self) -> (r: (Option<T>, Vec<W>))
        requires
            self.wf(),
        ensures
            r.0 == self@.value,
            r.1@ == self@.close_tx().woken,
    {
        let mut this = self;
        let _ = this.try_set_tx_closed();
        let _ = this.try_set_rx_closed();
        let woken: Vec<W> = this.take_woken();
        let value = if !this.flags_.is_data_ready() {
            None
        } else {
            this.value_.take()
        };
        (value, woken)
    }

    /// The flag word.
    pub fn flags(&self) -> (r: &Flags)
        ensures
            r@ == self@.flags,
    {
        &self.flags_
    }

    /// Which channel it is.
    pub fn id(&self) -> (r: u64)
        ensures
            r == self@.id,
    {
        self.id_
    }
}

/// A receiver that waits for the message.
pub struct RecvFuture<'a> {
    /// The receiver.
    pub recver: &'a mut Receiver,
}

impl<'a> RecvFuture<'a> {
    /// The wait of `receiver`.
    pub(crate) fn new(receiver: &'a mut Receiver) -> (r: Self)
        ensures
            *r.recver == *old(receiver),
            *final(r.recver) == *final(receiver),
    {
        RecvFuture { recver: receiver }
    }

    /// Tells whether a poll has to ask whether the cancellation was raised.
    pub fn asks_is_cancelled<T, W>(&self, oneshot: &Oneshot<T, W>) -> (r: bool)
        requires
            oneshot.wf(),
        ensures
            r == oneshot@.recv_asks_is_cancelled(),
    {
        !oneshot.is_data_ready()
    }

    /// Tells whether a poll has to poll the cancellation and to take the lock on the wake queue,
    /// unless the cancellation was raised.
    pub fn asks_cancellation<T, W>(&self, oneshot: &Oneshot<T, W>) -> (r: bool)
        requires
            oneshot.wf(),
        ensures
            r == oneshot@.joins(old(self.recver).slot()),
    {
        oneshot.joins(self.recver.waker_slot())
    }

    /// Receives the message, or keeps `waker` until the channel changes.
    ///
    /// `is_cancelled` tells whether the cancellation was raised, `cancellation` whether a poll
    /// of it is ready, `lock_queue` whether the lock on the wake queue was got before the wait
    /// for it was cancelled. Each is called once at most, and only where the answer decides.
    ///
    /// The message is moved under the lock on the value, so that whoever holds it has to give it
    /// back before.
    pub fn poll<T, W>(
        &mut self,
        oneshot: &mut Oneshot<T, W>,
        waker: W,
        is_cancelled: impl FnOnce() -> bool,
        cancellation: impl FnOnce() -> bool,
        lock_queue: impl FnOnce() -> bool,
    ) -> (r: Polled<Result<T, RxError<()>>>)
        requires
            old(oneshot).wf(),
            old(self).recver.belongs_to(old(oneshot)@),
            old(oneshot)@.value is Some ==> !old(oneshot)@.flags.acquired,
            is_cancelled.requires(()),
            cancellation.requires(()),
            lock_queue.requires(()),
        ensures
            *final(self) == *old(self),
            final(oneshot).wf(),
            exists|a: Answers|
                {
                    &&& old(oneshot)@.recv_asks_is_cancelled() ==> is_cancelled.ensures((), a.is_cancelled)
                    &&& old(oneshot)@.recv_asks_cancellation(old(self).recver.slot(), a) ==> {
                        &&& cancellation.ensures((), a.cancellation)
                        &&& !a.cancellation ==> lock_queue.ensures((), a.lock_queue)
                    }
                    &&& r == #[trigger] old(oneshot)@.recv_result(old(self).recver.slot(), a)
                    &&& final(oneshot)@ == old(oneshot)@.recv_next(old(self).recver.slot(), waker, a)
                },
            old(oneshot)@.value matches Some(x) ==> r == Polled::<Result<T, RxError<()>>>::Ready(
                Ok(x),
            ),
            old(oneshot)@.value is None && (forall|b: bool| #[trigger]
                is_cancelled.ensures((), b) ==> b) ==> r == Polled::<Result<T, RxError<()>>>::Ready(
                Err(RxError::Cancelled),
            ),
            old(oneshot)@.value is None && (forall|b: bool| #[trigger]
                is_cancelled.ensures((), b) ==> !b) && old(oneshot)@.flags.tx_expire ==> r
                == Polled::<Result<T, RxError<()>>>::Ready(Err(RxError::Drained(()))),
            old(oneshot)@.value is None && (forall|b: bool| #[trigger]
                is_cancelled.ensures((), b) ==> !b) && !old(oneshot)@.flags.tx_expire && old(
                oneshot,
            )@.flags.tx_closed ==> r == Polled::<Result<T, RxError<()>>>::Ready(
                Err(RxError::Divorced(())),
            ),
    {
        let slot: u64 = self.recver.waker_slot();
        let ghost mut a = Answers { is_cancelled: false, cancellation: false, lock_queue: false };
        let ghost chan = oneshot@;
        if !self.asks_is_cancelled(oneshot) {
            let x = oneshot.take_value();
            assert(chan.recv_result(slot, a) == Polled::<Result<T, RxError<()>>>::Ready(Ok(x)));
            return Polled::Ready(Ok(x));
        }
        let cancelled: bool = is_cancelled();
        proof {
            a = Answers { is_cancelled: cancelled, ..a };
        }
        if cancelled {
            assert(chan.recv_result(slot, a) is Ready);
            return Polled::Ready(Err(RxError::Cancelled));
        }
        let s: usize = oneshot.flags_.value();
        if Flags::expect_tx_expire(s) || Flags::expect_tx_closed(s) {
            assert(chan.recv_result(slot, a) is Ready);
            return Polled::Ready(Err(oneshot.absent_error()));
        }
        if self.asks_cancellation(oneshot) {
            let ready: bool = cancellation();
            proof {
                a = Answers { cancellation: ready, ..a };
            }
            if ready {
                assert(chan.recv_result(slot, a) is Ready);
                return Polled::Ready(Err(RxError::Cancelled));
            }
            let locked: bool = lock_queue();
            proof {
                a = Answers { lock_queue: locked, ..a };
            }
            if !locked {
                assert(chan.recv_result(slot, a) is Ready);
                return Polled::Ready(Err(RxError::Cancelled));
            }
            oneshot.register(slot, waker);
        }
        assert(chan.recv_result(slot, a) is Pending);
        Polled::Pending
    }
}

} // verus!
