use vstd::prelude::*;

use crate::flags::K_PEEKERS_NUM_MASK;
use crate::oneshot::{Answers, ChanView, Oneshot, Polled};
use crate::recver::RxError;
use crate::runs::{law_after_keeps_order, law_new_slot, Op};
use crate::sender::Sender;

verus! {

/// Looks at the message, which stays in the channel. It can be cloned.
#[derive(Debug)]
pub struct Peeker {
    id_: u64,
    slot_: u64,
}

impl Peeker {
    /// The channel that it looks into.
    pub closed spec fn id(&self) -> u64 {
        self.id_
    }

    /// Its wake slot.
    pub closed spec fn slot(&self) -> u64 {
        self.slot_
    }

    /// It looks into the channel `chan`, is counted there and holds its wake slot.
    pub open spec fn belongs_to<T, W>(&self, chan: ChanView<T, W>) -> bool {
        self.id() == chan.id && chan.holds(self.slot()) && chan.flags.peekers > 0
    }

    /// A new peeker, which the channel counts.
    pub(crate) fn new<T, W>(oneshot: &mut Oneshot<T, W>) -> (r: Self)
        requires
            old(oneshot).wf(),
            old(oneshot)@.flags.peekers < K_PEEKERS_NUM_MASK,
        ensures
            final(oneshot).wf(),
            final(oneshot)@ == old(oneshot)@.add_peeker().add_slot(),
            r.id() == old(oneshot)@.id,
            r.slot() == old(oneshot)@.next_slot(),
            r.belongs_to(final(oneshot)@),
    {
        proof {
            law_new_slot(oneshot@);
            law_after_keeps_order(oneshot@, Op::NewPeeker);
        }
        let slot: u64 = oneshot.new_slot();
        let _ = oneshot.increase_peeker_count();
        Peeker { id_: oneshot.id(), slot_: slot }
    }

    /// Which channel it looks into.
    pub fn oneshot(&self) -> (r: u64)
        ensures
            r == self.id(),
    {
        self.id_
    }

    /// Which wake slot it has.
    pub fn wake_slot(&self) -> (r: u64)
        ensures
            r == self.slot(),
    {
        self.slot_
    }

    /// Tells whether the message is there or the sending end still is.
    pub fn can_peek<T, W>(&self, oneshot: &Oneshot<T, W>) -> (r: bool)
        requires
            self.belongs_to(oneshot@),
        ensures
            r == oneshot@.flags.can_peek(),
            r == (oneshot@.flags.data_valid || !oneshot@.flags.tx_closed),
    {
        oneshot.can_peek()
    }

    /// Tells whether the message was sent and not yet received.
    pub fn is_data_ready<T, W>(&self, oneshot: &Oneshot<T, W>) -> (r: bool)
        requires
            self.belongs_to(oneshot@),
        ensures
            r == oneshot@.flags.data_valid,
    {
        oneshot.is_data_ready()
    }

    /// Looks at the message, which stays where it is.
    ///
    /// Whoever holds the lock on the value has to give it back before.
    pub fn try_peek<'a, T, W>(&self, oneshot: &'a Oneshot<T, W>) -> (r: Result<
        Option<&'a T>,
        RxError<()>,
    >)
        requires
            oneshot.wf(),
            self.belongs_to(oneshot@),
            oneshot@.value is Some ==> !oneshot@.flags.acquired,
        ensures
            match oneshot@.peek_result() {
                Ok(Some(t)) => r matches Ok(Some(u)) && *u == t,
                Ok(None) => r matches Ok(None),
                Err(e) => r matches Err(d) && d == e,
            },
    {
        oneshot.try_peek()
    }

    /// A wait for the message that is still to begin. A waker that an earlier wait left in the
    /// wake slot is forgotten.
    pub fn peek_async<T, W>(&mut self, oneshot: &mut Oneshot<T, W>) -> (r: PeekAsync<'_>)
        requires
            old(oneshot).wf(),
            old(self).belongs_to(old(oneshot)@),
        ensures
            *r.peeker == *old(self),
            *final(r.peeker) == *final(self),
            final(oneshot).wf(),
            final(oneshot)@ == old(oneshot)@.empty_slot(old(self).slot()),
    {
        let _ = oneshot.empty_slot(self.slot_);
        PeekAsync::new(self)
    }

    /// How many peekers look into the channel.
    pub fn alias_count<T, W>(&self, oneshot: &Oneshot<T, W>) -> (r: usize)
        requires
            self.belongs_to(oneshot@),
        ensures
            r == oneshot@.flags.peekers,
    {
        oneshot.peeker_count()
    }

    /// Tells whether `sender` is an end of the channel that it looks into.
    pub fn is_paired_with(&self, sender: &Sender) -> (r: bool)
        ensures
            r == (self.id() == sender.id()),
    {
        self.oneshot() == sender.oneshot()
    }

    /// One more peeker of the same channel.
    pub fn clone<T, W>(&self, oneshot: &mut Oneshot<T, W>) -> (r: Self)
        requires
            old(oneshot).wf(),
            self.belongs_to(old(oneshot)@),
            old(oneshot)@.flags.peekers < K_PEEKERS_NUM_MASK,
        ensures
            final(oneshot).wf(),
            final(oneshot)@ == old(oneshot)@.add_peeker().add_slot(),
            r.id() == self.id(),
            r.slot() == old(oneshot)@.next_slot(),
            r.belongs_to(final(oneshot)@),
    {
        Self::new(oneshot)
    }

    /// Gives the peeker up.
    pub fn drop<T, W>(self, oneshot: &mut Oneshot<T, W>)
        requires
            old(oneshot).wf(),
            self.belongs_to(old(oneshot)@),
        ensures
            final(oneshot).wf(),
            final(oneshot)@ == old(oneshot)@.remove_peeker().detach(self.slot()),
    {
        proof {
            law_after_keeps_order(oneshot@, Op::DropPeeker { slot: self.slot() });
        }
        let _ = oneshot.decrease_peeker_count();
        oneshot.detach(self.slot_);
    }
}

/// Two peekers are equal if they look into the same channel.
impl PartialEq for Peeker {
    fn eq(&self, other: &Self) -> (r: bool) {
        self.id_ == other.id_
    }
}

impl vstd::std_specs::cmp::PartialEqSpecImpl for Peeker {
    open spec fn obeys_eq_spec() -> bool {
        true
    }

    open spec fn eq_spec(&self, other: &Self) -> bool {
        self.id() == other.id()
    }
}

impl Eq for Peeker {

}

/// A wait for the message that is still to begin.
pub struct PeekAsync<'a> {
    /// The peeker.
    pub peeker: &'a mut Peeker,
}

impl<'a> PeekAsync<'a> {
    /// A wait of `peeker`.
    pub fn new(peeker: &'a mut Peeker) -> (r: Self)
        ensures
            *r.peeker == *old(peeker),
            *final(r.peeker) == *final(peeker),
    {
        PeekAsync { peeker }
    }

    /// Begins the wait; each poll of it is told what the cancellation comes to.
    pub fn may_cancel_with(self) -> (r: PeekFuture<'a>)
        ensures
            *r.peeker == *old(self.peeker),
            *final(r.peeker) == *final(self.peeker),
    {
        PeekFuture::new(self.peeker)
    }
}

/// A peeker that waits for the message.
pub struct PeekFuture<'a> {
    /// The peeker.
    pub peeker: &'a mut Peeker,
}

impl<'a> PeekFuture<'a> {
    /// The wait of `peeker`.
    pub(crate) fn new(peeker: &'a mut Peeker) -> (r: Self)
        ensures
            *r.peeker == *old(peeker),
            *final(r.peeker) == *final(peeker),
    {
        PeekFuture { peeker }
    }

    /// Tells whether a poll has to poll the cancellation and to take the lock on the wake queue.
    pub fn asks_cancellation<T, W>(&self, oneshot: &Oneshot<T, W>) -> (r: bool)
        requires
            oneshot.wf(),
        ensures
            r == oneshot@.peek_asks_cancellation(old(self.peeker).slot()),
    {
        oneshot.joins(self.peeker.wake_slot())
    }

    /// Looks at the message, or keeps `waker` until the channel changes.
    ///
    /// `cancellation` tells whether a poll of the cancellation is ready, `lock_queue` whether
    /// the lock on the wake queue was got before the wait for it was cancelled. Each is called
    /// once at most, and only where the answer decides.
    ///
    /// The message is looked at under the lock on the value, so that whoever holds it has to give
    /// it back before.
    pub fn poll<'b, T, W>(
        &mut self,
        oneshot: &'b mut Oneshot<T, W>,
        waker: W,
        cancellation: impl FnOnce() -> bool,
        lock_queue: impl FnOnce() -> bool,
    ) -> (r: Polled<Result<&'b T, RxError<()>>>)
        requires
            old(oneshot).wf(),
            old(self).peeker.belongs_to(old(oneshot)@),
            old(oneshot)@.value is Some ==> !old(oneshot)@.flags.acquired,
            cancellation.requires(()),
            lock_queue.requires(()),
        ensures
            *final(self) == *old(self),
            final(oneshot).wf(),
            exists|a: Answers|
                {
                    &&& old(oneshot)@.peek_asks_cancellation(old(self).peeker.slot()) ==> {
                        &&& cancellation.ensures((), a.cancellation)
                        &&& !a.cancellation ==> lock_queue.ensures((), a.lock_queue)
                    }
                    &&& match #[trigger] old(oneshot)@.peek_poll_result(old(self).peeker.slot(), a) {
                        Polled::Ready(Ok(t)) => r matches Polled::Ready(Ok(u)) && *u == t,
                        Polled::Ready(Err(e)) => r matches Polled::Ready(Err(d)) && d == e,
                        Polled::Pending => r is Pending,
                    }
                    &&& final(oneshot)@ == old(oneshot)@.peek_poll_next(old(self).peeker.slot(), waker, a)
                },
            old(oneshot)@.value matches Some(x) ==> (r matches Polled::Ready(Ok(u)) && *u == x),
            old(oneshot)@.value is None && old(oneshot)@.flags.tx_expire ==> (
            r matches Polled::Ready(Err(RxError::Drained(_)))),
            old(oneshot)@.value is None && !old(oneshot)@.flags.tx_expire && old(
                oneshot,
            )@.flags.tx_closed ==> (r matches Polled::Ready(Err(RxError::Divorced(_)))),
    {
        let slot: u64 = self.peeker.wake_slot();
        let ghost mut a = Answers { is_cancelled: false, cancellation: false, lock_queue: false };
        let ghost chan = oneshot@;
        let absent: bool = match oneshot.try_peek() {
            Ok(None) => true,
            _ => false,
        };
        if !absent {
            assert(chan.peek_poll_result(slot, a) is Ready);
            return match oneshot.try_peek() {
                Ok(Some(t)) => Polled::Ready(Ok(t)),
                Ok(None) => Polled::Pending,
                Err(e) => Polled::Ready(Err(e)),
            };
        }
        if self.asks_cancellation(oneshot) {
            let ready: bool = cancellation();
            proof {
                a = Answers { cancellation: ready, ..a };
            }
            if ready {
                assert(chan.peek_poll_result(slot, a) is Ready);
                return Polled::Ready(Err(RxError::Cancelled));
            }
            let locked: bool = lock_queue();
            proof {
                a = Answers { lock_queue: locked, ..a };
            }
            if !locked {
                assert(chan.peek_poll_result(slot, a) is Ready);
                return Polled::Ready(Err(RxError::Cancelled));
            }
            oneshot.register(slot, waker);
        }
        assert(chan.peek_poll_result(slot, a) is Pending);
        Polled::Pending
    }
}

} // verus!
