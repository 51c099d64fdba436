use vstd::prelude::*;
use vstd::string::StringExecFns;

use crate::flags::K_PEEKERS_NUM_MASK;
use crate::oneshot::{ChanView, Oneshot, RecvFuture};
use crate::peeker::Peeker;
use crate::runs::{law_after_keeps_order, law_new_slot, law_slot_stays_held, Op};
use crate::sender::Sender;

verus! {

/// Why no message was received or seen.
#[derive(Debug)]
pub enum RxError<T> {
    /// Data is absent.
    ///
    /// This may occur only when a cancellation is raised during the await.
    Cancelled,
    /// The sender dropped before sending any data.
    Divorced(T),
    /// Data was received and thus moved.
    Drained(T),
}

impl<T> RxError<T> {
    /// What the error carries, if anything.
    pub open spec fn inner(self) -> Option<T> {
        match self {
            RxError::Cancelled => None,
            RxError::Divorced(t) => Some(t),
            RxError::Drained(t) => Some(t),
        }
    }

    /// The same error with `op` applied to what it carries.
    pub fn rebind<U>(self, op: impl FnOnce(T) -> U) -> (r: RxError<U>)
        requires
            self.inner() matches Some(t) ==> op.requires((t,)),
        ensures
            match self {
                RxError::Cancelled => r is Cancelled,
                RxError::Divorced(t) => r matches RxError::Divorced(u) && op.ensures((t,), u),
                RxError::Drained(t) => r matches RxError::Drained(u) && op.ensures((t,), u),
            },
    {
        match self {
            RxError::Cancelled => RxError::Cancelled,
            RxError::Divorced(x) => RxError::Divorced(op(x)),
            RxError::Drained(x) => RxError::Drained(op(x)),
        }
    }

    /// Gets back what the error carries.
    pub fn try_into_inner(self) -> (r: Result<T, Self>)
        ensures
            r == match self {
                RxError::Cancelled => Err(RxError::<T>::Cancelled),
                RxError::Divorced(t) => Ok(t),
                RxError::Drained(t) => Ok(t),
            },
    {
        match self {
            RxError::Cancelled => Err(self),
            RxError::Divorced(x) => Ok(x),
            RxError::Drained(x) => Ok(x),
        }
    }
}

impl RxError<String> {
    /// How the error is written, where what it carries is already text.
    pub open spec fn text(self) -> Seq<char> {
        match self {
            RxError::Divorced(t) => "ReceiverError::Divoced("@ + t@ + ")"@,
            RxError::Drained(t) => "ReceiverError::Drained("@ + t@ + ")"@,
            RxError::Cancelled => "ReceiverError::Cancelled"@,
        }
    }

    /// The error as text, where what it carries is already text.
    pub fn fmt(&self) -> (r: String)
        ensures
            r@ == self.text(),
    {
        let mut f = String::new();
        match self {
            RxError::Divorced(t) => {
                f.append("ReceiverError::Divoced(");
                f.append(t.as_str());
                f.append(")");
            },
            RxError::Drained(t) => {
                f.append("ReceiverError::Drained(");
                f.append(t.as_str());
                f.append(")");
            },
            RxError::Cancelled => {
                f.append("ReceiverError::Cancelled");
            },
        }
        f
    }
}

/// The unique receiver of a channel. It can receive the only message once, before it is turned
/// into a peeker, which can be cloned and looks at the message.
pub struct Receiver {
    id_: u64,
    slot_: u64,
}

impl Receiver {
    /// The channel that it is an end of.
    pub closed spec fn id(&self) -> u64 {
        self.id_
    }

    /// Its wake slot.
    pub closed spec fn slot(&self) -> u64 {
        self.slot_
    }

    /// It is an end of the channel `chan` and holds its wake slot there.
    pub open spec fn belongs_to<T, W>(&self, chan: ChanView<T, W>) -> bool {
        self.id() == chan.id && chan.holds(self.slot()) && chan.receivers() > 0
    }

    /// A new receiver of the channel.
    pub(crate) fn new<T, W>(oneshot: &mut Oneshot<T, W>) -> (r: Self)
        requires
            old(oneshot).wf(),
            old(oneshot)@.receivers() < K_PEEKERS_NUM_MASK,
        ensures
            final(oneshot).wf(),
            final(oneshot)@ == old(oneshot)@.add_slot(),
            r.id() == old(oneshot)@.id,
            r.slot() == old(oneshot)@.next_slot(),
            r.belongs_to(final(oneshot)@),
    {
        proof {
            law_new_slot(oneshot@);
            law_after_keeps_order(oneshot@, Op::Split);
        }
        let slot: u64 = oneshot.new_slot();
        Receiver { id_: oneshot.id(), slot_: slot }
    }

    /// Which channel it is an end of.
    pub fn oneshot(&self) -> (r: u64)
        ensures
            r == self.id(),
    {
        self.id_
    }

    /// Which wake slot it has.
    pub fn waker_slot(&self) -> (r: u64)
        ensures
            r == self.slot(),
    {
        self.slot_
    }

    /// Turns the receiver into a peeker.
    pub fn try_into<T, W>(self, oneshot: &mut Oneshot<T, W>) -> (r: Result<Peeker, RxError<()>>)
        requires
            old(oneshot).wf(),
            self.belongs_to(old(oneshot)@),
            old(oneshot)@.flags.peekers < K_PEEKERS_NUM_MASK,
        ensures
            final(oneshot).wf(),
            final(oneshot)@ == old(oneshot)@.add_peeker().add_slot().detach(
                self.slot(),
            ).convert(),
            r matches Ok(p) && p.id() == self.id() && p.slot() == old(oneshot)@.next_slot()
                && p.belongs_to(final(oneshot)@),
    {
        proof {
            law_new_slot(oneshot@);
            law_slot_stays_held(
                oneshot@.after(Op::NewPeeker),
                Op::DropReceiver { slot: self.slot() },
                oneshot@.next_slot(),
            );
            law_after_keeps_order(oneshot@, Op::IntoPeeker { slot: self.slot() });
        }
        let peeker = Peeker::new(oneshot);
        oneshot.detach(self.slot_);
        oneshot.set_converted();
        Ok(peeker)
    }

    /// Tells whether `sender` is an end of the same channel.
    pub fn is_paired_with(&self, sender: &Sender) -> (r: bool)
        ensures
            r == (self.id() == sender.id()),
    {
        self.oneshot() == sender.oneshot()
    }

    /// Tells whether the message was sent and not yet received.
    pub fn is_data_ready<T, W>(&self, oneshot: &Oneshot<T, W>) -> (r: bool)
        requires
            self.belongs_to(oneshot@),
        ensures
            r == oneshot@.flags.data_valid,
    {
        oneshot.is_data_ready()
    }

    /// Tells whether the message is there or the sending end still is.
    pub fn can_receive<T, W>(&self, oneshot: &Oneshot<T, W>) -> (r: bool)
        requires
            self.belongs_to(oneshot@),
        ensures
            r == oneshot@.flags.can_receive(),
            r == (oneshot@.flags.data_valid || !oneshot@.flags.tx_closed),
    {
        oneshot.can_receive()
    }

    /// A wait for the message that is still to begin.
    pub fn receive_async(&mut self) -> (r: ReceiveAsync<'_>)
        ensures
            *r.recver == *old(self),
            *final(r.recver) == *final(self),
    {
        ReceiveAsync::new(self)
    }

    /// Gives the receiver up.
    pub fn drop<T, W>(self, oneshot: &mut Oneshot<T, W>)
        requires
            old(oneshot).wf(),
            self.belongs_to(old(oneshot)@),
        ensures
            final(oneshot).wf(),
            final(oneshot)@ == old(oneshot)@.detach(self.slot()).close_rx(),
    {
        proof {
            law_after_keeps_order(oneshot@, Op::DropReceiver { slot: self.slot() });
        }
        oneshot.detach(self.slot_);
        let _ = oneshot.try_set_rx_closed();
    }
}

/// A wait for the message that is still to begin.
pub struct ReceiveAsync<'a> {
    /// The receiver.
    pub recver: &'a mut Receiver,
}

impl<'a> ReceiveAsync<'a> {
    /// A wait of `receiver`.
    pub(crate) fn new(receiver: &'a mut Receiver) -> (r: Self)
        ensures
            *r.recver == *old(receiver),
            *final(r.recver) == *final(receiver),
    {
        ReceiveAsync { recver: receiver }
    }

    /// Begins the wait; each poll of it is told what the cancellation comes to.
    pub fn may_cancel_with(self) -> (r: RecvFuture<'a>)
        ensures
            *r.recver == *old(self.recver),
            *final(r.recver) == *final(self.recver),
    {
        RecvFuture::new(self.recver)
    }
}

} // verus!
