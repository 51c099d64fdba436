use vstd::prelude::*;

use crate::oneshot::Oneshot;

verus! {

/// Why a message was not sent.
#[derive(Debug, PartialEq, Eq)]
pub enum TxError<T> {
    /// The send was cancelled.
    Cancelled,
    /// The receiver end is closed.
    Divorced(T),
    /// The sender has sent once and thus becomes disabled.
    Stuffed(T),
}

impl<T> TxError<T> {
    /// The message that was not sent, if the error carries it.
    pub open spec fn inner(self) -> Option<T> {
        match self {
            TxError::Cancelled => None,
            TxError::Divorced(t) => Some(t),
            TxError::Stuffed(t) => Some(t),
        }
    }

    /// Gets the message back that was not sent.
    pub fn try_into_inner(self) -> (r: Result<T, Self>)
        ensures
            r == match self {
                TxError::Cancelled => Err(TxError::<T>::Cancelled),
                TxError::Divorced(t) => Ok(t),
                TxError::Stuffed(t) => Ok(t),
            },
    {
        match self {
            TxError::Divorced(t) => Ok(t),
            TxError::Stuffed(t) => Ok(t),
            _ => Err(self),
        }
    }

    /// The same error with `op` applied to the message that it carries.
    pub fn map_inner<U>(self, op: impl FnOnce(T) -> U) -> (r: TxError<U>)
        requires
            self.inner() matches Some(t) ==> op.requires((t,)),
        ensures
            match self {
                TxError::Cancelled => r is Cancelled,
                TxError::Divorced(t) => r matches TxError::Divorced(u) && op.ensures((t,), u),
                TxError::Stuffed(t) => r matches TxError::Stuffed(u) && op.ensures((t,), u),
            },
    {
        match self {
            TxError::Divorced(t) => TxError::Divorced(op(t)),
            TxError::Stuffed(t) => TxError::Stuffed(op(t)),
            _ => TxError::Cancelled,
        }
    }
}

/// The sending end of a channel.
#[derive(Debug)]
pub struct Sender {
    id_: u64,
}

impl Sender {
    /// The channel that it is an end of.
    pub closed spec fn id(&self) -> u64 {
        self.id_
    }

    /// A sending end of the channel.
    pub(crate) fn new<T, W>(oneshot: &Oneshot<T, W>) -> (r: Self)
        ensures
            r.id() == oneshot@.id,
    {
        Sender { id_: oneshot.id() }
    }

    /// Which channel it is an end of.
    pub fn oneshot(&self) -> (r: u64)
        ensures
            r == self.id(),
    {
        self.id_
    }

    /// Tells whether nothing was sent yet and the receiver or at least one peeker is there.
    pub fn can_send<T, W>(&self, oneshot: &Oneshot<T, W>) -> (r: bool)
        requires
            self.id() == oneshot@.id,
        ensures
            r == oneshot@.can_send(),
    {
        oneshot.can_send()
    }

    /// A send of `data` that is still to be carried out.
    pub fn send<'a, T, W>(&self, oneshot: &'a mut Oneshot<T, W>, data: T) -> (r: SendTask<
        'a,
        T,
        W,
    >)
        requires
            self.id() == old(oneshot)@.id,
        ensures
            r.data == data,
            *r.oneshot == *old(oneshot),
            *final(r.oneshot) == *final(oneshot),
    {
        oneshot.send(data)
    }

    /// Gives the sending end up.
    pub fn drop<T, W>(self, oneshot: &mut Oneshot<T, W>)
        requires
            self.id() == old(oneshot)@.id,
            old(oneshot).wf(),
        ensures
            final(oneshot).wf(),
            final(oneshot)@ == old(oneshot)@.close_tx(),
            final(oneshot)@.flags.tx_closed,
            final(oneshot)@.waiters.len() == 0,
    {
        let _ = oneshot.try_set_tx_closed();
    }
}

/// A send that is still to be carried out.
pub struct SendTask<'a, T, W> {
    /// The channel to send through.
    pub oneshot: &'a mut Oneshot<T, W>,
    /// The message.
    pub data: T,
}

impl<'a, T, W> SendTask<'a, T, W> {
    /// A send of `data` through the channel.
    pub(crate) fn new(oneshot: &'a mut Oneshot<T, W>, data: T) -> (r: Self)
        ensures
            r.data == data,
            *r.oneshot == *old(oneshot),
            *final(r.oneshot) == *final(oneshot),
    {
        SendTask { oneshot, data }
    }

    /// Carries the send out; `acquired` tells whether the lock on the value was got before
    /// the send was cancelled. If it was, the caller holds it, and the send gives it back.
    pub fn may_cancel_with(self, acquired: bool) -> (r: Result<(), TxError<T>>)
        requires
            old(self.oneshot).wf(),
            acquired ==> old(self.oneshot)@.flags.acquired,
        ensures
            final(self.oneshot).wf(),
            r == old(self.oneshot)@.send_result(self.data, acquired),
            r is Ok ==> final(self.oneshot)@.value == Some(self.data),
            final(self.oneshot)@ == old(self.oneshot)@.send_next(self.data, acquired),
    {
        self.oneshot.send_with_cancel_(self.data, acquired)
    }

    /// Carries the send out under the lock on the value, which whoever holds it has to give back
    /// before.
    pub fn wait(self) -> (r: Result<(), TxError<T>>)
        requires
            old(self.oneshot).wf(),
            !old(self.oneshot)@.flags.acquired,
        ensures
            final(self.oneshot).wf(),
            r == old(self.oneshot)@.send_result(self.data, true),
            r is Ok ==> final(self.oneshot)@.value == Some(self.data),
            r matches Err(e) ==> e.inner() == Some(self.data),
            final(self.oneshot)@ == old(self.oneshot)@.send_next(self.data, true),
    {
        let _ = self.oneshot.try_lock_value();
        self.may_cancel_with(true)
    }
}

} // verus!
