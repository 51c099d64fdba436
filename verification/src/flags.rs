use vstd::prelude::*;
use vstd::string::StringExecFns;

use crate::text::{push_bool, push_decimal};

verus! {

/// The bit that is set while the lock on the value is held.
pub const K_MUTEX_ACQ_FLAG: usize = 1usize << (usize::BITS - 1);

/// The bit that is set while a message lies in the channel.
pub const K_DATA_VALID_FLAG: usize = K_MUTEX_ACQ_FLAG >> 1;

/// The bit that is set once the sending end has sent.
pub const K_TX_EXPIRE_FLAG: usize = K_DATA_VALID_FLAG >> 1;

/// The bit that is set once the sending end is gone.
pub const K_TX_CLOSED_FLAG: usize = K_TX_EXPIRE_FLAG >> 1;

/// The bit that is set once the receiver is gone.
pub const K_RX_CLOSED_FLAG: usize = K_TX_CLOSED_FLAG >> 1;

/// The bits that hold the number of peekers: all those below the flags.
pub const K_PEEKERS_NUM_MASK: usize = usize::MAX / 32;

/// What a flag word says, field by field.
pub struct FlagsView {
    /// The lock on the value is held.
    pub acquired: bool,
    /// A message lies in the channel.
    pub data_valid: bool,
    /// The sending end has sent.
    pub tx_expire: bool,
    /// The sending end is gone.
    pub tx_closed: bool,
    /// The receiver is gone.
    pub rx_closed: bool,
    /// The number of peekers.
    pub peekers: nat,
}

impl FlagsView {
    /// What the flag word of a fresh channel says.
    pub open spec fn initial() -> FlagsView {
        FlagsView {
            acquired: false,
            data_valid: false,
            tx_expire: false,
            tx_closed: false,
            rx_closed: false,
            peekers: 0,
        }
    }

    /// Somebody can still see what is sent: the receiver or at least one peeker.
    pub open spec fn has_audience(self) -> bool {
        !self.rx_closed || self.peekers > 0
    }

    /// Nothing was sent yet, and somebody can see what is sent.
    pub open spec fn can_send(self) -> bool {
        !self.data_valid && !self.tx_expire && self.has_audience()
    }

    /// A message is there, or the sending end still is.
    pub open spec fn can_receive(self) -> bool {
        self.data_valid || !self.tx_closed
    }

    /// A message is there, or the sending end still is.
    pub open spec fn can_peek(self) -> bool {
        self.data_valid || !self.tx_closed
    }

    /// What the word says after the message was sent.
    pub open spec fn after_sent(self) -> FlagsView {
        FlagsView { data_valid: true, tx_expire: true, ..self }
    }

    /// How the flags are written for a reader.
    pub open spec fn text(self) -> Seq<char> {
        "Acq("@ + crate::text::bool_text(self.acquired) + "), DataValid("@
            + crate::text::bool_text(self.data_valid) + "), TxClosed("@
            + crate::text::bool_text(self.tx_closed) + "), RxClosed("@
            + crate::text::bool_text(self.rx_closed) + "), PeekerNum("@
            + crate::text::decimal(self.peekers) + ")"@
    }
}

/// What the word `s` says.
pub open spec fn decode(s: usize) -> FlagsView {
    FlagsView {
        acquired: s & K_MUTEX_ACQ_FLAG == K_MUTEX_ACQ_FLAG,
        data_valid: s & K_DATA_VALID_FLAG == K_DATA_VALID_FLAG,
        tx_expire: s & K_TX_EXPIRE_FLAG == K_TX_EXPIRE_FLAG,
        tx_closed: s & K_TX_CLOSED_FLAG == K_TX_CLOSED_FLAG,
        rx_closed: s & K_RX_CLOSED_FLAG == K_RX_CLOSED_FLAG,
        peekers: (s & K_PEEKERS_NUM_MASK) as nat,
    }
}

/// The word that says `v`.
pub open spec fn encode(v: FlagsView) -> usize {
    (if v.acquired { K_MUTEX_ACQ_FLAG } else { 0 })
        | (if v.data_valid { K_DATA_VALID_FLAG } else { 0 })
        | (if v.tx_expire { K_TX_EXPIRE_FLAG } else { 0 })
        | (if v.tx_closed { K_TX_CLOSED_FLAG } else { 0 })
        | (if v.rx_closed { K_RX_CLOSED_FLAG } else { 0 })
        | (v.peekers as usize)
}

/// The mask, as a shift.
proof fn lemma_mask_value()
    ensures
        K_PEEKERS_NUM_MASK == !0usize >> 5,
{
    let top = usize::MAX;
    assert(top <= !0usize) by (bit_vector);
    assert(!0usize >> 5 == !0usize / 32) by (bit_vector);
}

/// The number of peekers takes up all the bits below the flags.
pub proof fn law_mask_is_below_flags()
    ensures
        K_PEEKERS_NUM_MASK == K_RX_CLOSED_FLAG - 1,
{
    lemma_mask_value();
    assert(!0usize >> 5 == K_RX_CLOSED_FLAG - 1) by (bit_vector);
}

/// Two words that say the same are the same word: the flags and the number of peekers
/// take up all the bits.
pub proof fn law_decode_injective(a: usize, b: usize)
    requires
        decode(a) == decode(b),
    ensures
        a == b,
{
    lemma_mask_value();
    let m = K_PEEKERS_NUM_MASK;
    assert(a == b) by (bit_vector)
        requires
            m == !0usize >> 5,
            (a & K_MUTEX_ACQ_FLAG == K_MUTEX_ACQ_FLAG) == (b & K_MUTEX_ACQ_FLAG == K_MUTEX_ACQ_FLAG),
            (a & K_DATA_VALID_FLAG == K_DATA_VALID_FLAG) == (b & K_DATA_VALID_FLAG == K_DATA_VALID_FLAG),
            (a & K_TX_EXPIRE_FLAG == K_TX_EXPIRE_FLAG) == (b & K_TX_EXPIRE_FLAG == K_TX_EXPIRE_FLAG),
            (a & K_TX_CLOSED_FLAG == K_TX_CLOSED_FLAG) == (b & K_TX_CLOSED_FLAG == K_TX_CLOSED_FLAG),
            (a & K_RX_CLOSED_FLAG == K_RX_CLOSED_FLAG) == (b & K_RX_CLOSED_FLAG == K_RX_CLOSED_FLAG),
            a & m == b & m,
    ;
}

/// Every combination of flags with every number of peekers that fits has a word that says it:
/// no two fields share a bit.
pub proof fn law_encode_decode(v: FlagsView)
    requires
        v.peekers <= K_PEEKERS_NUM_MASK,
    ensures
        decode(encode(v)) == v,
{
    let acq = v.acquired;
    let valid = v.data_valid;
    let expire = v.tx_expire;
    let txc = v.tx_closed;
    let rxc = v.rx_closed;
    let n = v.peekers as usize;
    let w = encode(v);
    lemma_mask_value();
    let m = K_PEEKERS_NUM_MASK;
    assert({
        &&& (w & K_MUTEX_ACQ_FLAG == K_MUTEX_ACQ_FLAG) == acq
        &&& (w & K_DATA_VALID_FLAG == K_DATA_VALID_FLAG) == valid
        &&& (w & K_TX_EXPIRE_FLAG == K_TX_EXPIRE_FLAG) == expire
        &&& (w & K_TX_CLOSED_FLAG == K_TX_CLOSED_FLAG) == txc
        &&& (w & K_RX_CLOSED_FLAG == K_RX_CLOSED_FLAG) == rxc
        &&& w & m == n
    }) by (bit_vector)
        requires
            m == !0usize >> 5,
            n <= m,
            w == (if acq { K_MUTEX_ACQ_FLAG } else { 0 })
                | (if valid { K_DATA_VALID_FLAG } else { 0 })
                | (if expire { K_TX_EXPIRE_FLAG } else { 0 })
                | (if txc { K_TX_CLOSED_FLAG } else { 0 })
                | (if rxc { K_RX_CLOSED_FLAG } else { 0 })
                | n,
    ;
}

/// Setting the lock bit changes nothing else.
proof fn lemma_set_acquired(s: usize)
    ensures
        decode(s | K_MUTEX_ACQ_FLAG) == (FlagsView { acquired: true, ..decode(s) }),
{
    let r = s | K_MUTEX_ACQ_FLAG;
    lemma_mask_value();
    let m = K_PEEKERS_NUM_MASK;
    assert({
        &&& r & K_MUTEX_ACQ_FLAG == K_MUTEX_ACQ_FLAG
        &&& r & K_DATA_VALID_FLAG == s & K_DATA_VALID_FLAG
        &&& r & K_TX_EXPIRE_FLAG == s & K_TX_EXPIRE_FLAG
        &&& r & K_TX_CLOSED_FLAG == s & K_TX_CLOSED_FLAG
        &&& r & K_RX_CLOSED_FLAG == s & K_RX_CLOSED_FLAG
        &&& r & m == s & m
    }) by (bit_vector)
        requires
            m == !0usize >> 5,
            r == s | K_MUTEX_ACQ_FLAG,
    ;
}

/// Clearing the lock bit changes nothing else.
proof fn lemma_clear_acquired(s: usize)
    ensures
        decode(s & !K_MUTEX_ACQ_FLAG) == (FlagsView { acquired: false, ..decode(s) }),
{
    let r = s & !K_MUTEX_ACQ_FLAG;
    lemma_mask_value();
    let m = K_PEEKERS_NUM_MASK;
    assert({
        &&& r & K_MUTEX_ACQ_FLAG != K_MUTEX_ACQ_FLAG
        &&& r & K_DATA_VALID_FLAG == s & K_DATA_VALID_FLAG
        &&& r & K_TX_EXPIRE_FLAG == s & K_TX_EXPIRE_FLAG
        &&& r & K_TX_CLOSED_FLAG == s & K_TX_CLOSED_FLAG
        &&& r & K_RX_CLOSED_FLAG == s & K_RX_CLOSED_FLAG
        &&& r & m == s & m
    }) by (bit_vector)
        requires
            m == !0usize >> 5,
            r == s & !K_MUTEX_ACQ_FLAG,
    ;
}

/// Setting the message bit changes nothing else.
proof fn lemma_set_data_valid(s: usize)
    ensures
        decode(s | K_DATA_VALID_FLAG) == (FlagsView { data_valid: true, ..decode(s) }),
{
    let r = s | K_DATA_VALID_FLAG;
    lemma_mask_value();
    let m = K_PEEKERS_NUM_MASK;
    assert({
        &&& r & K_MUTEX_ACQ_FLAG == s & K_MUTEX_ACQ_FLAG
        &&& r & K_DATA_VALID_FLAG == K_DATA_VALID_FLAG
        &&& r & K_TX_EXPIRE_FLAG == s & K_TX_EXPIRE_FLAG
        &&& r & K_TX_CLOSED_FLAG == s & K_TX_CLOSED_FLAG
        &&& r & K_RX_CLOSED_FLAG == s & K_RX_CLOSED_FLAG
        &&& r & m == s & m
    }) by (bit_vector)
        requires
            m == !0usize >> 5,
            r == s | K_DATA_VALID_FLAG,
    ;
}

/// Clearing the message bit changes nothing else.
proof fn lemma_clear_data_valid(s: usize)
    ensures
        decode(s & !K_DATA_VALID_FLAG) == (FlagsView { data_valid: false, ..decode(s) }),
{
    let r = s & !K_DATA_VALID_FLAG;
    lemma_mask_value();
    let m = K_PEEKERS_NUM_MASK;
    assert({
        &&& r & K_MUTEX_ACQ_FLAG == s & K_MUTEX_ACQ_FLAG
        &&& r & K_DATA_VALID_FLAG != K_DATA_VALID_FLAG
        &&& r & K_TX_EXPIRE_FLAG == s & K_TX_EXPIRE_FLAG
        &&& r & K_TX_CLOSED_FLAG == s & K_TX_CLOSED_FLAG
        &&& r & K_RX_CLOSED_FLAG == s & K_RX_CLOSED_FLAG
        &&& r & m == s & m
    }) by (bit_vector)
        requires
            m == !0usize >> 5,
            r == s & !K_DATA_VALID_FLAG,
    ;
}

/// Setting the "has sent" bit changes nothing else.
proof fn lemma_set_tx_expire(s: usize)
    ensures
        decode(s | K_TX_EXPIRE_FLAG) == (FlagsView { tx_expire: true, ..decode(s) }),
{
    let r = s | K_TX_EXPIRE_FLAG;
    lemma_mask_value();
    let m = K_PEEKERS_NUM_MASK;
    assert({
        &&& r & K_MUTEX_ACQ_FLAG == s & K_MUTEX_ACQ_FLAG
        &&& r & K_DATA_VALID_FLAG == s & K_DATA_VALID_FLAG
        &&& r & K_TX_EXPIRE_FLAG == K_TX_EXPIRE_FLAG
        &&& r & K_TX_CLOSED_FLAG == s & K_TX_CLOSED_FLAG
        &&& r & K_RX_CLOSED_FLAG == s & K_RX_CLOSED_FLAG
        &&& r & m == s & m
    }) by (bit_vector)
        requires
            m == !0usize >> 5,
            r == s | K_TX_EXPIRE_FLAG,
    ;
}

/// Setting the "sending end is gone" bit changes nothing else.
proof fn lemma_set_tx_closed(s: usize)
    ensures
        decode(s | K_TX_CLOSED_FLAG) == (FlagsView { tx_closed: true, ..decode(s) }),
{
    let r = s | K_TX_CLOSED_FLAG;
    lemma_mask_value();
    let m = K_PEEKERS_NUM_MASK;
    assert({
        &&& r & K_MUTEX_ACQ_FLAG == s & K_MUTEX_ACQ_FLAG
        &&& r & K_DATA_VALID_FLAG == s & K_DATA_VALID_FLAG
        &&& r & K_TX_EXPIRE_FLAG == s & K_TX_EXPIRE_FLAG
        &&& r & K_TX_CLOSED_FLAG == K_TX_CLOSED_FLAG
        &&& r & K_RX_CLOSED_FLAG == s & K_RX_CLOSED_FLAG
        &&& r & m == s & m
    }) by (bit_vector)
        requires
            m == !0usize >> 5,
            r == s | K_TX_CLOSED_FLAG,
    ;
}

/// Setting the "receiver is gone" bit changes nothing else.
proof fn lemma_set_rx_closed(s: usize)
    ensures
        decode(s | K_RX_CLOSED_FLAG) == (FlagsView { rx_closed: true, ..decode(s) }),
{
    let r = s | K_RX_CLOSED_FLAG;
    lemma_mask_value();
    let m = K_PEEKERS_NUM_MASK;
    assert({
        &&& r & K_MUTEX_ACQ_FLAG == s & K_MUTEX_ACQ_FLAG
        &&& r & K_DATA_VALID_FLAG == s & K_DATA_VALID_FLAG
        &&& r & K_TX_EXPIRE_FLAG == s & K_TX_EXPIRE_FLAG
        &&& r & K_TX_CLOSED_FLAG == s & K_TX_CLOSED_FLAG
        &&& r & K_RX_CLOSED_FLAG == K_RX_CLOSED_FLAG
        &&& r & m == s & m
    }) by (bit_vector)
        requires
            m == !0usize >> 5,
            r == s | K_RX_CLOSED_FLAG,
    ;
}

/// Writing a number into the low bits leaves the flags alone.
proof fn lemma_write_peekers(s: usize, c: usize)
    ensures
        decode((s & !K_PEEKERS_NUM_MASK) | (c & K_PEEKERS_NUM_MASK)) == (FlagsView {
            peekers: (c & K_PEEKERS_NUM_MASK) as nat,
            ..decode(s)
        }),
{
    let r = (s & !K_PEEKERS_NUM_MASK) | (c & K_PEEKERS_NUM_MASK);
    lemma_mask_value();
    let m = K_PEEKERS_NUM_MASK;
    assert({
        &&& r & K_MUTEX_ACQ_FLAG == s & K_MUTEX_ACQ_FLAG
        &&& r & K_DATA_VALID_FLAG == s & K_DATA_VALID_FLAG
        &&& r & K_TX_EXPIRE_FLAG == s & K_TX_EXPIRE_FLAG
        &&& r & K_TX_CLOSED_FLAG == s & K_TX_CLOSED_FLAG
        &&& r & K_RX_CLOSED_FLAG == s & K_RX_CLOSED_FLAG
        &&& r & m == c & m
    }) by (bit_vector)
        requires
            m == !0usize >> 5,
            r == (s & !m) | (c & m),
    ;
}

/// A number that fits into the low bits is kept by the mask; the next one after the largest
/// that fits leaves nothing.
proof fn lemma_mask(c: usize)
    ensures
        c & K_PEEKERS_NUM_MASK <= K_PEEKERS_NUM_MASK,
        c <= K_PEEKERS_NUM_MASK ==> c & K_PEEKERS_NUM_MASK == c,
        c == K_PEEKERS_NUM_MASK + 1 ==> c & K_PEEKERS_NUM_MASK == 0,
        K_PEEKERS_NUM_MASK < !0usize,
{
    lemma_mask_value();
    let m = K_PEEKERS_NUM_MASK;
    assert({
        &&& c & m <= m
        &&& c <= m ==> c & m == c
        &&& c == m + 1 ==> c & m == 0
        &&& m < !0usize
    }) by (bit_vector)
        requires
            m == !0usize >> 5,
    ;
}

/// The zero word says that nothing has happened yet.
proof fn lemma_zero()
    ensures
        decode(0) == FlagsView::initial(),
{
    lemma_mask_value();
    let m = K_PEEKERS_NUM_MASK;
    assert({
        &&& 0usize & K_MUTEX_ACQ_FLAG != K_MUTEX_ACQ_FLAG
        &&& 0usize & K_DATA_VALID_FLAG != K_DATA_VALID_FLAG
        &&& 0usize & K_TX_EXPIRE_FLAG != K_TX_EXPIRE_FLAG
        &&& 0usize & K_TX_CLOSED_FLAG != K_TX_CLOSED_FLAG
        &&& 0usize & K_RX_CLOSED_FLAG != K_RX_CLOSED_FLAG
        &&& 0usize & m == 0
    }) by (bit_vector)
        requires
            m == !0usize >> 5,
    ;
}

/// The flag word of a channel.
pub struct Flags {
    word_: usize,
}

impl View for Flags {
    type V = FlagsView;

    open spec fn view(&self) -> FlagsView {
        decode(self.word())
    }
}

impl Flags {
    /// The word itself.
    pub closed spec fn word(&self) -> usize {
        self.word_
    }

    /// The flags that the word `cell` says; the zero word is that of a fresh channel.
    pub fn new(cell: usize) -> (r: Self)
        ensures
            r.word() == cell,
            cell == 0 ==> r@ == FlagsView::initial(),
    {
        proof {
            lemma_zero();
        }
        Flags { word_: cell }
    }

    /// Loads the flag word.
    pub fn value(&self) -> (r: usize)
        ensures
            r == self.word(),
    {
        self.word_
    }

    /// Tells whether nothing was sent yet and the receiver or at least one peeker is there.
    pub fn can_send(&self) -> (r: bool)
        ensures
            r == self@.can_send(),
    {
        let s: usize = self.value();
        Self::expect_can_send(s)
    }

    /// Tells whether a message is there or the sending end still is.
    pub fn can_receive(&self) -> (r: bool)
        ensures
            r == self@.can_receive(),
    {
        let s: usize = self.value();
        Self::expect_can_receive(s)
    }

    /// Tells whether a message is there or the sending end still is.
    pub fn can_peek(&self) -> (r: bool)
        ensures
            r == self@.can_peek(),
    {
        let s: usize = self.value();
        Self::expect_can_peek(s)
    }

    /// Tells whether a message lies in the channel.
    pub fn is_data_ready(&self) -> (r: bool)
        ensures
            r == self@.data_valid,
    {
        let s: usize = self.value();
        Self::expect_data_valid(s)
    }

    /// Tells whether the sending end has sent.
    pub fn has_tx_sent(&self) -> (r: bool)
        ensures
            r == self@.tx_expire,
    {
        let s: usize = self.value();
        Self::expect_tx_expire(s)
    }

    /// Tells whether the sending end is gone.
    pub fn is_tx_closed(&self) -> (r: bool)
        ensures
            r == self@.tx_closed,
    {
        let s: usize = self.value();
        Self::expect_tx_closed(s)
    }

    /// Replaces the word by what `desire` makes of it, if it is as `expect` wants it, and
    /// returns the word that it found: as `Ok` if it was replaced, as `Err` if not.
    fn try_exchange(
        &mut self,
        expect: impl Fn(usize) -> bool,
        desire: impl Fn(usize) -> usize,
    ) -> (r: Result<usize, usize>)
        requires
            expect.requires((old(self).word(),)),
            expect.ensures((old(self).word(),), true) ==> desire.requires((old(self).word(),)),
        ensures
            match r {
                Ok(s) => {
                    &&& s == old(self).word()
                    &&& expect.ensures((s,), true)
                    &&& desire.ensures((s,), final(self).word())
                },
                Err(s) => {
                    &&& s == old(self).word()
                    &&& expect.ensures((s,), false)
                    &&& *final(self) == *old(self)
                },
            },
    {
        let current: usize = self.word_;
        if !expect(current) {
            return Err(current);
        }
        self.word_ = desire(current);
        Ok(current)
    }

    /// Counts one peeker more and returns how many there were.
    pub fn increase_peeker_count(&mut self) -> (r: usize)
        requires
            old(self)@.peekers < K_PEEKERS_NUM_MASK,
        ensures
            r == old(self)@.peekers,
            final(self)@ == (FlagsView { peekers: old(self)@.peekers + 1, ..old(self)@ }),
    {
        let r: Result<usize, usize> = self.try_exchange(
            Self::expect_incr_peekers_count_legal,
            Self::desire_incr_peeker_count,
        );
        let s: usize = match r {
            Ok(s) => s,
            Err(s) => s,
        };
        Self::read_peekers_count(s)
    }

    /// Counts one peeker less and returns how many there were.
    pub fn decrease_peeker_count(&mut self) -> (r: usize)
        requires
            old(self)@.peekers > 0,
        ensures
            r == old(self)@.peekers,
            final(self)@ == (FlagsView {
                peekers: (old(self)@.peekers - 1) as nat,
                ..old(self)@
            }),
    {
        let r: Result<usize, usize> = self.try_exchange(
            Self::expect_decr_peekers_count_legal,
            Self::desire_decr_peeker_count,
        );
        let s: usize = match r {
            Ok(s) => s,
            Err(s) => s,
        };
        Self::read_peekers_count(s)
    }

    /// Loads the number of peekers.
    pub fn peeker_count(&self) -> (r: usize)
        ensures
            r == self@.peekers,
            r <= K_PEEKERS_NUM_MASK,
    {
        Self::read_peekers_count(self.value())
    }

    /// Marks that a message lies in the channel, or that none does, unless it is so marked
    /// already; returns the word that it found.
    pub fn try_set_data_valid(&mut self, is_valid: bool) -> (r: Result<usize, usize>)
        ensures
            r == if old(self)@.data_valid != is_valid {
                Ok::<usize, usize>(old(self).word())
            } else {
                Err(old(self).word())
            },
            r is Err ==> *final(self) == *old(self),
            final(self)@ == (FlagsView { data_valid: is_valid, ..old(self)@ }),
    {
        if is_valid {
            self.try_exchange(Self::expect_data_invalid, Self::desire_data_valid)
        } else {
            self.try_exchange(Self::expect_data_valid, Self::desire_data_invalid)
        }
    }

    /// Marks that the message was sent and lies in the channel, if sending is possible;
    /// returns the word that it found.
    pub fn try_set_sent(&mut self) -> (r: Result<usize, usize>)
        ensures
            r == if old(self)@.can_send() {
                Ok::<usize, usize>(old(self).word())
            } else {
                Err(old(self).word())
            },
            r is Ok ==> final(self)@ == old(self)@.after_sent(),
            r is Err ==> *final(self) == *old(self),
    {
        let desire = |s: usize| -> (r: usize)
            ensures
                decode(r) == decode(s).after_sent(),
        {
            let s0: usize = Self::desire_data_valid(s);
            Self::desire_tx_expire(s0)
        };
        self.try_exchange(Self::expect_can_send, desire)
    }

    /// Marks the sending end as gone, unless it is so marked already; returns the word that
    /// it found.
    pub fn try_set_tx_closed(&mut self) -> (r: Result<usize, usize>)
        ensures
            r == if !old(self)@.tx_closed {
                Ok::<usize, usize>(old(self).word())
            } else {
                Err(old(self).word())
            },
            r is Err ==> *final(self) == *old(self),
            final(self)@ == (FlagsView { tx_closed: true, ..old(self)@ }),
    {
        self.try_exchange(Self::expect_tx_open, Self::desire_tx_closed)
    }

    /// Marks the receiver as gone, unless it is so marked already; returns the word that it
    /// found.
    pub fn try_set_rx_closed(&mut self) -> (r: Result<usize, usize>)
        ensures
            r == if !old(self)@.rx_closed {
                Ok::<usize, usize>(old(self).word())
            } else {
                Err(old(self).word())
            },
            r is Err ==> *final(self) == *old(self),
            final(self)@ == (FlagsView { rx_closed: true, ..old(self)@ }),
    {
        self.try_exchange(Self::expect_rx_open, Self::desire_rx_closed)
    }

    /// Takes the lock on the value, if it is free, and tells whether it was.
    pub fn try_acquire(&mut self) -> (r: bool)
        ensures
            r == !old(self)@.acquired,
            final(self)@ == (FlagsView { acquired: true, ..old(self)@ }),
    {
        self.try_exchange(Self::is_released, Self::make_acquired).is_ok()
    }

    /// Gives the lock on the value back, if it is held, and tells whether it was.
    pub fn release(&mut self) -> (r: bool)
        ensures
            r == old(self)@.acquired,
            final(self)@ == (FlagsView { acquired: false, ..old(self)@ }),
    {
        self.try_exchange(Self::is_acquired, Self::make_released).is_ok()
    }
}

impl Flags {
    /// The lock on the value is free, as it is at first.
    pub fn expect_mutex_released(s: usize) -> (r: bool)
        ensures
            r == !decode(s).acquired,
    {
        !Self::expect_mutex_acquired(s)
    }

    /// The lock on the value is held.
    pub fn expect_mutex_acquired(s: usize) -> (r: bool)
        ensures
            r == decode(s).acquired,
    {
        s & K_MUTEX_ACQ_FLAG == K_MUTEX_ACQ_FLAG
    }

    /// The word with the lock on the value held.
    pub fn desire_mutex_acquired(s: usize) -> (r: usize)
        ensures
            decode(r) == (FlagsView { acquired: true, ..decode(s) }),
    {
        proof {
            lemma_set_acquired(s);
        }
        s | K_MUTEX_ACQ_FLAG
    }

    /// The word with the lock on the value free.
    pub fn desire_mutex_released(s: usize) -> (r: usize)
        ensures
            decode(r) == (FlagsView { acquired: false, ..decode(s) }),
    {
        proof {
            lemma_clear_acquired(s);
        }
        s & !K_MUTEX_ACQ_FLAG
    }

    /// No message lies in the channel; none does at first.
    pub fn expect_data_invalid(s: usize) -> (r: bool)
        ensures
            r == !decode(s).data_valid,
    {
        !Self::expect_data_valid(s)
    }

    /// A message lies in the channel.
    pub fn expect_data_valid(s: usize) -> (r: bool)
        ensures
            r == decode(s).data_valid,
    {
        s & K_DATA_VALID_FLAG == K_DATA_VALID_FLAG
    }

    /// The word with a message in the channel.
    pub fn desire_data_valid(s: usize) -> (r: usize)
        ensures
            decode(r) == (FlagsView { data_valid: true, ..decode(s) }),
    {
        proof {
            lemma_set_data_valid(s);
        }
        s | K_DATA_VALID_FLAG
    }

    /// The word with no message in the channel.
    pub fn desire_data_invalid(s: usize) -> (r: usize)
        ensures
            decode(r) == (FlagsView { data_valid: false, ..decode(s) }),
    {
        proof {
            lemma_clear_data_valid(s);
        }
        s & !K_DATA_VALID_FLAG
    }

    /// The sending end has sent; it has not at first.
    pub fn expect_tx_expire(s: usize) -> (r: bool)
        ensures
            r == decode(s).tx_expire,
    {
        s & K_TX_EXPIRE_FLAG == K_TX_EXPIRE_FLAG
    }

    /// The sending end has not sent.
    pub fn expect_tx_not_expire(s: usize) -> (r: bool)
        ensures
            r == !decode(s).tx_expire,
    {
        !Self::expect_tx_expire(s)
    }

    /// The word after the sending end has sent.
    pub fn desire_tx_expire(s: usize) -> (r: usize)
        ensures
            decode(r) == (FlagsView { tx_expire: true, ..decode(s) }),
    {
        proof {
            lemma_set_tx_expire(s);
        }
        s | K_TX_EXPIRE_FLAG
    }

    /// The sending end is there, as it is at first.
    pub fn expect_tx_open(s: usize) -> (r: bool)
        ensures
            r == !decode(s).tx_closed,
    {
        !Self::expect_tx_closed(s)
    }

    /// The sending end is gone.
    pub fn expect_tx_closed(s: usize) -> (r: bool)
        ensures
            r == decode(s).tx_closed,
    {
        s & K_TX_CLOSED_FLAG == K_TX_CLOSED_FLAG
    }

    /// The word with the sending end gone.
    pub fn desire_tx_closed(s: usize) -> (r: usize)
        ensures
            decode(r) == (FlagsView { tx_closed: true, ..decode(s) }),
    {
        proof {
            lemma_set_tx_closed(s);
        }
        s | K_TX_CLOSED_FLAG
    }

    /// The receiver is there, as it is at first.
    pub fn expect_rx_open(s: usize) -> (r: bool)
        ensures
            r == !decode(s).rx_closed,
    {
        !Self::expect_rx_closed(s)
    }

    /// The receiver is gone.
    pub fn expect_rx_closed(s: usize) -> (r: bool)
        ensures
            r == decode(s).rx_closed,
    {
        s & K_RX_CLOSED_FLAG == K_RX_CLOSED_FLAG
    }

    /// The word with the receiver gone.
    pub fn desire_rx_closed(s: usize) -> (r: usize)
        ensures
            decode(r) == (FlagsView { rx_closed: true, ..decode(s) }),
    {
        proof {
            lemma_set_rx_closed(s);
        }
        s | K_RX_CLOSED_FLAG
    }

    /// The number of peekers.
    pub fn read_peekers_count(s: usize) -> (r: usize)
        ensures
            r == decode(s).peekers,
            r <= K_PEEKERS_NUM_MASK,
    {
        proof {
            lemma_mask(s);
        }
        s & K_PEEKERS_NUM_MASK
    }

    /// Writes the number `c` of peekers; of a number that does not fit, the bits that do.
    pub fn write_peekers_count(s: usize, c: usize) -> (r: usize)
        ensures
            decode(r) == (FlagsView { peekers: (c & K_PEEKERS_NUM_MASK) as nat, ..decode(s) }),
            c <= K_PEEKERS_NUM_MASK ==> decode(r).peekers == c,
    {
        proof {
            lemma_write_peekers(s, c);
            lemma_mask(c);
        }
        let c: usize = c & K_PEEKERS_NUM_MASK;
        let s: usize = s & !K_PEEKERS_NUM_MASK;
        s | c
    }

    /// One peeker more can be counted.
    pub fn expect_incr_peekers_count_legal(s: usize) -> (r: bool)
        ensures
            r == (decode(s).peekers < K_PEEKERS_NUM_MASK),
    {
        Self::read_peekers_count(s) < K_PEEKERS_NUM_MASK
    }

    /// One peeker less can be counted.
    pub fn expect_decr_peekers_count_legal(s: usize) -> (r: bool)
        ensures
            r == (decode(s).peekers > 0),
    {
        Self::read_peekers_count(s) > 0
    }

    /// Counts one peeker more; after the largest number that fits comes none.
    pub fn desire_incr_peeker_count(s: usize) -> (r: usize)
        ensures
            decode(r) == (FlagsView {
                peekers: if decode(s).peekers < K_PEEKERS_NUM_MASK {
                    decode(s).peekers + 1
                } else {
                    0
                },
                ..decode(s)
            }),
    {
        let c: usize = Self::read_peekers_count(s);
        proof {
            lemma_mask(c);
            lemma_mask((c + 1) as usize);
        }
        Self::write_peekers_count(s, c + 1)
    }

    /// Counts one peeker less.
    pub fn desire_decr_peeker_count(s: usize) -> (r: usize)
        requires
            decode(s).peekers > 0,
        ensures
            decode(r) == (FlagsView {
                peekers: (decode(s).peekers - 1) as nat,
                ..decode(s)
            }),
    {
        let c: usize = Self::read_peekers_count(s);
        Self::write_peekers_count(s, c - 1)
    }

    /// Sending is possible: nothing was sent yet, and the receiver or at least one peeker is
    /// there.
    pub fn expect_can_send(s: usize) -> (r: bool)
        ensures
            r == decode(s).can_send(),
    {
        Self::expect_data_invalid(s) && Self::expect_tx_not_expire(s) && (Self::expect_rx_open(s)
            || Self::read_peekers_count(s) > 0)
    }

    /// A message is there, or the sending end still is.
    pub fn expect_can_receive(s: usize) -> (r: bool)
        ensures
            r == decode(s).can_receive(),
    {
        if !Self::expect_data_valid(s) {
            Self::expect_tx_open(s)
        } else {
            true
        }
    }

    /// A message is there, or the sending end still is.
    pub fn expect_can_peek(s: usize) -> (r: bool)
        ensures
            r == decode(s).can_peek(),
    {
        if !Self::expect_data_valid(s) {
            Self::expect_tx_open(s)
        } else {
            true
        }
    }
}

/// The flag word as the signal of the lock on the value.
impl Flags {
    /// The lock is held.
    pub fn is_acquired(val: usize) -> (r: bool)
        ensures
            r == decode(val).acquired,
    {
        Self::expect_mutex_acquired(val)
    }

    /// The lock is free.
    pub fn is_released(val: usize) -> (r: bool)
        ensures
            r == !decode(val).acquired,
    {
        Self::expect_mutex_released(val)
    }

    /// The word with the lock held.
    pub fn make_acquired(val: usize) -> (r: usize)
        ensures
            decode(r) == (FlagsView { acquired: true, ..decode(val) }),
    {
        Self::desire_mutex_acquired(val)
    }

    /// The word with the lock free.
    pub fn make_released(val: usize) -> (r: usize)
        ensures
            decode(r) == (FlagsView { acquired: false, ..decode(val) }),
    {
        Self::desire_mutex_released(val)
    }
}

impl Flags {
    /// The flags as text for a reader.
    pub fn fmt(&self) -> (r: String)
        ensures
            r@ == self@.text(),
    {
        let v: usize = self.value();
        let mut f = String::new();
        f.append("Acq(");
        push_bool(&mut f, Self::expect_mutex_acquired(v));
        f.append("), DataValid(");
        push_bool(&mut f, Self::expect_data_valid(v));
        f.append("), TxClosed(");
        push_bool(&mut f, Self::expect_tx_closed(v));
        f.append("), RxClosed(");
        push_bool(&mut f, Self::expect_rx_closed(v));
        f.append("), PeekerNum(");
        push_decimal(&mut f, Self::read_peekers_count(v));
        f.append(")");
        f
    }
}

/// The flags are the five highest bits of a word, in this order, and the number of peekers has all
/// the others.
pub proof fn law_flag_values()
    ensures
        2 * K_MUTEX_ACQ_FLAG == usize::MAX + 1,
        2 * K_DATA_VALID_FLAG == K_MUTEX_ACQ_FLAG,
        2 * K_TX_EXPIRE_FLAG == K_DATA_VALID_FLAG,
        2 * K_TX_CLOSED_FLAG == K_TX_EXPIRE_FLAG,
        2 * K_RX_CLOSED_FLAG == K_TX_CLOSED_FLAG,
        K_PEEKERS_NUM_MASK + 1 == K_RX_CLOSED_FLAG,
{
    law_mask_is_below_flags();
    let top = usize::MAX;
    assert(top <= !0usize) by (bit_vector);
    assert({
        &&& K_MUTEX_ACQ_FLAG + K_MUTEX_ACQ_FLAG == !0usize + 1
        &&& K_DATA_VALID_FLAG + K_DATA_VALID_FLAG == K_MUTEX_ACQ_FLAG
        &&& K_TX_EXPIRE_FLAG + K_TX_EXPIRE_FLAG == K_DATA_VALID_FLAG
        &&& K_TX_CLOSED_FLAG + K_TX_CLOSED_FLAG == K_TX_EXPIRE_FLAG
        &&& K_RX_CLOSED_FLAG + K_RX_CLOSED_FLAG == K_TX_CLOSED_FLAG
    }) by (bit_vector);
}

/// A word is the sum of the flags that it says and of the number of peekers that it says.
pub proof fn law_word_as_a_sum(s: usize)
    ensures
        s == (if decode(s).acquired { K_MUTEX_ACQ_FLAG as int } else { 0 })
            + (if decode(s).data_valid { K_DATA_VALID_FLAG as int } else { 0 })
            + (if decode(s).tx_expire { K_TX_EXPIRE_FLAG as int } else { 0 })
            + (if decode(s).tx_closed { K_TX_CLOSED_FLAG as int } else { 0 })
            + (if decode(s).rx_closed { K_RX_CLOSED_FLAG as int } else { 0 })
            + decode(s).peekers,
        decode(s).peekers <= K_PEEKERS_NUM_MASK,
{
    lemma_mask_value();
    lemma_mask(s);
    let m = K_PEEKERS_NUM_MASK;
    let a: usize = if s & K_MUTEX_ACQ_FLAG == K_MUTEX_ACQ_FLAG { K_MUTEX_ACQ_FLAG } else { 0 };
    let v: usize = if s & K_DATA_VALID_FLAG == K_DATA_VALID_FLAG { K_DATA_VALID_FLAG } else { 0 };
    let e: usize = if s & K_TX_EXPIRE_FLAG == K_TX_EXPIRE_FLAG { K_TX_EXPIRE_FLAG } else { 0 };
    let t: usize = if s & K_TX_CLOSED_FLAG == K_TX_CLOSED_FLAG { K_TX_CLOSED_FLAG } else { 0 };
    let r: usize = if s & K_RX_CLOSED_FLAG == K_RX_CLOSED_FLAG { K_RX_CLOSED_FLAG } else { 0 };
    let n: usize = s & m;
    assert(s == a + v + e + t + r + n) by (bit_vector)
        requires
            m == !0usize >> 5,
            n == s & m,
            a == if s & K_MUTEX_ACQ_FLAG == K_MUTEX_ACQ_FLAG { K_MUTEX_ACQ_FLAG } else { 0 },
            v == if s & K_DATA_VALID_FLAG == K_DATA_VALID_FLAG { K_DATA_VALID_FLAG } else { 0 },
            e == if s & K_TX_EXPIRE_FLAG == K_TX_EXPIRE_FLAG { K_TX_EXPIRE_FLAG } else { 0 },
            t == if s & K_TX_CLOSED_FLAG == K_TX_CLOSED_FLAG { K_TX_CLOSED_FLAG } else { 0 },
            r == if s & K_RX_CLOSED_FLAG == K_RX_CLOSED_FLAG { K_RX_CLOSED_FLAG } else { 0 },
    ;
}

/// The flags of a fresh channel say that nothing has happened yet, and so does the zero word.
pub proof fn law_fresh_flags()
    ensures
        !FlagsView::initial().acquired,
        !FlagsView::initial().data_valid,
        !FlagsView::initial().tx_expire,
        !FlagsView::initial().tx_closed,
        !FlagsView::initial().rx_closed,
        FlagsView::initial().peekers == 0,
        decode(0) == FlagsView::initial(),
{
    lemma_zero();
}

/// What the flags answer. A message that is there can be received and seen, and one that is not
/// there only as long as the sending end is, whether one was ever sent or not. Sending needs that
/// nothing was sent, and that the receiver or a peeker is there. Having sent sets the two flags of
/// the message and no other.
pub proof fn law_flags_answer(f: FlagsView)
    ensures
        f.can_receive() <==> f.data_valid || !f.tx_closed,
        f.can_peek() <==> f.data_valid || !f.tx_closed,
        f.has_audience() <==> f.peekers > 0 || !f.rx_closed,
        f.data_valid || f.tx_expire ==> !f.can_send(),
        f.rx_closed && f.peekers == 0 ==> !f.can_send(),
        !f.data_valid && !f.tx_expire && !f.rx_closed ==> f.can_send(),
        !f.data_valid && !f.tx_expire && f.peekers > 0 ==> f.can_send(),
        f.after_sent().data_valid,
        f.after_sent().tx_expire,
        f.after_sent().acquired == f.acquired,
        f.after_sent().tx_closed == f.tx_closed,
        f.after_sent().rx_closed == f.rx_closed,
        f.after_sent().peekers == f.peekers,
{
}

/// The text of the flags names each of five things in its place, and nothing else.
pub proof fn law_flags_text(f: FlagsView)
    ensures
        f.text() == "Acq("@ + (if f.acquired { "true"@ } else { "false"@ }) + "), DataValid("@ + (
        if f.data_valid { "true"@ } else { "false"@ }) + "), TxClosed("@ + (if f.tx_closed {
            "true"@
        } else {
            "false"@
        }) + "), RxClosed("@ + (if f.rx_closed { "true"@ } else { "false"@ }) + "), PeekerNum("@
            + crate::text::decimal(f.peekers) + ")"@,
{
}

} // verus!
