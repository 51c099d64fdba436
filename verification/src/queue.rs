use vstd::prelude::*;

verus! {

/// One wake slot that hangs in a wake queue.
pub struct Waiter<W> {
    /// Which slot it is.
    pub slot: u64,
    /// Whom to wake, if anybody.
    pub waker: Option<W>,
}

/// The slot `slot` hangs in the queue `s`.
pub open spec fn attached<W>(s: Seq<Waiter<W>>, slot: u64) -> bool {
    exists|i: int| 0 <= i < s.len() && (#[trigger] s[i]).slot == slot
}

/// The slot `slot` hangs in the queue `s` and holds a waker.
pub open spec fn registered<W>(s: Seq<Waiter<W>>, slot: u64) -> bool {
    exists|i: int| 0 <= i < s.len() && (#[trigger] s[i]).slot == slot && s[i].waker is Some
}

/// No slot hangs in the queue twice.
pub open spec fn distinct<W>(s: Seq<Waiter<W>>) -> bool {
    forall|i: int, j: int|
        0 <= i < j < s.len() ==> (#[trigger] s[i]).slot != (#[trigger] s[j]).slot
}

/// The queue `s` with `waker` in the slot `slot`: in its place, if it hangs there, else at the
/// tail.
pub open spec fn with_waker<W>(s: Seq<Waiter<W>>, slot: u64, waker: W) -> Seq<Waiter<W>> {
    let entry = Waiter { slot, waker: Some(waker) };
    if attached(s, slot) {
        s.map_values(|w: Waiter<W>| if w.slot == slot { entry } else { w })
    } else {
        s.push(entry)
    }
}

/// The queue `s` with the slot `slot` emptied, in its place.
pub open spec fn emptied<W>(s: Seq<Waiter<W>>, slot: u64) -> Seq<Waiter<W>> {
    s.map_values(|w: Waiter<W>| if w.slot == slot { Waiter { slot, waker: None } } else { w })
}

/// The queue `s` without the slot `slot`.
pub open spec fn without<W>(s: Seq<Waiter<W>>, slot: u64) -> Seq<Waiter<W>> {
    s.filter(|w: Waiter<W>| w.slot != slot)
}

/// The wakers in the queue, from head to tail.
pub open spec fn wakers_of<W>(s: Seq<Waiter<W>>) -> Seq<W>
    decreases s.len(),
{
    if s.len() == 0 {
        Seq::empty()
    } else {
        let init = wakers_of(s.drop_last());
        match s.last().waker {
            Some(w) => init.push(w),
            None => init,
        }
    }
}

/// A queue in which the slot does not hang is unchanged when it is taken out.
pub(crate) proof fn lemma_without_absent<W>(s: Seq<Waiter<W>>, slot: u64)
    requires
        !attached(s, slot),
    ensures
        without(s, slot) == s,
    decreases s.len(),
{
    reveal(Seq::filter);
    if s.len() > 0 {
        assert forall|i: int| 0 <= i < s.drop_last().len() implies (
        #[trigger] s.drop_last()[i]).slot != slot by {
            assert(s[i].slot != slot);
        }
        lemma_without_absent(s.drop_last(), slot);
        assert(s.last() == s[s.len() - 1]);
        assert(s.drop_last().push(s.last()) =~= s);
    }
}

/// Taking a slot out of a queue in which it hangs once is removing that entry.
pub(crate) proof fn lemma_without_present<W>(s: Seq<Waiter<W>>, slot: u64, i: int)
    requires
        distinct(s),
        0 <= i < s.len(),
        s[i].slot == slot,
    ensures
        without(s, slot) == s.remove(i),
    decreases s.len(),
{
    reveal(Seq::filter);
    let init = s.drop_last();
    assert forall|j: int| 0 <= j < init.len() implies #[trigger] init[j] == s[j] by {}
    if i == s.len() - 1 {
        assert(!attached(init, slot));
        lemma_without_absent(init, slot);
        assert(s.remove(i) =~= init);
    } else {
        assert(distinct(init));
        lemma_without_present(init, slot, i);
        assert(s.last() == s[s.len() - 1]);
        assert(s.remove(i) =~= init.remove(i).push(s.last()));
    }
}

/// What is left of a queue when a slot is taken out was there before, and is no entry of that
/// slot.
pub(crate) proof fn lemma_without_kept<W>(s: Seq<Waiter<W>>, slot: u64)
    ensures
        forall|i: int|
            0 <= i < without(s, slot).len() ==> s.contains(#[trigger] without(s, slot)[i])
                && without(s, slot)[i].slot != slot,
        without(s, slot).len() <= s.len(),
    decreases s.len(),
{
    reveal(Seq::filter);
    if s.len() > 0 {
        lemma_without_kept(s.drop_last(), slot);
        assert forall|i: int| 0 <= i < without(s, slot).len() implies s.contains(
            #[trigger] without(s, slot)[i],
        ) && without(s, slot)[i].slot != slot by {
            if i < without(s.drop_last(), slot).len() {
                let w = without(s.drop_last(), slot)[i];
                assert(s.drop_last().contains(w));
                let j = choose|j: int| 0 <= j < s.drop_last().len() && s.drop_last()[j] == w;
                assert(s[j] == w);
            } else {
                assert(s[s.len() - 1] == without(s, slot)[i]);
            }
        }
    }
}

/// The wakers of a queue that grew by one entry.
proof fn lemma_wakers_push<W>(s: Seq<Waiter<W>>, w: Waiter<W>)
    ensures
        wakers_of(s.push(w)) == match w.waker {
            Some(k) => wakers_of(s).push(k),
            None => wakers_of(s),
        },
{
    assert(s.push(w).drop_last() =~= s);
}

/// Those who wait for the channel to change, first come first.
pub struct WakeQueue<W> {
    waiters_: Vec<Waiter<W>>,
}

impl<W> View for WakeQueue<W> {
    type V = Seq<Waiter<W>>;

    closed spec fn view(&self) -> Seq<Waiter<W>> {
        self.waiters_@
    }
}

impl<W> WakeQueue<W> {
    /// No slot hangs in the queue twice.
    pub open spec fn wf(&self) -> bool {
        distinct(self@)
    }

    /// A queue in which nobody waits.
    pub fn new() -> (r: Self)
        ensures
            r.wf(),
            r@ == Seq::<Waiter<W>>::empty(),
    {
        WakeQueue { waiters_: Vec::new() }
    }

    /// Where the slot hangs, if it does.
    fn find(&self, slot: u64) -> (r: Option<usize>)
        ensures
            match r {
                Some(i) => i < self@.len() && self@[i as int].slot == slot,
                None => !attached(self@, slot),
            },
    {
        let mut i: usize = 0;
        while i < self.waiters_.len()
            invariant
                i <= self.waiters_.len(),
                forall|j: int| 0 <= j < i ==> (#[trigger] self.waiters_@[j]).slot != slot,
            decreases self.waiters_.len() - i,
        {
            if self.waiters_[i].slot == slot {
                return Some(i);
            }
            i += 1;
        }
        None
    }

    /// Tells whether the slot holds a waker.
    pub fn is_registered(&self, slot: u64) -> (r: bool)
        requires
            self.wf(),
        ensures
            r == registered(self@, slot),
    {
        match self.find(slot) {
            Some(i) => {
                let r: bool = self.waiters_[i].waker.is_some();
                assert(self@[i as int].slot == slot);
                r
            },
            None => false,
        }
    }

    /// Puts `waker` into the slot, which hangs at the tail if it hung nowhere.
    pub fn register(&mut self, slot: u64, waker: W)
        requires
            old(self).wf(),
        ensures
            final(self).wf(),
            final(self)@ == with_waker(old(self)@, slot, waker),
    {
        let entry = Waiter { slot, waker: Some(waker) };
        match self.find(slot) {
            Some(i) => {
                assert(self@[i as int].slot == slot);
                self.waiters_.set(i, entry);
            },
            None => {
                self.waiters_.push(entry);
            },
        }
        assert(self@ =~= with_waker(old(self)@, slot, waker));
    }

    /// Takes the waker out of the slot, which stays where it hangs.
    pub fn take(&mut self, slot: u64) -> (r: Option<W>)
        requires
            old(self).wf(),
        ensures
            final(self).wf(),
            final(self)@ == emptied(old(self)@, slot),
            r is Some <==> registered(old(self)@, slot),
            r matches Some(w) ==> old(self)@.contains(Waiter { slot, waker: Some(w) }),
    {
        match self.find(slot) {
            Some(i) => {
                let r: Option<W> = self.waiters_[i].waker.take();
                assert(old(self)@[i as int] == (Waiter { slot, waker: r }));
                assert(self@ =~= emptied(old(self)@, slot));
                r
            },
            None => {
                assert(self@ =~= emptied(old(self)@, slot));
                None
            },
        }
    }

    /// Takes the slot out of the queue.
    pub fn detach(&mut self, slot: u64)
        requires
            old(self).wf(),
        ensures
            final(self).wf(),
            final(self)@ == without(old(self)@, slot),
    {
        match self.find(slot) {
            Some(i) => {
                proof {
                    lemma_without_present(self@, slot, i as int);
                }
                self.waiters_.remove(i);
            },
            None => {
                proof {
                    lemma_without_absent(self@, slot);
                }
            },
        }
    }

    /// Empties the queue and hands out the wakers in it, from head to tail.
    pub fn clear(&mut self, woken: &mut Vec<W>)
        ensures
            final(self).wf(),
            final(self)@ == Seq::<Waiter<W>>::empty(),
            final(woken)@ == old(woken)@ + wakers_of(old(self)@),
    {
        let ghost all = self@;
        let mut i: usize = 0;
        assert(woken@ =~= old(woken)@ + wakers_of(all.take(0)));
        while i < self.waiters_.len()
            invariant
                i <= self.waiters_.len(),
                all == old(self)@,
                self.waiters_.len() == all.len(),
                forall|j: int| i <= j < all.len() ==> #[trigger] self.waiters_@[j] == all[j],
                woken@ == old(woken)@ + wakers_of(all.take(i as int)),
            decreases self.waiters_.len() - i,
        {
            proof {
                assert(all.take(i + 1) =~= all.take(i as int).push(all[i as int]));
                lemma_wakers_push(all.take(i as int), all[i as int]);
            }
            match self.waiters_[i].waker.take() {
                Some(w) => {
                    woken.push(w);
                },
                None => {},
            }
            assert(woken@ =~= old(woken)@ + wakers_of(all.take(i + 1)));
            i += 1;
        }
        assert(all.take(i as int) =~= all);
        self.waiters_.clear();
    }
}

/// A slot hangs in a queue if some entry is that slot, and is registered if some such entry holds a
/// waker.
pub proof fn law_attached<W>(s: Seq<Waiter<W>>, slot: u64)
    ensures
        attached(s, slot) <==> exists|i: int| 0 <= i < s.len() && (#[trigger] s[i]).slot == slot,
        registered(s, slot) <==> exists|i: int|
            0 <= i < s.len() && (#[trigger] s[i]).slot == slot && s[i].waker is Some,
        distinct(s) <==> forall|i: int, j: int|
            0 <= i < s.len() && 0 <= j < s.len() && (#[trigger] s[i]).slot == (
            #[trigger] s[j]).slot ==> i == j,
{
    if distinct(s) {
        assert forall|i: int, j: int|
            0 <= i < s.len() && 0 <= j < s.len() && (#[trigger] s[i]).slot == (
            #[trigger] s[j]).slot implies i == j by {
            if i < j {
                assert(s[i].slot != s[j].slot);
            } else if j < i {
                assert(s[j].slot != s[i].slot);
            }
        }
    }
}

/// A waker that is put into a slot that hangs nowhere comes last, and all others stay where they
/// are.
pub proof fn law_new_waiter_comes_last<W>(s: Seq<Waiter<W>>, slot: u64, waker: W)
    requires
        forall|i: int| 0 <= i < s.len() ==> (#[trigger] s[i]).slot != slot,
    ensures
        with_waker(s, slot, waker) == s.push(Waiter { slot, waker: Some(waker) }),
{
}

/// A waker that is put into a slot that hangs at `i` is put there, and nothing else changes.
pub proof fn law_waiter_keeps_its_place<W>(s: Seq<Waiter<W>>, i: int, waker: W)
    requires
        distinct(s),
        0 <= i < s.len(),
    ensures
        with_waker(s, s[i].slot, waker) == s.update(
            i,
            Waiter { slot: s[i].slot, waker: Some(waker) },
        ),
{
    let slot = s[i].slot;
    assert(attached(s, slot));
    assert(with_waker(s, slot, waker) =~= s.update(i, Waiter { slot, waker: Some(waker) }));
}

/// A slot that is emptied stays where it hangs, without a waker; one that hangs nowhere changes
/// nothing.
pub proof fn law_emptied<W>(s: Seq<Waiter<W>>, slot: u64, i: int)
    requires
        distinct(s),
    ensures
        0 <= i < s.len() && s[i].slot == slot ==> emptied(s, slot) == s.update(
            i,
            Waiter { slot, waker: None },
        ),
        (forall|j: int| 0 <= j < s.len() ==> (#[trigger] s[j]).slot != slot) ==> emptied(s, slot)
            == s,
{
    if 0 <= i < s.len() && s[i].slot == slot {
        assert(emptied(s, slot) =~= s.update(i, Waiter { slot, waker: None }));
    }
    if forall|j: int| 0 <= j < s.len() ==> (#[trigger] s[j]).slot != slot {
        assert(emptied(s, slot) =~= s);
    }
}

/// Taking a slot out of a queue takes the entry at which it hangs and leaves the others in their
/// order; one that hangs nowhere changes nothing.
pub proof fn law_without<W>(s: Seq<Waiter<W>>, slot: u64, i: int)
    requires
        distinct(s),
    ensures
        0 <= i < s.len() && s[i].slot == slot ==> without(s, slot) == s.remove(i),
        (forall|j: int| 0 <= j < s.len() ==> (#[trigger] s[j]).slot != slot) ==> without(s, slot)
            == s,
{
    if 0 <= i < s.len() && s[i].slot == slot {
        lemma_without_present(s, slot, i);
    }
    if forall|j: int| 0 <= j < s.len() ==> (#[trigger] s[j]).slot != slot {
        lemma_without_absent(s, slot);
    }
}

/// The wakers of a queue are those of its entries, in their order: an entry with a waker gives that
/// waker, one without gives none, and the wakers of a queue put behind another come behind those of
/// the other.
pub proof fn law_wakers_in_order<W>(s: Seq<Waiter<W>>, t: Seq<Waiter<W>>, slot: u64, waker: W)
    ensures
        wakers_of(Seq::<Waiter<W>>::empty()) == Seq::<W>::empty(),
        wakers_of(seq![Waiter { slot, waker: Some(waker) }]) == seq![waker],
        wakers_of(seq![Waiter::<W> { slot, waker: None }]) == Seq::<W>::empty(),
        wakers_of(s + t) == wakers_of(s) + wakers_of(t),
    decreases t.len(),
{
    let none = Seq::<Waiter<W>>::empty();
    assert(seq![Waiter { slot, waker: Some(waker) }] =~= none.push(
        Waiter { slot, waker: Some(waker) },
    ));
    lemma_wakers_push(none, Waiter { slot, waker: Some(waker) });
    assert(seq![Waiter::<W> { slot, waker: None }] =~= none.push(Waiter { slot, waker: None }));
    lemma_wakers_push(none, Waiter::<W> { slot, waker: None });
    if t.len() == 0 {
        assert(s + t =~= s);
        assert(wakers_of(s) + wakers_of(t) =~= wakers_of(s));
    } else {
        law_wakers_in_order(s, t.drop_last(), slot, waker);
        assert(s + t =~= (s + t.drop_last()).push(t.last()));
        lemma_wakers_push(s + t.drop_last(), t.last());
        assert(wakers_of(s + t) =~= wakers_of(s) + wakers_of(t));
    }
}

} // verus!
