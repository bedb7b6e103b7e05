use vstd::prelude::*;
use std::sync::Arc;
use std::sync::OnceLock;
use std::task::Waker;
use crate::channel::Closed;
use crate::external::{
    arc_into_inner, once_set, once_take, waker_clone, waker_wake, waker_will_wake, Woken,
};
use crate::opt_vec::{add_result, hint_after_remove, is_lowest_free, OptVec};

verus! {

/// The phase of a channel.
#[derive(Clone, Copy, Debug, PartialEq, Eq, Structural)]
pub enum ChannelState {
    /// Nothing was sent and the channel was not closed.
    Open,
    /// A value is being written.
    Sending,
    /// A value was sent and can be read.
    Initialized,
    /// The channel was closed before a value was sent.
    Closed,
}

/// What a receiver learns from a phase: nothing yet, the value is there, or the channel closed.
pub open spec fn status_of(state: ChannelState) -> Option<Result<(), Closed>> {
    match state {
        ChannelState::Open => None,
        ChannelState::Sending => None,
        ChannelState::Initialized => Some(Ok(())),
        ChannelState::Closed => Some(Err(Closed)),
    }
}

/// A settled phase: the channel holds its value or was closed. Only taking the value back out
/// (`reset`) leaves one.
pub open spec fn is_terminal(state: ChannelState) -> bool {
    state == ChannelState::Initialized || state == ChannelState::Closed
}

/// A phase a channel rests in between two holds of its lock: a send is claimed and finished
/// under one hold, so `Sending` is never seen from outside it.
pub open spec fn is_resting(state: ChannelState) -> bool {
    state != ChannelState::Sending
}

/// `r` is what closing answers on a channel seen resting in phase `seen`: true exactly when
/// the channel was open, that is, had no outcome yet.
pub open spec fn close_answer(seen: ChannelState, r: bool) -> bool {
    &&& is_resting(seen)
    &&& r == (seen == ChannelState::Open)
    &&& r == (status_of(seen) is None)
}

/// `r` is what sending `value` answers on a channel seen resting in phase `seen`: a channel
/// that was not open refuses and hands the value back, and any refusal hands it back.
pub open spec fn send_answer<T>(seen: ChannelState, value: T, r: Result<(), T>) -> bool {
    &&& is_resting(seen)
    &&& seen != ChannelState::Open ==> r == Err::<(), T>(value)
    &&& r matches Err(v) ==> v == value
}

/// `r` is what taking the value out answers on a channel seen resting in phase `seen`: nothing,
/// unless the channel held its value.
pub open spec fn take_answer<T>(seen: ChannelState, r: Option<T>) -> bool {
    &&& is_resting(seen)
    &&& seen != ChannelState::Initialized ==> r is None
}

/// `r` is the status of a channel seen resting in phase `seen`.
pub open spec fn status_answer(seen: ChannelState, r: Option<Result<(), Closed>>) -> bool {
    &&& is_resting(seen)
    &&& r == status_of(seen)
}

/// `r` is what reading the value answers on a channel seen resting in phase `seen`: nothing
/// while nothing was sent, `Closed` after a close, and a value (when the cell yields one) after
/// a send.
pub open spec fn read_answer<T>(seen: ChannelState, r: Option<Result<&T, Closed>>) -> bool {
    &&& is_resting(seen)
    &&& match status_of(seen) {
        None => r is None,
        Some(Err(closed)) => r == Some(Err::<&T, Closed>(closed)),
        Some(Ok(())) => r is None || r matches Some(Ok(_)),
    }
}

/// The phase after `begin_send`.
pub open spec fn after_begin_send(state: ChannelState) -> ChannelState {
    if state == ChannelState::Open {
        ChannelState::Sending
    } else {
        state
    }
}

/// The phase after `finish_send`.
pub open spec fn after_finish_send(state: ChannelState) -> ChannelState {
    if state == ChannelState::Sending {
        ChannelState::Initialized
    } else {
        state
    }
}

/// The phase after `close`.
pub open spec fn after_close(state: ChannelState) -> ChannelState {
    if state == ChannelState::Open {
        ChannelState::Closed
    } else {
        state
    }
}

/// The wakers held in `slots`, in slot order.
pub open spec fn registered<W>(slots: Seq<Option<W>>) -> Seq<W>
    decreases slots.len(),
{
    if slots.len() == 0 {
        Seq::empty()
    } else {
        let rest = registered(slots.drop_last());
        match slots.last() {
            Some(w) => rest.push(w),
            None => rest,
        }
    }
}

/// The wakers that a sequence of evidence says were woken, in order.
pub open spec fn woken_wakers(woken: Seq<Woken>) -> Seq<Waker> {
    woken.map_values(|w: Woken| w.waker())
}

/// Wakes every waker of `wakers`, in order, and returns the evidence of each wake.
pub fn wake_each(wakers: Vec<Waker>) -> (r: Vec<Woken>)
    ensures
        woken_wakers(r@) == wakers@,
{
    let ghost all = wakers@;
    let mut woken: Vec<Woken> = Vec::new();
    for waker in it: wakers
        invariant
            it.seq() == all,
            woken@.len() == it.index(),
            forall|j: int| 0 <= j < woken@.len() ==> #[trigger] woken@[j].waker() == all[j],
    {
        woken.push(waker_wake(waker));
    }
    assert(woken_wakers(woken@) =~= all);
    woken
}

/// `n` empty slots.
pub open spec fn empty_slots<W>(n: nat) -> Seq<Option<W>> {
    Seq::new(n, |i: int| None::<W>)
}

/// What registering a receiver that held `pos_before` did to the wakers: its slot now holds a
/// waker, at the same position when that position existed, in the slot `add` picks otherwise, and
/// no other slot changed.
pub open spec fn registered_at<W>(
    before: OptVec<W>,
    pos_before: Option<usize>,
    after: OptVec<W>,
    pos_after: Option<usize>,
) -> bool {
    match pos_after {
        None => false,
        Some(q) => {
            &&& q < after@.len()
            &&& after@[q as int] is Some
            &&& if pos_before is Some && pos_before->0 < before@.len() {
                &&& q == pos_before->0
                &&& after@ == before@.update(q as int, after@[q as int])
                &&& before@[q as int] is Some ==> after.free_hint() == before.free_hint()
                &&& before@[q as int] is None && before.free_hint() == Some(q) ==> is_lowest_free(
                    after@,
                    after.free_hint(),
                )
                &&& before@[q as int] is None && before.free_hint() != Some(q) ==> after.free_hint()
                    == before.free_hint()
            } else {
                &&& add_result(before@, before.free_hint(), after@[q as int]->0, q, after@)
                &&& before.free_hint() is Some ==> is_lowest_free(after@, after.free_hint())
                &&& before.free_hint() is None ==> after.free_hint() is None
            }
        },
    }
}

/// The phase of a channel together with the wakers of the receivers waiting on it.
pub struct ChannelCore {
    state: ChannelState,
    wakers: OptVec<Waker>,
}

impl ChannelCore {
    pub closed spec fn phase(&self) -> ChannelState {
        self.state
    }

    pub closed spec fn waiters(&self) -> OptVec<Waker> {
        self.wakers
    }

    pub open spec fn wf(&self) -> bool {
        self.waiters().wf()
    }

    pub fn new() -> (r: Self)
        ensures
            r.phase() == ChannelState::Open,
            r.waiters()@ == Seq::<Option<Waker>>::empty(),
            r.waiters().free_hint() is None,
            r.wf(),
    {
        ChannelCore { state: ChannelState::Open, wakers: OptVec::new() }
    }

    pub fn state(&self) -> (r: ChannelState)
        ensures
            r == self.phase(),
    {
        self.state
    }

    pub fn wakers(&self) -> (r: &OptVec<Waker>)
        ensures
            *r == self.waiters(),
    {
        &self.wakers
    }

    /// What a receiver learns now.
    pub fn status(&self) -> (r: Option<Result<(), Closed>>)
        ensures
            r == status_of(self.phase()),
    {
        match self.state {
            ChannelState::Open => None,
            ChannelState::Sending => None,
            ChannelState::Initialized => Some(Ok(())),
            ChannelState::Closed => Some(Err(Closed)),
        }
    }

    pub fn is_initialized(&self) -> (r: bool)
        ensures
            r == (self.phase() == ChannelState::Initialized),
    {
        match self.state {
            ChannelState::Initialized => true,
            _ => false,
        }
    }

    /// Claims the channel for a sender: succeeds only on an open channel.
    pub fn begin_send(&mut self) -> (r: bool)
        ensures
            r == (old(self).phase() == ChannelState::Open),
            final(self).phase() == after_begin_send(old(self).phase()),
            final(self).waiters() == old(self).waiters(),
    {
        match self.state {
            ChannelState::Open => {
                self.state = ChannelState::Sending;
                true
            },
            _ => false,
        }
    }

    /// Marks the value written: a channel being sent to now holds its value.
    pub fn finish_send(&mut self) -> (r: bool)
        ensures
            r == (old(self).phase() == ChannelState::Sending),
            final(self).phase() == after_finish_send(old(self).phase()),
            final(self).waiters() == old(self).waiters(),
    {
        match self.state {
            ChannelState::Sending => {
                self.state = ChannelState::Initialized;
                true
            },
            _ => false,
        }
    }

    /// Gives up a claimed send, opening the channel again.
    pub fn abort_send(&mut self) -> (r: bool)
        ensures
            r == (old(self).phase() == ChannelState::Sending),
            final(self).phase() == (if r { ChannelState::Open } else { old(self).phase() }),
            final(self).waiters() == old(self).waiters(),
    {
        match self.state {
            ChannelState::Sending => {
                self.state = ChannelState::Open;
                true
            },
            _ => false,
        }
    }

    /// Closes the channel: succeeds only on an open channel.
    pub fn close(&mut self) -> (r: bool)
        ensures
            r == (old(self).phase() == ChannelState::Open),
            final(self).phase() == after_close(old(self).phase()),
            final(self).waiters() == old(self).waiters(),
    {
        match self.state {
            ChannelState::Open => {
                self.state = ChannelState::Closed;
                true
            },
            _ => false,
        }
    }

    /// Sends `value` into `cell` as one step: on an open channel the value goes into the cell and
    /// the channel holds it; on any other channel the value is handed back and nothing changes.
    /// Whether the cell takes the value rests on `OnceLock::set`. When it does not, the value is
    /// handed back and the channel is open again. (The cell is filled only here, after a claim,
    /// so under the lock it is empty and the step succeeds; should the handle made for the cell
    /// not come back unshared, the cell holds a value and the channel is marked as holding it.)
    pub fn send_into<T>(&mut self, cell: &OnceLock<Arc<T>>, value: T) -> (r: Result<(), T>)
        ensures
            final(self).waiters() == old(self).waiters(),
            old(self).phase() != ChannelState::Open ==> r == Err::<(), T>(value)
                && final(self).phase() == old(self).phase(),
            old(self).phase() == ChannelState::Open && r is Ok ==> final(self).phase()
                == ChannelState::Initialized,
            old(self).phase() == ChannelState::Open && r is Err ==> r == Err::<(), T>(value)
                && final(self).phase() == ChannelState::Open,
    {
        if !self.begin_send() {
            return Err(value);
        }
        match once_set(cell, Arc::new(value)) {
            Ok(()) => {
                self.finish_send();
                Ok(())
            },
            Err(shared) => match arc_into_inner(shared) {
                Some(value) => {
                    self.abort_send();
                    Err(value)
                },
                None => {
                    self.finish_send();
                    Ok(())
                },
            },
        }
    }

    /// Takes the value out of `cell` as one step, when the channel holds it, and opens the
    /// channel again; on any other channel nothing changes.
    pub fn take_from<T>(&mut self, cell: &mut OnceLock<Arc<T>>) -> (r: Option<Arc<T>>)
        ensures
            final(self).waiters() == old(self).waiters(),
            old(self).phase() == ChannelState::Initialized ==> final(self).phase()
                == ChannelState::Open,
            old(self).phase() != ChannelState::Initialized ==> r is None && final(self).phase()
                == old(self).phase(),
    {
        if self.is_initialized() {
            let value = once_take(cell);
            self.reset();
            value
        } else {
            None
        }
    }

    /// Opens the channel again once its value has been taken out.
    pub fn reset(&mut self) -> (r: bool)
        ensures
            r == (old(self).phase() == ChannelState::Initialized),
            final(self).phase() == (if r { ChannelState::Open } else { old(self).phase() }),
            final(self).waiters() == old(self).waiters(),
    {
        match self.state {
            ChannelState::Initialized => {
                self.state = ChannelState::Open;
                true
            },
            _ => false,
        }
    }
}

impl ChannelCore {
    /// Registers the waker of a receiver that holds the slot `pos` (none yet when `None`), unless
    /// the channel has already settled, in which case the status is returned and nothing changes.
    pub fn register(&mut self, pos: &mut Option<usize>, waker: &Waker) -> (r: Option<
        Result<(), Closed>,
    >)
        requires
            old(self).wf(),
        ensures
            final(self).wf(),
            r == status_of(old(self).phase()),
            final(self).phase() == old(self).phase(),
            r is Some ==> final(self).waiters() == old(self).waiters() && *final(pos) == *old(pos),
            r is None ==> registered_at(old(self).waiters(), *old(pos), final(self).waiters(), *final(pos)),
            r is None ==> final(self).waiters()@[(*final(pos))->0 as int] == Some(*waker),
    {
        let st = self.status();
        if st.is_some() {
            return st;
        }
        self.enlist(pos, waker);
        None
    }

    /// Registers the waker of a receiver that holds the slot `pos` (none yet when `None`),
    /// whatever the phase.
    pub fn enlist(&mut self, pos: &mut Option<usize>, waker: &Waker)
        requires
            old(self).wf(),
        ensures
            final(self).wf(),
            final(self).phase() == old(self).phase(),
            registered_at(old(self).waiters(), *old(pos), final(self).waiters(), *final(pos)),
            final(self).waiters()@[(*final(pos))->0 as int] == Some(*waker),
    {
        let existing: Option<usize> = match *pos {
            Some(p) => if p < self.wakers.slots().len() {
                Some(p)
            } else {
                None
            },
            None => None,
        };
        match existing {
            Some(p) => {
                let occupied = self.wakers.slots()[p].is_some();
                if occupied {
                    let slot = self.wakers.get_mut(p);
                    match slot {
                        Some(s) => {
                            let keep = match s.as_ref() {
                                Some(w) => waker_will_wake(w, waker),
                                None => false,
                            };
                            if !keep {
                                *s = Some(waker_clone(waker));
                            }
                        },
                        None => {},
                    }
                } else {
                    self.wakers.insert(p, waker_clone(waker));
                }
            },
            None => {
                let q = self.wakers.add(waker_clone(waker));
                *pos = Some(q);
            },
        }
    }

    /// Takes every registered waker out of its slot, in slot order.
    pub fn take_wakers(&mut self) -> (r: Vec<Waker>)
        requires
            old(self).wf(),
        ensures
            final(self).wf(),
            r@ == registered(old(self).waiters()@),
            final(self).waiters()@ == empty_slots::<Waker>(old(self).waiters()@.len()),
            final(self).waiters().free_hint() == old(self).waiters().free_hint(),
            final(self).phase() == old(self).phase(),
    {
        let ghost before = self.wakers@;
        let n = self.wakers.slots().len();
        let mut taken: Vec<Waker> = Vec::new();
        let mut pos: usize = 0;
        while pos < n
            invariant
                n == before.len(),
                pos <= n,
                self.wakers@ == empty_slots::<Waker>(pos as nat) + before.skip(pos as int),
                taken@ == registered(before.take(pos as int)),
                self.wakers.free_hint() == old(self).wakers.free_hint(),
                self.state == old(self).state,
                old(self).wf(),
                old(self).wakers@ == before,
            decreases n - pos,
        {
            proof {
                assert(before.take(pos + 1).drop_last() =~= before.take(pos as int));
                assert(before.take(pos + 1).last() == before[pos as int]);
            }
            let slot = self.wakers.get_mut(pos);
            match slot {
                Some(s) => {
                    match s.take() {
                        Some(w) => taken.push(w),
                        None => {},
                    }
                },
                None => {},
            }
            proof {
                assert(self.wakers@ =~= empty_slots::<Waker>((pos + 1) as nat) + before.skip(pos + 1));
            }
            pos = pos + 1;
        }
        proof {
            assert(before.take(n as int) =~= before);
            assert(self.wakers@ =~= empty_slots::<Waker>(n as nat));
        }
        taken
    }

    /// Takes every registered waker out of its slot and wakes it, in slot order, returning the
    /// evidence of each wake.
    pub fn wake_registered(&mut self) -> (r: Vec<Woken>)
        requires
            old(self).wf(),
        ensures
            final(self).wf(),
            woken_wakers(r@) == registered(old(self).waiters()@),
            forall|p: int|
                0 <= p < old(self).waiters()@.len() && (#[trigger] old(self).waiters()@[p]) is Some
                    ==> woken_wakers(r@).contains(old(self).waiters()@[p]->0),
            final(self).waiters()@ == empty_slots::<Waker>(old(self).waiters()@.len()),
            final(self).waiters().free_hint() == old(self).waiters().free_hint(),
            final(self).phase() == old(self).phase(),
    {
        let wakers = self.take_wakers();
        let woken = wake_each(wakers);
        proof {
            lemma_every_slot_waker_woken(old(self).waiters()@, woken@);
        }
        woken
    }

    /// Closes the channel and, when that succeeds, wakes every registered receiver, as one step.
    pub fn close_waking(&mut self) -> (r: (bool, Vec<Woken>))
        requires
            old(self).wf(),
        ensures
            final(self).wf(),
            r.0 == (old(self).phase() == ChannelState::Open),
            final(self).phase() == after_close(old(self).phase()),
            r.0 ==> woken_wakers(r.1@) == registered(old(self).waiters()@),
            r.0 ==> forall|p: int|
                0 <= p < old(self).waiters()@.len() && (#[trigger] old(self).waiters()@[p]) is Some
                    ==> woken_wakers(r.1@).contains(old(self).waiters()@[p]->0),
            r.0 ==> final(self).waiters()@ == empty_slots::<Waker>(old(self).waiters()@.len()),
            r.0 ==> final(self).waiters().free_hint() == old(self).waiters().free_hint(),
            !r.0 ==> r.1@.len() == 0 && final(self).waiters() == old(self).waiters(),
    {
        if self.close() {
            let woken = self.wake_registered();
            (true, woken)
        } else {
            (false, Vec::new())
        }
    }

    /// Frees the slot of a receiver that stops waiting, unless the value was already sent.
    pub fn unregister(&mut self, pos: usize)
        requires
            old(self).wf(),
        ensures
            final(self).wf(),
            final(self).phase() == old(self).phase(),
            old(self).phase() == ChannelState::Initialized ==> final(self).waiters() == old(
                self,
            ).waiters(),
            old(self).phase() != ChannelState::Initialized ==> {
                &&& final(self).waiters()@ == (if pos < old(self).waiters()@.len() {
                    old(self).waiters()@.update(pos as int, None)
                } else {
                    old(self).waiters()@
                })
                &&& final(self).waiters().free_hint() == hint_after_remove(
                    old(self).waiters().free_hint(),
                    pos,
                    old(self).waiters()@.len(),
                )
            },
    {
        if !self.is_initialized() {
            let _ = self.wakers.remove(pos);
        }
    }
}

/// A slot that holds a waker has that waker among the registered ones.
proof fn lemma_slot_is_registered<W>(slots: Seq<Option<W>>, p: int)
    requires
        0 <= p < slots.len(),
        slots[p] is Some,
    ensures
        registered(slots).contains(slots[p]->0),
    decreases slots.len(),
{
    let rest = slots.drop_last();
    if p == slots.len() - 1 {
        let r = registered(rest).push(slots[p]->0);
        assert(r[r.len() - 1] == slots[p]->0);
    } else {
        lemma_slot_is_registered(rest, p);
        let w = slots[p]->0;
        let i = choose|i: int| 0 <= i < registered(rest).len() && registered(rest)[i] == w;
        match slots.last() {
            Some(x) => {
                assert(registered(slots)[i] == w);
            },
            None => {},
        }
    }
}

/// Every waker of `registered(slots)` comes from a slot of `slots`.
proof fn lemma_registered_from_slot<W>(slots: Seq<Option<W>>, i: int)
    requires
        0 <= i < registered(slots).len(),
    ensures
        exists|p: int| 0 <= p < slots.len() && slots[p] == Some(registered(slots)[i]),
    decreases slots.len(),
{
    let rest = slots.drop_last();
    let last = slots.len() - 1;
    match slots.last() {
        Some(w) => {
            if i == registered(rest).len() {
                assert(slots[last] == Some(registered(slots)[i]));
            } else {
                lemma_registered_from_slot(rest, i);
                let p = choose|p: int| 0 <= p < rest.len() && rest[p] == Some(registered(rest)[i]);
                assert(slots[p] == Some(registered(slots)[i]));
            }
        },
        None => {
            lemma_registered_from_slot(rest, i);
            let p = choose|p: int| 0 <= p < rest.len() && rest[p] == Some(registered(rest)[i]);
            assert(slots[p] == Some(registered(slots)[i]));
        },
    }
}

/// When the woken wakers are the registered ones, the waker of every slot is among them.
proof fn lemma_every_slot_waker_woken(slots: Seq<Option<Waker>>, woken: Seq<Woken>)
    requires
        woken_wakers(woken) == registered(slots),
    ensures
        forall|p: int|
            0 <= p < slots.len() && (#[trigger] slots[p]) is Some ==> woken_wakers(woken).contains(
                slots[p]->0,
            ),
{
    assert forall|p: int| 0 <= p < slots.len() && (#[trigger] slots[p]) is Some implies woken_wakers(
        woken,
    ).contains(slots[p]->0) by {
        lemma_slot_is_registered(slots, p);
    }
}

/// Waking wakes exactly the registered receivers: the waker of every occupied slot, wherever it
/// lies, even past empty slots, is woken, and every waker woken is that of some slot.
pub proof fn law_wake_reaches_every_slot(slots: Seq<Option<Waker>>, woken: Seq<Woken>)
    requires
        woken_wakers(woken) == registered(slots),
    ensures
        forall|p: int|
            0 <= p < slots.len() && (#[trigger] slots[p]) is Some ==> exists|i: int|
                0 <= i < woken.len() && woken[i].waker() == slots[p]->0,
        forall|i: int|
            0 <= i < woken.len() ==> exists|p: int|
                0 <= p < slots.len() && slots[p] == Some(#[trigger] woken[i].waker()),
{
    lemma_every_slot_waker_woken(slots, woken);
    assert forall|p: int| 0 <= p < slots.len() && (#[trigger] slots[p]) is Some implies exists|i: int|
        0 <= i < woken.len() && woken[i].waker() == slots[p]->0 by {
        let i = choose|i: int| 0 <= i < woken_wakers(woken).len() && woken_wakers(woken)[i] == slots[p]->0;
        assert(woken[i].waker() == woken_wakers(woken)[i]);
    }
    assert forall|i: int| 0 <= i < woken.len() implies exists|p: int|
        0 <= p < slots.len() && slots[p] == Some(#[trigger] woken[i].waker()) by {
        assert(woken_wakers(woken)[i] == woken[i].waker());
        lemma_registered_from_slot(slots, i);
    }
}

/// A receiver that registered with waker `waker` and was told to wait is woken by the next
/// successful send or close: the wakers woken then include `waker`.
pub proof fn law_waiting_receiver_is_woken(
    before: OptVec<Waker>,
    pos_before: Option<usize>,
    waker: Waker,
    after: OptVec<Waker>,
    pos_after: Option<usize>,
    woken: Seq<Woken>,
)
    requires
        registered_at(before, pos_before, after, pos_after),
        after@[pos_after->0 as int] == Some(waker),
        woken_wakers(woken) == registered(after@),
    ensures
        exists|i: int| 0 <= i < woken.len() && woken[i].waker() == waker,
{
    law_wake_reaches_every_slot(after@, woken);
    assert(after@[pos_after->0 as int] is Some);
}

/// Settled phases are final: from a channel that holds its value or was closed, sending,
/// finishing a send and closing change nothing and fail, and receivers learn the outcome at once.
pub proof fn law_settled_is_final(state: ChannelState)
    requires
        is_terminal(state),
    ensures
        after_begin_send(state) == state,
        after_finish_send(state) == state,
        after_close(state) == state,
        state != ChannelState::Open,
        state != ChannelState::Sending,
        status_of(state) is Some,
{
}

/// A channel delivers at most once: on an open channel a send and a close cannot both succeed,
/// and a second send fails, whichever came first.
pub proof fn law_one_outcome(state: ChannelState)
    requires
        state == ChannelState::Open,
    ensures
        after_begin_send(state) != ChannelState::Open,
        after_begin_send(after_begin_send(state)) == after_begin_send(state),
        after_close(after_begin_send(state)) == after_begin_send(state),
        after_begin_send(after_close(state)) == after_close(state),
        after_close(after_close(state)) == after_close(state),
        after_begin_send(after_finish_send(after_begin_send(state))) == ChannelState::Initialized,
        after_close(after_finish_send(after_begin_send(state))) == ChannelState::Initialized,
{
}

/// What receivers learn: nothing while a send is pending, the value once it is written, and
/// `Closed` once the channel was closed before a send.
pub proof fn law_outcome_seen(state: ChannelState)
    requires
        state == ChannelState::Open,
    ensures
        status_of(state) is None,
        status_of(after_begin_send(state)) is None,
        status_of(after_finish_send(after_begin_send(state))) == Some(Ok::<(), Closed>(())),
        status_of(after_close(state)) == Some(Err::<(), Closed>(Closed)),
{
}

/// On a channel at rest, having no outcome yet is being open: so a close succeeds, and a send
/// is not refused for the phase, exactly when the channel had no outcome yet.
pub proof fn law_no_outcome_is_open(seen: ChannelState)
    requires
        is_resting(seen),
    ensures
        (status_of(seen) is None) == (seen == ChannelState::Open),
        close_answer(seen, status_of(seen) is None),
{
}

/// No waiting receiver is missed: a receiver told to wait holds a waker in its slot, and
/// collecting the registered wakers, as sending and closing do before waking them, hands that
/// waker out.
pub proof fn law_waiting_receiver_is_collected<W>(
    before: OptVec<W>,
    pos_before: Option<usize>,
    after: OptVec<W>,
    pos_after: Option<usize>,
)
    requires
        registered_at(before, pos_before, after, pos_after),
    ensures
        pos_after is Some,
        registered(after@).contains(after@[pos_after->0 as int]->0),
{
    lemma_slot_is_registered(after@, pos_after->0 as int);
}

} // verus!
