use vstd::prelude::*;
use vstd::rwlock::{RwLock, RwLockPredicate};
use std::sync::Arc;
use std::sync::OnceLock;
use std::task::{Context, Poll};
use crate::external::{arc_into_inner, context_waker, once_get, once_new};
use crate::state::{
    close_answer, is_resting, read_answer, send_answer, status_answer, take_answer, ChannelCore,
    ChannelState,
};

verus! {

/// The channel was closed before the message was sent.
#[derive(Clone, Copy, Debug, PartialEq, Eq, Structural)]
pub struct Closed;

/// The invariant of the lock that guards a channel's phase and wakers: the registry of wakers
/// stays well formed, and the lock is never left with a send half done.
pub struct CoreInv;

impl RwLockPredicate<ChannelCore> for CoreInv {
    open spec fn inv(self, core: ChannelCore) -> bool {
        core.wf() && is_resting(core.phase())
    }
}

/// The part of a channel that does not depend on the type of its value: its phase and the
/// wakers of the receivers waiting on it.
pub struct InnerSubChannel {
    core: RwLock<ChannelCore, CoreInv>,
}

impl InnerSubChannel {
    pub fn new() -> Self {
        InnerSubChannel { core: RwLock::new(ChannelCore::new(), Ghost(CoreInv)) }
    }

    /// Polls for the outcome of the channel. A receiver that has to wait gets a slot for its
    /// waker in `pos`, which it passes again on its next poll.
    pub fn poll_with_pos(&self, cx: &mut Context<'_>, pos: &mut Option<usize>) -> (r: Poll<
        Result<(), Closed>,
    >)
        ensures
            r is Pending ==> (*final(pos)) is Some,
            r is Ready ==> *final(pos) == *old(pos),
    {
        // Return if the value is ready
        if let Some(state) = self.get() {
            return Poll::Ready(state);
        }
        // Register our waker, unless the value became ready meanwhile.
        let waker = context_waker(&*cx);
        let (mut core, handle) = self.core.acquire_write();
        let r = core.register(pos, waker);
        handle.release_write(core);
        match r {
            Some(state) => Poll::Ready(state),
            None => Poll::Pending,
        }
    }

    /// Registers the waker of a receiver that holds the slot `pos`, whatever the phase.
    pub(crate) fn enlist(&self, cx: &mut Context<'_>, pos: &mut Option<usize>)
        ensures
            (*final(pos)) is Some,
    {
        let waker = context_waker(&*cx);
        let (mut core, handle) = self.core.acquire_write();
        core.enlist(pos, waker);
        handle.release_write(core);
    }

    /// Closes the channel and wakes the receivers. Returns true if the channel was open, false
    /// if it was already closed or a message was already sent. The answer is that of
    /// `ChannelCore::close` on the phase found under the lock, which other threads may change
    /// at any time, so it is stated of that phase.
    pub fn close(&self) -> (r: bool)
        ensures
            exists|seen: ChannelState| #[trigger] close_answer(seen, r),
    {
        let (mut core, handle) = self.core.acquire_write();
        let ghost seen = core.phase();
        // Close and wake every registered receiver, as one step under the lock.
        let (closed, _woken) = core.close_waking();
        handle.release_write(core);
        assert(close_answer(seen, closed));
        closed
    }

    /// Wakes every receiver that registered a waker, under the lock.
    pub fn wake_all(&self) {
        let (mut core, handle) = self.core.acquire_write();
        let _woken = core.wake_registered();
        handle.release_write(core);
    }

    /// Whether the channel holds a value, in the phase found under the lock.
    pub fn initialized(&self) -> (r: bool)
        ensures
            exists|seen: ChannelState| #[trigger] is_resting(seen) && r == (seen
                == ChannelState::Initialized),
    {
        let handle = self.core.acquire_read();
        let ghost seen = handle.view().phase();
        let r = handle.borrow().is_initialized();
        handle.release_read();
        assert(is_resting(seen) && r == (seen == ChannelState::Initialized));
        r
    }

    /// Frees the slot of a receiver that stops waiting.
    pub fn remove(&self, pos: usize) {
        let (mut core, handle) = self.core.acquire_write();
        core.unregister(pos);
        handle.release_write(core);
    }

    /// The outcome so far: `None` while nothing was sent, `Ok` once a value was sent, `Err` when
    /// the channel was closed first.
    pub fn get(&self) -> (r: Option<Result<(), Closed>>)
        ensures
            exists|seen: ChannelState| #[trigger] status_answer(seen, r),
    {
        let handle = self.core.acquire_read();
        let ghost seen = handle.view().phase();
        let r = handle.borrow().status();
        handle.release_read();
        assert(status_answer(seen, r));
        r
    }

    /// Sends `value` into `cell` under one hold of the lock (see `ChannelCore::send_into`).
    pub(crate) fn send_into<T>(&self, cell: &OnceLock<Arc<T>>, value: T) -> (r: Result<(), T>)
        ensures
            exists|seen: ChannelState| #[trigger] send_answer(seen, value, r),
    {
        let (mut core, handle) = self.core.acquire_write();
        let ghost seen = core.phase();
        let r = core.send_into(cell, value);
        handle.release_write(core);
        assert(send_answer(seen, value, r));
        r
    }

    /// Takes the value out of `cell` under one hold of the lock, opening the channel again (see
    /// `ChannelCore::take_from`).
    pub(crate) fn take_from<T>(&self, cell: &mut OnceLock<Arc<T>>) -> (r: Option<Arc<T>>)
        ensures
            exists|seen: ChannelState| #[trigger] take_answer(seen, r),
    {
        let (mut core, handle) = self.core.acquire_write();
        let ghost seen = core.phase();
        let r = core.take_from(cell);
        handle.release_write(core);
        assert(take_answer(seen, r));
        r
    }

    /// A future that resolves with the outcome of the channel.
    pub fn recv(&self) -> (r: AnyRecvFut<'_>)
        ensures
            r.position() is None,
            *r.target() == *self,
    {
        AnyRecvFut { pos: None, channel: self }
    }
}

/// A oneshot channel's shared state: the value, once sent, and its phase and receivers.
#[verifier::reject_recursive_types(T)]
pub struct InnerChannel<T> {
    value: OnceLock<Arc<T>>,
    any: InnerSubChannel,
}

impl<T> InnerChannel<T> {
    pub closed spec fn sub(&self) -> InnerSubChannel {
        self.any
    }

    /// Polls for the value. A receiver that has to wait gets a slot for its waker in `pos`.
    /// A value reported sent but not found in the cell is reported as not ready yet, with the
    /// receiver's waker registered.
    pub fn poll_with_pos(&self, cx: &mut Context<'_>, pos: &mut Option<usize>) -> (r: Poll<
        Result<&T, Closed>,
    >)
        ensures
            r is Pending ==> (*final(pos)) is Some,
            r is Ready ==> *final(pos) == *old(pos),
    {
        match self.as_any().poll_with_pos(cx, pos) {
            Poll::Pending => Poll::Pending,
            Poll::Ready(Err(closed)) => Poll::Ready(Err(closed)),
            Poll::Ready(Ok(())) => match self.get_unchecked() {
                Some(value) => Poll::Ready(Ok(value)),
                None => {
                    self.any.enlist(cx, pos);
                    Poll::Pending
                },
            },
        }
    }

    pub fn as_any(&self) -> (r: &InnerSubChannel)
        ensures
            *r == self.sub(),
    {
        &self.any
    }

    /// Creates a new channel.
    pub fn new() -> Self {
        InnerChannel { value: once_new(), any: InnerSubChannel::new() }
    }

    /// Closes the channel.
    ///
    /// Returns true if the channel was open, false if it was already closed or a message
    /// was already sent.
    pub fn close(&self) -> (r: bool)
        ensures
            exists|seen: ChannelState| #[trigger] close_answer(seen, r),
    {
        self.as_any().close()
    }

    /// Returns true if the channel contains a value `T`
    pub fn contains_value(&self) -> (r: bool)
        ensures
            exists|seen: ChannelState| #[trigger] is_resting(seen) && r == (seen
                == ChannelState::Initialized),
    {
        self.as_any().initialized()
    }

    /// Send a value to the channel, failing if the value has already been sent.
    pub fn send(&self, value: T) -> (r: Result<(), T>)
        ensures
            exists|seen: ChannelState| #[trigger] send_answer(seen, value, r),
    {
        let ghost given = value;
        // First we set the value, then we wake all the wakers.
        let set = self.set(value);
        let ghost seen = choose|s: ChannelState| send_answer(s, given, set);
        let r = match set {
            Ok(()) => {
                self.wake_all();
                Ok(())
            },
            Err(value) => Err(value),
        };
        assert(send_answer(seen, given, r));
        r
    }

    /// Wake all the listeners.
    fn wake_all(&self) {
        self.as_any().wake_all();
    }

    /// Sets a value, without waking the listeners. It only runs if the value hasn't been sent
    /// yet, and claims the channel, fills the cell and marks the value sent as one locked step.
    fn set(&self, value: T) -> (r: Result<(), T>)
        ensures
            exists|seen: ChannelState| #[trigger] send_answer(seen, value, r),
    {
        self.any.send_into(&self.value, value)
    }

    /// Takes out the value if it's initialized.
    ///
    /// This opens the channel again if successful.
    pub fn take(&mut self) -> (r: Option<T>)
        ensures
            exists|seen: ChannelState| #[trigger] take_answer(seen, r),
    {
        let taken = self.any.take_from(&mut self.value);
        let ghost seen = choose|s: ChannelState| take_answer(s, taken);
        let r = match taken {
            Some(shared) => arc_into_inner(shared),
            None => None,
        };
        assert(take_answer(seen, r));
        r
    }

    /// Get the value if it's ready.
    pub fn get(&self) -> (r: Option<Result<&T, Closed>>)
        ensures
            exists|seen: ChannelState| #[trigger] read_answer(seen, r),
    {
        let status = self.any.get();
        let ghost seen = choose|s: ChannelState| status_answer(s, status);
        let r = match status {
            Some(Ok(())) => match self.get_unchecked() {
                Some(value) => Some(Ok(value)),
                None => None,
            },
            Some(Err(closed)) => Some(Err(closed)),
            None => None,
        };
        assert(read_answer(seen, r));
        r
    }

    /// The value in the cell, without looking at the phase: `None` until it is sent. It does
    /// not block.
    pub fn get_unchecked(&self) -> Option<&T> {
        match once_get(&self.value) {
            Some(shared) => Some(&**shared),
            None => None,
        }
    }

    /// A handle to the value in the cell, `None` until it is sent.
    pub(crate) fn stored(&self) -> Option<Arc<T>> {
        match once_get(&self.value) {
            Some(shared) => Some(shared.clone()),
            None => None,
        }
    }

    /// A future that resolves with a reference to the value.
    pub fn recv(&self) -> (r: RecvFut<'_, T>)
        ensures
            r.position() is None,
            *r.target() == *self,
    {
        RecvFut { channel: self, pos: None }
    }
}

impl<T> Default for InnerChannel<T> {
    fn default() -> Self {
        Self::new()
    }
}

/// A future that resolves with a reference to the value of a channel.
#[verifier::reject_recursive_types(T)]
pub struct RecvFut<'a, T> {
    channel: &'a InnerChannel<T>,
    pos: Option<usize>,
}

impl<'a, T> RecvFut<'a, T> {
    /// The slot of this receiver's waker.
    pub closed spec fn position(&self) -> Option<usize> {
        self.pos
    }

    /// The channel awaited.
    pub closed spec fn target(&self) -> &'a InnerChannel<T> {
        self.channel
    }

    pub fn poll(&mut self, cx: &mut Context<'_>) -> (r: Poll<Result<&'a T, Closed>>)
        ensures
            final(self).target() == old(self).target(),
            r is Pending ==> final(self).position() is Some,
            r is Ready ==> final(self).position() == old(self).position(),
    {
        self.channel.poll_with_pos(cx, &mut self.pos)
    }
}

/// A future that resolves with the outcome of a channel, whatever the type of its value.
pub struct AnyRecvFut<'a> {
    pos: Option<usize>,
    channel: &'a InnerSubChannel,
}

impl<'a> AnyRecvFut<'a> {
    /// The slot of this receiver's waker.
    pub closed spec fn position(&self) -> Option<usize> {
        self.pos
    }

    /// The channel awaited.
    pub closed spec fn target(&self) -> &'a InnerSubChannel {
        self.channel
    }

    pub fn poll(&mut self, cx: &mut Context<'_>) -> (r: Poll<Result<(), Closed>>)
        ensures
            final(self).target() == old(self).target(),
            r is Pending ==> final(self).position() is Some,
            r is Ready ==> final(self).position() == old(self).position(),
    {
        self.channel.poll_with_pos(cx, &mut self.pos)
    }

    /// Gives up waiting, freeing this receiver's slot.
    pub fn release(&mut self)
        ensures
            final(self).target() == old(self).target(),
            final(self).position() is None,
    {
        if let Some(pos) = self.pos.take() {
            self.channel.remove(pos);
        }
    }
}

impl<'a> Clone for AnyRecvFut<'a> {
    fn clone(&self) -> (r: Self)
        ensures
            r.position() is None,
            r.target() == self.target(),
    {
        AnyRecvFut { pos: None, channel: self.channel }
    }
}

} // verus!
