//! A oneshot-broadcast channel: one value is sent once, and every clone of the channel reads it
//! by reference, without cloning it.

pub mod channel;
pub mod external;
pub mod opt_vec;
pub mod state;
pub mod value;

pub use channel::{AnyRecvFut, Closed, InnerChannel, InnerSubChannel, RecvFut};
pub use value::Value;

use vstd::prelude::*;
use std::sync::Arc;
use std::task::{Context, Poll};
use crate::external::arc_strong_count;
use crate::state::{close_answer, read_answer, send_answer, ChannelState};

verus! {

//-------------------------------------
// Channel
//-------------------------------------

/// A handle to a oneshot-broadcast channel; clones share the same channel.
#[verifier::reject_recursive_types(T)]
pub struct Channel<T> {
    inner: Arc<InnerChannel<T>>,
}

impl<T> Channel<T> {
    /// The shared state of the channel.
    pub closed spec fn shared(&self) -> InnerChannel<T> {
        *self.inner
    }

    pub fn new() -> Self {
        Channel { inner: Arc::new(InnerChannel::new()) }
    }

    /// Send a value into the channel.
    pub fn send(&self, value: T) -> (r: Result<(), T>)
        ensures
            exists|seen: ChannelState| #[trigger] send_answer(seen, value, r),
    {
        self.inner.send(value)
    }

    /// Get the value if it has been sent.
    pub fn get_value(&self) -> (r: Option<Result<&T, Closed>>)
        ensures
            exists|seen: ChannelState| #[trigger] read_answer(seen, r),
    {
        self.inner.get()
    }

    /// Try to convert the channel into a value.
    pub fn into_value(self) -> (r: Result<Value<T>, Self>)
        ensures
            r matches Ok(v) ==> v.source() == self,
            r matches Err(c) ==> c == self,
    {
        let found = if self.inner.contains_value() {
            self.inner.stored()
        } else {
            None
        };
        match found {
            Some(value) => Ok(Value::new(self, value)),
            None => Err(self),
        }
    }

    /// The number of references to the channel: at least this handle.
    pub fn ref_count(&self) -> (r: usize)
        ensures
            r >= 1,
    {
        arc_strong_count(&self.inner)
    }

    /// Closes the channel.
    pub fn close(&mut self) -> (r: bool)
        ensures
            exists|seen: ChannelState| #[trigger] close_answer(seen, r),
    {
        self.inner.close()
    }

    /// A future that resolves with a reference to the value.
    pub fn recv(&self) -> (r: RecvFut<'_, T>)
        ensures
            r.position() is None,
            *r.target() == self.shared(),
    {
        self.inner.recv()
    }

    /// A future that resolves with the value, owning this handle.
    pub fn into_recv(self) -> (r: IntoRecvFut<T>)
        ensures
            r.position() is None,
            r.pending_channel() == Some(self),
    {
        IntoRecvFut { channel: Some(self), pos: None }
    }

    /// The shared state, handed over.
    pub fn into_inner(self) -> (r: Arc<InnerChannel<T>>)
        ensures
            *r == self.shared(),
    {
        self.inner
    }

    /// A handle to the shared state `inner`.
    pub fn from_inner(inner: Arc<InnerChannel<T>>) -> (r: Self)
        ensures
            r.shared() == *inner,
    {
        Channel { inner }
    }
}

impl<T> Clone for Channel<T> {
    fn clone(&self) -> (r: Self)
        ensures
            r.shared() == self.shared(),
    {
        Channel { inner: self.inner.clone() }
    }
}

impl<T> Default for Channel<T> {
    fn default() -> Self {
        Self::new()
    }
}

//-------------------------------------
// IntoRecvFut
//-------------------------------------

/// A future that owns a handle to a channel and resolves with the value.
#[verifier::reject_recursive_types(T)]
pub struct IntoRecvFut<T> {
    channel: Option<Channel<T>>,
    pos: Option<usize>,
}

impl<T> IntoRecvFut<T> {
    /// The handle still held; none once the future has resolved with the value.
    pub closed spec fn pending_channel(&self) -> Option<Channel<T>> {
        self.channel
    }

    /// The slot of this receiver's waker.
    pub closed spec fn position(&self) -> Option<usize> {
        self.pos
    }

    /// Whether the future has already resolved with the value.
    pub fn is_terminated(&self) -> (r: bool)
        ensures
            r == (self.pending_channel() is None),
    {
        self.channel.is_none()
    }

    pub fn poll(&mut self, cx: &mut Context<'_>) -> (r: Poll<Result<Value<T>, Closed>>)
        requires
            old(self).pending_channel() is Some,
        ensures
            r matches Poll::Ready(Ok(v)) ==> v.source() == old(self).pending_channel()->0
                && final(self).pending_channel() is None,
            !(r matches Poll::Ready(Ok(_))) ==> final(self).pending_channel()
                == old(self).pending_channel(),
            r is Pending ==> final(self).position() is Some,
            r is Ready ==> final(self).position() == old(self).position(),
    {
        let channel = self.channel.as_ref().unwrap();
        match channel.inner.as_any().poll_with_pos(cx, &mut self.pos) {
            Poll::Pending => Poll::Pending,
            Poll::Ready(Err(closed)) => Poll::Ready(Err(closed)),
            Poll::Ready(Ok(())) => {
                // A value reported sent but not found in the cell is reported as not ready yet,
                // with this receiver's waker registered.
                match channel.inner.stored() {
                    Some(value) => {
                        let channel = self.channel.take().unwrap();
                        Poll::Ready(Ok(Value::new(channel, value)))
                    },
                    None => {
                        channel.inner.as_any().enlist(cx, &mut self.pos);
                        Poll::Pending
                    },
                }
            },
        }
    }

    /// Gives up waiting, freeing this receiver's slot and dropping the handle.
    pub fn release(&mut self)
        ensures
            final(self).pending_channel() is None,
            final(self).position() == old(self).position(),
    {
        if let Some(channel) = self.channel.take() {
            if let Some(pos) = self.pos {
                channel.inner.as_any().remove(pos);
            }
        }
    }
}

} // verus!
