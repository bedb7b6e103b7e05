# oneshot_broadcast

A oneshot-broadcast channel: a value is sent once, and every clone of the channel reads it by
reference, without cloning it. Receivers can wait for the value asynchronously; the channel can
also be closed before anything is sent.

The library is written in Verus and verified.

- `src/opt_vec.rs`: `OptVec`, a vector of optional slots that remembers an empty slot to reuse.
  Its operations have exact contracts, and the laws about slot reuse are proved there.
- `src/state.rs`: `ChannelCore`, the phase of a channel (open, sending, holding its value,
  closed) and the registry of the wakers of waiting receivers, with the laws of the channel:
  one outcome per channel and settled phases are final. That no waiting receiver is missed is
  proved of a sequence of these steps (registering, then sending or closing, then collecting the
  wakers); across threads it rests on each step running under the channel's lock, and the way
  the lock orders the steps of different threads is not itself checked.
- `src/channel.rs`: `InnerSubChannel` keeps a `ChannelCore` behind a lock whose invariant is
  the registry's well-formedness and that no send is left half done. The functions that take
  the lock state their answer of the phase they found there (`close_answer`, `send_answer`,
  ...), since other threads may change it at any time; `InnerChannel` adds the value, kept in a `OnceLock`. A send
  claims the channel, fills the cell and marks the value sent in one locked step
  (`ChannelCore::send_into`). Reads of the cell never block.
  `RecvFut` and `AnyRecvFut` poll them.
- `src/lib.rs`: `Channel`, the cloneable handle, and `IntoRecvFut`; `src/value.rs`: `Value`.
- `src/external.rs`: the std items that the library calls and Verus has no specification of
  (`OnceLock`, `Waker`, `Context`, `Arc::strong_count`), each with the little that can be
  claimed of it.
- `app/lib.rs`: `Future` and `IntoFuture` impls for the receivers, their drop hooks, and
  `AnyChannel`, the type-erased handle built on `owning_ref`.
