use vstd::prelude::*;
use std::sync::Arc;
use std::sync::OnceLock;
use std::task::{Context, Poll, Waker};

verus! {

#[verifier::external_type_specification]
#[verifier::external_body]
#[verifier::reject_recursive_types(T)]
pub struct ExOnceLock<T>(OnceLock<T>);

#[verifier::external_type_specification]
#[verifier::external_body]
pub struct ExWaker(Waker);

#[verifier::external_type_specification]
#[verifier::external_body]
pub struct ExContext<'a>(Context<'a>);

#[verifier::external_type_specification]
#[verifier::reject_recursive_types(T)]
pub struct ExPoll<T>(Poll<T>);

/// `OnceLock::new`: an empty cell. Nothing is claimed of it, since Verus sees no contents.
#[verifier::external_body]
pub(crate) fn once_new<T>() -> OnceLock<T> {
    OnceLock::new()
}

/// `OnceLock::set`: fills the cell if it was empty; when it was already full, the value given
/// is handed back unchanged in `Err`. Which of the two happens depends on the other threads and
/// is not claimed.
#[verifier::external_body]
pub(crate) fn once_set<T>(cell: &OnceLock<T>, value: T) -> (r: Result<(), T>)
    ensures
        r matches Err(v) ==> v == value,
{
    cell.set(value)
}

/// `OnceLock::get`: the content, or `None` while the cell is empty. It does not block. Whether
/// the cell is filled depends on the other threads, so the result is not claimed.
#[verifier::external_body]
pub(crate) fn once_get<T>(cell: &OnceLock<T>) -> Option<&T> {
    cell.get()
}

/// `OnceLock::take`: empties the cell and returns what it held. What it held is not claimed.
#[verifier::external_body]
pub(crate) fn once_take<T>(cell: &mut OnceLock<T>) -> Option<T> {
    cell.take()
}

/// `Context::waker`: the waker of the task being polled. Nothing is claimed of it.
#[verifier::external_body]
pub(crate) fn context_waker<'a>(cx: &'a Context<'_>) -> &'a Waker {
    cx.waker()
}

/// `Waker::clone`: a new handle that wakes the same task. Verus sees a waker only as the task it
/// wakes, so the clone counts as the same waker.
#[verifier::external_body]
pub(crate) fn waker_clone(waker: &Waker) -> (r: Waker)
    ensures
        r == *waker,
{
    waker.clone()
}

/// `Waker::will_wake`: a best-effort test of whether two wakers wake the same task; the answer
/// is not claimed.
/// When it answers true, the two wakers wake the same task, and so count as the same waker; a
/// false answer is not claimed to mean they differ.
#[verifier::external_body]
pub(crate) fn waker_will_wake(waker: &Waker, other: &Waker) -> (r: bool)
    ensures
        r ==> *waker == *other,
{
    waker.will_wake(other)
}

/// Evidence that a waker was woken: only `waker_wake` makes one, and it records the waker.
pub struct Woken {
    waker: Ghost<Waker>,
}

impl Woken {
    /// The waker that was woken.
    pub closed spec fn waker(&self) -> Waker {
        self.waker@
    }
}

/// `Waker::wake`: wakes the task. It returns the evidence that this waker was woken; nothing
/// else is claimed.
#[verifier::external_body]
pub(crate) fn waker_wake(waker: Waker) -> (r: Woken)
    ensures
        r.waker() == waker,
{
    let woken = Woken { waker: Ghost(waker) };
    waker.wake();
    woken
}

/// `Arc::strong_count`: the number of strong handles to the allocation. It changes with other
/// threads, so only this is claimed: the handle passed in is one of them, so there is at least one.
#[verifier::external_body]
pub(crate) fn arc_strong_count<T>(arc: &Arc<T>) -> (r: usize)
    ensures
        r >= 1,
{
    Arc::strong_count(arc)
}

/// `Arc::into_inner`: the value, when the handle passed in is the only strong one, and `None`
/// otherwise. How many handles there are is not claimed; a value returned is the one the handle
/// pointed to.
#[verifier::external_body]
pub(crate) fn arc_into_inner<T>(arc: Arc<T>) -> (r: Option<T>)
    ensures
        r matches Some(v) ==> v == *arc,
{
    Arc::into_inner(arc)
}

} // verus!
