use vstd::prelude::*;
use vstd::std_specs::cmp::{PartialEqSpec, PartialOrdSpec};
use std::ops::Deref;
use std::sync::Arc;
use crate::Channel;

verus! {

/// A channel known to hold its value, together with a handle to that value, which it hands out
/// by reference.
#[verifier::reject_recursive_types(T)]
pub struct Value<T> {
    channel: Channel<T>,
    value: Arc<T>,
}

impl<T> Value<T> {
    /// The channel that holds the value.
    pub closed spec fn source(&self) -> Channel<T> {
        self.channel
    }

    /// The value.
    pub closed spec fn content(&self) -> T {
        *self.value
    }

    /// Only constructed with the value that `channel` holds.
    pub(crate) fn new(channel: Channel<T>, value: Arc<T>) -> (r: Self)
        ensures
            r.source() == channel,
            r.content() == *value,
    {
        Value { channel, value }
    }

    pub fn channel(&self) -> (r: &Channel<T>)
        ensures
            *r == self.source(),
    {
        &self.channel
    }

    pub fn get(&self) -> (r: &T)
        ensures
            *r == self.content(),
    {
        &*self.value
    }
}

impl<T> Clone for Value<T> {
    fn clone(&self) -> (r: Self)
        ensures
            r.source().shared() == self.source().shared(),
            r.content() == self.content(),
    {
        Value { channel: self.channel.clone(), value: self.value.clone() }
    }
}

impl<T> Deref for Value<T> {
    type Target = T;

    fn deref(&self) -> (r: &T)
        ensures
            *r == self.content(),
    {
        self.get()
    }
}

/// Values compare by their contents, with `T`'s own comparison.
impl<T: PartialEq> PartialEq for Value<T> {
    fn eq(&self, other: &Self) -> (r: bool)
        ensures
            T::obeys_eq_spec() ==> r == self.content().eq_spec(&other.content()),
    {
        *self.get() == *other.get()
    }
}

impl<T: PartialEq> vstd::std_specs::cmp::PartialEqSpecImpl for Value<T> {
    open spec fn obeys_eq_spec() -> bool {
        <T as PartialEqSpec>::obeys_eq_spec()
    }

    open spec fn eq_spec(&self, other: &Self) -> bool {
        self.content().eq_spec(&other.content())
    }
}

impl<T: PartialEq> PartialEq<T> for Value<T> {
    fn eq(&self, other: &T) -> (r: bool)
        ensures
            T::obeys_eq_spec() ==> r == self.content().eq_spec(other),
    {
        *self.get() == *other
    }
}

impl<T: PartialEq> vstd::std_specs::cmp::PartialEqSpecImpl<T> for Value<T> {
    open spec fn obeys_eq_spec() -> bool {
        <T as PartialEqSpec>::obeys_eq_spec()
    }

    open spec fn eq_spec(&self, other: &T) -> bool {
        self.content().eq_spec(other)
    }
}

impl<T: Eq> Eq for Value<T> {
}

impl<T: PartialOrd> PartialOrd for Value<T> {
    fn partial_cmp(&self, other: &Self) -> (r: Option<std::cmp::Ordering>)
        ensures
            T::obeys_partial_cmp_spec() ==> r == self.content().partial_cmp_spec(&other.content()),
    {
        (*self.get()).partial_cmp(other.get())
    }
}

impl<T: PartialOrd> vstd::std_specs::cmp::PartialOrdSpecImpl for Value<T> {
    open spec fn obeys_partial_cmp_spec() -> bool {
        T::obeys_partial_cmp_spec()
    }

    open spec fn partial_cmp_spec(&self, other: &Self) -> Option<std::cmp::Ordering> {
        self.content().partial_cmp_spec(&other.content())
    }
}

impl<T: PartialOrd> PartialOrd<T> for Value<T> {
    fn partial_cmp(&self, other: &T) -> (r: Option<std::cmp::Ordering>)
        ensures
            T::obeys_partial_cmp_spec() ==> r == self.content().partial_cmp_spec(other),
    {
        (*self.get()).partial_cmp(other)
    }
}

impl<T: PartialOrd> vstd::std_specs::cmp::PartialOrdSpecImpl<T> for Value<T> {
    open spec fn obeys_partial_cmp_spec() -> bool {
        T::obeys_partial_cmp_spec()
    }

    open spec fn partial_cmp_spec(&self, other: &T) -> Option<std::cmp::Ordering> {
        self.content().partial_cmp_spec(other)
    }
}

/// Values are equal as their contents are: comparing two values, or a value with a `T`, for
/// equality answers what comparing the contents with `T`'s own `==` answers, and obeys a spec
/// exactly when `T`'s `==` does.
pub proof fn law_values_equal_as_contents<T: PartialEq>(x: Value<T>, y: Value<T>, z: T)
    ensures
        <Value<T> as PartialEqSpec<Value<T>>>::obeys_eq_spec() == T::obeys_eq_spec(),
        <Value<T> as PartialEqSpec<T>>::obeys_eq_spec() == T::obeys_eq_spec(),
        x.eq_spec(&y) == x.content().eq_spec(&y.content()),
        x.eq_spec(&z) == x.content().eq_spec(&z),
{
}

/// Values are ordered as their contents are: comparing two values, or a value with a `T`,
/// answers what comparing the contents with `T`'s own order answers, in the same direction.
pub proof fn law_values_order_as_contents<T: PartialOrd>(x: Value<T>, y: Value<T>, z: T)
    ensures
        x.partial_cmp_spec(&y) == x.content().partial_cmp_spec(&y.content()),
        y.partial_cmp_spec(&x) == y.content().partial_cmp_spec(&x.content()),
        x.partial_cmp_spec(&z) == x.content().partial_cmp_spec(&z),
{
}

} // verus!
