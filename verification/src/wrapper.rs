//! The per-element wrapper that intercepts tracked operations on one value.

use vstd::prelude::*;
use vstd::pervasive::cloned;
use vstd::std_specs::cmp::{OrdSpec, PartialEqSpec, PartialOrdSpec};
use core::cmp::Ordering;

use crate::counter::{bump, InstrumentedBase, OpKind};

verus! {

/// A transparent wrapper around one value of type `T`. Each tracked
/// operation on it — construction, duplication, destruction, and the three
/// comparison kinds — records itself in the session's [`InstrumentedBase`]
/// before delegating to the inner value, so counting reflects that the
/// operation was invoked, never alters its outcome.
///
/// The counter is not stored inside the wrapper: one counter per session is
/// threaded explicitly through every counted operation, and destruction is
/// an explicit release ([`Instrumented::destroy`]) rather than an implicit
/// finalizer. A [`crate::session::Session`] threads the calls at every site
/// for a whole batch.
pub struct Instrumented<T> {
    value: T,
}

impl<T> Instrumented<T> {
    /// The wrapped value.
    pub closed spec fn inner(self) -> T {
        self.value
    }

    /// Wraps `value`, recording one construct event. This is the only entry
    /// point that raises the construct slot; duplication raises its own slot
    /// instead.
    pub fn new(value: T, base: &mut InstrumentedBase) -> (r: Self)
        requires
            old(base).news < usize::MAX,
        ensures
            *final(base) == bump(*old(base), OpKind::Construct),
            r.inner() == value,
    {
        base.record(OpKind::Construct);
        Instrumented { value }
    }

    /// Reads the wrapped value without recording anything: inspection is
    /// side-effect-free with respect to counting.
    pub fn inspect(&self) -> (r: &T)
        ensures
            *r == self.inner(),
    {
        &self.value
    }

    /// Duplicates the wrapper, recording one duplicate event and delegating
    /// to the inner value's own duplication. The construct slot is not
    /// touched: a caller can tell how many elements it started with apart
    /// from how many extra copies an algorithm made.
    pub fn duplicate(&self, base: &mut InstrumentedBase) -> (r: Self) where T: Clone
        requires
            old(base).clones < usize::MAX,
        ensures
            *final(base) == bump(*old(base), OpKind::Duplicate),
            cloned(self.inner(), r.inner()),
    {
        base.record(OpKind::Duplicate);
        Instrumented { value: self.value.clone() }
    }

    /// Releases the wrapper, recording one destroy event and handing back
    /// the inner value unchanged. Every wrapper a session creates is meant
    /// to be released through this call exactly once.
    pub fn destroy(self, base: &mut InstrumentedBase) -> (r: T)
        requires
            old(base).drops < usize::MAX,
        ensures
            *final(base) == bump(*old(base), OpKind::Destroy),
            r == self.inner(),
    {
        base.record(OpKind::Destroy);
        self.value
    }

    /// Tests the two wrapped values for equality, recording one
    /// equality-test event first and then delegating: the result is exactly
    /// the inner values' own equality result.
    pub fn eq_with(&self, other: &Self, base: &mut InstrumentedBase) -> (r: bool) where
        T: PartialEq,

        requires
            old(base).eqs < usize::MAX,
        ensures
            *final(base) == bump(*old(base), OpKind::EqualityTest),
            T::obeys_eq_spec() ==> r == self.inner().eq_spec(&other.inner()),
    {
        base.record(OpKind::EqualityTest);
        self.value.eq(&other.value)
    }

    /// Compares the two wrapped values, recording one partial-order-test
    /// event first and then delegating: the result is exactly the inner
    /// values' own partial ordering, `None` only if they are incomparable.
    pub fn partial_cmp_with(&self, other: &Self, base: &mut InstrumentedBase) -> (r: Option<
        Ordering,
    >) where T: PartialOrd
        requires
            old(base).partial_cmps < usize::MAX,
        ensures
            *final(base) == bump(*old(base), OpKind::PartialOrderTest),
            T::obeys_partial_cmp_spec() ==> r == self.inner().partial_cmp_spec(&other.inner()),
    {
        base.record(OpKind::PartialOrderTest);
        self.value.partial_cmp(&other.value)
    }

    /// Compares the two wrapped values, recording one total-order-test event
    /// first and then delegating to the inner values' own total ordering.
    pub fn cmp_with(&self, other: &Self, base: &mut InstrumentedBase) -> (r: Ordering) where
        T: Ord,

        requires
            old(base).cmps < usize::MAX,
        ensures
            *final(base) == bump(*old(base), OpKind::TotalOrderTest),
            T::obeys_cmp_spec() ==> r == self.inner().cmp_spec(&other.inner()),
    {
        base.record(OpKind::TotalOrderTest);
        self.value.cmp(&other.value)
    }
}

} // verus!
