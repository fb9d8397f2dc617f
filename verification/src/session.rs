//! The counting session: wraps a batch, lets a caller-supplied operation
//! work on the wrapped batch through counted operations only, and reports
//! the final tallies.

use vstd::prelude::*;
use vstd::pervasive::cloned;
use vstd::pervasive::VecAdditionalExecFns;
use vstd::std_specs::cmp::{OrdSpec, PartialEqSpec, PartialOrdSpec};
use core::cmp::Ordering;

use crate::counter::{bump, InstrumentedBase, OpKind};
use crate::wrapper::Instrumented;

verus! {

/// The counter state right after a batch of `n` values has been wrapped:
/// `n` construct events and nothing else. Meaningful for `n` up to
/// `usize::MAX`, the most constructs one counter can record.
pub open spec fn initial_counts(n: nat) -> InstrumentedBase {
    InstrumentedBase {
        news: #[verifier::truncate] (n as usize),
        clones: 0,
        drops: 0,
        eqs: 0,
        partial_cmps: 0,
        cmps: 0,
    }
}

/// One counting session: a batch of wrapped values together with the single
/// counter they all report to. Every operation that touches the batch goes
/// through a counted method, so the tallies cannot drift from the events
/// that actually happened.
pub struct Session<T> {
    items: Vec<Instrumented<T>>,
    counter: InstrumentedBase,
}

impl<T> Session<T> {
    /// The inner values of the wrapped batch, in batch order.
    pub closed spec fn values(self) -> Seq<T> {
        self.items@.map_values(|w: Instrumented<T>| w.inner())
    }

    /// The session counter's current tallies.
    pub closed spec fn counts(self) -> InstrumentedBase {
        self.counter
    }

    /// Conservation of instances: constructs plus duplicates minus destroys
    /// equals the number of wrappers still alive in the batch. Every session
    /// operation preserves this.
    pub open spec fn well_formed(self) -> bool {
        self.counts().news + self.counts().clones - self.counts().drops == self.values().len()
    }

    /// Opens a session: allocates a fresh all-zero counter and wraps every
    /// element of `batch`, in order. The construct slot ends at the batch
    /// length; every other slot is zero.
    pub fn new(batch: Vec<T>) -> (s: Session<T>)
        ensures
            s.values() == batch@,
            s.counts() == initial_counts(batch@.len()),
            s.well_formed(),
    {
        let ghost orig = batch@;
        let n = batch.len();
        let mut rest = batch;
        let mut counter = InstrumentedBase::default();
        let mut items: Vec<Instrumented<T>> = Vec::new();
        while rest.len() > 0
            invariant
                orig.len() == n,
                items@.len() + rest@.len() == n,
                rest@ == orig.skip(items@.len() as int),
                items@.map_values(|w: Instrumented<T>| w.inner()) == orig.take(items@.len() as int),
                counter == initial_counts(items@.len()),
            decreases rest@.len(),
        {
            let ghost k = items@.len() as int;
            let v = rest.remove(0);
            proof {
                assert(orig.skip(k)[0] == orig[k]);
                assert(orig.skip(k).remove(0) =~= orig.skip(k + 1));
            }
            let w = Instrumented::new(v, &mut counter);
            items.push(w);
            proof {
                assert(items@.map_values(|w: Instrumented<T>| w.inner()) =~= orig.take(k + 1));
            }
        }
        proof {
            assert(orig.take(orig.len() as int) =~= orig);
        }
        Session { items, counter }
    }

    /// Reads the counter's current tallies; constant time, no side effects.
    pub fn snapshot(&self) -> (r: InstrumentedBase)
        ensures
            r == self.counts(),
    {
        self.counter
    }

    /// The number of wrappers currently in the batch.
    pub fn len(&self) -> (n: usize)
        ensures
            n == self.values().len(),
    {
        self.items.len()
    }

    /// Reads the inner value at position `i` without recording anything:
    /// inspection is side-effect-free with respect to counting.
    pub fn value_at(&self, i: usize) -> (r: &T)
        requires
            i < self.values().len(),
        ensures
            *r == self.values()[i as int],
    {
        self.items[i].inspect()
    }

    /// Reorders the batch by exchanging positions `i` and `j`. Moving
    /// wrappers is not a tracked operation: the counter is untouched.
    pub fn swap_at(&mut self, i: usize, j: usize)
        requires
            i < old(self).values().len(),
            j < old(self).values().len(),
        ensures
            final(self).counts() == old(self).counts(),
            final(self).values() == old(self).values().update(
                i as int,
                old(self).values()[j as int],
            ).update(j as int, old(self).values()[i as int]),
    {
        let ghost pre = self.items@;
        let ghost prevals = self.values();
        if i != j {
            let lo: usize = if i < j { i } else { j };
            let hi: usize = if i < j { j } else { i };
            let mut moved = self.items.remove(hi);
            self.items.set_and_swap(lo, &mut moved);
            self.items.insert(hi, moved);
            proof {
                assert(self.items@ =~= pre.update(lo as int, pre[hi as int]).update(
                    hi as int,
                    pre[lo as int],
                ));
                assert(self.values() =~= prevals.update(i as int, prevals[j as int]).update(
                    j as int,
                    prevals[i as int],
                ));
            }
        } else {
            proof {
                assert(self.values() =~= prevals.update(i as int, prevals[j as int]).update(
                    j as int,
                    prevals[i as int],
                ));
            }
        }
    }

    /// Duplicates the wrapper at position `i` and appends the duplicate to
    /// the end of the batch, recording exactly one duplicate event — however
    /// the duplicate is later discarded, the tally keeps this record.
    pub fn dup_at(&mut self, i: usize) where T: Clone
        requires
            i < old(self).values().len(),
            old(self).counts().clones < usize::MAX,
        ensures
            final(self).counts() == bump(old(self).counts(), OpKind::Duplicate),
            final(self).values().len() == old(self).values().len() + 1,
            final(self).values().drop_last() == old(self).values(),
            cloned(old(self).values()[i as int], final(self).values().last()),
    {
        let ghost prevals = self.values();
        let w = self.items[i].duplicate(&mut self.counter);
        self.items.push(w);
        proof {
            assert(self.values() =~= prevals.push(self.values().last()));
            assert(self.values().drop_last() =~= prevals);
        }
    }

    /// Removes the wrapper at position `i` from the batch and destroys it,
    /// recording exactly one destroy event.
    pub fn destroy_at(&mut self, i: usize)
        requires
            i < old(self).values().len(),
            old(self).counts().drops < usize::MAX,
        ensures
            final(self).counts() == bump(old(self).counts(), OpKind::Destroy),
            final(self).values() == old(self).values().remove(i as int),
    {
        let ghost prevals = self.values();
        let w = self.items.remove(i);
        let _ = w.destroy(&mut self.counter);
        proof {
            assert(self.values() =~= prevals.remove(i as int));
        }
    }

    /// Tests the values at positions `i` and `j` for equality, recording one
    /// equality-test event. The result is exactly the inner values' own
    /// equality result: counting never alters the outcome.
    pub fn eq_at(&mut self, i: usize, j: usize) -> (r: bool) where T: PartialEq
        requires
            i < old(self).values().len(),
            j < old(self).values().len(),
            old(self).counts().eqs < usize::MAX,
        ensures
            final(self).values() == old(self).values(),
            final(self).counts() == bump(old(self).counts(), OpKind::EqualityTest),
            T::obeys_eq_spec() ==> r == old(self).values()[i as int].eq_spec(
                &old(self).values()[j as int],
            ),
    {
        self.items[i].eq_with(&self.items[j], &mut self.counter)
    }

    /// Compares the values at positions `i` and `j`, recording one
    /// partial-order-test event; `None` only if the inner values are
    /// incomparable.
    pub fn partial_cmp_at(&mut self, i: usize, j: usize) -> (r: Option<Ordering>) where
        T: PartialOrd,

        requires
            i < old(self).values().len(),
            j < old(self).values().len(),
            old(self).counts().partial_cmps < usize::MAX,
        ensures
            final(self).values() == old(self).values(),
            final(self).counts() == bump(old(self).counts(), OpKind::PartialOrderTest),
            T::obeys_partial_cmp_spec() ==> r == old(self).values()[i as int].partial_cmp_spec(
                &old(self).values()[j as int],
            ),
    {
        self.items[i].partial_cmp_with(&self.items[j], &mut self.counter)
    }

    /// Compares the values at positions `i` and `j` by their total ordering,
    /// recording one total-order-test event.
    pub fn cmp_at(&mut self, i: usize, j: usize) -> (r: Ordering) where T: Ord
        requires
            i < old(self).values().len(),
            j < old(self).values().len(),
            old(self).counts().cmps < usize::MAX,
        ensures
            final(self).values() == old(self).values(),
            final(self).counts() == bump(old(self).counts(), OpKind::TotalOrderTest),
            T::obeys_cmp_spec() ==> r == old(self).values()[i as int].cmp_spec(
                &old(self).values()[j as int],
            ),
    {
        self.items[i].cmp_with(&self.items[j], &mut self.counter)
    }

    /// Ends the session by destroying every wrapper still in the batch, one
    /// counted destroy each, and hands back the inner values in batch order
    /// together with the final tallies.
    ///
    /// The final counter witnesses the closed-system conservation law: once
    /// no wrapper survives, the destroy slot equals constructs plus
    /// duplicates.
    pub fn into_values(self) -> (r: (Vec<T>, InstrumentedBase))
        requires
            self.well_formed(),
            self.counts().news + self.counts().clones <= usize::MAX,
        ensures
            r.0@ == self.values(),
            r.1.news == self.counts().news,
            r.1.clones == self.counts().clones,
            r.1.eqs == self.counts().eqs,
            r.1.partial_cmps == self.counts().partial_cmps,
            r.1.cmps == self.counts().cmps,
            r.1.drops == r.1.news + r.1.clones,
    {
        let ghost vals = self.values();
        let ghost c0 = self.counts();
        let Session { mut items, mut counter } = self;
        let mut out: Vec<T> = Vec::new();
        while items.len() > 0
            invariant
                out@.len() + items@.len() == vals.len(),
                out@ == vals.take(out@.len() as int),
                items@.map_values(|w: Instrumented<T>| w.inner()) == vals.skip(out@.len() as int),
                counter.news == c0.news,
                counter.clones == c0.clones,
                counter.eqs == c0.eqs,
                counter.partial_cmps == c0.partial_cmps,
                counter.cmps == c0.cmps,
                counter.drops == c0.drops + out@.len(),
                c0.news + c0.clones - c0.drops == vals.len(),
                c0.news + c0.clones <= usize::MAX,
            decreases items@.len(),
        {
            let ghost k = out@.len() as int;
            let ghost mapped = items@.map_values(|w: Instrumented<T>| w.inner());
            let w = items.remove(0);
            proof {
                assert(mapped[0] == vals.skip(k)[0]);
                assert(vals.skip(k)[0] == vals[k]);
                assert(items@.map_values(|w: Instrumented<T>| w.inner()) =~= mapped.remove(0));
                assert(mapped.remove(0) =~= vals.skip(k + 1));
            }
            let v = w.destroy(&mut counter);
            out.push(v);
            proof {
                assert(out@ =~= vals.take(k + 1));
            }
        }
        proof {
            assert(vals.take(vals.len() as int) =~= vals);
        }
        (out, counter)
    }
}

/// Runs one counting session: allocates a fresh counter, wraps every element
/// of `vec` in order, hands the wrapped batch to `operation` (which may
/// reorder, compare, duplicate or shrink it arbitrarily through the
/// session's counted methods), and returns the tallies as they stand when
/// `operation` returns. The working batch is torn down after that snapshot,
/// so trailing destroys are not visible in the reported result. This cannot
/// fail: an empty batch yields an all-zero counter.
///
/// An operation that does no counted work — it returns the session exactly
/// as it received it — yields construct = batch length and zero everywhere
/// else.
pub fn count_operations<T, F>(vec: Vec<T>, f: F) -> (r: InstrumentedBase) where
    F: Fn(Session<T>) -> Session<T>,

    requires
        forall|s: Session<T>|
            (s.values() == vec@ && s.counts() == initial_counts(vec@.len()))
                ==> #[trigger] call_requires(f, (s,)),
    ensures
        exists|s0: Session<T>, s1: Session<T>|
            {
                &&& s0.values() == vec@
                &&& s0.counts() == initial_counts(vec@.len())
                &&& #[trigger] call_ensures(f, (s0,), s1)
                &&& r == s1.counts()
            },
        (forall|s: Session<T>, t: Session<T>| #[trigger] call_ensures(f, (s,), t) ==> t == s)
            ==> r == initial_counts(vec@.len()),
{
    let s0 = Session::new(vec);
    let ghost g0 = s0;
    let s1 = f(s0);
    s1.snapshot()
}

/// Like [`count_operations`], but also extracts and returns the inner values
/// left in the batch after `operation` returns, in their final order. The
/// tallies are snapshot before the extraction, exactly as in
/// [`count_operations`].
///
/// Instrumentation is value-transparent: for an operation that does no
/// counted work, the extracted values are exactly the input batch, in the
/// input order.
pub fn count_operations_values<T, F>(vec: Vec<T>, f: F) -> (r: (Vec<T>, InstrumentedBase)) where
    F: Fn(Session<T>) -> Session<T>,

    requires
        forall|s: Session<T>|
            (s.values() == vec@ && s.counts() == initial_counts(vec@.len()))
                ==> #[trigger] call_requires(f, (s,)),
    ensures
        exists|s0: Session<T>, s1: Session<T>|
            {
                &&& s0.values() == vec@
                &&& s0.counts() == initial_counts(vec@.len())
                &&& #[trigger] call_ensures(f, (s0,), s1)
                &&& r.0@ == s1.values()
                &&& r.1 == s1.counts()
            },
        (forall|s: Session<T>, t: Session<T>| #[trigger] call_ensures(f, (s,), t) ==> t == s)
            ==> (r.0@ == vec@ && r.1 == initial_counts(vec@.len())),
{
    let s0 = Session::new(vec);
    let ghost g0 = s0;
    let s1 = f(s0);
    let snap = s1.snapshot();
    let ghost g1 = s1;
    let Session { mut items, counter: _ } = s1;
    // Teardown of the working batch: the destroys land in a scratch counter
    // that is discarded, after the reported tallies were already read.
    let mut scratch = InstrumentedBase::default();
    let ghost vals = g1.values();
    let total = items.len();
    proof {
        assert(vals.len() == total);
    }
    let mut out: Vec<T> = Vec::new();
    while items.len() > 0
        invariant
            out@.len() + items@.len() == vals.len(),
            out@ == vals.take(out@.len() as int),
            items@.map_values(|w: Instrumented<T>| w.inner()) == vals.skip(out@.len() as int),
            scratch.drops == out@.len(),
            vals.len() <= usize::MAX,
        decreases items@.len(),
    {
        let ghost k = out@.len() as int;
        let ghost mapped = items@.map_values(|w: Instrumented<T>| w.inner());
        let w = items.remove(0);
        proof {
            assert(mapped[0] == vals.skip(k)[0]);
            assert(vals.skip(k)[0] == vals[k]);
            assert(items@.map_values(|w: Instrumented<T>| w.inner()) =~= mapped.remove(0));
            assert(mapped.remove(0) =~= vals.skip(k + 1));
        }
        let v = w.destroy(&mut scratch);
        out.push(v);
        proof {
            assert(out@ =~= vals.take(k + 1));
        }
    }
    proof {
        assert(vals.take(vals.len() as int) =~= vals);
    }
    (out, snap)
}

} // verus!
