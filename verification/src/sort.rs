//! An ascending insertion sort over a counting session: the canonical
//! algorithm-under-measurement. It reorders the batch through counted
//! partial-order tests and uncounted swaps only, so the reported tallies
//! reflect its comparison behaviour exactly.

use vstd::prelude::*;
use vstd::std_specs::cmp::PartialOrdSpec;
use core::cmp::Ordering;

use crate::session::Session;

verus! {

/// `a` is less than or equal to `b` under the type's own partial ordering.
pub open spec fn leq<T: PartialOrd>(a: T, b: T) -> bool {
    a.partial_cmp_spec(&b) == Some(Ordering::Less) || a.partial_cmp_spec(&b) == Some(
        Ordering::Equal,
    )
}

/// Every element is less than or equal to its successor.
pub open spec fn sorted_le<T: PartialOrd>(s: Seq<T>) -> bool {
    forall|k: int| 0 <= k && k + 1 < s.len() ==> #[trigger] leq(s[k], s[k + 1])
}

/// The type's partial ordering compares every two values (no incomparable
/// pair). Integers, among others, satisfy this.
pub open spec fn total_cmp<T: PartialOrd>() -> bool {
    forall|a: T, b: T| (#[trigger] a.partial_cmp_spec(&b)) is Some
}

/// A greater-than verdict one way round is a less-than verdict the other
/// way round. Integers, among others, satisfy this.
pub open spec fn dual_cmp<T: PartialOrd>() -> bool {
    forall|a: T, b: T|
        (#[trigger] a.partial_cmp_spec(&b)) == Some(Ordering::Greater)
            ==> b.partial_cmp_spec(&a) == Some(Ordering::Less)
}

/// Exchanging two positions of a sequence leaves its multiset of elements
/// unchanged.
proof fn lemma_swap_keeps_multiset<A>(s: Seq<A>, i: int, j: int)
    requires
        0 <= i < s.len(),
        0 <= j < s.len(),
    ensures
        s.update(i, s[j]).update(j, s[i]).to_multiset() == s.to_multiset(),
{
    broadcast use vstd::seq_lib::group_to_multiset_ensures;
    broadcast use vstd::multiset::group_multiset_axioms;

    if i != j {
        let s1 = s.update(i, s[j]);
        assert(s.contains(s[i]));
        assert(s.to_multiset().count(s[i]) > 0);
        assert(s1[j] == s[j]);
        assert(s1.contains(s1[j]));
        assert(s1.to_multiset().count(s[j]) > 0);
        assert(s1.update(j, s[i]).to_multiset() =~= s.to_multiset());
    } else {
        assert(s.update(i, s[j]).update(j, s[i]) =~= s);
    }
}

/// `p` with the element at position `i` pulled out and re-inserted at
/// position `j` (for `j <= i < p.len()`): the shape of a batch while an
/// insertion pass moves one element down.
spec fn inserted<T>(p: Seq<T>, j: int, i: int) -> Seq<T> {
    p.subrange(0, j) + seq![p[i]] + p.subrange(j, i) + p.subrange(i + 1, p.len() as int)
}

/// A sorted prefix stays sorted pair by pair.
proof fn lemma_sorted_take_pair<T: PartialOrd>(s: Seq<T>, m: int, k: int)
    requires
        sorted_le(s.take(m)),
        0 <= k,
        k + 1 < m,
        m <= s.len(),
    ensures
        leq(s[k], s[k + 1]),
{
    assert(leq(s.take(m)[k], s.take(m)[k + 1]));
}

/// Sorts the session's batch in ascending order of the inner values with an
/// insertion sort, probing neighbours through counted partial-order tests
/// and moving elements by uncounted swaps. Only the partial-order-test slot
/// of the counter moves.
///
/// Comparison counts are exact where the algorithm's behaviour is pinned:
/// on a batch that is already sorted the routine makes one probe per
/// insertion, `len - 1` in all (none on an empty batch), and leaves the
/// batch untouched. Where the type's ordering is total and symmetric —
/// integers are — the batch ends sorted, a permutation of its start.
pub fn sort_ascending<T: PartialOrd>(s: &mut Session<T>)
    requires
        old(s).counts().partial_cmps + old(s).values().len() * old(s).values().len()
            <= usize::MAX,
    ensures
        final(s).values().to_multiset() == old(s).values().to_multiset(),
        final(s).values().len() == old(s).values().len(),
        final(s).counts().news == old(s).counts().news,
        final(s).counts().clones == old(s).counts().clones,
        final(s).counts().drops == old(s).counts().drops,
        final(s).counts().eqs == old(s).counts().eqs,
        final(s).counts().cmps == old(s).counts().cmps,
        old(s).counts().partial_cmps <= final(s).counts().partial_cmps <= old(
            s,
        ).counts().partial_cmps + old(s).values().len() * old(s).values().len(),
        (T::obeys_partial_cmp_spec() && sorted_le(old(s).values())) ==> (final(s).values() == old(
            s,
        ).values() && final(s).counts().partial_cmps == old(s).counts().partial_cmps + (
        if old(s).values().len() == 0 {
            0int
        } else {
            old(s).values().len() - 1
        })),
        (T::obeys_partial_cmp_spec() && total_cmp::<T>() && dual_cmp::<T>()) ==> sorted_le(
            final(s).values(),
        ),
{
    let ghost orig = old(s).values();
    let ghost c0 = old(s).counts();
    let n = s.len();
    proof {
        assert(0 <= n * n) by (nonlinear_arith);
    }
    if n < 2 {
        return ;
    }
    let mut i: usize = 1;
    while i < n
        invariant
            n == orig.len(),
            2 <= n <= usize::MAX,
            1 <= i <= n,
            s.values().len() == n,
            s.values().to_multiset() == orig.to_multiset(),
            s.counts().news == c0.news,
            s.counts().clones == c0.clones,
            s.counts().drops == c0.drops,
            s.counts().eqs == c0.eqs,
            s.counts().cmps == c0.cmps,
            c0.partial_cmps + n * n <= usize::MAX,
            c0.partial_cmps <= s.counts().partial_cmps,
            s.counts().partial_cmps <= c0.partial_cmps + (i - 1) * n,
            (T::obeys_partial_cmp_spec() && sorted_le(orig)) ==> (s.values() == orig
                && s.counts().partial_cmps == c0.partial_cmps + (i - 1)),
            (T::obeys_partial_cmp_spec() && total_cmp::<T>() && dual_cmp::<T>()) ==> sorted_le(
                s.values().take(i as int),
            ),
        decreases n - i,
    {
        let ghost p = s.values();
        let mut j: usize = i;
        let mut done = false;
        while !done && j > 0
            invariant
                n == orig.len(),
                2 <= n <= usize::MAX,
                1 <= i < n,
                j <= i,
                s.values().len() == n,
                s.values().to_multiset() == orig.to_multiset(),
                p.len() == n,
                s.counts().news == c0.news,
                s.counts().clones == c0.clones,
                s.counts().drops == c0.drops,
                s.counts().eqs == c0.eqs,
                s.counts().cmps == c0.cmps,
                c0.partial_cmps + n * n <= usize::MAX,
                c0.partial_cmps <= s.counts().partial_cmps,
                s.counts().partial_cmps <= c0.partial_cmps + (i - 1) * n + (i - j) + (
                if done {
                    1int
                } else {
                    0int
                }),
                (T::obeys_partial_cmp_spec() && sorted_le(orig)) ==> (s.values() == orig && j == i
                    && s.counts().partial_cmps == c0.partial_cmps + (i - 1) + (
                if done {
                    1int
                } else {
                    0int
                })),
                (T::obeys_partial_cmp_spec() && total_cmp::<T>() && dual_cmp::<T>()) ==> {
                    &&& sorted_le(p.take(i as int))
                    &&& s.values() == inserted(p, j as int, i as int)
                    &&& (j < i ==> leq(p[i as int], p[j as int]))
                    &&& (done ==> j == 0 || leq(p[j - 1], p[i as int]))
                },
            decreases (if done {
                0int
            } else {
                j + 1
            }),
        {
            proof {
                assert((i - 1) * n + i <= n * n) by (nonlinear_arith)
                    requires
                        1 <= i < n,
                ;
                if T::obeys_partial_cmp_spec() && total_cmp::<T>() && dual_cmp::<T>() {
                    assert(s.values()[j - 1] == p[j - 1]);
                    assert(s.values()[j as int] == p[i as int]);
                }
            }
            let ghost prevals = s.values();
            let r = s.partial_cmp_at(j - 1, j);
            let greater = match r {
                Some(Ordering::Greater) => true,
                _ => false,
            };
            if greater {
                proof {
                    if T::obeys_partial_cmp_spec() && sorted_le(orig) {
                        let k: int = j - 1;
                        assert(leq(orig[k], orig[k + 1]));
                        assert(false);
                    }
                }
                s.swap_at(j - 1, j);
                proof {
                    lemma_swap_keeps_multiset(prevals, j - 1, j as int);
                    if T::obeys_partial_cmp_spec() && total_cmp::<T>() && dual_cmp::<T>() {
                        assert(s.values() =~= inserted(p, j - 1, i as int));
                        assert(leq(p[i as int], p[j - 1]));
                    }
                }
                j = j - 1;
            } else {
                proof {
                    if T::obeys_partial_cmp_spec() && total_cmp::<T>() && dual_cmp::<T>() {
                        assert(leq(p[j - 1], p[i as int]));
                    }
                }
                done = true;
            }
        }
        proof {
            assert((i - 1) * n + (i - j) + 1 <= i * n) by (nonlinear_arith)
                requires
                    1 <= i < n,
                    0 <= j <= i,
            ;
            if T::obeys_partial_cmp_spec() && total_cmp::<T>() && dual_cmp::<T>() {
                let v = s.values();
                assert forall|k: int| 0 <= k && k + 1 < i + 1 implies #[trigger] leq(
                    v[k],
                    v[k + 1],
                ) by {
                    if k + 1 < j {
                        assert(v[k] == p[k]);
                        assert(v[k + 1] == p[k + 1]);
                        lemma_sorted_take_pair(p, i as int, k);
                    } else if k + 1 == j {
                        assert(v[k] == p[k]);
                        assert(v[k + 1] == p[i as int]);
                        assert(leq(p[j - 1], p[i as int]));
                    } else if k == j {
                        assert(v[k] == p[i as int]);
                        assert(v[k + 1] == p[j as int]);
                        assert(leq(p[i as int], p[j as int]));
                    } else {
                        assert(v[k] == p[k - 1]);
                        assert(v[k + 1] == p[k]);
                        lemma_sorted_take_pair(p, i as int, k - 1);
                    }
                }
                assert(sorted_le(v.take(i + 1)));
            }
        }
        i = i + 1;
    }
    proof {
        assert((n - 1) * n <= n * n) by (nonlinear_arith)
            requires
                2 <= n,
        ;
        assert(s.values().take(n as int) =~= s.values());
    }
}

} // verus!
