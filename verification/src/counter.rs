//! The shared tally record for one counting session.

use vstd::prelude::*;
use vstd::string::StringExecFns;

use crate::digits::{dec_str, usize_to_decimal};

verus! {

/// The six tracked operation kinds, in the fixed slot order of
/// [`InstrumentedBase`]: construct, duplicate, destroy, equality test,
/// partial-order test, total-order test.
#[derive(Clone, Copy, PartialEq, Eq, Structural, Debug)]
pub enum OpKind {
    Construct,
    Duplicate,
    Destroy,
    EqualityTest,
    PartialOrderTest,
    TotalOrderTest,
}

/// A fixed-size record of event tallies, one slot per tracked operation
/// kind. Slots start at zero and only ever increase within a session; two
/// records are equal exactly when every slot matches.
#[derive(Clone, Copy, PartialEq, Eq, Structural, Debug)]
pub struct InstrumentedBase {
    /// Construct tally (slot 0, named "new").
    pub news: usize,
    /// Duplicate tally (slot 1, named "clone").
    pub clones: usize,
    /// Destroy tally (slot 2, named "drop").
    pub drops: usize,
    /// Equality-test tally (slot 3, named "eq").
    pub eqs: usize,
    /// Partial-order-test tally (slot 4, named "partial_cmp").
    pub partial_cmps: usize,
    /// Total-order-test tally (slot 5, named "cmp").
    pub cmps: usize,
}

/// The tallies of `c` as a sequence, in slot order.
pub open spec fn slots(c: InstrumentedBase) -> Seq<usize> {
    seq![c.news, c.clones, c.drops, c.eqs, c.partial_cmps, c.cmps]
}

/// The tally of the slot that records operation kind `k`.
pub open spec fn slot_count(c: InstrumentedBase, k: OpKind) -> usize {
    match k {
        OpKind::Construct => c.news,
        OpKind::Duplicate => c.clones,
        OpKind::Destroy => c.drops,
        OpKind::EqualityTest => c.eqs,
        OpKind::PartialOrderTest => c.partial_cmps,
        OpKind::TotalOrderTest => c.cmps,
    }
}

/// `c` with the slot for operation kind `k` raised by one and every other
/// slot untouched.
pub open spec fn bump(c: InstrumentedBase, k: OpKind) -> InstrumentedBase {
    match k {
        OpKind::Construct => InstrumentedBase { news: (c.news + 1) as usize, ..c },
        OpKind::Duplicate => InstrumentedBase { clones: (c.clones + 1) as usize, ..c },
        OpKind::Destroy => InstrumentedBase { drops: (c.drops + 1) as usize, ..c },
        OpKind::EqualityTest => InstrumentedBase { eqs: (c.eqs + 1) as usize, ..c },
        OpKind::PartialOrderTest => InstrumentedBase {
            partial_cmps: (c.partial_cmps + 1) as usize,
            ..c
        },
        OpKind::TotalOrderTest => InstrumentedBase { cmps: (c.cmps + 1) as usize, ..c },
    }
}

/// The report rendering of `c`: label/value pairs in slot order, the labels
/// being exactly the ones `InstrumentedBase::counts_names` lists.
pub open spec fn debug_render(c: InstrumentedBase) -> Seq<char> {
    "[(\"new\", "@ + dec_str(c.news as nat) + "), (\"clone\", "@ + dec_str(c.clones as nat)
        + "), (\"drop\", "@ + dec_str(c.drops as nat) + "), (\"eq\", "@ + dec_str(c.eqs as nat)
        + "), (\"partial_cmp\", "@ + dec_str(c.partial_cmps as nat) + "), (\"cmp\", "@ + dec_str(
        c.cmps as nat,
    ) + ")]"@
}

/// The reset state: every slot at zero.
pub open spec fn zeroed() -> InstrumentedBase {
    InstrumentedBase { news: 0, clones: 0, drops: 0, eqs: 0, partial_cmps: 0, cmps: 0 }
}

impl InstrumentedBase {
    /// The stable, ordered list of human-readable labels for the six tracked
    /// kinds, in the same order as the tally slots.
    pub fn counts_names() -> (r: [&'static str; 6])
        ensures
            r@.len() == 6,
            r@[0]@ == "new"@,
            r@[1]@ == "clone"@,
            r@[2]@ == "drop"@,
            r@[3]@ == "eq"@,
            r@[4]@ == "partial_cmp"@,
            r@[5]@ == "cmp"@,
    {
        ["new", "clone", "drop", "eq", "partial_cmp", "cmp"]
    }

    /// Overwrites all six slots at once, in slot order.
    pub fn set(&mut self, c: [usize; 6])
        ensures
            slots(*final(self)) == c@,
    {
        self.news = c[0];
        self.clones = c[1];
        self.drops = c[2];
        self.eqs = c[3];
        self.partial_cmps = c[4];
        self.cmps = c[5];
        proof {
            assert(slots(*self) =~= c@);
        }
    }

    /// Reads all six slots at once, in slot order; no side effects.
    pub fn get(&self) -> (r: [usize; 6])
        ensures
            r@ == slots(*self),
    {
        let r = [self.news, self.clones, self.drops, self.eqs, self.partial_cmps, self.cmps];
        proof {
            assert(r@ =~= slots(*self));
        }
        r
    }

    /// Raises the slot for operation kind `k` by one, leaving every other
    /// slot untouched. A slot only ever increases: this is the single
    /// mutation the instrumented operations perform.
    pub fn record(&mut self, k: OpKind)
        requires
            slot_count(*old(self), k) < usize::MAX,
        ensures
            *final(self) == bump(*old(self), k),
    {
        match k {
            OpKind::Construct => {
                self.news = self.news + 1;
            },
            OpKind::Duplicate => {
                self.clones = self.clones + 1;
            },
            OpKind::Destroy => {
                self.drops = self.drops + 1;
            },
            OpKind::EqualityTest => {
                self.eqs = self.eqs + 1;
            },
            OpKind::PartialOrderTest => {
                self.partial_cmps = self.partial_cmps + 1;
            },
            OpKind::TotalOrderTest => {
                self.cmps = self.cmps + 1;
            },
        }
    }

    /// Renders the tallies as label/value pairs, in slot order; purely
    /// presentational. Rendering reads the counter without recording
    /// anything.
    pub fn debug_string(&self) -> (r: String)
        ensures
            r@ == debug_render(*self),
    {
        let mut s = "[(\"new\", ".to_owned();
        s.append(usize_to_decimal(self.news).as_str());
        s.append("), (\"clone\", ");
        s.append(usize_to_decimal(self.clones).as_str());
        s.append("), (\"drop\", ");
        s.append(usize_to_decimal(self.drops).as_str());
        s.append("), (\"eq\", ");
        s.append(usize_to_decimal(self.eqs).as_str());
        s.append("), (\"partial_cmp\", ");
        s.append(usize_to_decimal(self.partial_cmps).as_str());
        s.append("), (\"cmp\", ");
        s.append(usize_to_decimal(self.cmps).as_str());
        s.append(")]");
        proof {
            assert(s@ =~= debug_render(*self));
        }
        s
    }
}

/// Two tally records are equal exactly when every slot matches.
pub proof fn lemma_eq_iff_slots(a: InstrumentedBase, b: InstrumentedBase)
    ensures
        (a == b) <==> (slots(a) == slots(b)),
{
    if slots(a) == slots(b) {
        assert(slots(a)[0] == slots(b)[0]);
        assert(slots(a)[1] == slots(b)[1]);
        assert(slots(a)[2] == slots(b)[2]);
        assert(slots(a)[3] == slots(b)[3]);
        assert(slots(a)[4] == slots(b)[4]);
        assert(slots(a)[5] == slots(b)[5]);
    }
}

impl Default for InstrumentedBase {
    /// The reset state: every slot at zero.
    fn default() -> (r: Self)
        ensures
            r == zeroed(),
    {
        InstrumentedBase { news: 0, clones: 0, drops: 0, eqs: 0, partial_cmps: 0, cmps: 0 }
    }
}

} // verus!
