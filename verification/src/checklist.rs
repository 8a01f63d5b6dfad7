//! The tally of the self-check list the program runs at start-up:
//! how many items were checked, how many passed, and the verdict.
use vstd::prelude::*;

verus! {

/// A running tally of checklist items.
pub struct ChecklistTally {
    total: u64,
    passed: u64,
}

impl View for ChecklistTally {
    /// (items recorded, items passed)
    type V = (nat, nat);

    closed spec fn view(&self) -> (nat, nat) {
        (self.total as nat, self.passed as nat)
    }
}

impl ChecklistTally {
    #[verifier::type_invariant]
    spec fn tally_wf(self) -> bool {
        self.passed <= self.total
    }

    /// An empty tally.
    pub fn new() -> (r: Self)
        ensures
            r@ == (0nat, 0nat),
    {
        ChecklistTally { total: 0, passed: 0 }
    }

    /// Records one item; returns its 1-based number.
    pub fn record(&mut self, passed: bool) -> (n: u64)
        requires
            old(self)@.0 < u64::MAX,
        ensures
            final(self)@.0 == old(self)@.0 + 1,
            final(self)@.1 == old(self)@.1 + (if passed {
                1nat
            } else {
                0nat
            }),
            n == final(self)@.0,
    {
        proof {
            use_type_invariant(&*self);
        }
        self.total = self.total + 1;
        if passed {
            self.passed = self.passed + 1;
        }
        self.total
    }

    /// How many items were recorded.
    pub fn total(&self) -> (r: u64)
        ensures
            r == self@.0,
    {
        self.total
    }

    /// How many recorded items passed.
    pub fn passed(&self) -> (r: u64)
        ensures
            r == self@.1,
            r <= self@.0,
    {
        proof {
            use_type_invariant(self);
        }
        self.passed
    }

    /// Whether every recorded item passed.
    pub fn all_passed(&self) -> (r: bool)
        ensures
            r == (self@.1 == self@.0),
    {
        self.passed == self.total
    }

    /// The pass count the checklist summary reports: all items when all
    /// passed, otherwise one fewer than the items recorded.
    pub fn reported_passed(&self) -> (r: u64)
        ensures
            r == (if self@.1 == self@.0 {
                self@.0
            } else {
                (self@.0 - 1) as nat
            }),
    {
        proof {
            use_type_invariant(self);
        }
        if self.passed == self.total {
            self.total
        } else {
            self.total - 1
        }
    }
}

/// Recording items one by one keeps the count of passes within the count of
/// items, and the verdict is "all passed" exactly when no failure was recorded.
pub proof fn law_tally_counts(before: (nat, nat), after: (nat, nat), passed: bool)
    requires
        before.1 <= before.0,
        after.0 == before.0 + 1,
        after.1 == before.1 + (if passed {
            1nat
        } else {
            0nat
        }),
    ensures
        after.1 <= after.0,
        (after.1 == after.0) == (before.1 == before.0 && passed),
{
}

} // verus!
