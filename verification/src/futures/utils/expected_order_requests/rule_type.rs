//! The two kinds of rule.

use vstd::prelude::*;

verus! {

#[derive(PartialEq, Eq, Structural, Debug, Clone, Copy, Hash)]
pub enum ExpectedOrderRequestsRuleType {
    /// Seeded by the operator, applies to every order of the symbol and is
    /// never replaced by an update.
    Global,
    /// Scoped to one size bucket of a strategy, replaced by updates.
    PerGrid,
}

impl Default for ExpectedOrderRequestsRuleType {
    fn default() -> (r: Self)
        ensures
            r == ExpectedOrderRequestsRuleType::PerGrid,
    {
        ExpectedOrderRequestsRuleType::PerGrid
    }
}

} // verus!
