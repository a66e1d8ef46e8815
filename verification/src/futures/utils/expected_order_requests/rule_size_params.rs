//! The bounds a rule puts on sizes.

use vstd::prelude::*;
use vstd::std_specs::cmp::PartialEqSpecImpl;
use crate::futures::utils::amount::{Amount, MAX_UNITS};

verus! {

#[derive(Debug, Clone, Copy)]
pub enum ExpectedOrderRequestsRuleSizeParams {
    /// At least this much.
    Min(Amount),
    /// At most this much.
    Max(Amount),
    /// Between the two, both included.
    MinMax { min: Amount, max: Amount },
}

impl Default for ExpectedOrderRequestsRuleSizeParams {
    /// From zero to the largest amount there is.
    fn default() -> (r: Self)
        ensures
            r matches ExpectedOrderRequestsRuleSizeParams::MinMax { min, max } && min.units() == 0
                && min.places() == 0 && max.units() == MAX_UNITS && max.places() == 0,
    {
        let zero = Amount::whole(0);
        match Amount::new(MAX_UNITS, 0) {
            Some(most) => ExpectedOrderRequestsRuleSizeParams::MinMax { min: zero, max: most },
            None => ExpectedOrderRequestsRuleSizeParams::MinMax { min: zero, max: zero },
        }
    }
}

/// Bounds are equal where they are of the same kind and their amounts
/// have the same values.
impl PartialEq for ExpectedOrderRequestsRuleSizeParams {
    fn eq(&self, other: &Self) -> (r: bool) {
        self.is_same(other)
    }
}

impl PartialEqSpecImpl for ExpectedOrderRequestsRuleSizeParams {
    open spec fn obeys_eq_spec() -> bool {
        true
    }

    open spec fn eq_spec(&self, other: &Self) -> bool {
        self.same(*other)
    }
}

impl Eq for ExpectedOrderRequestsRuleSizeParams {

}

impl ExpectedOrderRequestsRuleSizeParams {
    /// A value, in units of 10^-28, is within the bounds.
    pub open spec fn admits_scaled(self, value: int) -> bool {
        match self {
            ExpectedOrderRequestsRuleSizeParams::Min(min) => min.scaled() <= value,
            ExpectedOrderRequestsRuleSizeParams::Max(max) => value <= max.scaled(),
            ExpectedOrderRequestsRuleSizeParams::MinMax { min, max } => min.scaled() <= value
                <= max.scaled(),
        }
    }

    /// An amount is within the bounds.
    pub open spec fn admits(self, size: Amount) -> bool {
        self.admits_scaled(size.scaled())
    }

    /// Two bounds of the same kind whose amounts have the same values.
    pub open spec fn same(self, other: Self) -> bool {
        match (self, other) {
            (
                ExpectedOrderRequestsRuleSizeParams::Min(a),
                ExpectedOrderRequestsRuleSizeParams::Min(b),
            ) => a.scaled() == b.scaled(),
            (
                ExpectedOrderRequestsRuleSizeParams::Max(a),
                ExpectedOrderRequestsRuleSizeParams::Max(b),
            ) => a.scaled() == b.scaled(),
            (
                ExpectedOrderRequestsRuleSizeParams::MinMax { min: a, max: b },
                ExpectedOrderRequestsRuleSizeParams::MinMax { min: c, max: d },
            ) => a.scaled() == c.scaled() && b.scaled() == d.scaled(),
            _ => false,
        }
    }

    pub fn accepts(&self, size: &Amount) -> (r: bool)
        ensures
            r == self.admits(*size),
    {
        match self {
            ExpectedOrderRequestsRuleSizeParams::Min(min) => min.at_most(size),
            ExpectedOrderRequestsRuleSizeParams::Max(max) => size.at_most(max),
            ExpectedOrderRequestsRuleSizeParams::MinMax { min, max } => min.at_most(size)
                && size.at_most(max),
        }
    }

    pub fn is_same(&self, other: &Self) -> (r: bool)
        ensures
            r == self.same(*other),
    {
        match (self, other) {
            (
                ExpectedOrderRequestsRuleSizeParams::Min(a),
                ExpectedOrderRequestsRuleSizeParams::Min(b),
            ) => a.at_most(b) && b.at_most(a),
            (
                ExpectedOrderRequestsRuleSizeParams::Max(a),
                ExpectedOrderRequestsRuleSizeParams::Max(b),
            ) => a.at_most(b) && b.at_most(a),
            (
                ExpectedOrderRequestsRuleSizeParams::MinMax { min: a, max: b },
                ExpectedOrderRequestsRuleSizeParams::MinMax { min: c, max: d },
            ) => a.at_most(c) && c.at_most(a) && b.at_most(d) && d.at_most(b),
            _ => false,
        }
    }
}

} // verus!
