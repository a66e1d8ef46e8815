//! What a rule of either kind is made of.

use vstd::prelude::*;
use vstd::std_specs::cmp::PartialEqSpecImpl;
use crate::futures::utils::expected_order_requests::rule_period::RulePeriod;
use crate::futures::utils::expected_order_requests::rule_size_params::ExpectedOrderRequestsRuleSizeParams;

verus! {

#[derive(Debug, Clone, Copy)]
pub struct ExpectedOrderRequestsRulePayload {
    pub size_params: ExpectedOrderRequestsRuleSizeParams,
    pub period: RulePeriod,
}

impl PartialEq for ExpectedOrderRequestsRulePayload {
    fn eq(&self, other: &Self) -> (r: bool) {
        self.is_same(other)
    }
}

impl PartialEqSpecImpl for ExpectedOrderRequestsRulePayload {
    open spec fn obeys_eq_spec() -> bool {
        true
    }

    open spec fn eq_spec(&self, other: &Self) -> bool {
        self.same(*other)
    }
}

impl Eq for ExpectedOrderRequestsRulePayload {

}

impl ExpectedOrderRequestsRulePayload {
    /// The same period and the same bounds by value.
    pub open spec fn same(self, other: Self) -> bool {
        self.period == other.period && self.size_params.same(other.size_params)
    }

    pub fn is_same(&self, other: &Self) -> (r: bool)
        ensures
            r == self.same(*other),
    {
        self.period == other.period && self.size_params.is_same(&other.size_params)
    }
}

} // verus!
