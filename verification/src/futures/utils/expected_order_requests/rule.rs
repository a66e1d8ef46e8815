//! A rule, what it applies to and what it asks.
//!
//! A global rule applies to every order of its symbol and asks that the mean
//! size of the orders recorded within its period lies within its bounds. A
//! per-grid rule applies to the orders whose size lies within its bounds,
//! its size bucket, and asks that no other order of that bucket was recorded
//! within its period.

use vstd::prelude::*;
use vstd::std_specs::cmp::PartialEqSpecImpl;
use crate::errors::{Error, Violation};
use crate::futures::utils::amount::{decimal_quotient, decimal_sum, scaled_value, Amount};
use crate::futures::utils::expected_order_requests::rule_payload::ExpectedOrderRequestsRulePayload;
use crate::futures::utils::expected_order_requests::rule_type::ExpectedOrderRequestsRuleType;
use crate::futures::utils::order_tracking_item::OrderTrackingItem;
use crate::futures::utils::ranking::{tied, Rank, Ranked};
use crate::futures::utils::top_n::TopNEntry;

verus! {

#[derive(Debug, Clone, Copy)]
pub enum ExpectedOrderRequestsRule {
    Global(ExpectedOrderRequestsRulePayload),
    PerGrid(ExpectedOrderRequestsRulePayload),
}

/// The sum of the sizes of `entries`, added up first to last, as units and
/// places; `None` where a sum does not fit.
pub open spec fn total_size(entries: Seq<TopNEntry<OrderTrackingItem>>) -> Option<(int, int)>
    decreases entries.len(),
{
    if entries.len() == 0 {
        Some((0int, 0int))
    } else {
        match total_size(entries.drop_last()) {
            Some(t) => decimal_sum(
                t.0,
                t.1,
                entries.last().item.size.units(),
                entries.last().item.size.places(),
            ),
            None => None,
        }
    }
}

/// The mean size of `entries`: their total divided by their number.
pub open spec fn mean_size(entries: Seq<TopNEntry<OrderTrackingItem>>) -> Option<(int, int)> {
    match total_size(entries) {
        Some(t) => decimal_quotient(t.0, t.1, entries.len() as int, 0),
        None => None,
    }
}

/// `entries` holds an order of the bucket `rule` other than `order`.
pub open spec fn bucket_taken(
    rule: ExpectedOrderRequestsRule,
    order: TopNEntry<OrderTrackingItem>,
    entries: Seq<TopNEntry<OrderTrackingItem>>,
) -> bool {
    exists|i: int|
        0 <= i < entries.len() && rule.payload().size_params.admits(
            (#[trigger] entries[i]).item.size,
        ) && !tied(entries[i], order)
}

/// The mean size of the entries, by the decimal arithmetic.
pub fn mean_of(entries: &Vec<TopNEntry<OrderTrackingItem>>) -> (r: Option<Amount>)
    ensures
        r is Some ==> mean_size(entries@) == Some(r->0.parts()),
        r is None ==> mean_size(entries@) is None,
{
    let mut total = Amount::whole(0);
    let mut i: usize = 0;
    assert(entries@.subrange(0, 0) =~= Seq::empty());
    while i < entries.len()
        invariant
            i <= entries.len(),
            total_size(entries@.subrange(0, i as int)) == Some(total.parts()),
        decreases entries.len() - i,
    {
        assert(entries@.subrange(0, i + 1).drop_last() =~= entries@.subrange(0, i as int));
        match total.plus(&entries[i].item.size) {
            Some(next) => {
                total = next;
            },
            None => {
                proof {
                    total_stays_undefined(entries@, i + 1);
                }
                return None;
            },
        }
        i = i + 1;
    }
    assert(entries@.subrange(0, i as int) =~= entries@);
    total.over(&Amount::whole(entries.len() as u64))
}

/// Once the total of the first `n` entries does not fit, neither does the
/// total of all.
pub proof fn total_stays_undefined(entries: Seq<TopNEntry<OrderTrackingItem>>, n: int)
    requires
        0 <= n <= entries.len(),
        total_size(entries.subrange(0, n)) is None,
    ensures
        total_size(entries) is None,
    decreases entries.len() - n,
{
    if n < entries.len() {
        assert(entries.subrange(0, n + 1).drop_last() =~= entries.subrange(0, n));
        total_stays_undefined(entries, n + 1);
    } else {
        assert(entries.subrange(0, n) =~= entries);
    }
}

/// Rules are equal where they are the same to a rule set.
impl PartialEq for ExpectedOrderRequestsRule {
    fn eq(&self, other: &Self) -> (r: bool) {
        self.is_same(other)
    }
}

impl PartialEqSpecImpl for ExpectedOrderRequestsRule {
    open spec fn obeys_eq_spec() -> bool {
        true
    }

    open spec fn eq_spec(&self, other: &Self) -> bool {
        self.same(*other)
    }
}

impl Eq for ExpectedOrderRequestsRule {

}

impl ExpectedOrderRequestsRule {
    pub open spec fn payload(self) -> ExpectedOrderRequestsRulePayload {
        match self {
            ExpectedOrderRequestsRule::Global(p) => p,
            ExpectedOrderRequestsRule::PerGrid(p) => p,
        }
    }

    pub open spec fn is_global(self) -> bool {
        self is Global
    }

    /// The same kind of rule with the same period and the same bounds by
    /// value: to a rule set they are one rule.
    pub open spec fn same(self, other: Self) -> bool {
        self.is_global() == other.is_global() && self.payload().same(other.payload())
    }

    /// Every rule is the same as itself.
    pub proof fn same_as_itself(self)
        ensures
            self.same(self),
    {
    }

    /// The rule applies to the order.
    pub open spec fn matches(self, order: TopNEntry<OrderTrackingItem>) -> bool {
        self.is_global() || self.payload().size_params.admits(order.item.size)
    }

    /// How `order` breaks the rule, given the entries recorded within the
    /// rule's period, or `None` if it does not.
    pub open spec fn violation(
        self,
        order: TopNEntry<OrderTrackingItem>,
        recent: Seq<TopNEntry<OrderTrackingItem>>,
    ) -> Option<Violation> {
        if self.is_global() {
            if recent.len() == 0 {
                None
            } else {
                match mean_size(recent) {
                    None => Some(Violation::MeanNotComputable),
                    Some(m) => if self.payload().size_params.admits_scaled(scaled_value(m.0, m.1)) {
                        None
                    } else {
                        Some(Violation::MeanOutOfBounds)
                    },
                }
            }
        } else if bucket_taken(self, order, recent) {
            Some(Violation::Repeated)
        } else {
            None
        }
    }

    pub fn get_payload(&self) -> (r: ExpectedOrderRequestsRulePayload)
        ensures
            r == self.payload(),
    {
        match self {
            ExpectedOrderRequestsRule::Global(p) => *p,
            ExpectedOrderRequestsRule::PerGrid(p) => *p,
        }
    }

    pub fn get_type(&self) -> (r: ExpectedOrderRequestsRuleType)
        ensures
            (r == ExpectedOrderRequestsRuleType::Global) == self.is_global(),
    {
        match self {
            ExpectedOrderRequestsRule::Global(_) => ExpectedOrderRequestsRuleType::Global,
            ExpectedOrderRequestsRule::PerGrid(_) => ExpectedOrderRequestsRuleType::PerGrid,
        }
    }

    pub fn is_same(&self, other: &Self) -> (r: bool)
        ensures
            r == self.same(*other),
    {
        match (self, other) {
            (
                ExpectedOrderRequestsRule::Global(a),
                ExpectedOrderRequestsRule::Global(b),
            ) => a.is_same(b),
            (
                ExpectedOrderRequestsRule::PerGrid(a),
                ExpectedOrderRequestsRule::PerGrid(b),
            ) => a.is_same(b),
            _ => false,
        }
    }

    /// Checks the order against the rule. `recent` is what was recorded for
    /// the order's symbol within the rule's period.
    pub fn validate(
        &self,
        order_request: &TopNEntry<OrderTrackingItem>,
        recent: &Vec<TopNEntry<OrderTrackingItem>>,
    ) -> (r: Result<(), Error>)
        ensures
            r == match self.violation(*order_request, recent@) {
                Some(v) => Err::<(), Error>(Error::RuleViolated(*self, v)),
                None => Ok::<(), Error>(()),
            },
    {
        match self {
            ExpectedOrderRequestsRule::Global(global_rule) => {
                if recent.len() == 0 {
                    return Ok(());
                }
                match mean_of(recent) {
                    None => Err(Error::RuleViolated(*self, Violation::MeanNotComputable)),
                    Some(mean) => {
                        if global_rule.size_params.accepts(&mean) {
                            Ok(())
                        } else {
                            Err(Error::RuleViolated(*self, Violation::MeanOutOfBounds))
                        }
                    },
                }
            },
            ExpectedOrderRequestsRule::PerGrid(per_grid_rule) => {
                let mut i: usize = 0;
                while i < recent.len()
                    invariant
                        i <= recent.len(),
                        *self == ExpectedOrderRequestsRule::PerGrid(*per_grid_rule),
                        forall|k: int|
                            0 <= k < i ==> !(per_grid_rule.size_params.admits(
                                (#[trigger] recent@[k]).item.size,
                            ) && !tied(recent@[k], *order_request)),
                    decreases recent.len() - i,
                {
                    if per_grid_rule.size_params.accepts(&recent[i].item.size) {
                        match recent[i].rank(order_request) {
                            Rank::Same => {},
                            _ => {
                                assert(bucket_taken(*self, *order_request, recent@));
                                return Err(Error::RuleViolated(*self, Violation::Repeated));
                            },
                        }
                    }
                    i = i + 1;
                }
                Ok(())
            },
        }
    }

    pub fn matches_order(&self, order: &TopNEntry<OrderTrackingItem>) -> (r: bool)
        ensures
            r == self.matches(*order),
    {
        match self {
            ExpectedOrderRequestsRule::Global(_) => true,
            ExpectedOrderRequestsRule::PerGrid(per_grid_rule) => per_grid_rule.size_params.accepts(
                &order.item.size,
            ),
        }
    }

    /// The length of the rule's period in seconds, if it is long enough.
    pub fn get_duration(&self) -> (r: Result<u128, Error>)
        ensures
            r == self.payload().period.get_validated_duration_spec(),
    {
        match self {
            ExpectedOrderRequestsRule::Global(global_rule) => global_rule.period.get_validated_duration(),
            ExpectedOrderRequestsRule::PerGrid(per_grid_rule) => per_grid_rule.period.get_validated_duration(),
        }
    }
}

} // verus!
