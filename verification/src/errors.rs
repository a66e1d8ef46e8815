//! Why the guard turns an order, a snapshot or an update down.

use vstd::prelude::*;
use vstd::string::*;
use crate::futures::utils::expected_order_requests::rule::ExpectedOrderRequestsRule;

verus! {

/// A field that an order must carry to be tracked.
#[derive(Debug, Clone, Copy, PartialEq, Eq, Structural)]
pub enum Field {
    Size,
    Price,
}

/// What a rule set lacks.
#[derive(Debug, Clone, Copy, PartialEq, Eq, Structural)]
pub enum RuleSetFault {
    /// No global rule is present.
    NoGlobalRule,
    /// A rule's period is shorter than the shortest period allowed.
    MalformedPeriod,
    /// No rule's period covers at least 52 weeks.
    NoLongHorizon,
    /// No rule's period lies between 1 and 48 hours.
    NoShortHorizon,
}

/// How an order breaks a rule.
#[derive(Debug, Clone, Copy, PartialEq, Eq, Structural)]
pub enum Violation {
    /// The mean size over the rule's period is outside the rule's bounds.
    MeanOutOfBounds,
    /// The mean size over the rule's period cannot be computed: the decimal
    /// arithmetic overflowed.
    MeanNotComputable,
    /// Another order of the rule's size bucket was submitted within the
    /// rule's period.
    Repeated,
}

/// Why an update of a symbol's dynamic rules is turned down.
#[derive(Debug, Clone, Copy, PartialEq, Eq, Structural)]
pub enum UpdateFault {
    /// The update holds no rule.
    NoRulesGiven,
    /// The symbol has no rules yet: global rules must be seeded first.
    NoRulesSeeded,
    /// The symbol's rules hold no global rule.
    NoGlobalRuleSeeded,
    /// The update holds a global rule.
    GlobalRuleGiven,
}

#[derive(Debug, Clone, PartialEq, Eq)]
pub enum Error {
    /// The order lacks a size or a price and cannot be tracked.
    MissingField(Field),
    /// A stored history cannot be read back.
    CorruptSnapshot,
    /// A history could not be stored.
    PersistenceFailure,
    /// The symbol has no rules.
    NoRulesConfigured,
    /// The symbol's rule set is not fit to validate anything.
    RuleSetInvalid(RuleSetFault),
    /// No rule of the symbol applies to the order.
    NoMatchingRule,
    /// The order breaks a rule that applies to it.
    RuleViolated(ExpectedOrderRequestsRule, Violation),
    /// The dynamic rules of a symbol cannot be replaced as asked.
    InvalidDynamicUpdate(UpdateFault),
    /// A history query names a period that the exchange does not know.
    InvalidPeriod(String),
}

impl Field {
    pub open spec fn name(self) -> Seq<char> {
        match self {
            Field::Size => "Quantity"@,
            Field::Price => "Price"@,
        }
    }

    pub fn get_name(&self) -> (r: String)
        ensures
            r@ == self.name(),
    {
        match self {
            Field::Size => "Quantity".to_owned(),
            Field::Price => "Price".to_owned(),
        }
    }
}

impl RuleSetFault {
    pub open spec fn reason(self) -> Seq<char> {
        match self {
            RuleSetFault::NoGlobalRule => "No global expected order requests rules found"@,
            RuleSetFault::MalformedPeriod => "Rule period duration must be at least 120 seconds"@,
            RuleSetFault::NoLongHorizon => "No rule found to cover at least 52 weeks"@,
            RuleSetFault::NoShortHorizon => "No rule found to cover somewhere between 1 and 48 hours"@,
        }
    }

    pub fn get_reason(&self) -> (r: String)
        ensures
            r@ == self.reason(),
    {
        match self {
            RuleSetFault::NoGlobalRule => "No global expected order requests rules found".to_owned(),
            RuleSetFault::MalformedPeriod => "Rule period duration must be at least 120 seconds".to_owned(),
            RuleSetFault::NoLongHorizon => "No rule found to cover at least 52 weeks".to_owned(),
            RuleSetFault::NoShortHorizon => "No rule found to cover somewhere between 1 and 48 hours".to_owned(),
        }
    }
}

impl Violation {
    pub open spec fn reason(self) -> Seq<char> {
        match self {
            Violation::MeanOutOfBounds => "Mean order size over the rule period is out of bounds"@,
            Violation::MeanNotComputable => "Mean order size over the rule period cannot be computed"@,
            Violation::Repeated => "Another order of the same size bucket was submitted within the rule period"@,
        }
    }

    pub fn get_reason(&self) -> (r: String)
        ensures
            r@ == self.reason(),
    {
        match self {
            Violation::MeanOutOfBounds => "Mean order size over the rule period is out of bounds".to_owned(),
            Violation::MeanNotComputable => "Mean order size over the rule period cannot be computed".to_owned(),
            Violation::Repeated => "Another order of the same size bucket was submitted within the rule period".to_owned(),
        }
    }
}

impl UpdateFault {
    pub open spec fn reason(self) -> Seq<char> {
        match self {
            UpdateFault::NoRulesGiven => "No rules provided"@,
            UpdateFault::NoRulesSeeded => "No rules found. Should be hardcoded before calling this function"@,
            UpdateFault::NoGlobalRuleSeeded => "No global rules found. Should be hardcoded before calling this function"@,
            UpdateFault::GlobalRuleGiven => "Global rules should not be submitted into this function, they should be hardcoded"@,
        }
    }

    pub fn get_reason(&self) -> (r: String)
        ensures
            r@ == self.reason(),
    {
        match self {
            UpdateFault::NoRulesGiven => "No rules provided".to_owned(),
            UpdateFault::NoRulesSeeded => "No rules found. Should be hardcoded before calling this function".to_owned(),
            UpdateFault::NoGlobalRuleSeeded => "No global rules found. Should be hardcoded before calling this function".to_owned(),
            UpdateFault::GlobalRuleGiven => "Global rules should not be submitted into this function, they should be hardcoded".to_owned(),
        }
    }
}

impl Error {
    /// What went wrong, in words.
    pub open spec fn msg(self) -> Seq<char> {
        match self {
            Error::MissingField(field) => field.name() + " is required to add order tracking item"@,
            Error::CorruptSnapshot => "Failed to load order tracker file"@,
            Error::PersistenceFailure => "Failed to save order tracker file"@,
            Error::NoRulesConfigured => "No expected order requests rules found"@,
            Error::RuleSetInvalid(fault) => fault.reason(),
            Error::NoMatchingRule => "No matching expected order requests rules found"@,
            Error::RuleViolated(_, violation) => "Order request violates rule. "@ + violation.reason(),
            Error::InvalidDynamicUpdate(fault) => fault.reason(),
            Error::InvalidPeriod(period) => "Invalid period: "@ + period@,
        }
    }

    pub fn get_msg(&self) -> (r: String)
        ensures
            r@ == self.msg(),
    {
        match self {
            Error::MissingField(field) => field.get_name().concat(
                " is required to add order tracking item",
            ),
            Error::CorruptSnapshot => "Failed to load order tracker file".to_owned(),
            Error::PersistenceFailure => "Failed to save order tracker file".to_owned(),
            Error::NoRulesConfigured => "No expected order requests rules found".to_owned(),
            Error::RuleSetInvalid(fault) => fault.get_reason(),
            Error::NoMatchingRule => "No matching expected order requests rules found".to_owned(),
            Error::RuleViolated(_, violation) => "Order request violates rule. ".to_owned().concat(
                violation.get_reason().as_str(),
            ),
            Error::InvalidDynamicUpdate(fault) => fault.get_reason(),
            Error::InvalidPeriod(period) => "Invalid period: ".to_owned().concat(period.as_str()),
        }
    }
}

} // verus!
