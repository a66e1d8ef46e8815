//! What holds of a symbol's rules taken together, and how an order is held
//! to them.

use vstd::prelude::*;
use crate::errors::{Error, RuleSetFault, UpdateFault, Violation};
use crate::futures::utils::expected_order_requests::rule::{bucket_taken, ExpectedOrderRequestsRule};
use crate::futures::utils::order_tracking_item::OrderTrackingItem;
use crate::futures::utils::top_n::{entries_since, since, TopNEntry};

verus! {

/// The seconds that the long horizon must reach: 52 weeks.
pub const LONG_HORIZON_SECS: u128 = 31_449_600;

/// The short horizon lies between these seconds, both included: one hour
/// and 48 hours.
pub const SHORT_HORIZON_MIN_SECS: u128 = 3_600;

pub const SHORT_HORIZON_MAX_SECS: u128 = 172_800;

pub open spec fn has_global(rules: Seq<ExpectedOrderRequestsRule>) -> bool {
    exists|i: int| 0 <= i < rules.len() && (#[trigger] rules[i]).is_global()
}

pub open spec fn all_long_enough(rules: Seq<ExpectedOrderRequestsRule>) -> bool {
    forall|i: int| 0 <= i < rules.len() ==> (#[trigger] rules[i]).payload().period.long_enough()
}

/// A period of that many seconds covers the long horizon: it lasts 52 weeks
/// or more.
pub open spec fn is_long_horizon(seconds: int) -> bool {
    seconds >= LONG_HORIZON_SECS
}

/// A period of that many seconds is a short horizon: it lasts no less than
/// one hour and no more than 48 hours.
pub open spec fn is_short_horizon(seconds: int) -> bool {
    SHORT_HORIZON_MIN_SECS <= seconds <= SHORT_HORIZON_MAX_SECS
}

pub open spec fn covers_long_horizon(rules: Seq<ExpectedOrderRequestsRule>) -> bool {
    exists|i: int|
        0 <= i < rules.len() && is_long_horizon((#[trigger] rules[i]).payload().period.seconds())
}

pub open spec fn covers_short_horizon(rules: Seq<ExpectedOrderRequestsRule>) -> bool {
    exists|i: int|
        0 <= i < rules.len() && is_short_horizon((#[trigger] rules[i]).payload().period.seconds())
}

/// What is wrong with the periods of a rule set, the first of: a period
/// that is too short, no long horizon, no short horizon.
pub open spec fn period_fault(rules: Seq<ExpectedOrderRequestsRule>) -> Option<RuleSetFault> {
    if !all_long_enough(rules) {
        Some(RuleSetFault::MalformedPeriod)
    } else if !covers_long_horizon(rules) {
        Some(RuleSetFault::NoLongHorizon)
    } else if !covers_short_horizon(rules) {
        Some(RuleSetFault::NoShortHorizon)
    } else {
        None
    }
}

/// What is wrong with a rule set: no global rule, or else what is wrong
/// with its periods.
pub open spec fn rule_set_fault(rules: Seq<ExpectedOrderRequestsRule>) -> Option<RuleSetFault> {
    if !has_global(rules) {
        Some(RuleSetFault::NoGlobalRule)
    } else {
        period_fault(rules)
    }
}

/// No period is both a long and a short horizon, so a rule set whose
/// periods are in order holds two rules or more.
pub proof fn fit_periods_take_two_rules(rules: Seq<ExpectedOrderRequestsRule>)
    requires
        period_fault(rules) is None,
    ensures
        rules.len() >= 2,
{
    let long = choose|i: int|
        0 <= i < rules.len() && is_long_horizon((#[trigger] rules[i]).payload().period.seconds());
    let short = choose|i: int|
        0 <= i < rules.len() && is_short_horizon((#[trigger] rules[i]).payload().period.seconds());
    assert(long != short);
}

/// The rules that apply to the order, in the order of the rule set.
pub open spec fn applicable(
    rules: Seq<ExpectedOrderRequestsRule>,
    order: TopNEntry<OrderTrackingItem>,
) -> Seq<ExpectedOrderRequestsRule> {
    rules.filter(|r: ExpectedOrderRequestsRule| r.matches(order))
}

/// What of `entries` was recorded within the rule's period before the order.
pub open spec fn window(
    rule: ExpectedOrderRequestsRule,
    order: TopNEntry<OrderTrackingItem>,
    entries: Seq<TopNEntry<OrderTrackingItem>>,
) -> Seq<TopNEntry<OrderTrackingItem>> {
    since(entries, rule.payload().period.start_before(order.timestamp) as u64)
}

/// The first rule of the set that applies to the order and that the order
/// breaks, with the way it breaks it.
pub open spec fn first_violation(
    rules: Seq<ExpectedOrderRequestsRule>,
    order: TopNEntry<OrderTrackingItem>,
    entries: Seq<TopNEntry<OrderTrackingItem>>,
) -> Option<Error>
    decreases rules.len(),
{
    if rules.len() == 0 {
        None
    } else {
        match first_violation(rules.drop_last(), order, entries) {
            Some(e) => Some(e),
            None => {
                let rule = rules.last();
                if rule.matches(order) {
                    match rule.violation(order, window(rule, order, entries)) {
                        Some(v) => Some(Error::RuleViolated(rule, v)),
                        None => None,
                    }
                } else {
                    None
                }
            },
        }
    }
}

/// What validating `order` against `rules` and the recorded `entries` of
/// its symbol gives: the fault of the rule set, or that no rule applies, or
/// the first rule broken, or else the rules that apply, all satisfied.
pub open spec fn verdict(
    rules: Seq<ExpectedOrderRequestsRule>,
    order: TopNEntry<OrderTrackingItem>,
    entries: Seq<TopNEntry<OrderTrackingItem>>,
) -> Result<Seq<ExpectedOrderRequestsRule>, Error> {
    match rule_set_fault(rules) {
        Some(f) => Err(Error::RuleSetInvalid(f)),
        None => if applicable(rules, order).len() == 0 {
            Err(Error::NoMatchingRule)
        } else {
            match first_violation(rules, order, entries) {
                Some(e) => Err(e),
                None => Ok(applicable(rules, order)),
            }
        },
    }
}

/// `r` is the result that `model` describes: the same error, or the same
/// rules in the same order.
pub open spec fn gives(
    r: Result<Vec<ExpectedOrderRequestsRule>, Error>,
    model: Result<Seq<ExpectedOrderRequestsRule>, Error>,
) -> bool {
    match r {
        Ok(v) => model == Ok::<Seq<ExpectedOrderRequestsRule>, Error>(v@),
        Err(e) => model == Err::<Seq<ExpectedOrderRequestsRule>, Error>(e),
    }
}

/// The global rules of a rule set, in its order.
pub open spec fn globals(rules: Seq<ExpectedOrderRequestsRule>) -> Seq<ExpectedOrderRequestsRule> {
    rules.filter(|r: ExpectedOrderRequestsRule| r.is_global())
}

/// `rules` holds a rule that is the same as `r`.
pub open spec fn listed(rules: Seq<ExpectedOrderRequestsRule>, r: ExpectedOrderRequestsRule) -> bool {
    exists|i: int| 0 <= i < rules.len() && (#[trigger] rules[i]).same(r)
}

/// `rules` with every rule left out that is the same as one kept before it.
pub open spec fn without_repeats(rules: Seq<ExpectedOrderRequestsRule>) -> Seq<
    ExpectedOrderRequestsRule,
>
    decreases rules.len(),
{
    if rules.len() == 0 {
        Seq::empty()
    } else {
        let kept = without_repeats(rules.drop_last());
        if listed(kept, rules.last()) {
            kept
        } else {
            kept.push(rules.last())
        }
    }
}

/// Why `new_rules` cannot replace the dynamic rules of a symbol whose
/// rules are `existing`, `None` standing for a symbol without rules.
pub open spec fn update_fault(
    existing: Option<Seq<ExpectedOrderRequestsRule>>,
    new_rules: Seq<ExpectedOrderRequestsRule>,
) -> Option<UpdateFault> {
    if new_rules.len() == 0 {
        Some(UpdateFault::NoRulesGiven)
    } else if existing is None || existing->0.len() == 0 {
        Some(UpdateFault::NoRulesSeeded)
    } else if !has_global(existing->0) {
        Some(UpdateFault::NoGlobalRuleSeeded)
    } else if has_global(new_rules) {
        Some(UpdateFault::GlobalRuleGiven)
    } else {
        None
    }
}

/// The rule set after the update: the global rules that were there, then
/// the new rules.
pub open spec fn updated(
    existing: Seq<ExpectedOrderRequestsRule>,
    new_rules: Seq<ExpectedOrderRequestsRule>,
) -> Seq<ExpectedOrderRequestsRule> {
    globals(existing) + without_repeats(new_rules)
}

/// Checks that the periods of a rule set are long enough and cover both
/// horizons.
pub fn validate_rule_set_durations(rules: &Vec<ExpectedOrderRequestsRule>) -> (r: Result<(), Error>)
    ensures
        r == match period_fault(rules@) {
            Some(f) => Err::<(), Error>(Error::RuleSetInvalid(f)),
            None => Ok::<(), Error>(()),
        },
{
    let mut found_at_least_52_weeks = false;
    let mut found_hours_until_two_days = false;
    let mut i: usize = 0;
    while i < rules.len()
        invariant
            i <= rules.len(),
            forall|k: int| 0 <= k < i ==> (#[trigger] rules@[k]).payload().period.long_enough(),
            found_at_least_52_weeks == covers_long_horizon(rules@.subrange(0, i as int)),
            found_hours_until_two_days == covers_short_horizon(rules@.subrange(0, i as int)),
        decreases rules.len() - i,
    {
        let secs = match rules[i].get_duration() {
            Ok(duration) => duration,
            Err(_) => {
                assert(!rules@[i as int].payload().period.long_enough());
                return Err(Error::RuleSetInvalid(RuleSetFault::MalformedPeriod));
            },
        };
        let ghost before = rules@.subrange(0, i as int);
        let ghost upto = rules@.subrange(0, i + 1);
        let long = secs >= LONG_HORIZON_SECS;
        let short = secs >= SHORT_HORIZON_MIN_SECS && secs <= SHORT_HORIZON_MAX_SECS;
        proof {
            assert(long == is_long_horizon(upto[i as int].payload().period.seconds()));
            assert(short == is_short_horizon(upto[i as int].payload().period.seconds()));
            if covers_long_horizon(before) {
                let k = choose|k: int|
                    0 <= k < before.len() && is_long_horizon(
                        (#[trigger] before[k]).payload().period.seconds(),
                    );
                assert(upto[k] == before[k]);
            }
            if covers_short_horizon(before) {
                let k = choose|k: int|
                    0 <= k < before.len() && is_short_horizon(
                        (#[trigger] before[k]).payload().period.seconds(),
                    );
                assert(upto[k] == before[k]);
            }
            if covers_long_horizon(upto) {
                let k = choose|k: int|
                    0 <= k < upto.len() && is_long_horizon(
                        (#[trigger] upto[k]).payload().period.seconds(),
                    );
                if k < i {
                    assert(before[k] == upto[k]);
                }
            }
            if covers_short_horizon(upto) {
                let k = choose|k: int|
                    0 <= k < upto.len() && is_short_horizon(
                        (#[trigger] upto[k]).payload().period.seconds(),
                    );
                if k < i {
                    assert(before[k] == upto[k]);
                }
            }
        }
        if long {
            found_at_least_52_weeks = true;
        }
        if short {
            found_hours_until_two_days = true;
        }
        i = i + 1;
    }
    assert(rules@.subrange(0, i as int) =~= rules@);
    if !found_at_least_52_weeks {
        return Err(Error::RuleSetInvalid(RuleSetFault::NoLongHorizon));
    }
    if !found_hours_until_two_days {
        return Err(Error::RuleSetInvalid(RuleSetFault::NoShortHorizon));
    }
    Ok(())
}

/// Whether a rule set holds a global rule.
pub fn holds_global(rules: &Vec<ExpectedOrderRequestsRule>) -> (r: bool)
    ensures
        r == has_global(rules@),
{
    let mut i: usize = 0;
    while i < rules.len()
        invariant
            i <= rules.len(),
            forall|k: int| 0 <= k < i ==> !(#[trigger] rules@[k]).is_global(),
        decreases rules.len() - i,
    {
        match rules[i] {
            ExpectedOrderRequestsRule::Global(_) => {
                return true;
            },
            ExpectedOrderRequestsRule::PerGrid(_) => {},
        }
        i = i + 1;
    }
    false
}

/// Checks that a rule set is fit to validate orders: it holds a global
/// rule, and its periods are long enough and cover both horizons.
pub fn validate_rule_set(rules: &Vec<ExpectedOrderRequestsRule>) -> (r: Result<(), Error>)
    ensures
        r == match rule_set_fault(rules@) {
            Some(f) => Err::<(), Error>(Error::RuleSetInvalid(f)),
            None => Ok::<(), Error>(()),
        },
{
    let found_global_rules = holds_global(rules);
    if !found_global_rules {
        return Err(Error::RuleSetInvalid(RuleSetFault::NoGlobalRule));
    }
    validate_rule_set_durations(rules)
}

/// Validates an order against the rules of its symbol and the entries
/// recorded for it.
pub fn validate_order(
    rules: &Vec<ExpectedOrderRequestsRule>,
    tracking_item_wrapper: &TopNEntry<OrderTrackingItem>,
    history: &Vec<TopNEntry<OrderTrackingItem>>,
) -> (r: Result<Vec<ExpectedOrderRequestsRule>, Error>)
    ensures
        gives(r, verdict(rules@, *tracking_item_wrapper, history@)),
{
    match validate_rule_set(rules) {
        Err(e) => {
            return Err(e);
        },
        Ok(_) => {},
    }
    let ghost order = *tracking_item_wrapper;
    let ghost keep = |r: ExpectedOrderRequestsRule| r.matches(order);
    let mut validated_rules: Vec<ExpectedOrderRequestsRule> = Vec::new();
    let mut i: usize = 0;
    assert(rules@.subrange(0, 0) =~= Seq::empty());
    while i < rules.len()
        invariant
            i <= rules.len(),
            order == *tracking_item_wrapper,
            rule_set_fault(rules@) is None,
            keep == (|r: ExpectedOrderRequestsRule| r.matches(order)),
            validated_rules@ == rules@.subrange(0, i as int).filter(keep),
            first_violation(rules@.subrange(0, i as int), order, history@) is None,
        decreases rules.len() - i,
    {
        proof {
            assert(rules@.subrange(0, i + 1).drop_last() =~= rules@.subrange(0, i as int));
            reveal(Seq::filter);
        }
        let rule = rules[i];
        if rule.matches_order(tracking_item_wrapper) {
            let start = rule.get_payload().period.window_start(tracking_item_wrapper.timestamp);
            let recent = entries_since(history, start);
            match rule.validate(tracking_item_wrapper, &recent) {
                Err(e) => {
                    proof {
                        assert(first_violation(rules@.subrange(0, i + 1), order, history@) == Some(
                            e,
                        ));
                        violation_stays(rules@, i + 1, order, history@);
                        assert(applicable(rules@.subrange(0, i + 1), order) == validated_rules@.push(
                            rule,
                        ));
                        applicable_grows(rules@, i + 1, order);
                    }
                    return Err(e);
                },
                Ok(_) => {
                    validated_rules.push(rule);
                },
            }
        }
        i = i + 1;
    }
    assert(rules@.subrange(0, i as int) =~= rules@);
    if validated_rules.len() == 0 {
        return Err(Error::NoMatchingRule);
    }
    Ok(validated_rules)
}

/// A violation among the first `n` rules is the first violation of all.
pub proof fn violation_stays(
    rules: Seq<ExpectedOrderRequestsRule>,
    n: int,
    order: TopNEntry<OrderTrackingItem>,
    entries: Seq<TopNEntry<OrderTrackingItem>>,
)
    requires
        0 <= n <= rules.len(),
        first_violation(rules.subrange(0, n), order, entries) is Some,
    ensures
        first_violation(rules, order, entries) == first_violation(
            rules.subrange(0, n),
            order,
            entries,
        ),
    decreases rules.len() - n,
{
    if n < rules.len() {
        assert(rules.subrange(0, n + 1).drop_last() =~= rules.subrange(0, n));
        violation_stays(rules, n + 1, order, entries);
    } else {
        assert(rules.subrange(0, n) =~= rules);
    }
}

/// The rules that apply among the first `n` are among those that apply of
/// all: there are no fewer of the latter.
pub proof fn applicable_grows(
    rules: Seq<ExpectedOrderRequestsRule>,
    n: int,
    order: TopNEntry<OrderTrackingItem>,
)
    requires
        0 <= n <= rules.len(),
    ensures
        applicable(rules.subrange(0, n), order).len() <= applicable(rules, order).len(),
    decreases rules.len() - n,
{
    if n < rules.len() {
        assert(rules.subrange(0, n + 1).drop_last() =~= rules.subrange(0, n));
        reveal(Seq::filter);
        applicable_grows(rules, n + 1, order);
    } else {
        assert(rules.subrange(0, n) =~= rules);
    }
}

/// The rule set that replaces `existing` when `new_rules` are given as the
/// symbol's dynamic rules: the global rules that were there, then the new
/// rules without repeats. `None` stands for a symbol without rules.
pub fn replace_dynamic_rules(
    existing: Option<&Vec<ExpectedOrderRequestsRule>>,
    rules: &Vec<ExpectedOrderRequestsRule>,
) -> (r: Result<Vec<ExpectedOrderRequestsRule>, Error>)
    ensures
        gives(
            r,
            match update_fault(
                match existing {
                    Some(e) => Some(e@),
                    None => None,
                },
                rules@,
            ) {
                Some(f) => Err(Error::InvalidDynamicUpdate(f)),
                None => Ok(updated(existing->0@, rules@)),
            },
        ),
{
    if rules.len() == 0 {
        return Err(Error::InvalidDynamicUpdate(UpdateFault::NoRulesGiven));
    }
    let existing_rules = match existing {
        Some(e) => e,
        None => {
            return Err(Error::InvalidDynamicUpdate(UpdateFault::NoRulesSeeded));
        },
    };
    if existing_rules.len() == 0 {
        return Err(Error::InvalidDynamicUpdate(UpdateFault::NoRulesSeeded));
    }
    let mut new_set: Vec<ExpectedOrderRequestsRule> = Vec::new();
    let ghost keep = |r: ExpectedOrderRequestsRule| r.is_global();
    let mut i: usize = 0;
    assert(existing_rules@.subrange(0, 0) =~= Seq::empty());
    while i < existing_rules.len()
        invariant
            i <= existing_rules.len(),
            keep == (|r: ExpectedOrderRequestsRule| r.is_global()),
            new_set@ == existing_rules@.subrange(0, i as int).filter(keep),
            new_set@.len() == 0 ==> forall|k: int|
                0 <= k < i ==> !(#[trigger] existing_rules@[k]).is_global(),
        decreases existing_rules.len() - i,
    {
        proof {
            assert(existing_rules@.subrange(0, i + 1).drop_last() =~= existing_rules@.subrange(
                0,
                i as int,
            ));
            reveal(Seq::filter);
        }
        match existing_rules[i] {
            ExpectedOrderRequestsRule::Global(_) => {
                new_set.push(existing_rules[i]);
            },
            ExpectedOrderRequestsRule::PerGrid(_) => {},
        }
        i = i + 1;
    }
    assert(existing_rules@.subrange(0, i as int) =~= existing_rules@);
    if new_set.len() == 0 {
        return Err(Error::InvalidDynamicUpdate(UpdateFault::NoGlobalRuleSeeded));
    }
    proof {
        globals_are_listed(existing_rules@);
    }
    if holds_global(rules) {
        return Err(Error::InvalidDynamicUpdate(UpdateFault::GlobalRuleGiven));
    }
    let kept = drop_repeats(rules);
    let mut j: usize = 0;
    let ghost head = new_set@;
    while j < kept.len()
        invariant
            j <= kept.len(),
            new_set@ == head + kept@.subrange(0, j as int),
        decreases kept.len() - j,
    {
        new_set.push(kept[j]);
        assert(new_set@ =~= head + kept@.subrange(0, j + 1));
        j = j + 1;
    }
    assert(kept@.subrange(0, j as int) =~= kept@);
    Ok(new_set)
}

/// A rule set with a global rule has a global rule among its globals.
pub proof fn globals_are_listed(rules: Seq<ExpectedOrderRequestsRule>)
    ensures
        has_global(rules) == (globals(rules).len() > 0),
    decreases rules.len(),
{
    reveal(Seq::filter);
    if rules.len() > 0 {
        globals_are_listed(rules.drop_last());
        if has_global(rules) {
            let k = choose|k: int| 0 <= k < rules.len() && (#[trigger] rules[k]).is_global();
            if k < rules.len() - 1 {
                assert(rules.drop_last()[k].is_global());
            }
        }
        if has_global(rules.drop_last()) {
            let k = choose|k: int|
                0 <= k < rules.drop_last().len() && (#[trigger] rules.drop_last()[k]).is_global();
            assert(rules[k].is_global());
        }
        if rules.last().is_global() {
            assert(rules[rules.len() - 1].is_global());
        }
    }
}

/// The rules without those that are the same as one kept before them.
pub fn drop_repeats(rules: &Vec<ExpectedOrderRequestsRule>) -> (r: Vec<ExpectedOrderRequestsRule>)
    ensures
        r@ == without_repeats(rules@),
{
    let mut kept: Vec<ExpectedOrderRequestsRule> = Vec::new();
    let mut i: usize = 0;
    assert(rules@.subrange(0, 0) =~= Seq::empty());
    while i < rules.len()
        invariant
            i <= rules.len(),
            kept@ == without_repeats(rules@.subrange(0, i as int)),
        decreases rules.len() - i,
    {
        assert(rules@.subrange(0, i + 1).drop_last() =~= rules@.subrange(0, i as int));
        let rule = rules[i];
        let mut seen = false;
        let mut k: usize = 0;
        while k < kept.len() && !seen
            invariant
                k <= kept.len(),
                seen ==> listed(kept@, rule),
                !seen ==> forall|m: int| 0 <= m < k ==> !(#[trigger] kept@[m]).same(rule),
            decreases kept.len() - k + (if seen { 0int } else { 1int }),
        {
            if kept[k].is_same(&rule) {
                seen = true;
            } else {
                k = k + 1;
            }
        }
        if !seen {
            kept.push(rule);
        }
        i = i + 1;
    }
    assert(rules@.subrange(0, i as int) =~= rules@);
    kept
}

/// No rule of the set that applies to the order is broken, if no first
/// violation is found.
pub proof fn no_violation_means_none_broken(
    rules: Seq<ExpectedOrderRequestsRule>,
    order: TopNEntry<OrderTrackingItem>,
    entries: Seq<TopNEntry<OrderTrackingItem>>,
)
    requires
        first_violation(rules, order, entries) is None,
    ensures
        forall|i: int|
            0 <= i < rules.len() && (#[trigger] rules[i]).matches(order) ==> rules[i].violation(
                order,
                window(rules[i], order, entries),
            ) is None,
    decreases rules.len(),
{
    if rules.len() > 0 {
        no_violation_means_none_broken(rules.drop_last(), order, entries);
        assert forall|i: int| 0 <= i < rules.len() && (#[trigger] rules[i]).matches(
            order,
        ) implies rules[i].violation(order, window(rules[i], order, entries)) is None by {
            if i < rules.len() - 1 {
                assert(rules.drop_last()[i] == rules[i]);
            }
        }
    }
}

/// No first violation is found where no rule of the set that applies to
/// the order is broken.
pub proof fn none_broken_means_no_violation(
    rules: Seq<ExpectedOrderRequestsRule>,
    order: TopNEntry<OrderTrackingItem>,
    entries: Seq<TopNEntry<OrderTrackingItem>>,
)
    requires
        forall|i: int|
            0 <= i < rules.len() && (#[trigger] rules[i]).matches(order) ==> rules[i].violation(
                order,
                window(rules[i], order, entries),
            ) is None,
    ensures
        first_violation(rules, order, entries) is None,
    decreases rules.len(),
{
    if rules.len() > 0 {
        let init = rules.drop_last();
        assert forall|i: int| 0 <= i < init.len() && (#[trigger] init[i]).matches(
            order,
        ) implies init[i].violation(order, window(init[i], order, entries)) is None by {
            assert(init[i] == rules[i]);
        }
        none_broken_means_no_violation(init, order, entries);
        assert(rules[rules.len() - 1] == rules.last());
    }
}

/// An order passes where the rule set is fit to validate, the order breaks
/// no global rule, and of no bucket that the order falls in another order
/// was recorded within the bucket's period: the first order of a bucket
/// within the period. The rules that apply are returned, and there are some.
pub proof fn first_order_of_its_bucket_passes(
    rules: Seq<ExpectedOrderRequestsRule>,
    order: TopNEntry<OrderTrackingItem>,
    entries: Seq<TopNEntry<OrderTrackingItem>>,
)
    requires
        rule_set_fault(rules) is None,
        forall|i: int|
            0 <= i < rules.len() && (#[trigger] rules[i]).is_global() ==> rules[i].violation(
                order,
                window(rules[i], order, entries),
            ) is None,
        forall|i: int|
            0 <= i < rules.len() && !(#[trigger] rules[i]).is_global() && rules[i].matches(order)
                ==> !bucket_taken(rules[i], order, window(rules[i], order, entries)),
    ensures
        verdict(rules, order, entries) == Ok::<Seq<ExpectedOrderRequestsRule>, Error>(
            applicable(rules, order),
        ),
        applicable(rules, order).len() > 0,
{
    global_rule_always_applies(rules, order);
    none_broken_means_no_violation(rules, order, entries);
}

/// An order is refused where the rule set is fit to validate, another order
/// of a bucket that the order falls in was recorded within the bucket's
/// period, and the order breaks no rule that stands before the bucket's rule
/// in the set: the second order of a bucket within the period. The error
/// names the bucket's rule.
pub proof fn repeated_order_of_a_bucket_is_refused(
    rules: Seq<ExpectedOrderRequestsRule>,
    k: int,
    order: TopNEntry<OrderTrackingItem>,
    entries: Seq<TopNEntry<OrderTrackingItem>>,
)
    requires
        rule_set_fault(rules) is None,
        0 <= k < rules.len(),
        !rules[k].is_global(),
        rules[k].matches(order),
        bucket_taken(rules[k], order, window(rules[k], order, entries)),
        forall|i: int|
            0 <= i < k && (#[trigger] rules[i]).matches(order) ==> rules[i].violation(
                order,
                window(rules[i], order, entries),
            ) is None,
    ensures
        verdict(rules, order, entries) == Err::<Seq<ExpectedOrderRequestsRule>, Error>(
            Error::RuleViolated(rules[k], Violation::Repeated),
        ),
{
    global_rule_always_applies(rules, order);
    let before = rules.subrange(0, k);
    let upto = rules.subrange(0, k + 1);
    assert forall|i: int| 0 <= i < before.len() && (#[trigger] before[i]).matches(
        order,
    ) implies before[i].violation(order, window(before[i], order, entries)) is None by {
        assert(before[i] == rules[i]);
    }
    none_broken_means_no_violation(before, order, entries);
    assert(upto.drop_last() =~= before);
    assert(upto.last() == rules[k]);
    assert(first_violation(upto, order, entries) == Some(
        Error::RuleViolated(rules[k], Violation::Repeated),
    ));
    violation_stays(rules, k + 1, order, entries);
}

/// Validation is all or nothing: where an order is accepted, the rules
/// returned are the rules of the set that apply to it, each of them is a
/// rule of the set, and the order breaks none of them.
pub proof fn accepted_order_breaks_no_rule(
    rules: Seq<ExpectedOrderRequestsRule>,
    order: TopNEntry<OrderTrackingItem>,
    entries: Seq<TopNEntry<OrderTrackingItem>>,
)
    requires
        verdict(rules, order, entries) is Ok,
    ensures
        verdict(rules, order, entries)->Ok_0 == applicable(rules, order),
        rule_set_fault(rules) is None,
        forall|i: int|
            0 <= i < rules.len() && (#[trigger] rules[i]).matches(order) ==> rules[i].violation(
                order,
                window(rules[i], order, entries),
            ) is None,
        forall|j: int|
            0 <= j < applicable(rules, order).len() ==> rules.contains(
                #[trigger] applicable(rules, order)[j],
            ) && applicable(rules, order)[j].matches(order),
{
    no_violation_means_none_broken(rules, order, entries);
    let keep = |r: ExpectedOrderRequestsRule| r.matches(order);
    assert forall|j: int| 0 <= j < applicable(rules, order).len() implies rules.contains(
        #[trigger] applicable(rules, order)[j],
    ) && applicable(rules, order)[j].matches(order) by {
        let r = applicable(rules, order)[j];
        assert(rules.filter(keep).contains(r));
        rules.lemma_filter_pred(keep, j);
        rules.lemma_filter_contains_rev(keep, r);
    }
}

/// No rule of the sequence is the same as one before it: the sequence is a
/// set of rules.
pub open spec fn distinct(rules: Seq<ExpectedOrderRequestsRule>) -> bool {
    forall|i: int, j: int| 0 <= i < j < rules.len() ==> !(#[trigger] rules[i]).same(#[trigger] rules[j])
}

/// What is kept when repeats are dropped is a set of rules, each of them
/// one of the rules given.
pub proof fn kept_rules_are_distinct(rules: Seq<ExpectedOrderRequestsRule>)
    ensures
        distinct(without_repeats(rules)),
        forall|j: int|
            0 <= j < without_repeats(rules).len() ==> rules.contains(
                #[trigger] without_repeats(rules)[j],
            ),
        forall|i: int| 0 <= i < rules.len() ==> listed(without_repeats(rules), #[trigger] rules[i]),
    decreases rules.len(),
{
    if rules.len() > 0 {
        let init = rules.drop_last();
        let last = rules.last();
        kept_rules_are_distinct(init);
        let kept = without_repeats(init);
        let now = without_repeats(rules);
        assert forall|j: int| 0 <= j < now.len() implies rules.contains(#[trigger] now[j]) by {
            if j < kept.len() {
                assert(init.contains(kept[j]));
                let k = choose|k: int| 0 <= k < init.len() && init[k] == kept[j];
                assert(rules[k] == now[j]);
            } else {
                assert(rules[rules.len() - 1] == now[j]);
            }
        }
        assert forall|i: int| 0 <= i < rules.len() implies listed(now, #[trigger] rules[i]) by {
            if i < rules.len() - 1 {
                assert(init[i] == rules[i]);
                assert(listed(kept, init[i]));
                let k = choose|k: int| 0 <= k < kept.len() && (#[trigger] kept[k]).same(rules[i]);
                assert(now[k].same(rules[i]));
            } else if listed(kept, last) {
            } else {
                last.same_as_itself();
                assert(now[now.len() - 1].same(rules[i]));
            }
        }
    }
}

/// The rule set after an accepted update is a set of rules if the rule set
/// before it was one.
pub proof fn update_keeps_rules_distinct(
    existing: Seq<ExpectedOrderRequestsRule>,
    new_rules: Seq<ExpectedOrderRequestsRule>,
)
    requires
        update_fault(Some(existing), new_rules) is None,
        distinct(existing),
    ensures
        distinct(updated(existing, new_rules)),
{
    let keep = |r: ExpectedOrderRequestsRule| r.is_global();
    let g = globals(existing);
    let n = without_repeats(new_rules);
    let u = updated(existing, new_rules);
    kept_rules_are_distinct(new_rules);
    globals_stay_distinct(existing);
    assert forall|i: int, j: int| 0 <= i < j < u.len() implies !(#[trigger] u[i]).same(
        #[trigger] u[j],
    ) by {
        if j < g.len() {
            assert(!g[i].same(g[j]));
        } else if i < g.len() {
            existing.lemma_filter_pred(keep, i);
            assert(g[i].is_global());
            let x = n[j - g.len()];
            assert(new_rules.contains(x));
            let k = choose|k: int| 0 <= k < new_rules.len() && new_rules[k] == x;
            assert(!new_rules[k].is_global());
        } else {
            assert(!n[i - g.len()].same(n[j - g.len()]));
        }
    }
}

/// The global rules of a set of rules are a set of rules.
pub proof fn globals_stay_distinct(rules: Seq<ExpectedOrderRequestsRule>)
    requires
        distinct(rules),
    ensures
        distinct(globals(rules)),
        forall|j: int|
            0 <= j < globals(rules).len() ==> rules.contains(#[trigger] globals(rules)[j]),
    decreases rules.len(),
{
    reveal(Seq::filter);
    if rules.len() > 0 {
        let init = rules.drop_last();
        let last = rules.last();
        assert forall|i: int, j: int| 0 <= i < j < init.len() implies !(#[trigger] init[i]).same(
            #[trigger] init[j],
        ) by {
            assert(!rules[i].same(rules[j]));
        }
        globals_stay_distinct(init);
        let g = globals(init);
        let now = globals(rules);
        assert forall|j: int| 0 <= j < now.len() implies rules.contains(#[trigger] now[j]) by {
            if j < g.len() {
                assert(init.contains(g[j]));
                let k = choose|k: int| 0 <= k < init.len() && init[k] == g[j];
                assert(rules[k] == now[j]);
            } else {
                assert(rules[rules.len() - 1] == now[j]);
            }
        }
        assert forall|i: int, j: int| 0 <= i < j < now.len() implies !(#[trigger] now[i]).same(
            #[trigger] now[j],
        ) by {
            if j < g.len() {
                assert(!g[i].same(g[j]));
            } else {
                assert(init.contains(g[i]));
                let k = choose|k: int| 0 <= k < init.len() && init[k] == g[i];
                assert(!rules[k].same(rules[rules.len() - 1]));
            }
        }
    }
}

/// A rule set without a global rule is never fit to validate an order,
/// whatever rules of it apply to the order and would be satisfied.
pub proof fn no_validation_without_global(
    rules: Seq<ExpectedOrderRequestsRule>,
    order: TopNEntry<OrderTrackingItem>,
    entries: Seq<TopNEntry<OrderTrackingItem>>,
)
    requires
        !has_global(rules),
    ensures
        verdict(rules, order, entries) == Err::<Seq<ExpectedOrderRequestsRule>, Error>(
            Error::RuleSetInvalid(RuleSetFault::NoGlobalRule),
        ),
{
}

/// A global rule applies to every order, so of a rule set that holds one
/// some rule applies to any order: a rule set that is fit to validate never
/// leaves an order without a rule.
pub proof fn global_rule_always_applies(
    rules: Seq<ExpectedOrderRequestsRule>,
    order: TopNEntry<OrderTrackingItem>,
)
    requires
        has_global(rules),
    ensures
        applicable(rules, order).len() > 0,
    decreases rules.len(),
{
    reveal(Seq::filter);
    if rules.len() > 0 {
        if !rules.last().is_global() {
            let k = choose|k: int| 0 <= k < rules.len() && (#[trigger] rules[k]).is_global();
            assert(rules.drop_last()[k].is_global());
            global_rule_always_applies(rules.drop_last(), order);
        }
    }
}

/// What is kept of rules without a global rule holds no global rule.
pub proof fn no_global_among_kept(rules: Seq<ExpectedOrderRequestsRule>)
    requires
        !has_global(rules),
    ensures
        globals(without_repeats(rules)).len() == 0,
    decreases rules.len(),
{
    reveal(Seq::filter);
    if rules.len() > 0 {
        let init = rules.drop_last();
        if has_global(init) {
            let k = choose|k: int| 0 <= k < init.len() && (#[trigger] init[k]).is_global();
            assert(rules[k].is_global());
        }
        no_global_among_kept(init);
        assert(!rules[rules.len() - 1].is_global());
        let kept = without_repeats(init);
        if !listed(kept, rules.last()) {
            assert(kept.push(rules.last()).drop_last() =~= kept);
        }
    }
}

/// The global rules of a rule set are their own global rules.
pub proof fn globals_of_globals(rules: Seq<ExpectedOrderRequestsRule>)
    ensures
        globals(globals(rules)) == globals(rules),
    decreases rules.len(),
{
    reveal(Seq::filter);
    if rules.len() > 0 {
        globals_of_globals(rules.drop_last());
        let g = globals(rules.drop_last());
        if rules.last().is_global() {
            assert(g.push(rules.last()).drop_last() =~= g);
        }
    }
}

/// An update that is accepted neither removes nor brings in a global rule:
/// the global rules of the new rule set are those of the old one.
pub proof fn update_keeps_globals(
    existing: Seq<ExpectedOrderRequestsRule>,
    new_rules: Seq<ExpectedOrderRequestsRule>,
)
    requires
        update_fault(Some(existing), new_rules) is None,
    ensures
        globals(updated(existing, new_rules)) == globals(existing),
{
    let keep = |r: ExpectedOrderRequestsRule| r.is_global();
    globals_of_globals(existing);
    no_global_among_kept(new_rules);
    Seq::filter_distributes_over_add(globals(existing), without_repeats(new_rules), keep);
    assert(globals(without_repeats(new_rules)) =~= Seq::empty());
    assert(globals(existing) + Seq::<ExpectedOrderRequestsRule>::empty() =~= globals(existing));
}

} // verus!
