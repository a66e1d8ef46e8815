use order_guard::errors::{Error, RuleSetFault, UpdateFault, Violation};
use order_guard::futures::utils::amount::{Amount, MAX_UNITS};
use order_guard::futures::utils::expected_order_requests::rule::{mean_of, ExpectedOrderRequestsRule};
use order_guard::futures::utils::expected_order_requests::rule_payload::ExpectedOrderRequestsRulePayload;
use order_guard::futures::utils::expected_order_requests::rule_period::{
    RulePeriod, MIN_RULE_PERIOD_DURATION_SECS,
};
use order_guard::futures::utils::expected_order_requests::rule_set::{
    drop_repeats, holds_global, replace_dynamic_rules, validate_order, validate_rule_set,
    validate_rule_set_durations, LONG_HORIZON_SECS, SHORT_HORIZON_MAX_SECS, SHORT_HORIZON_MIN_SECS,
};
use order_guard::futures::utils::expected_order_requests::rules_map::validate_found;
use order_guard::futures::utils::expected_order_requests::rule_size_params::ExpectedOrderRequestsRuleSizeParams;
use order_guard::futures::utils::expected_order_requests::rule_type::ExpectedOrderRequestsRuleType;
use order_guard::futures::utils::order_tracking_item::OrderTrackingItem;
use order_guard::futures::utils::ranking::Rank;
use order_guard::futures::utils::top_n::TopNEntry;
use order_guard::rest_model::OrderSide;

fn amount(units: i128, places: u32) -> Amount {
    Amount::new(units, places).unwrap()
}

fn at_most(units: i128) -> ExpectedOrderRequestsRuleSizeParams {
    ExpectedOrderRequestsRuleSizeParams::Max(amount(units, 0))
}

fn between(min: i128, max: i128) -> ExpectedOrderRequestsRuleSizeParams {
    ExpectedOrderRequestsRuleSizeParams::MinMax { min: amount(min, 0), max: amount(max, 0) }
}

fn global(size_params: ExpectedOrderRequestsRuleSizeParams, period: RulePeriod) -> ExpectedOrderRequestsRule {
    ExpectedOrderRequestsRule::Global(ExpectedOrderRequestsRulePayload { size_params, period })
}

fn per_grid(size_params: ExpectedOrderRequestsRuleSizeParams, period: RulePeriod) -> ExpectedOrderRequestsRule {
    ExpectedOrderRequestsRule::PerGrid(ExpectedOrderRequestsRulePayload { size_params, period })
}

fn order(timestamp: u64, size: i128, id: &str) -> TopNEntry<OrderTrackingItem> {
    TopNEntry {
        timestamp,
        item: OrderTrackingItem {
            size: amount(size, 0),
            price: amount(100, 0),
            side: OrderSide::Buy,
            id: id.to_string(),
        },
    }
}

fn kinds(rules: &Vec<ExpectedOrderRequestsRule>) -> Vec<ExpectedOrderRequestsRuleType> {
    rules.iter().map(|r| r.get_type()).collect()
}

const HOUR_NANOS: u64 = 3_600_000_000_000;

#[test]
fn period_lengths_in_seconds() {
    assert_eq!(RulePeriod::Seconds(7).get_duration(), 7);
    assert_eq!(RulePeriod::Minutes(3).get_duration(), 180);
    assert_eq!(RulePeriod::Hours(2).get_duration(), 7_200);
    assert_eq!(RulePeriod::Days(2).get_duration(), 172_800);
    assert_eq!(RulePeriod::Weeks(52).get_duration(), 31_449_600);
    assert_eq!(RulePeriod::Weeks(u64::MAX).get_duration(), 18_446_744_073_709_551_615u128 * 604_800);
}

#[test]
fn period_shorter_than_the_minimum_is_malformed() {
    assert_eq!(MIN_RULE_PERIOD_DURATION_SECS, 120);
    assert!(matches!(RulePeriod::Seconds(120).get_validated_duration(), Ok(120)));
    assert!(matches!(RulePeriod::Minutes(2).get_validated_duration(), Ok(120)));
    assert!(matches!(
        RulePeriod::Seconds(119).get_validated_duration(),
        Err(Error::RuleSetInvalid(RuleSetFault::MalformedPeriod))
    ));
    assert!(matches!(
        RulePeriod::default().get_validated_duration(),
        Err(Error::RuleSetInvalid(RuleSetFault::MalformedPeriod))
    ));
    assert!(matches!(
        RulePeriod::Minutes(1).get_min_nanos_timestamp(HOUR_NANOS),
        Err(Error::RuleSetInvalid(RuleSetFault::MalformedPeriod))
    ));
}

#[test]
fn window_starts_one_period_before_now() {
    assert!(matches!(
        RulePeriod::Hours(1).get_min_nanos_timestamp(5_000_000_000_000),
        Ok(1_400_000_000_000)
    ));
    assert!(matches!(RulePeriod::Hours(1).get_min_nanos_timestamp(HOUR_NANOS), Ok(0)));
    assert!(matches!(RulePeriod::Hours(1).get_min_nanos_timestamp(HOUR_NANOS - 1), Ok(0)));
    assert!(matches!(RulePeriod::Weeks(u64::MAX).get_min_nanos_timestamp(u64::MAX), Ok(0)));
    assert_eq!(RulePeriod::Minutes(2).window_start(120_000_000_001), 1);
    assert_eq!(RulePeriod::Seconds(1).window_start(u64::MAX), u64::MAX - 1_000_000_000);
}

#[test]
fn rule_duration_is_that_of_its_period() {
    assert!(matches!(global(at_most(8), RulePeriod::Weeks(52)).get_duration(), Ok(31_449_600)));
    assert!(matches!(per_grid(at_most(8), RulePeriod::Hours(1)).get_duration(), Ok(3_600)));
    assert!(matches!(
        per_grid(at_most(8), RulePeriod::Seconds(5)).get_duration(),
        Err(Error::RuleSetInvalid(RuleSetFault::MalformedPeriod))
    ));
}

#[test]
fn bounds_include_their_ends() {
    let b = between(9, 11);
    assert!(b.accepts(&amount(9, 0)));
    assert!(b.accepts(&amount(110, 1)));
    assert!(!b.accepts(&amount(89, 1)));
    assert!(!b.accepts(&amount(1101, 2)));
    assert!(ExpectedOrderRequestsRuleSizeParams::Min(amount(5, 0)).accepts(&amount(5, 0)));
    assert!(!ExpectedOrderRequestsRuleSizeParams::Min(amount(5, 0)).accepts(&amount(49, 1)));
    assert!(at_most(8).accepts(&amount(8, 0)));
    assert!(!at_most(8).accepts(&amount(801, 2)));
}

#[test]
fn default_bounds_take_every_size_from_zero() {
    let d = ExpectedOrderRequestsRuleSizeParams::default();
    assert!(d.accepts(&amount(0, 0)));
    assert!(d.accepts(&amount(MAX_UNITS, 0)));
    assert!(!d.accepts(&amount(-1, 28)));
    match d {
        ExpectedOrderRequestsRuleSizeParams::MinMax { min, max } => {
            assert_eq!((min.mantissa(), min.scale()), (0, 0));
            assert_eq!((max.mantissa(), max.scale()), (MAX_UNITS, 0));
        }
        _ => panic!("the default bounds are a range"),
    }
}

#[test]
fn same_rules_are_same_by_value() {
    let a = per_grid(between(9, 11), RulePeriod::Hours(1));
    let b = per_grid(
        ExpectedOrderRequestsRuleSizeParams::MinMax { min: amount(90, 1), max: amount(1100, 2) },
        RulePeriod::Hours(1),
    );
    assert!(a.is_same(&b));
    assert!(!a.is_same(&per_grid(between(9, 11), RulePeriod::Minutes(60))));
    assert!(!a.is_same(&global(between(9, 11), RulePeriod::Hours(1))));
    assert!(!a.is_same(&per_grid(between(9, 12), RulePeriod::Hours(1))));
    assert!(!per_grid(at_most(9), RulePeriod::Hours(1))
        .is_same(&per_grid(ExpectedOrderRequestsRuleSizeParams::Min(amount(9, 0)), RulePeriod::Hours(1))));
    assert!(a.get_payload().is_same(&b.get_payload()));
}

#[test]
fn rule_kinds() {
    assert_eq!(global(at_most(1), RulePeriod::Hours(1)).get_type(), ExpectedOrderRequestsRuleType::Global);
    assert_eq!(per_grid(at_most(1), RulePeriod::Hours(1)).get_type(), ExpectedOrderRequestsRuleType::PerGrid);
    assert_eq!(ExpectedOrderRequestsRuleType::default(), ExpectedOrderRequestsRuleType::PerGrid);
}

#[test]
fn global_rule_matches_every_order_and_per_grid_its_bucket() {
    let g = global(at_most(8), RulePeriod::Weeks(52));
    let p = per_grid(between(9, 11), RulePeriod::Hours(1));
    assert!(g.matches_order(&order(1, 10, "a")));
    assert!(g.matches_order(&order(1, 1000, "a")));
    assert!(p.matches_order(&order(1, 10, "a")));
    assert!(p.matches_order(&order(1, 11, "a")));
    assert!(!p.matches_order(&order(1, 12, "a")));
    assert!(!p.matches_order(&order(1, 8, "a")));
}

#[test]
fn mean_of_sizes() {
    let m = mean_of(&vec![order(0, 5, "a"), order(1, 6, "b"), order(2, 10, "c")]).unwrap();
    assert_eq!(m.rank(&amount(7, 0)), Rank::Same);
    let m = mean_of(&vec![order(0, 5, "a"), order(1, 6, "b"), order(2, 10, "c"), order(3, 10, "d")])
        .unwrap();
    assert_eq!(m.rank(&amount(775, 2)), Rank::Same);
    assert!(mean_of(&vec![]).is_none());
    let huge = |t: u64, id: &str| {
        let mut o = order(t, 1, id);
        o.item.size = amount(MAX_UNITS, 0);
        o
    };
    assert!(mean_of(&vec![huge(0, "a"), huge(1, "b")]).is_none());
}

#[test]
fn global_rule_holds_the_mean_to_its_bounds() {
    let g = global(at_most(8), RulePeriod::Weeks(52));
    let o = order(2, 10, "c");
    assert!(g.validate(&o, &vec![order(0, 5, "a"), order(1, 6, "b"), order(2, 10, "c")]).is_ok());
    assert!(g.validate(&o, &vec![]).is_ok());
    match g.validate(&o, &vec![order(1, 7, "b"), order(2, 10, "c")]) {
        Err(Error::RuleViolated(rule, Violation::MeanOutOfBounds)) => assert!(rule.is_same(&g)),
        other => panic!("{other:?}"),
    }
    let mut huge = order(1, 1, "h");
    huge.item.size = amount(MAX_UNITS, 0);
    let mut huge2 = order(2, 1, "i");
    huge2.item.size = amount(MAX_UNITS, 0);
    assert!(matches!(
        g.validate(&o, &vec![huge, huge2]),
        Err(Error::RuleViolated(_, Violation::MeanNotComputable))
    ));
}

#[test]
fn per_grid_rule_takes_one_order_of_its_bucket() {
    let p = per_grid(between(9, 11), RulePeriod::Hours(1));
    let o = order(2, 10, "c");
    assert!(p.validate(&o, &vec![order(0, 5, "a"), order(1, 6, "b"), order(2, 10, "c")]).is_ok());
    assert!(p.validate(&o, &vec![]).is_ok());
    match p.validate(&o, &vec![order(1, 11, "b"), order(2, 10, "c")]) {
        Err(Error::RuleViolated(rule, Violation::Repeated)) => {
            assert!(rule.is_same(&p));
            assert_eq!(
                Error::RuleViolated(rule, Violation::Repeated).get_msg(),
                "Order request violates rule. Another order of the same size bucket was submitted within the rule period"
            );
        }
        other => panic!("{other:?}"),
    }
    assert!(matches!(
        p.validate(&o, &vec![order(2, 10, "c"), order(3, 10, "d")]),
        Err(Error::RuleViolated(_, Violation::Repeated))
    ));
}

#[test]
fn rule_set_needs_a_global_rule() {
    let rules = vec![
        per_grid(between(9, 11), RulePeriod::Hours(1)),
        per_grid(at_most(8), RulePeriod::Weeks(52)),
    ];
    assert!(!holds_global(&rules));
    assert!(matches!(
        validate_rule_set(&rules),
        Err(Error::RuleSetInvalid(RuleSetFault::NoGlobalRule))
    ));
    assert!(matches!(
        validate_rule_set(&vec![]),
        Err(Error::RuleSetInvalid(RuleSetFault::NoGlobalRule))
    ));
    assert!(validate_rule_set_durations(&rules).is_ok());
}

#[test]
fn rule_set_needs_both_horizons() {
    let long = global(at_most(8), RulePeriod::Weeks(52));
    let short = per_grid(between(9, 11), RulePeriod::Hours(48));
    assert!(validate_rule_set(&vec![long, short]).is_ok());
    assert!(matches!(
        validate_rule_set(&vec![long]),
        Err(Error::RuleSetInvalid(RuleSetFault::NoShortHorizon))
    ));
    assert!(matches!(
        validate_rule_set(&vec![global(at_most(8), RulePeriod::Hours(1))]),
        Err(Error::RuleSetInvalid(RuleSetFault::NoLongHorizon))
    ));
    assert!(matches!(
        validate_rule_set(&vec![global(at_most(8), RulePeriod::Days(363)), short]),
        Err(Error::RuleSetInvalid(RuleSetFault::NoLongHorizon))
    ));
    assert!(validate_rule_set(&vec![global(at_most(8), RulePeriod::Days(364)), short]).is_ok());
    assert!(matches!(
        validate_rule_set(&vec![long, per_grid(at_most(1), RulePeriod::Hours(49))]),
        Err(Error::RuleSetInvalid(RuleSetFault::NoShortHorizon))
    ));
    assert!(matches!(
        validate_rule_set(&vec![long, per_grid(at_most(1), RulePeriod::Minutes(59))]),
        Err(Error::RuleSetInvalid(RuleSetFault::NoShortHorizon))
    ));
    assert!(validate_rule_set(&vec![long, per_grid(at_most(1), RulePeriod::Minutes(60))]).is_ok());
    assert!(validate_rule_set(&vec![long, per_grid(at_most(1), RulePeriod::Minutes(2880))]).is_ok());
    assert!(validate_rule_set(&vec![long, per_grid(at_most(1), RulePeriod::Seconds(172_800))]).is_ok());
    for too_long in [RulePeriod::Seconds(172_801), RulePeriod::Minutes(2881), RulePeriod::Minutes(2910), RulePeriod::Minutes(2939)] {
        assert!(matches!(
            validate_rule_set(&vec![long, per_grid(at_most(1), too_long)]),
            Err(Error::RuleSetInvalid(RuleSetFault::NoShortHorizon))
        ));
    }
    assert!(matches!(
        validate_rule_set(&vec![long, per_grid(at_most(1), RulePeriod::Seconds(3_599))]),
        Err(Error::RuleSetInvalid(RuleSetFault::NoShortHorizon))
    ));
    assert!(validate_rule_set(&vec![global(at_most(8), RulePeriod::Seconds(31_449_600)), short]).is_ok());
    assert!(matches!(
        validate_rule_set(&vec![global(at_most(8), RulePeriod::Seconds(31_449_599)), short]),
        Err(Error::RuleSetInvalid(RuleSetFault::NoLongHorizon))
    ));
    assert!(matches!(
        validate_rule_set(&vec![global(at_most(8), RulePeriod::Weeks(52))]),
        Err(Error::RuleSetInvalid(RuleSetFault::NoShortHorizon))
    ));
    assert!(matches!(
        validate_rule_set(&vec![global(at_most(8), RulePeriod::Hours(48))]),
        Err(Error::RuleSetInvalid(RuleSetFault::NoLongHorizon))
    ));
    assert!(matches!(
        validate_rule_set(&vec![long, short, per_grid(at_most(1), RulePeriod::Seconds(60))]),
        Err(Error::RuleSetInvalid(RuleSetFault::MalformedPeriod))
    ));
    assert!(matches!(
        validate_rule_set_durations(&vec![]),
        Err(Error::RuleSetInvalid(RuleSetFault::NoLongHorizon))
    ));
}

#[test]
fn no_validation_without_a_global_rule() {
    let rules = vec![
        per_grid(between(9, 11), RulePeriod::Hours(1)),
        per_grid(between(9, 11), RulePeriod::Weeks(52)),
    ];
    let o = order(2, 10, "c");
    assert!(rules[0].matches_order(&o));
    assert!(rules[0].validate(&o, &vec![order(2, 10, "c")]).is_ok());
    assert!(matches!(
        validate_order(&rules, &o, &vec![order(2, 10, "c")]),
        Err(Error::RuleSetInvalid(RuleSetFault::NoGlobalRule))
    ));
}

#[test]
fn global_rule_applies_where_no_bucket_does() {
    let rules = vec![
        per_grid(between(9, 11), RulePeriod::Hours(1)),
        per_grid(between(1, 2), RulePeriod::Weeks(52)),
    ];
    assert!(matches!(
        validate_order(&rules, &order(2, 10, "c"), &vec![]),
        Err(Error::RuleSetInvalid(RuleSetFault::NoGlobalRule))
    ));
    // a global rule applies to every order, so a valid rule set always has one that applies
    let rules = vec![
        global(at_most(8), RulePeriod::Weeks(52)),
        per_grid(between(9, 11), RulePeriod::Hours(1)),
    ];
    let applied = validate_order(&rules, &order(2, 5, "c"), &vec![order(2, 5, "c")]).unwrap();
    assert_eq!(kinds(&applied), vec![ExpectedOrderRequestsRuleType::Global]);
}

#[test]
fn first_order_of_a_bucket_passes_and_the_second_within_the_hour_fails() {
    let rules = vec![
        global(at_most(8), RulePeriod::Weeks(52)),
        per_grid(between(9, 11), RulePeriod::Hours(1)),
    ];
    let mut recorded = vec![order(0, 5, "a"), order(1, 6, "b")];
    let first = order(2, 10, "c");
    recorded.push(order(2, 10, "c"));
    let applied = validate_order(&rules, &first, &recorded).unwrap();
    assert_eq!(
        kinds(&applied),
        vec![ExpectedOrderRequestsRuleType::Global, ExpectedOrderRequestsRuleType::PerGrid]
    );
    assert!(applied[0].is_same(&rules[0]));
    assert!(applied[1].is_same(&rules[1]));
    let second = order(3, 10, "d");
    recorded.push(order(3, 10, "d"));
    match validate_order(&rules, &second, &recorded) {
        Err(Error::RuleViolated(rule, Violation::Repeated)) => assert!(rule.is_same(&rules[1])),
        other => panic!("{other:?}"),
    }
}

#[test]
fn order_of_a_bucket_passes_again_once_the_hour_is_over() {
    let rules = vec![
        global(at_most(8), RulePeriod::Weeks(52)),
        per_grid(between(9, 11), RulePeriod::Hours(1)),
    ];
    let recorded = vec![order(0, 5, "a"), order(1, 6, "b"), order(2, 10, "c"), order(HOUR_NANOS + 3, 10, "d")];
    assert!(validate_order(&rules, &order(HOUR_NANOS + 3, 10, "d"), &recorded).is_ok());
    let recorded = vec![order(0, 5, "a"), order(1, 6, "b"), order(2, 10, "c"), order(HOUR_NANOS + 2, 10, "d")];
    assert!(matches!(
        validate_order(&rules, &order(HOUR_NANOS + 2, 10, "d"), &recorded),
        Err(Error::RuleViolated(_, Violation::Repeated))
    ));
}

#[test]
fn first_broken_rule_is_reported() {
    let rules = vec![
        global(at_most(6), RulePeriod::Weeks(52)),
        per_grid(between(9, 11), RulePeriod::Hours(1)),
    ];
    let recorded = vec![order(0, 5, "a"), order(1, 10, "b"), order(2, 10, "c")];
    match validate_order(&rules, &order(2, 10, "c"), &recorded) {
        Err(Error::RuleViolated(rule, Violation::MeanOutOfBounds)) => assert!(rule.is_same(&rules[0])),
        other => panic!("{other:?}"),
    }
}

#[test]
fn empty_update_is_turned_down() {
    let existing = vec![global(at_most(8), RulePeriod::Weeks(52))];
    assert!(matches!(
        replace_dynamic_rules(Some(&existing), &vec![]),
        Err(Error::InvalidDynamicUpdate(UpdateFault::NoRulesGiven))
    ));
    assert!(matches!(
        replace_dynamic_rules(None, &vec![]),
        Err(Error::InvalidDynamicUpdate(UpdateFault::NoRulesGiven))
    ));
}

#[test]
fn update_needs_seeded_global_rules() {
    let new_rules = vec![per_grid(between(9, 11), RulePeriod::Hours(1))];
    assert!(matches!(
        replace_dynamic_rules(None, &new_rules),
        Err(Error::InvalidDynamicUpdate(UpdateFault::NoRulesSeeded))
    ));
    assert!(matches!(
        replace_dynamic_rules(Some(&vec![]), &new_rules),
        Err(Error::InvalidDynamicUpdate(UpdateFault::NoRulesSeeded))
    ));
    assert!(matches!(
        replace_dynamic_rules(Some(&vec![per_grid(at_most(1), RulePeriod::Hours(1))]), &new_rules),
        Err(Error::InvalidDynamicUpdate(UpdateFault::NoGlobalRuleSeeded))
    ));
}

#[test]
fn update_with_a_global_rule_is_turned_down() {
    let existing = vec![global(at_most(8), RulePeriod::Weeks(52))];
    let new_rules = vec![
        per_grid(between(9, 11), RulePeriod::Hours(1)),
        global(at_most(9), RulePeriod::Weeks(52)),
    ];
    assert!(matches!(
        replace_dynamic_rules(Some(&existing), &new_rules),
        Err(Error::InvalidDynamicUpdate(UpdateFault::GlobalRuleGiven))
    ));
}

#[test]
fn update_replaces_the_dynamic_rules_and_keeps_the_global_ones() {
    let g1 = global(at_most(8), RulePeriod::Weeks(52));
    let g2 = global(at_most(20), RulePeriod::Hours(2));
    let old = per_grid(between(1, 2), RulePeriod::Hours(1));
    let n1 = per_grid(between(9, 11), RulePeriod::Hours(1));
    let n2 = per_grid(between(12, 14), RulePeriod::Hours(1));
    let updated = replace_dynamic_rules(Some(&vec![old, g1, old, g2]), &vec![n1, n2, n1]).unwrap();
    assert_eq!(updated.len(), 4);
    assert!(updated[0].is_same(&g1));
    assert!(updated[1].is_same(&g2));
    assert!(updated[2].is_same(&n1));
    assert!(updated[3].is_same(&n2));
    let globals: Vec<_> = updated.iter().filter(|r| r.get_type() == ExpectedOrderRequestsRuleType::Global).collect();
    assert_eq!(globals.len(), 2);
}

#[test]
fn repeats_are_dropped_by_value() {
    let a = per_grid(between(9, 11), RulePeriod::Hours(1));
    let a2 = per_grid(
        ExpectedOrderRequestsRuleSizeParams::MinMax { min: amount(900, 2), max: amount(11, 0) },
        RulePeriod::Hours(1),
    );
    let b = per_grid(between(9, 11), RulePeriod::Hours(2));
    let kept = drop_repeats(&vec![a, b, a2, b, a]);
    assert_eq!(kept.len(), 2);
    assert!(kept[0].is_same(&a));
    assert!(kept[1].is_same(&b));
    assert!(drop_repeats(&vec![]).is_empty());
}

#[test]
fn horizons_in_seconds() {
    assert_eq!(LONG_HORIZON_SECS, 52 * 7 * 24 * 3600);
    assert_eq!(SHORT_HORIZON_MIN_SECS, 3600);
    assert_eq!(SHORT_HORIZON_MAX_SECS, 48 * 3600);
}

#[test]
fn no_rules_found_means_no_validation() {
    let o = order(2, 10, "c");
    assert_eq!(validate_found(None, None, &o), Err(Error::NoRulesConfigured));
    assert_eq!(validate_found(None, Some(vec![order(2, 10, "c")]), &o), Err(Error::NoRulesConfigured));
}

#[test]
fn found_rules_judge_the_order_by_the_found_entries() {
    let g = global(at_most(8), RulePeriod::Weeks(52));
    let p = per_grid(between(9, 11), RulePeriod::Hours(1));
    let o = order(2, 10, "c");
    // no history found: no recorded orders
    assert_eq!(validate_found(Some(vec![g, p]), None, &o), Ok(vec![g, p]));
    assert_eq!(validate_found(Some(vec![g, p]), Some(vec![]), &o), Ok(vec![g, p]));
    assert_eq!(
        validate_found(Some(vec![g, p]), Some(vec![order(0, 5, "a"), order(1, 6, "b"), order(2, 10, "c")]), &o),
        Ok(vec![g, p])
    );
    assert_eq!(
        validate_found(Some(vec![g, p]), Some(vec![order(1, 10, "b"), order(2, 10, "c")]), &o),
        Err(Error::RuleViolated(g, Violation::MeanOutOfBounds))
    );
    assert_eq!(
        validate_found(Some(vec![g, p]), Some(vec![order(0, 1, "a"), order(1, 10, "b"), order(2, 10, "c")]), &o),
        Err(Error::RuleViolated(p, Violation::Repeated))
    );
    assert_eq!(
        validate_found(Some(vec![p]), None, &o),
        Err(Error::RuleSetInvalid(RuleSetFault::NoGlobalRule))
    );
    assert_eq!(
        validate_found(Some(vec![]), None, &o),
        Err(Error::RuleSetInvalid(RuleSetFault::NoGlobalRule))
    );
    assert_eq!(
        validate_found(Some(vec![g]), None, &o),
        Err(Error::RuleSetInvalid(RuleSetFault::NoShortHorizon))
    );
}
