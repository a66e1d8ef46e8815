//! The rules of every symbol, shared by all who place orders.
//!
//! Global rules are seeded when the process starts. Updates replace a
//! symbol's per-grid rules only, and hold the symbol's slot while they do.

use vstd::prelude::*;
use crate::errors::{Error, UpdateFault};
use crate::futures::utils::expected_order_requests::rule::ExpectedOrderRequestsRule;
use crate::futures::utils::expected_order_requests::rule_set::{
    drop_repeats, gives, replace_dynamic_rules, update_fault, updated, validate_order, verdict,
    without_repeats,
};
use crate::futures::utils::order_tracker::{get_all_tracking_items, OrderHistoryRegistry};
use crate::futures::utils::order_tracking_item::OrderTrackingItem;
use crate::futures::utils::slots::{find_slot, hold_slot, open_slots};
use crate::futures::utils::top_n::{ascending, TopNEntry};

verus! {

/// The rules in a slot held for writing.
pub uninterp spec fn slot_rules(
    slot: dashmap::mapref::one::RefMut<String, Vec<ExpectedOrderRequestsRule>>,
) -> Seq<ExpectedOrderRequestsRule>;

/// The rules in a slot held for reading.
pub uninterp spec fn found_rules(
    slot: dashmap::mapref::one::Ref<String, Vec<ExpectedOrderRequestsRule>>,
) -> Seq<ExpectedOrderRequestsRule>;

/// The rule set of every symbol that has one.
pub struct RuleRegistry {
    slots: dashmap::DashMap<String, Vec<ExpectedOrderRequestsRule>>,
}

/// The rules in a slot held for reading, from `Ref::value`. While the slot
/// is held nobody changes what is in it.
#[verifier::external_body]
fn peek_slot<'a>(
    slot: &'a dashmap::mapref::one::Ref<String, Vec<ExpectedOrderRequestsRule>>,
) -> (rules: &'a Vec<ExpectedOrderRequestsRule>)
    ensures
        rules@ == found_rules(*slot),
{
    slot.value()
}

/// The rules in a slot held for writing, from `RefMut::value`.
#[verifier::external_body]
fn read_slot<'a>(
    slot: &'a dashmap::mapref::one::RefMut<String, Vec<ExpectedOrderRequestsRule>>,
) -> (rules: &'a Vec<ExpectedOrderRequestsRule>)
    ensures
        rules@ == slot_rules(*slot),
{
    slot.value()
}

/// Replaces the rules in a slot held for writing, through
/// `RefMut::value_mut`.
#[verifier::external_body]
fn write_slot(
    slot: &mut dashmap::mapref::one::RefMut<String, Vec<ExpectedOrderRequestsRule>>,
    rules: Vec<ExpectedOrderRequestsRule>,
)
    ensures
        slot_rules(*final(slot)) == rules@,
{
    *slot.value_mut() = rules;
}

/// Whether an update of a symbol whose rules are `existing` is accepted,
/// and why not if it is not.
pub open spec fn update_outcome(
    existing: Seq<ExpectedOrderRequestsRule>,
    new_rules: Seq<ExpectedOrderRequestsRule>,
) -> Result<(), Error> {
    match update_fault(Some(existing), new_rules) {
        Some(f) => Err(Error::InvalidDynamicUpdate(f)),
        None => Ok(()),
    }
}

impl RuleRegistry {
    /// A registry in which no symbol has rules.
    pub fn new() -> (r: Self) {
        RuleRegistry { slots: open_slots() }
    }

    /// Sets the rules of a symbol, global rules and others, as the
    /// operator does when the process starts. Whatever the symbol had is
    /// replaced by the rules given, without repeats.
    pub fn seed_rules(&self, symbol: String, rules: &Vec<ExpectedOrderRequestsRule>) {
        let mut slot = hold_slot(&self.slots, symbol);
        seed_slot(&mut slot, rules);
    }

    /// A copy of the rules that the symbol has at the moment; `None` for a
    /// symbol without a slot. The symbol's slot is looked up in the shared
    /// map, and what is returned is what `rules_in` gives for what was found.
    pub fn rules_for_symbol(&self, symbol: &String) -> (r: Option<Vec<ExpectedOrderRequestsRule>>) {
        let found = find_slot(&self.slots, symbol.as_str());
        rules_in(&found)
    }
}

/// A copy of the rules of what was found for a symbol: `None` where no slot
/// was found, else the rules in the slot, in their order.
pub fn rules_in(
    found: &Option<dashmap::mapref::one::Ref<String, Vec<ExpectedOrderRequestsRule>>>,
) -> (r: Option<Vec<ExpectedOrderRequestsRule>>)
    ensures
        found is None ==> r is None,
        found is Some ==> r is Some && r->0@ == found_rules(found->0),
{
    match found {
        Some(slot) => Some(peek_slot(slot).clone()),
        None => None,
    }
}

/// Sets the rules in a held slot to the rules given, without repeats.
pub fn seed_slot(
    slot: &mut dashmap::mapref::one::RefMut<String, Vec<ExpectedOrderRequestsRule>>,
    rules: &Vec<ExpectedOrderRequestsRule>,
)
    ensures
        slot_rules(*final(slot)) == without_repeats(rules@),
{
    let kept = drop_repeats(rules);
    write_slot(slot, kept);
}

/// Replaces the per-grid rules in a held slot by `rules` and keeps its
/// global rules. An update that is turned down leaves the slot as it was.
pub fn update_slot(
    slot: &mut dashmap::mapref::one::RefMut<String, Vec<ExpectedOrderRequestsRule>>,
    rules: &Vec<ExpectedOrderRequestsRule>,
) -> (r: Result<(), Error>)
    ensures
        r == update_outcome(slot_rules(*old(slot)), rules@),
        r is Ok ==> slot_rules(*final(slot)) == updated(slot_rules(*old(slot)), rules@),
        r is Err ==> slot_rules(*final(slot)) == slot_rules(*old(slot)),
{
    match replace_dynamic_rules(Some(read_slot(slot)), rules) {
        Ok(new_set) => {
            write_slot(slot, new_set);
            Ok(())
        },
        Err(e) => Err(e),
    }
}

/// Replaces the per-grid rules of a symbol by `rules` and keeps its global
/// rules. The update is turned down if it holds no rule or a global rule,
/// or if the symbol has no rules or no global rule; what the symbol has then
/// stays, but for a symbol without a slot, which gets one with no rules.
/// What is returned is what `replace_dynamic_rules` gives for the rules that
/// the symbol had when its slot was taken hold of.
pub fn set_rules_for_symbol(
    registry: &RuleRegistry,
    symbol: String,
    rules: Vec<ExpectedOrderRequestsRule>,
) -> (r: Result<(), Error>)
    ensures
        rules@.len() == 0 ==> r == Err::<(), Error>(
            Error::InvalidDynamicUpdate(UpdateFault::NoRulesGiven),
        ),
        exists|existing: Seq<ExpectedOrderRequestsRule>| r == #[trigger] update_outcome(existing, rules@),
{
    if rules.len() == 0 {
        let r = Err(Error::InvalidDynamicUpdate(UpdateFault::NoRulesGiven));
        assert(r == update_outcome(Seq::<ExpectedOrderRequestsRule>::empty(), rules@));
        return r;
    }
    let mut existing_rules = hold_slot(&registry.slots, symbol);
    update_slot(&mut existing_rules, &rules)
}

/// The rules and the recorded orders that an order is judged by, given
/// what was found for its symbol: no judgement for a symbol without rules,
/// and no recorded orders for a symbol without a history.
pub open spec fn judgement(
    rules: Option<Vec<ExpectedOrderRequestsRule>>,
    entries: Option<Vec<TopNEntry<OrderTrackingItem>>>,
    order: TopNEntry<OrderTrackingItem>,
) -> Result<Seq<ExpectedOrderRequestsRule>, Error> {
    match rules {
        None => Err(Error::NoRulesConfigured),
        Some(found) => verdict(
            found@,
            order,
            match entries {
                Some(e) => e@,
                None => Seq::empty(),
            },
        ),
    }
}

/// Validates an order against what was found for its symbol. A symbol for
/// which no rules were found has no order validated. Otherwise the order is
/// held to the rules found and to the recorded orders found, which are none
/// where no history was found.
pub fn validate_found(
    rules: Option<Vec<ExpectedOrderRequestsRule>>,
    entries: Option<Vec<TopNEntry<OrderTrackingItem>>>,
    order: &TopNEntry<OrderTrackingItem>,
) -> (r: Result<Vec<ExpectedOrderRequestsRule>, Error>)
    ensures
        rules is None ==> r == Err::<Vec<ExpectedOrderRequestsRule>, Error>(
            Error::NoRulesConfigured,
        ),
        rules is Some ==> gives(
            r,
            verdict(
                rules->0@,
                *order,
                match entries {
                    Some(e) => e@,
                    None => Seq::empty(),
                },
            ),
        ),
        gives(r, judgement(rules, entries, *order)),
{
    let rules = match rules {
        Some(rules) => rules,
        None => {
            return Err(Error::NoRulesConfigured);
        },
    };
    let entries = match entries {
        Some(entries) => entries,
        None => Vec::new(),
    };
    validate_order(&rules, order, &entries)
}

/// Validates an order that was recorded for `symbol` against the symbol's
/// rules and recorded orders as they are at the moment. The symbol's rules
/// and its recorded orders are looked up in the shared maps, and what is
/// returned is what `validate_found` gives for what was found.
pub fn validate_order_request(
    registry: &RuleRegistry,
    histories: &OrderHistoryRegistry,
    symbol: &String,
    tracking_item_wrapper: &TopNEntry<OrderTrackingItem>,
) -> (r: Result<Vec<ExpectedOrderRequestsRule>, Error>)
    ensures
        exists|
            rules: Option<Vec<ExpectedOrderRequestsRule>>,
            entries: Option<Vec<TopNEntry<OrderTrackingItem>>>,
        |
            gives(r, #[trigger] judgement(rules, entries, *tracking_item_wrapper)) && (entries is Some
                ==> ascending(entries->0@)),
{
    let rules = registry.rules_for_symbol(symbol);
    let entries = get_all_tracking_items(histories, symbol);
    let ghost found_rules = rules;
    let ghost found_entries = entries;
    let r = validate_found(rules, entries, tracking_item_wrapper);
    assert(gives(r, judgement(found_rules, found_entries, *tracking_item_wrapper)));
    r
}

} // verus!
