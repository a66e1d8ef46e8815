//! What the guard records of one submitted order.

use vstd::prelude::*;
use vstd::std_specs::cmp::PartialEqSpecImpl;
use crate::futures::utils::amount::Amount;
use crate::futures::utils::ranking::{
    tied, text_before, text_before_is_asymmetric, text_before_is_total, text_before_is_transitive, Rank,
    Ranked,
};
use crate::futures::utils::text::rank_text;
use crate::rest_model::OrderSide;

verus! {

#[derive(Debug, Clone)]
pub struct OrderTrackingItem {
    pub size: Amount,
    pub price: Amount,
    pub side: OrderSide,
    pub id: String,
}

/// Where a side stands in the order of sides: buy before sell.
pub open spec fn side_index(side: OrderSide) -> int {
    match side {
        OrderSide::Buy => 0,
        OrderSide::Sell => 1,
    }
}

/// Records are ordered by id, then price, then size, then side.
impl Ranked for OrderTrackingItem {
    open spec fn before(self, other: Self) -> bool {
        ||| text_before(self.id@, other.id@)
        ||| self.id@ == other.id@ && self.price.scaled() < other.price.scaled()
        ||| self.id@ == other.id@ && self.price.scaled() == other.price.scaled()
            && self.size.scaled() < other.size.scaled()
        ||| self.id@ == other.id@ && self.price.scaled() == other.price.scaled()
            && self.size.scaled() == other.size.scaled() && side_index(self.side) < side_index(
            other.side,
        )
    }

    proof fn before_is_asymmetric(a: Self, b: Self) {
        if text_before(a.id@, b.id@) {
            text_before_is_asymmetric(a.id@, b.id@);
        }
        if text_before(b.id@, a.id@) {
            text_before_is_asymmetric(b.id@, a.id@);
        }
    }

    proof fn before_is_transitive(a: Self, b: Self, c: Self) {
        if text_before(a.id@, b.id@) && text_before(b.id@, c.id@) {
            text_before_is_transitive(a.id@, b.id@, c.id@);
        }
    }

    proof fn tie_keeps_before(a: Self, b: Self, c: Self) {
        same_key_when_tied(a, b);
    }

    proof fn before_keeps_tie(a: Self, b: Self, c: Self) {
        same_key_when_tied(b, c);
    }

    fn rank(&self, other: &Self) -> (r: Rank) {
        proof {
            if text_before(self.id@, other.id@) {
                text_before_is_asymmetric(self.id@, other.id@);
            }
            if text_before(other.id@, self.id@) {
                text_before_is_asymmetric(other.id@, self.id@);
            }
        }
        match rank_text(self.id.as_str(), other.id.as_str()) {
            Rank::Before => Rank::Before,
            Rank::After => Rank::After,
            Rank::Same => {
                proof {
                    text_before_is_total(self.id@, other.id@);
                }
                match self.price.rank(&other.price) {
                    Rank::Before => Rank::Before,
                    Rank::After => Rank::After,
                    Rank::Same => match self.size.rank(&other.size) {
                        Rank::Before => Rank::Before,
                        Rank::After => Rank::After,
                        Rank::Same => match (self.side, other.side) {
                            (OrderSide::Buy, OrderSide::Sell) => Rank::Before,
                            (OrderSide::Sell, OrderSide::Buy) => Rank::After,
                            _ => Rank::Same,
                        },
                    },
                }
            },
        }
    }

    fn duplicate(&self) -> (r: Self) {
        OrderTrackingItem {
            size: self.size,
            price: self.price,
            side: self.side,
            id: self.id.clone(),
        }
    }
}

/// Records are equal where neither precedes the other.
impl PartialEq for OrderTrackingItem {
    fn eq(&self, other: &Self) -> (r: bool) {
        match self.rank(other) {
            Rank::Same => true,
            _ => false,
        }
    }
}

impl PartialEqSpecImpl for OrderTrackingItem {
    open spec fn obeys_eq_spec() -> bool {
        true
    }

    open spec fn eq_spec(&self, other: &Self) -> bool {
        tied(*self, *other)
    }
}

impl Eq for OrderTrackingItem {

}

/// Two records of which neither precedes the other have the same id, the
/// same price and size by value, and the same side.
pub proof fn same_key_when_tied(a: OrderTrackingItem, b: OrderTrackingItem)
    requires
        !a.before(b),
        !b.before(a),
    ensures
        a.id@ == b.id@,
        a.price.scaled() == b.price.scaled(),
        a.size.scaled() == b.size.scaled(),
        a.side == b.side,
{
    text_before_is_total(a.id@, b.id@);
}

} // verus!
