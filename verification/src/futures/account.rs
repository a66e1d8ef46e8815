//! Requests that the futures account sends.

use vstd::prelude::*;
use vstd::std_specs::convert::FromSpecImpl;
use crate::futures::rest_model::{OrderType, PositionSide, WorkingType};
use crate::futures::utils::amount::Amount;
use crate::rest_model::{OrderSide, TimeInForce};

verus! {

#[derive(Debug, Clone)]
pub struct GetOrderRequest {
    pub symbol: String,
    pub order_id: Option<String>,
    pub orig_client_order_id: Option<String>,
}

/// An order as it is about to be sent.
#[derive(Debug, Clone)]
pub struct OrderRequest {
    pub symbol: String,
    pub side: OrderSide,
    pub position_side: Option<PositionSide>,
    pub order_type: OrderType,
    pub time_in_force: Option<TimeInForce>,
    pub quantity: Option<Amount>,
    pub reduce_only: Option<bool>,
    pub price: Option<Amount>,
    pub stop_price: Option<Amount>,
    pub close_position: Option<bool>,
    pub activation_price: Option<Amount>,
    pub callback_rate: Option<Amount>,
    pub working_type: Option<WorkingType>,
    pub price_protect: Option<bool>,
    pub new_client_order_id: Option<String>,
}

impl OrderRequest {
    /// A limit order to buy.
    pub fn limit_buy(symbol: String, qty: Amount, price: Amount, time_in_force: TimeInForce) -> (r:
        Self)
        ensures
            r == limit_order(symbol, OrderSide::Buy, qty, price, time_in_force),
    {
        OrderRequest {
            symbol,
            side: OrderSide::Buy,
            position_side: None,
            order_type: OrderType::Limit,
            time_in_force: Some(time_in_force),
            quantity: Some(qty),
            reduce_only: None,
            price: Some(price),
            stop_price: None,
            close_position: None,
            activation_price: None,
            callback_rate: None,
            working_type: None,
            price_protect: None,
            new_client_order_id: None,
        }
    }

    /// A limit order to sell.
    pub fn limit_sell(symbol: String, qty: Amount, price: Amount, time_in_force: TimeInForce) -> (r:
        Self)
        ensures
            r == limit_order(symbol, OrderSide::Sell, qty, price, time_in_force),
    {
        OrderRequest {
            symbol,
            side: OrderSide::Sell,
            position_side: None,
            order_type: OrderType::Limit,
            time_in_force: Some(time_in_force),
            quantity: Some(qty),
            reduce_only: None,
            price: Some(price),
            stop_price: None,
            close_position: None,
            activation_price: None,
            callback_rate: None,
            working_type: None,
            price_protect: None,
            new_client_order_id: None,
        }
    }

    /// A market order to buy.
    pub fn market_buy(symbol: String, qty: Amount) -> (r: Self)
        ensures
            r == market_order(symbol, OrderSide::Buy, qty),
    {
        OrderRequest {
            symbol,
            side: OrderSide::Buy,
            position_side: None,
            order_type: OrderType::Market,
            time_in_force: None,
            quantity: Some(qty),
            reduce_only: None,
            price: None,
            stop_price: None,
            close_position: None,
            activation_price: None,
            callback_rate: None,
            working_type: None,
            price_protect: None,
            new_client_order_id: None,
        }
    }

    /// A market order to sell.
    pub fn market_sell(symbol: String, qty: Amount) -> (r: Self)
        ensures
            r == market_order(symbol, OrderSide::Sell, qty),
    {
        OrderRequest {
            symbol,
            side: OrderSide::Sell,
            position_side: None,
            order_type: OrderType::Market,
            time_in_force: None,
            quantity: Some(qty),
            reduce_only: None,
            price: None,
            stop_price: None,
            close_position: None,
            activation_price: None,
            callback_rate: None,
            working_type: None,
            price_protect: None,
            new_client_order_id: None,
        }
    }
}

/// The limit order with nothing set but what is given.
pub open spec fn limit_order(
    symbol: String,
    side: OrderSide,
    qty: Amount,
    price: Amount,
    time_in_force: TimeInForce,
) -> OrderRequest {
    OrderRequest {
        symbol,
        side,
        position_side: None,
        order_type: OrderType::Limit,
        time_in_force: Some(time_in_force),
        quantity: Some(qty),
        reduce_only: None,
        price: Some(price),
        stop_price: None,
        close_position: None,
        activation_price: None,
        callback_rate: None,
        working_type: None,
        price_protect: None,
        new_client_order_id: None,
    }
}

/// The market order with nothing set but what is given.
pub open spec fn market_order(symbol: String, side: OrderSide, qty: Amount) -> OrderRequest {
    OrderRequest {
        symbol,
        side,
        position_side: None,
        order_type: OrderType::Market,
        time_in_force: None,
        quantity: Some(qty),
        reduce_only: None,
        price: None,
        stop_price: None,
        close_position: None,
        activation_price: None,
        callback_rate: None,
        working_type: None,
        price_protect: None,
        new_client_order_id: None,
    }
}

/// An order whose client id is always set.
#[derive(Debug, Clone)]
pub struct OrderRequestMandatoryClientId {
    pub symbol: String,
    pub side: OrderSide,
    pub position_side: Option<PositionSide>,
    pub order_type: OrderType,
    pub time_in_force: Option<TimeInForce>,
    pub quantity: Option<Amount>,
    pub reduce_only: Option<bool>,
    pub price: Option<Amount>,
    pub intended_price: Amount,
    pub stop_price: Option<Amount>,
    pub close_position: Option<bool>,
    pub activation_price: Option<Amount>,
    pub callback_rate: Option<Amount>,
    pub working_type: Option<WorkingType>,
    pub price_protect: Option<bool>,
    pub new_client_order_id: String,
}

impl Default for OrderRequestMandatoryClientId {
    /// A limit order to buy with nothing else set.
    fn default() -> (r: Self)
        ensures
            r.symbol@.len() == 0,
            r.side == OrderSide::Buy,
            r.position_side is None,
            r.order_type == OrderType::Limit,
            r.time_in_force is None,
            r.quantity is None,
            r.reduce_only is None,
            r.price is None,
            r.intended_price.units() == 0,
            r.intended_price.places() == 0,
            r.stop_price is None,
            r.close_position is None,
            r.activation_price is None,
            r.callback_rate is None,
            r.working_type is None,
            r.price_protect is None,
            r.new_client_order_id@.len() == 0,
    {
        OrderRequestMandatoryClientId {
            symbol: String::new(),
            side: OrderSide::Buy,
            position_side: None,
            order_type: OrderType::Limit,
            time_in_force: None,
            quantity: None,
            reduce_only: None,
            price: None,
            intended_price: Amount::whole(0),
            stop_price: None,
            close_position: None,
            activation_price: None,
            callback_rate: None,
            working_type: None,
            price_protect: None,
            new_client_order_id: String::new(),
        }
    }
}

impl OrderRequestMandatoryClientId {
    pub fn has_stop_price(&self) -> (r: bool)
        ensures
            r == self.stop_price is Some,
    {
        self.stop_price.is_some()
    }

    pub fn set_size(&mut self, size: Amount)
        ensures
            *final(self) == (OrderRequestMandatoryClientId { quantity: Some(size), ..*old(self) }),
    {
        self.quantity = Some(size);
    }

    /// The size, or zero where none is set.
    pub fn get_size(&self) -> (r: Amount)
        ensures
            self.quantity is Some ==> r == self.quantity->0,
            self.quantity is None ==> r.units() == 0 && r.places() == 0,
    {
        match self.quantity {
            Some(quantity) => quantity,
            None => Amount::whole(0),
        }
    }

    pub fn get_price(&self) -> (r: Option<Amount>)
        ensures
            r == self.price,
    {
        self.price
    }

    pub fn get_market(&self) -> (r: String)
        ensures
            r@ == self.symbol@,
    {
        self.symbol.clone()
    }

    pub fn get_client_id(&self) -> (r: String)
        ensures
            r@ == self.new_client_order_id@,
    {
        self.new_client_order_id.clone()
    }

    pub fn set_client_id(&mut self, client_id: String)
        ensures
            *final(self) == (OrderRequestMandatoryClientId {
                new_client_order_id: client_id,
                ..*old(self)
            }),
    {
        self.new_client_order_id = client_id;
    }

    pub fn get_intended_price(&self) -> (r: Amount)
        ensures
            r == self.intended_price,
    {
        self.intended_price
    }
}

/// An amount in its normal form, where there is one.
pub open spec fn normalized(amount: Option<Amount>) -> Option<Amount> {
    match amount {
        Some(a) => Some(a.normal_form()),
        None => None,
    }
}

fn normalize_opt(amount: Option<Amount>) -> (r: Option<Amount>)
    ensures
        r == normalized(amount),
{
    match amount {
        Some(a) => Some(a.normalize()),
        None => None,
    }
}

impl From<OrderRequestMandatoryClientId> for OrderRequest {
    /// The order as it is sent: size, price and stop price in their normal
    /// forms, the intended price left out.
    fn from(order: OrderRequestMandatoryClientId) -> (r: Self) {
        OrderRequest {
            symbol: order.symbol,
            side: order.side,
            position_side: order.position_side,
            order_type: order.order_type,
            time_in_force: order.time_in_force,
            quantity: normalize_opt(order.quantity),
            reduce_only: order.reduce_only,
            price: normalize_opt(order.price),
            stop_price: normalize_opt(order.stop_price),
            close_position: order.close_position,
            activation_price: order.activation_price,
            callback_rate: order.callback_rate,
            working_type: order.working_type,
            price_protect: order.price_protect,
            new_client_order_id: Some(order.new_client_order_id),
        }
    }
}

impl FromSpecImpl<OrderRequestMandatoryClientId> for OrderRequest {
    open spec fn obeys_from_spec() -> bool {
        true
    }

    open spec fn from_spec(order: OrderRequestMandatoryClientId) -> Self {
        OrderRequest {
            symbol: order.symbol,
            side: order.side,
            position_side: order.position_side,
            order_type: order.order_type,
            time_in_force: order.time_in_force,
            quantity: normalized(order.quantity),
            reduce_only: order.reduce_only,
            price: normalized(order.price),
            stop_price: normalized(order.stop_price),
            close_position: order.close_position,
            activation_price: order.activation_price,
            callback_rate: order.callback_rate,
            working_type: order.working_type,
            price_protect: order.price_protect,
            new_client_order_id: Some(order.new_client_order_id),
        }
    }
}

} // verus!
