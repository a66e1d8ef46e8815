//! Plain data of the futures REST interface.

use vstd::prelude::*;
use crate::errors::Error;

verus! {

#[derive(Debug, Clone, Copy, PartialEq, Eq, Structural)]
pub enum ContractType {
    Perpetual,
    CurrentMonth,
    NextMonth,
    CurrentQuarter,
    NextQuarter,
    CurrentQuarterDelivery,
    PerpetualDelivering,
    Empty,
}

#[derive(Debug, Clone, Copy, PartialEq, Eq, Structural)]
pub enum PositionSide {
    Both,
    Long,
    Short,
}

#[derive(Debug, Clone, Copy, PartialEq, Eq, Structural)]
pub enum WorkingType {
    MarkPrice,
    ContractPrice,
}

#[derive(Debug, Clone, Copy, PartialEq, Eq, Structural)]
pub enum MarginType {
    Isolated,
    Cross,
}

#[derive(PartialEq, Eq, Structural, Debug, Clone, Copy, Hash)]
pub enum OrderType {
    Limit,
    Market,
    Stop,
    StopMarket,
    TakeProfit,
    TakeProfitMarket,
    TrailingStopMarket,
}

impl OrderType {
    pub fn requires_trigger_price(&self) -> (r: bool)
        ensures
            r == !(self is Limit || self is Market),
    {
        match self {
            OrderType::Stop => true,
            OrderType::StopMarket => true,
            OrderType::TakeProfit => true,
            OrderType::TakeProfitMarket => true,
            OrderType::TrailingStopMarket => true,
            _ => false,
        }
    }

    pub fn get_stop_values() -> (r: Vec<OrderType>)
        ensures
            r@ == seq![OrderType::Stop, OrderType::StopMarket],
    {
        vec![OrderType::Stop, OrderType::StopMarket]
    }

    pub fn get_take_profit_values() -> (r: Vec<OrderType>)
        ensures
            r@ == seq![OrderType::TakeProfit, OrderType::TakeProfitMarket],
    {
        vec![OrderType::TakeProfit, OrderType::TakeProfitMarket]
    }
}

impl Default for OrderType {
    /// By default, use market orders
    fn default() -> (r: Self)
        ensures
            r == OrderType::Market,
    {
        OrderType::Market
    }
}

/// The periods that a history query may name.
pub open spec fn is_known_period(period: Seq<char>) -> bool {
    ||| period == "5m"@
    ||| period == "15m"@
    ||| period == "30m"@
    ||| period == "1h"@
    ||| period == "2h"@
    ||| period == "4h"@
    ||| period == "6h"@
    ||| period == "12h"@
    ||| period == "1d"@
}

pub fn known_period(period: &String) -> (r: bool)
    ensures
        r == is_known_period(period@),
{
    *period == "5m".to_owned() || *period == "15m".to_owned() || *period == "30m".to_owned()
        || *period == "1h".to_owned() || *period == "2h".to_owned() || *period == "4h".to_owned()
        || *period == "6h".to_owned() || *period == "12h".to_owned() || *period == "1d".to_owned()
}

#[derive(Debug, Clone)]
pub struct HistoryQuery {
    pub start_time: Option<u64>,
    pub end_time: Option<u64>,
    pub from_id: Option<u64>,
    pub limit: u16,
    pub symbol: String,
    pub interval: Option<String>,
    pub period: Option<String>,
}

impl HistoryQuery {
    /// A query is valid unless it names a period that is not known.
    pub fn validate(&self) -> (r: Result<(), Error>)
        ensures
            r is Ok == (self.period is None || is_known_period(self.period->0@)),
            r is Err ==> r->Err_0 == Error::InvalidPeriod(self.period->0),
    {
        if let Some(period) = &self.period {
            if !known_period(period) {
                return Err(Error::InvalidPeriod(period.clone()));
            }
        }
        Ok(())
    }
}

} // verus!
