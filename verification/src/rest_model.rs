//! Plain data of the exchange's REST interface.

use vstd::prelude::*;

verus! {

/// The side of an order.
#[derive(Debug, Clone, Copy, PartialEq, Eq, Structural, Hash)]
pub enum OrderSide {
    Buy,
    Sell,
}

impl Default for OrderSide {
    /// By default, buy.
    fn default() -> (r: Self)
        ensures
            r == OrderSide::Buy,
    {
        OrderSide::Buy
    }
}

/// Status of an order, this can typically change over time
#[derive(Debug, Clone, Copy, PartialEq, Eq, Structural, Hash)]
pub enum OrderStatus {
    /// The order has been accepted by the engine.
    New,
    /// A part of the order has been filled.
    PartiallyFilled,
    /// The order has been completely filled.
    Filled,
    /// The order has been canceled by the user.
    Canceled,
    /// Currently unused
    PendingCancel,
    /// The order was not accepted by the engine and not processed.
    Rejected,
    /// The order was canceled according to the order type's rules or by the exchange.
    Expired,
    /// The order was canceled by the exchange due to a self-trade prevention trigger.
    ExpiredInMatch,
}

impl OrderStatus {
    /// The word that says what happened to an order in this status.
    pub open spec fn verb(self) -> Seq<char> {
        match self {
            OrderStatus::New => "created"@,
            OrderStatus::PartiallyFilled => "partially filled"@,
            OrderStatus::Filled => "filled"@,
            OrderStatus::Canceled => "canceled"@,
            OrderStatus::PendingCancel => "canceled"@,
            OrderStatus::Rejected => "rejected"@,
            OrderStatus::Expired => "expired"@,
            OrderStatus::ExpiredInMatch => "expired"@,
        }
    }

    pub open spec fn filled(self) -> bool {
        self is Filled
    }

    pub open spec fn canceled(self) -> bool {
        self is Canceled || self is Expired || self is ExpiredInMatch
    }

    pub fn first() -> (r: Self)
        ensures
            r == OrderStatus::New,
    {
        OrderStatus::New
    }

    pub fn get_verb(&self) -> (r: String)
        ensures
            r@ == self.verb(),
    {
        match self {
            OrderStatus::New => "created".to_owned(),
            OrderStatus::PartiallyFilled => "partially filled".to_owned(),
            OrderStatus::Filled => "filled".to_owned(),
            OrderStatus::Canceled => "canceled".to_owned(),
            OrderStatus::PendingCancel => "canceled".to_owned(),
            OrderStatus::Rejected => "rejected".to_owned(),
            OrderStatus::Expired => "expired".to_owned(),
            OrderStatus::ExpiredInMatch => "expired".to_owned(),
        }
    }

    pub fn is_open(&self) -> (r: bool)
        ensures
            r == (self is New || self is PartiallyFilled),
    {
        match self {
            OrderStatus::New => true,
            OrderStatus::PartiallyFilled => true,
            _ => false,
        }
    }

    pub fn get_open_statuses() -> (r: Vec<Self>)
        ensures
            r@ == seq![OrderStatus::New, OrderStatus::PartiallyFilled],
    {
        vec![OrderStatus::New, OrderStatus::PartiallyFilled]
    }

    pub fn get_closed_statuses() -> (r: Vec<Self>)
        ensures
            r@ == seq![
                OrderStatus::Filled,
                OrderStatus::Canceled,
                OrderStatus::Rejected,
                OrderStatus::Expired,
                OrderStatus::ExpiredInMatch,
            ],
    {
        vec![
            OrderStatus::Filled,
            OrderStatus::Canceled,
            OrderStatus::Rejected,
            OrderStatus::Expired,
            OrderStatus::ExpiredInMatch,
        ]
    }

    pub fn get_canceled_statuses() -> (r: Vec<Self>)
        ensures
            r@ == seq![OrderStatus::Canceled, OrderStatus::Expired, OrderStatus::ExpiredInMatch],
    {
        vec![OrderStatus::Canceled, OrderStatus::Expired, OrderStatus::ExpiredInMatch]
    }

    pub fn is_filled(&self) -> (r: bool)
        ensures
            r == self.filled(),
    {
        match self {
            OrderStatus::Filled => true,
            _ => false,
        }
    }

    pub fn is_canceled(&self) -> (r: bool)
        ensures
            r == self.canceled(),
    {
        match self {
            OrderStatus::Canceled => true,
            OrderStatus::Expired => true,
            OrderStatus::ExpiredInMatch => true,
            _ => false,
        }
    }

    pub fn is_closed(&self) -> (r: bool)
        ensures
            r == (self.canceled() || self.filled()),
    {
        self.is_canceled() || self.is_filled()
    }
}

#[derive(Debug, Clone)]
pub struct ServerTime {
    pub server_time: u64,
}

#[derive(Debug, Clone, Copy, PartialEq, Eq, Structural)]
pub enum MarketPermission {
    Spot,
    Margin,
    Other,
}

#[derive(Debug, Clone, Copy, PartialEq, Eq, Structural)]
pub enum AccountType {
    Spot,
    UsdtFuture,
    CoinFuture,
    Leveraged,
    Other,
}

#[derive(Debug, Clone)]
pub struct OrderCanceled {
    pub symbol: String,
    pub orig_client_order_id: String,
    pub order_id: u64,
    pub client_order_id: String,
}

#[derive(Debug, Clone)]
pub struct TransactionId {
    pub tran_id: u64,
}

/// Response to a test order (endpoint /api/v3/order/test).
///
/// Currently, the API responds {} on a successfull test transaction,
/// hence this struct has no fields.
#[derive(Debug, Clone)]
pub struct TestResponse {}

#[derive(Debug, Clone)]
pub struct UserDataStream {
    pub listen_key: String,
}

#[derive(Debug, Clone)]
pub struct Success {}

#[derive(Debug, Clone, Copy, PartialEq, Eq, Structural)]
pub enum MarginTransferType {
    FromMainToMargin,
    FromMarginToMain,
}

#[derive(Debug, Clone, Copy, PartialEq, Eq, Structural)]
pub enum IsolatedMarginTransferType {
    Spot,
    IsolatedMargin,
}

/// How long will an order stay alive
#[derive(Debug, Clone, Copy, PartialEq, Eq, Structural)]
pub enum TimeInForce {
    /// Good Till Canceled
    GTC,
    /// Immediate Or Cancel
    IOC,
    /// Fill or Kill
    FOK,
    /// Good till expired
    GTX,
    /// No time in force is set.
    Unset,
    Other,
}

#[derive(Debug, Clone, Copy, PartialEq, Eq, Structural)]
pub enum OrderResponse {
    Ack,
    Result,
    Full,
    Other,
}

#[derive(Debug, Clone, Copy, PartialEq, Eq, Structural)]
pub enum SideEffectType {
    NoSideEffect,
    MarginBuy,
    AutoRepay,
    Other,
}

/// The allowed values are:
/// STOP_ON_FAILURE - If the cancel request fails, the new order placement will not be attempted.
/// ALLOW_FAILURE - new order placement will be attempted even if cancel request fails.
#[derive(Debug, Clone, Copy, PartialEq, Eq, Structural)]
pub enum CancelReplaceMode {
    StopOnFailure,
    AllowFailure,
}

/// Order types, the following restrictions apply
/// LIMIT_MAKER are LIMIT orders that will be rejected if they would immediately match and trade as a taker.
/// STOP_LOSS and TAKE_PROFIT will execute a MARKET order when the stopPrice is reached.
/// Any LIMIT or LIMIT_MAKER type order can be made an iceberg order by sending an icebergQty.
/// Any order with an icebergQty MUST have timeInForce set to GTC.
/// MARKET orders using quantity specifies how much a user wants to buy or sell based on the market price.
/// MARKET orders using quoteOrderQty specifies the amount the user wants to spend (when buying) or receive (when selling) of the quote asset; the correct quantity will be determined based on the market liquidity and quoteOrderQty.
/// MARKET orders using quoteOrderQty will not break LOT_SIZE filter rules; the order will execute a quantity that will have the notional value as close as possible to quoteOrderQty.
#[derive(Debug, Clone, Copy, PartialEq, Eq, Structural)]
pub enum OrderType {
    Limit,
    Market,
    StopLoss,
    StopLossLimit,
    TakeProfit,
    TakeProfitLimit,
    LimitMaker,
    Other,
}

#[derive(Debug, Clone)]
pub struct MarginOrderCancellation {
    pub symbol: String,
    pub order_id: u64,
    pub orig_client_order_id: String,
    pub new_client_order_id: String,
    pub is_isolated: Option<String>,
}

#[derive(Debug, Clone)]
pub struct MarginOrdersCancellation {
    pub symbol: String,
    pub is_isolated: Option<String>,
}

#[derive(Debug, Clone)]
pub struct OCOOrderDetail {
    pub symbol: String,
    pub order_id: u64,
    pub client_order_id: Option<String>,
}

/// archived and is_isolated are only applicable to certain endpoints
/// refer to Binance documentation for full disclosure
#[derive(Debug, Clone)]
pub struct RecordsQuery {
    pub asset: String,
    pub tx_id: Option<u64>,
    pub start_time: Option<u64>,
    pub end_time: Option<u64>,
    pub current: Option<u16>,
    pub size: Option<u8>,
    pub transfer_type: Option<TransferType>,
    pub archived: Option<bool>,
    /// "TRUE" or "FALSE", default is "FALSE"
    pub is_isolated: Option<String>,
}

#[derive(Debug, Clone)]
pub struct OCORecordsQuery {
    pub symbol: Option<String>,
    pub from_id: Option<u64>,
    pub start_time: Option<u64>,
    pub end_time: Option<u64>,
    pub limit: Option<u8>,
    /// "TRUE" or "FALSE", default is "FALSE"
    pub is_isolated: Option<String>,
}

#[derive(Debug, Clone)]
pub struct MarginOrdersQuery {
    pub symbol: String,
    /// "TRUE" or "FALSE", default is "FALSE"
    pub is_isolated: Option<String>,
    pub order_id: u64,
    pub start_time: Option<u64>,
    pub end_time: Option<u64>,
    pub limit: Option<u8>,
}

#[derive(Debug, Clone)]
pub struct MarginOwnTradesQuery {
    pub symbol: String,
    /// "TRUE" or "FALSE", default is "FALSE"
    pub is_isolated: Option<String>,
    pub from_id: u64,
    pub start_time: Option<u64>,
    pub end_time: Option<u64>,
    pub limit: Option<u8>,
}

/// archived and is_isolated are only applicable to certain endpoints
/// refer to Binance documentation for full disclosure
#[derive(Debug, Clone)]
pub struct IsolatedTransfersQuery {
    pub symbol: String,
    pub asset: Option<String>,
    pub start_time: Option<u64>,
    pub end_time: Option<u64>,
    pub current: Option<u16>,
    pub size: Option<u8>,
    pub trans_from: Option<IsolatedMarginTransferType>,
    pub trans_to: Option<IsolatedMarginTransferType>,
}

#[derive(Debug, Clone, Copy, PartialEq, Eq, Structural)]
pub enum TransactionStatus {
    Pending,
    Confirmed,
    Failed,
    Other,
}

#[derive(Debug, Clone, Copy, PartialEq, Eq, Structural)]
pub enum TransferType {
    RollIn,
    RollOut,
    Other,
}

#[derive(Debug, Clone, Copy, PartialEq, Eq, Structural)]
pub enum InterestType {
    /// First interested charged on borrow
    OnBorrow,
    /// Interested charged per hour
    Periodic,
    /// Interested charged per hour converted into BNB
    PeriodicConverted,
    /// First interested charged on borrow converted into BNB
    OnBorrowConverted,
    Other,
}

#[derive(Debug, Clone)]
pub struct RecordsQueryResult<R> {
    pub rows: Option<Vec<R>>,
    pub total: u64,
}

#[derive(Debug, Clone, Copy, PartialEq, Eq, Structural)]
pub enum MarginLevelStatus {
    Excessive,
    Normal,
    MarginCall,
    PreLiquidation,
    ForceLiquidation,
    Other,
}

#[derive(Debug, Clone)]
pub struct AssetQuery {
    pub asset: String,
}

#[derive(Debug, Clone)]
pub struct MarginAssetQuery {
    pub asset: String,
    pub isolated_symbol: Option<String>,
}

#[derive(Debug, Clone)]
pub struct PairQuery {
    pub symbol: String,
}

#[derive(Debug, Clone)]
pub struct MarginPairQuery {
    pub symbol: String,
    pub is_isolated: Option<String>,
}

#[derive(Debug, Clone)]
pub struct IsolatedMarginPairQuery {
    pub symbols: String,
}

#[derive(Debug, Clone)]
pub struct PairAndWindowQuery {
    pub symbol: String,
    pub recv_window: u64,
}

#[derive(Debug, Clone)]
pub struct PairDetails {
    pub id: u128,
    pub symbol: String,
    pub base: String,
    pub quote: String,
    pub is_margin_trade: bool,
    pub is_buy_allowed: bool,
    pub is_sell_allowed: bool,
}

#[derive(Debug, Clone)]
pub struct IsolatedPairDetails {
    pub symbol: String,
    pub base: String,
    pub quote: String,
    pub is_margin_trade: bool,
    pub is_buy_allowed: bool,
    pub is_sell_allowed: bool,
}

#[derive(Debug, Clone)]
pub struct MarginOrderQuery {
    pub symbol: String,
    pub is_isolated: Option<String>,
    pub order_id: Option<String>,
    pub orig_client_order_id: Option<String>,
}

#[derive(Debug, Clone, Copy, PartialEq, Eq, Structural)]
pub enum SymbolStatus {
    PreTrading,
    Trading,
    PostTrading,
    EndOfDay,
    Halt,
    AuctionMatch,
    Break,
    PendingTrading,
    Other,
}

#[derive(Debug, Clone, Copy, PartialEq, Eq, Structural)]
pub enum SymbolPermission {
    Spot,
    Margin,
    Other,
}

#[derive(Debug, Clone, Copy, PartialEq, Eq, Structural)]
pub enum ExecutionType {
    /// The order has been accepted into the engine.
    New,
    /// The order has been canceled by the user.
    Canceled,
    /// Currently unused
    Replaced,
    /// The order has been rejected and was not processed (This message appears only with Cancel Replace Orders wherein the new order placement is rejected but the request to cancel request succeeds.)
    Rejected,
    /// Part of the order or all of the order's quantity has filled.
    Trade,
    /// The order was canceled according to the order type's rules (e.g. LIMIT FOK orders with no fill, LIMIT IOC or MARKET orders that partially fill) or by the exchange, (e.g. orders canceled during liquidation, orders canceled during maintenance).
    Expired,
    /// The order has expired due to STP trigger.
    TradePrevention,
}

#[derive(Debug, Clone, Copy, PartialEq, Eq, Structural)]
pub enum OCOStatus {
    Response,
    ExecStarted,
    AllDone,
}

#[derive(Debug, Clone, Copy, PartialEq, Eq, Structural)]
pub enum OCOOrderStatus {
    Executing,
    AllDone,
    Reject,
}

#[derive(Debug, Clone)]
pub struct MarginOCOOrderCancellation {
    pub symbol: String,
    pub order_list_id: u64,
    pub list_client_order_id: String,
    pub new_client_order_id: String,
    pub is_isolated: Option<String>,
}

#[derive(Debug, Clone)]
pub struct MarginOCOOrderQuery {
    pub symbol: Option<String>,
    pub is_isolated: Option<String>,
    pub order_list_id: Option<String>,
    pub orig_client_order_id: Option<String>,
}

#[derive(Debug, Clone, Copy, PartialEq, Eq, Structural)]
pub enum ContingencyType {
    OCO,
    Other,
}

/// API Rate Limit
/// Example
/// {
///   "rateLimitType": "REQUEST_WEIGHT",
///   "interval": "MINUTE",
///   "intervalNum": 1,
///   "limit": 1200
/// }
///
#[derive(Debug, Clone, Copy, PartialEq, Eq, Structural)]
pub enum RateLimitType {
    RequestWeight,
    Orders,
    RawRequests,
    Other,
}

/// Rate Limit Interval, used by RateLimitType
#[derive(Debug, Clone, Copy, PartialEq, Eq, Structural)]
pub enum RateLimitInterval {
    Second,
    Minute,
    Day,
}

#[derive(Debug, Clone)]
pub struct RateLimit {
    pub interval: RateLimitInterval,
    pub rate_limit_type: RateLimitType,
    pub interval_num: i32,
    pub limit: i32,
}

#[derive(Debug, Clone)]
pub struct BnbBurnQuery {
    /// "true" or "false", defaults to "false"
    pub spot_bnb_burn: Option<String>,
    /// "true" or "false", defaults to "false"
    pub interest_bnb_burn: Option<String>,
}

#[derive(Debug, Clone)]
pub struct BnbBurnStatus {
    pub spot_bnb_burn: Option<bool>,
    pub interest_bnb_burn: Option<bool>,
}

#[derive(Debug, Clone)]
pub struct InterestRateHistoryQuery {
    pub asset: String,
    pub vip_level: Option<u8>,
    pub start_time: Option<u64>,
    pub end_time: Option<u64>,
    pub limit: Option<u64>,
}

#[derive(Debug)]
pub struct PropertyCmd {
    pub id: i32,
    pub method: String,
    pub params: (String, bool),
}

#[derive(Debug, Clone)]
pub struct IsolatedAccountLimit {
    pub enabled_account: u64,
    pub max_account: u64,
}

#[derive(Debug, Clone)]
pub struct IsolatedSymbol {
    pub symbol: String,
    pub max_account: u64,
}

#[derive(Debug, Clone)]
pub struct SystemStatus {
    pub status: u64,
    pub msg: String,
}

#[derive(Debug, Clone, Copy, PartialEq, Eq, Structural)]
pub enum AccountSnapshotType {
    Spot,
    Margin,
    Futures,
}

#[derive(Debug, Clone)]
pub struct AccountSnapshotQuery {
    pub account_type: AccountSnapshotType,
    pub start_time: Option<u64>,
    pub end_time: Option<u64>,
    pub limit: Option<u64>,
}

#[derive(Debug, Clone)]
pub struct DepositHistoryQuery {
    pub coin: Option<String>,
    /// 0(0:pending,6: credited but cannot withdraw, 1:success)
    pub status: Option<u16>,
    /// Default: 90 days from current timestamp
    pub start_time: Option<u64>,
    /// Default: present timestamp
    pub end_time: Option<u64>,
    /// Default:1000, Max:1000
    pub limit: Option<u64>,
    /// Default: present timestamp
    pub offset: Option<u64>,
}

#[derive(Debug, Clone)]
pub struct WithdrawalHistoryQuery {
    pub coin: Option<String>,
    pub withdraw_order_id: Option<String>,
    /// 0(0:Email Sent,1:Cancelled 2:Awaiting Approval 3:Rejected 4:Processing 5:Failure 6:Completed)
    pub status: Option<u16>,
    /// Default: 90 days from current timestamp
    pub start_time: Option<u64>,
    /// Default: present timestamp
    pub end_time: Option<u64>,
    /// Default:1000, Max:1000
    pub limit: Option<u64>,
    /// Default: present timestamp
    pub offset: Option<u64>,
}

#[derive(Debug, Clone)]
pub struct DepositAddressQuery {
    pub coin: String,
    /// If network is not send, return with default network of the coin.
    /// You can get network and isDefault in networkList in the response [`crate::wallet::Wallet::all_coin_info`]
    pub network: Option<String>,
}

#[derive(Debug, Clone)]
pub struct DepositAddress {
    pub coin: String,
    pub address: String,
    pub tag: Option<String>,
    pub url: Option<String>,
}

#[derive(Debug, Clone, Copy, PartialEq, Eq, Structural)]
pub enum UniversalTransferType {
    MainUmfuture,
    /// Spot account transfer to COIN-M Futures account
    MainCmfuture,
    /// Spot account transfer to Margin (cross) account
    MainMargin,
    UmfutureMain,
    UmFutureMargin,
    /// COIN-M Futures account transfer to Spot account
    CmfutureMain,
    /// COIN-M Futures account transfer to Margin(cross) account
    CmfutureMargin,
    MarginMain,
    MarginUmfuture,
    /// Margin (cross) account transfer to COIN-M Futures
    MarginCmfuture,
    /// Isolated margin account transfer to Margin (cross) account
    IsolatedmarginMargin,
    /// Margin (cross) account transfer to Isolated margin account
    MarginIsolatedmargin,
    /// Isolated margin account transfer to Isolated margin account
    IsolatedmarginIsolatedmargin,
    /// Spot account transfer to Funding account
    MainFunding,
    /// Funding account transfer to Spot account
    FundingMain,
    /// Funding account transfer to UMFUTURE account
    FundingUmfuture,
    /// UMFUTURE account transfer to Funding account
    UmfutureFunding,
    /// MARGIN account transfer to Funding account
    MarginFunding,
    /// Funding account transfer to Margin account
    FundingMargin,
    /// Funding account transfer to CMFUTURE account
    FundingCmfuture,
    /// CMFUTURE account transfer to Funding account
    CmfutureFunding,
}

#[derive(Debug, Clone)]
pub struct UniversalTransferHistoryQuery {
    pub transfer_type: UniversalTransferType,
    pub start_time: Option<u64>,
    pub end_time: Option<u64>,
    /// Default : 1
    pub current: Option<u64>,
    /// Default 10, Max 100
    pub size: Option<u64>,
    pub from_symbol: Option<String>,
    pub to_symbol: Option<String>,
}

#[derive(Debug, Clone, Copy, PartialEq, Eq, Structural)]
pub enum UniversalTransferStatus {
    Confirmed,
    Pending,
    Failed,
}

#[derive(Debug, Clone)]
pub struct AccountStatus {
    pub data: String,
}

#[derive(Debug, Clone)]
pub struct ApiTradingStatus {
    pub data: ApiTradingStatusData,
}

#[derive(Debug, Clone)]
pub struct ApiTradingStatusData {
    /// API trading function is locked or not
    pub is_locked: bool,
    /// If API trading function is locked, this is the planned recover time
    pub planned_recovery_time: Option<u64>,
    pub trigger_condition: ApiTradingStatusTriggerCondition,
    pub update_time: Option<u64>,
}

#[derive(Debug, Clone)]
pub struct ApiTradingStatusTriggerCondition {
    /// Number of GTC orders
    pub gcr: i64,
    /// Number of FOK/IOC orders
    pub ifer: i64,
    /// Number of orders
    pub ufr: i64,
}

#[derive(Debug, Clone)]
pub struct AssetDividendQuery {
    pub asset: Option<String>,
    pub start_time: Option<u64>,
    pub end_time: Option<u64>,
    /// Default 20, max 500
    pub limit: Option<u64>,
}

#[derive(Debug, Clone)]
pub struct ApiKeyPermissions {
    ip_restrict: bool,
    create_time: u64,
    /// This option allows you to withdraw via API. You must apply the IP Access Restriction filter in order to enable withdrawals
    enable_withdrawals: bool,
    /// This option authorizes this key to transfer funds between your master account and your sub account instantly
    enable_internal_transfer: bool,
    permits_universal_transfer: bool,
    ///  Authorizes this key to Vanilla options trading
    enable_vanilla_options: bool,
    enable_reading: bool,
    enable_futures: bool,
    ///  This option can be adjusted after the Cross Margin account transfer is completed
    enable_margin: bool,
    /// Spot and margin trading
    enable_spot_and_margin_trading: bool,
    /// Expiration time for spot and margin trading permission
    trading_authority_expiration_time: Option<u64>,
}

#[derive(Debug, Clone)]
pub struct WalletBalance {
    /// Shows whether the wallet is activated or not
    activate: bool,
    /// Shows the overall balance of the wallet quoted in BTC
    balance: String,
    wallet_name: String,
}

} // verus!
