//! The requests a session sends, one type per message template.
//!
//! Each field mirrors the protocol field of the same name; a field the
//! library never sets for a message is not carried. Every request holds its
//! `template_id` and, in `user_msg`, the message id the response will carry
//! back.

use vstd::prelude::*;

use crate::types::{
    BracketType, OrderCondition, OrderPlacement, OrderPriceField, OrderSide, OrderType, TimeInForce,
};

verus! {

/// Which plant a login is for.
#[derive(Debug, Clone, Copy, PartialEq, Eq, Structural)]
pub enum SysInfraType {
    /// Real-time market data.
    TickerPlant,
    /// Order entry and management.
    OrderPlant,
    /// Historical data.
    HistoryPlant,
    /// Positions and PnL.
    PnlPlant,
    /// Agreements and other repository data.
    RepositoryPlant,
}

/// Start or stop a subscription.
#[derive(Debug, Clone, Copy, PartialEq, Eq, Structural)]
pub enum SubscriptionRequest {
    /// Start receiving updates.
    Subscribe,
    /// Stop receiving updates.
    Unsubscribe,
}

/// The market data a subscription asks for; each is one bit of the
/// request's `update_bits`.
#[derive(Debug, Clone, Copy, PartialEq, Eq, Structural)]
pub enum UpdateBits {
    /// Last trade.
    LastTrade,
    /// Best bid and offer.
    Bbo,
    /// Order book.
    OrderBook,
    /// Opening price.
    Open,
    /// Opening indicator.
    OpeningIndicator,
    /// Session high and low.
    HighLow,
    /// High bid and low ask.
    HighBidLowAsk,
    /// Closing price.
    Close,
    /// Closing indicator.
    ClosingIndicator,
    /// Settlement price.
    Settlement,
    /// Market mode.
    MarketMode,
    /// Open interest.
    OpenInterest,
    /// Margin rate.
    MarginRate,
    /// High price limit.
    HighPriceLimit,
    /// Low price limit.
    LowPriceLimit,
    /// Projected settlement price.
    ProjectedSettlement,
    /// Adjusted close.
    AdjustedClose,
}

/// The bit each kind of market data occupies.
pub open spec fn update_bit(f: UpdateBits) -> u32 {
    match f {
        UpdateBits::LastTrade => 1,
        UpdateBits::Bbo => 2,
        UpdateBits::OrderBook => 4,
        UpdateBits::Open => 8,
        UpdateBits::OpeningIndicator => 16,
        UpdateBits::HighLow => 32,
        UpdateBits::HighBidLowAsk => 64,
        UpdateBits::Close => 128,
        UpdateBits::ClosingIndicator => 256,
        UpdateBits::Settlement => 512,
        UpdateBits::MarketMode => 1024,
        UpdateBits::OpenInterest => 2048,
        UpdateBits::MarginRate => 4096,
        UpdateBits::HighPriceLimit => 8192,
        UpdateBits::LowPriceLimit => 16384,
        UpdateBits::ProjectedSettlement => 32768,
        UpdateBits::AdjustedClose => 65536,
    }
}

impl UpdateBits {
    /// The bit this kind of market data occupies.
    pub fn bit(&self) -> (b: u32)
        ensures
            b == update_bit(*self),
    {
        match self {
            UpdateBits::LastTrade => 1,
            UpdateBits::Bbo => 2,
            UpdateBits::OrderBook => 4,
            UpdateBits::Open => 8,
            UpdateBits::OpeningIndicator => 16,
            UpdateBits::HighLow => 32,
            UpdateBits::HighBidLowAsk => 64,
            UpdateBits::Close => 128,
            UpdateBits::ClosingIndicator => 256,
            UpdateBits::Settlement => 512,
            UpdateBits::MarketMode => 1024,
            UpdateBits::OpenInterest => 2048,
            UpdateBits::MarginRate => 4096,
            UpdateBits::HighPriceLimit => 8192,
            UpdateBits::LowPriceLimit => 16384,
            UpdateBits::ProjectedSettlement => 32768,
            UpdateBits::AdjustedClose => 65536,
        }
    }
}

/// Kinds of tick bar.
#[derive(Debug, Clone, Copy, PartialEq, Eq, Structural)]
pub enum TickBarType {
    /// A bar per number of trades.
    TickBar,
    /// A bar per price range.
    RangeBar,
    /// A bar per traded volume.
    VolumeBar,
}

/// Tick bar sub types.
#[derive(Debug, Clone, Copy, PartialEq, Eq, Structural)]
pub enum BarSubType {
    /// Regular bars.
    Regular,
    /// Custom bars.
    Custom,
}

/// Kinds of time bar.
#[derive(Debug, Clone, Copy, PartialEq, Eq, Structural)]
pub enum TimeBarType {
    /// Second bars.
    SecondBar,
    /// Minute bars.
    MinuteBar,
    /// Daily bars.
    DailyBar,
    /// Weekly bars.
    WeeklyBar,
}

/// Which end of the range a replay starts from.
#[derive(Debug, Clone, Copy, PartialEq, Eq, Structural)]
pub enum ReplayDirection {
    /// From the first bar.
    First,
    /// From the last bar.
    Last,
}

/// Order in which replayed bars arrive.
#[derive(Debug, Clone, Copy, PartialEq, Eq, Structural)]
pub enum TimeOrder {
    /// Oldest first.
    Forwards,
    /// Newest first.
    Backwards,
}

/// Instrument types a symbol search can be limited to.
#[derive(Debug, Clone, Copy, PartialEq, Eq, Structural)]
pub enum InstrumentType {
    /// Futures.
    Future,
    /// Options on futures.
    FutureOption,
    /// Futures strategies.
    FutureStrategy,
    /// Equities.
    Equity,
    /// Options on equities.
    EquityOption,
    /// Equity strategies.
    EquityStrategy,
    /// Indices.
    Index,
    /// Options on indices.
    IndexOption,
    /// Spreads.
    Spread,
    /// Synthetic instruments.
    Synthetic,
}

/// How a symbol search matches its text.
#[derive(Debug, Clone, Copy, PartialEq, Eq, Structural)]
pub enum SearchPattern {
    /// Exact match.
    Equals,
    /// Substring match.
    Contains,
}

/// A request that carries nothing but its template id and message id.
#[derive(Debug, Clone, PartialEq)]
pub struct SessionRequest {
    /// Message template.
    pub template_id: i32,
    /// The message id, echoed back on the response.
    pub user_msg: Vec<String>,
}

/// Sent as a [`SessionRequest`].
pub type RequestRithmicSystemInfo = SessionRequest;

/// Sent as a [`SessionRequest`].
pub type RequestLogout = SessionRequest;

/// Sent as a [`SessionRequest`].
pub type RequestHeartbeat = SessionRequest;

/// Sent as a [`SessionRequest`].
pub type RequestLoginInfo = SessionRequest;

/// Sent as a [`SessionRequest`].
pub type RequestShowOrderHistoryDates = SessionRequest;

/// Sent as a [`SessionRequest`].
pub type RequestListUnacceptedAgreements = SessionRequest;

/// Sent as a [`SessionRequest`].
pub type RequestListAcceptedAgreements = SessionRequest;

/// Log in to a plant.
#[derive(Debug, Clone, PartialEq)]
pub struct RequestLogin {
    /// Message template.
    pub template_id: i32,
    /// The message id, echoed back on the response.
    pub user_msg: Vec<String>,
    /// Protocol template version.
    pub template_version: Option<String>,
    /// Login user.
    pub user: Option<String>,
    /// Login password.
    pub password: Option<String>,
    /// Application name registered with Rithmic.
    pub app_name: Option<String>,
    /// Application version.
    pub app_version: Option<String>,
    /// Rithmic system to log in to.
    pub system_name: Option<String>,
    /// Plant to log in to.
    pub infra_type: Option<SysInfraType>,
    /// Aggregated instead of tick-by-tick quotes.
    pub aggregated_quotes: Option<bool>,
    /// MAC addresses reported at login.
    pub mac_addr: Vec<String>,
    /// Operating system version.
    pub os_version: Option<String>,
    /// Operating system platform.
    pub os_platform: Option<String>,
}

/// Gateway information for a Rithmic system.
#[derive(Debug, Clone, PartialEq)]
pub struct RequestRithmicSystemGatewayInfo {
    /// Message template.
    pub template_id: i32,
    /// The message id, echoed back on the response.
    pub user_msg: Vec<String>,
    /// System to describe; all when unset.
    pub system_name: Option<String>,
}

/// Subscribe to or unsubscribe from market data for one instrument.
#[derive(Debug, Clone, PartialEq)]
pub struct RequestMarketDataUpdate {
    /// Message template.
    pub template_id: i32,
    /// The message id, echoed back on the response.
    pub user_msg: Vec<String>,
    /// Instrument symbol.
    pub symbol: Option<String>,
    /// Exchange code.
    pub exchange: Option<String>,
    /// Subscribe or unsubscribe.
    pub request: Option<SubscriptionRequest>,
    /// The union of the requested update bits.
    pub update_bits: Option<u32>,
}

/// Instruments of an underlying.
#[derive(Debug, Clone, PartialEq)]
pub struct RequestGetInstrumentByUnderlying {
    /// Message template.
    pub template_id: i32,
    /// The message id, echoed back on the response.
    pub user_msg: Vec<String>,
    /// Underlying symbol.
    pub underlying_symbol: Option<String>,
    /// Exchange code.
    pub exchange: Option<String>,
    /// Expiration date filter.
    pub expiration_date: Option<String>,
}

/// Market data for every instrument of an underlying.
#[derive(Debug, Clone, PartialEq)]
pub struct RequestMarketDataUpdateByUnderlying {
    /// Message template.
    pub template_id: i32,
    /// The message id, echoed back on the response.
    pub user_msg: Vec<String>,
    /// Underlying symbol.
    pub underlying_symbol: Option<String>,
    /// Exchange code.
    pub exchange: Option<String>,
    /// Expiration date filter.
    pub expiration_date: Option<String>,
    /// Subscribe or unsubscribe.
    pub request: Option<SubscriptionRequest>,
    /// The union of the requested update bits.
    pub update_bits: Option<u32>,
}

/// The tick size table of a tick size type.
#[derive(Debug, Clone, PartialEq)]
pub struct RequestGiveTickSizeTypeTable {
    /// Message template.
    pub template_id: i32,
    /// The message id, echoed back on the response.
    pub user_msg: Vec<String>,
    /// Tick size type.
    pub tick_size_type: Option<String>,
}

/// Product codes of an exchange.
#[derive(Debug, Clone, PartialEq)]
pub struct RequestProductCodes {
    /// Message template.
    pub template_id: i32,
    /// The message id, echoed back on the response.
    pub user_msg: Vec<String>,
    /// Exchange filter.
    pub exchange: Option<String>,
    /// Only time-of-interest products.
    pub give_toi_products_only: Option<bool>,
}

/// A request about one instrument: its symbol and exchange.
#[derive(Debug, Clone, PartialEq)]
pub struct InstrumentRequest {
    /// Message template.
    pub template_id: i32,
    /// The message id, echoed back on the response.
    pub user_msg: Vec<String>,
    /// Instrument symbol.
    pub symbol: Option<String>,
    /// Exchange code.
    pub exchange: Option<String>,
}

/// Sent as a [`InstrumentRequest`].
pub type RequestGetVolumeAtPrice = InstrumentRequest;

/// Sent as a [`InstrumentRequest`].
pub type RequestAuxilliaryReferenceData = InstrumentRequest;

/// Sent as a [`InstrumentRequest`].
pub type RequestReferenceData = InstrumentRequest;

/// Sent as a [`InstrumentRequest`].
pub type RequestDepthByOrderSnapshot = InstrumentRequest;

/// A request scoped to a broker: FCM and IB, with the user type.
#[derive(Debug, Clone, PartialEq)]
pub struct BrokerRequest {
    /// Message template.
    pub template_id: i32,
    /// The message id, echoed back on the response.
    pub user_msg: Vec<String>,
    /// FCM identifier.
    pub fcm_id: Option<String>,
    /// IB identifier.
    pub ib_id: Option<String>,
    /// User type; three is a trader.
    pub user_type: Option<i32>,
}

/// Sent as a [`BrokerRequest`].
pub type RequestAccountList = BrokerRequest;

/// Sent as a [`BrokerRequest`].
pub type RequestAccountRmsInfo = BrokerRequest;

/// A request scoped to one trading account.
#[derive(Debug, Clone, PartialEq)]
pub struct AccountRequest {
    /// Message template.
    pub template_id: i32,
    /// The message id, echoed back on the response.
    pub user_msg: Vec<String>,
    /// FCM identifier.
    pub fcm_id: Option<String>,
    /// IB identifier.
    pub ib_id: Option<String>,
    /// Account identifier.
    pub account_id: Option<String>,
}

/// Sent as a [`AccountRequest`].
pub type RequestSubscribeForOrderUpdates = AccountRequest;

/// Sent as a [`AccountRequest`].
pub type RequestSubscribeToBracketUpdates = AccountRequest;

/// Sent as a [`AccountRequest`].
pub type RequestShowBrackets = AccountRequest;

/// Sent as a [`AccountRequest`].
pub type RequestShowBracketStops = AccountRequest;

/// Sent as a [`AccountRequest`].
pub type RequestShowOrders = AccountRequest;

/// Sent as a [`AccountRequest`].
pub type RequestPnLPositionSnapshot = AccountRequest;

/// Sent as a [`AccountRequest`].
pub type RequestProductRmsInfo = AccountRequest;

/// Cancel one working order.
#[derive(Debug, Clone, PartialEq)]
pub struct RequestCancelOrder {
    /// Message template.
    pub template_id: i32,
    /// The message id, echoed back on the response.
    pub user_msg: Vec<String>,
    /// FCM identifier.
    pub fcm_id: Option<String>,
    /// IB identifier.
    pub ib_id: Option<String>,
    /// Account identifier.
    pub account_id: Option<String>,
    /// Order to cancel.
    pub basket_id: Option<String>,
    /// Who cancelled it.
    pub manual_or_auto: Option<OrderPlacement>,
}

/// Flatten the position in one instrument.
#[derive(Debug, Clone, PartialEq)]
pub struct RequestExitPosition {
    /// Message template.
    pub template_id: i32,
    /// The message id, echoed back on the response.
    pub user_msg: Vec<String>,
    /// FCM identifier.
    pub fcm_id: Option<String>,
    /// IB identifier.
    pub ib_id: Option<String>,
    /// Account identifier.
    pub account_id: Option<String>,
    /// Instrument symbol.
    pub symbol: Option<String>,
    /// Exchange code.
    pub exchange: Option<String>,
    /// Who exited it.
    pub manual_or_auto: Option<OrderPlacement>,
}

/// Move a bracket's profit target.
#[derive(Debug, Clone, PartialEq)]
pub struct RequestUpdateTargetBracketLevel {
    /// Message template.
    pub template_id: i32,
    /// The message id, echoed back on the response.
    pub user_msg: Vec<String>,
    /// FCM identifier.
    pub fcm_id: Option<String>,
    /// IB identifier.
    pub ib_id: Option<String>,
    /// Account identifier.
    pub account_id: Option<String>,
    /// Bracket to adjust.
    pub basket_id: Option<String>,
    /// New target distance in ticks.
    pub target_ticks: Option<i32>,
}

/// Move a bracket's stop loss.
#[derive(Debug, Clone, PartialEq)]
pub struct RequestUpdateStopBracketLevel {
    /// Message template.
    pub template_id: i32,
    /// The message id, echoed back on the response.
    pub user_msg: Vec<String>,
    /// FCM identifier.
    pub fcm_id: Option<String>,
    /// IB identifier.
    pub ib_id: Option<String>,
    /// Account identifier.
    pub account_id: Option<String>,
    /// Bracket to adjust.
    pub basket_id: Option<String>,
    /// New stop distance in ticks.
    pub stop_ticks: Option<i32>,
}

/// Subscribe to or unsubscribe from PnL and position updates.
#[derive(Debug, Clone, PartialEq)]
pub struct RequestPnLPositionUpdates {
    /// Message template.
    pub template_id: i32,
    /// The message id, echoed back on the response.
    pub user_msg: Vec<String>,
    /// FCM identifier.
    pub fcm_id: Option<String>,
    /// IB identifier.
    pub ib_id: Option<String>,
    /// Account identifier.
    pub account_id: Option<String>,
    /// Subscribe or unsubscribe.
    pub request: Option<SubscriptionRequest>,
}

/// Replay tick bars over a time range.
#[derive(Debug, Clone, PartialEq)]
pub struct RequestTickBarReplay {
    /// Message template.
    pub template_id: i32,
    /// The message id, echoed back on the response.
    pub user_msg: Vec<String>,
    /// Exchange code.
    pub exchange: Option<String>,
    /// Instrument symbol.
    pub symbol: Option<String>,
    /// Kind of tick bar.
    pub bar_type: Option<TickBarType>,
    /// Bar sub type.
    pub bar_sub_type: Option<BarSubType>,
    /// Ticks per bar.
    pub bar_type_specifier: Option<String>,
    /// Start, unix seconds.
    pub start_index: Option<i32>,
    /// End, unix seconds.
    pub finish_index: Option<i32>,
    /// Which end to start from.
    pub direction: Option<ReplayDirection>,
    /// Order of the bars.
    pub time_order: Option<TimeOrder>,
}

/// Replay time bars over a time range.
#[derive(Debug, Clone, PartialEq)]
pub struct RequestTimeBarReplay {
    /// Message template.
    pub template_id: i32,
    /// The message id, echoed back on the response.
    pub user_msg: Vec<String>,
    /// Exchange code.
    pub exchange: Option<String>,
    /// Instrument symbol.
    pub symbol: Option<String>,
    /// Kind of time bar.
    pub bar_type: Option<TimeBarType>,
    /// Bar period.
    pub bar_type_period: Option<i32>,
    /// Start, unix seconds.
    pub start_index: Option<i32>,
    /// End, unix seconds.
    pub finish_index: Option<i32>,
    /// Which end to start from.
    pub direction: Option<ReplayDirection>,
    /// Order of the bars.
    pub time_order: Option<TimeOrder>,
}

/// Minute bars with volume profile.
#[derive(Debug, Clone, PartialEq)]
pub struct RequestVolumeProfileMinuteBars {
    /// Message template.
    pub template_id: i32,
    /// The message id, echoed back on the response.
    pub user_msg: Vec<String>,
    /// Instrument symbol.
    pub symbol: Option<String>,
    /// Exchange code.
    pub exchange: Option<String>,
    /// Bar period.
    pub bar_type_period: Option<i32>,
    /// Start, unix seconds.
    pub start_index: Option<i32>,
    /// End, unix seconds.
    pub finish_index: Option<i32>,
    /// Most bars to return.
    pub user_max_count: Option<i32>,
    /// Resume an earlier request.
    pub resume_bars: Option<bool>,
}

/// Resume a truncated bar request.
#[derive(Debug, Clone, PartialEq)]
pub struct RequestResumeBars {
    /// Message template.
    pub template_id: i32,
    /// The message id, echoed back on the response.
    pub user_msg: Vec<String>,
    /// Key from the truncated response.
    pub request_key: Option<String>,
}

/// Subscribe to or unsubscribe from depth-by-order updates.
#[derive(Debug, Clone, PartialEq)]
pub struct RequestDepthByOrderUpdates {
    /// Message template.
    pub template_id: i32,
    /// The message id, echoed back on the response.
    pub user_msg: Vec<String>,
    /// Subscribe or unsubscribe.
    pub request: Option<SubscriptionRequest>,
    /// Instrument symbol.
    pub symbol: Option<String>,
    /// Exchange code.
    pub exchange: Option<String>,
}

/// Cancel every working order on an account.
#[derive(Debug, Clone, PartialEq)]
pub struct RequestCancelAllOrders {
    /// Message template.
    pub template_id: i32,
    /// The message id, echoed back on the response.
    pub user_msg: Vec<String>,
    /// FCM identifier.
    pub fcm_id: Option<String>,
    /// IB identifier.
    pub ib_id: Option<String>,
    /// Account identifier.
    pub account_id: Option<String>,
    /// User type; three is a trader.
    pub user_type: Option<i32>,
    /// Who cancelled them.
    pub manual_or_auto: Option<OrderPlacement>,
}

/// The trade routes configured for the user.
#[derive(Debug, Clone, PartialEq)]
pub struct RequestTradeRoutes {
    /// Message template.
    pub template_id: i32,
    /// The message id, echoed back on the response.
    pub user_msg: Vec<String>,
    /// Also send route changes.
    pub subscribe_for_updates: Option<bool>,
}

/// Search for symbols.
#[derive(Debug, Clone, PartialEq)]
pub struct RequestSearchSymbols {
    /// Message template.
    pub template_id: i32,
    /// The message id, echoed back on the response.
    pub user_msg: Vec<String>,
    /// Search query.
    pub search_text: Option<String>,
    /// Exchange filter.
    pub exchange: Option<String>,
    /// Product code filter.
    pub product_code: Option<String>,
    /// Instrument type filter.
    pub instrument_type: Option<InstrumentType>,
    /// How the text is matched.
    pub pattern: Option<SearchPattern>,
}

/// The exchanges a user may trade on.
#[derive(Debug, Clone, PartialEq)]
pub struct RequestListExchangePermissions {
    /// Message template.
    pub template_id: i32,
    /// The message id, echoed back on the response.
    pub user_msg: Vec<String>,
    /// User to list for.
    pub user: Option<String>,
}

/// Order history summary for a date.
#[derive(Debug, Clone, PartialEq)]
pub struct RequestShowOrderHistorySummary {
    /// Message template.
    pub template_id: i32,
    /// The message id, echoed back on the response.
    pub user_msg: Vec<String>,
    /// FCM identifier.
    pub fcm_id: Option<String>,
    /// IB identifier.
    pub ib_id: Option<String>,
    /// Account identifier.
    pub account_id: Option<String>,
    /// Date, YYYYMMDD.
    pub date: Option<String>,
}

/// Order history of one order on a date.
#[derive(Debug, Clone, PartialEq)]
pub struct RequestShowOrderHistoryDetail {
    /// Message template.
    pub template_id: i32,
    /// The message id, echoed back on the response.
    pub user_msg: Vec<String>,
    /// FCM identifier.
    pub fcm_id: Option<String>,
    /// IB identifier.
    pub ib_id: Option<String>,
    /// Account identifier.
    pub account_id: Option<String>,
    /// Order to show.
    pub basket_id: Option<String>,
    /// Date, YYYYMMDD.
    pub date: Option<String>,
}

/// Order history, optionally of one order.
#[derive(Debug, Clone, PartialEq)]
pub struct RequestShowOrderHistory {
    /// Message template.
    pub template_id: i32,
    /// The message id, echoed back on the response.
    pub user_msg: Vec<String>,
    /// FCM identifier.
    pub fcm_id: Option<String>,
    /// IB identifier.
    pub ib_id: Option<String>,
    /// Account identifier.
    pub account_id: Option<String>,
    /// Order filter.
    pub basket_id: Option<String>,
}

/// The front month contract of a product.
#[derive(Debug, Clone, PartialEq)]
pub struct RequestFrontMonthContract {
    /// Message template.
    pub template_id: i32,
    /// The message id, echoed back on the response.
    pub user_msg: Vec<String>,
    /// Product symbol.
    pub symbol: Option<String>,
    /// Exchange code.
    pub exchange: Option<String>,
    /// Also send roll updates.
    pub need_updates: Option<bool>,
}

/// Subscribe to or unsubscribe from live time bars.
#[derive(Debug, Clone, PartialEq)]
pub struct RequestTimeBarUpdate {
    /// Message template.
    pub template_id: i32,
    /// The message id, echoed back on the response.
    pub user_msg: Vec<String>,
    /// Instrument symbol.
    pub symbol: Option<String>,
    /// Exchange code.
    pub exchange: Option<String>,
    /// Kind of time bar.
    pub bar_type: Option<TimeBarType>,
    /// Bar period.
    pub bar_type_period: Option<i32>,
    /// Subscribe or unsubscribe.
    pub request: Option<SubscriptionRequest>,
}

/// Subscribe to or unsubscribe from live tick bars.
#[derive(Debug, Clone, PartialEq)]
pub struct RequestTickBarUpdate {
    /// Message template.
    pub template_id: i32,
    /// The message id, echoed back on the response.
    pub user_msg: Vec<String>,
    /// Instrument symbol.
    pub symbol: Option<String>,
    /// Exchange code.
    pub exchange: Option<String>,
    /// Kind of tick bar.
    pub bar_type: Option<TickBarType>,
    /// Bar sub type.
    pub bar_sub_type: Option<BarSubType>,
    /// Ticks per bar.
    pub bar_type_specifier: Option<String>,
    /// Subscribe or unsubscribe.
    pub request: Option<SubscriptionRequest>,
}

/// Subscribe to or unsubscribe from account RMS updates; no update bits are sent.
#[derive(Debug, Clone, PartialEq)]
pub struct RequestAccountRmsUpdates {
    /// Message template.
    pub template_id: i32,
    /// The message id, echoed back on the response.
    pub user_msg: Vec<String>,
    /// FCM identifier.
    pub fcm_id: Option<String>,
    /// IB identifier.
    pub ib_id: Option<String>,
    /// Account identifier.
    pub account_id: Option<String>,
    /// `subscribe` or `unsubscribe`.
    pub request: Option<String>,
}

/// Link working orders into one group; the account fields repeat once per basket.
#[derive(Debug, Clone, PartialEq)]
pub struct RequestLinkOrders {
    /// Message template.
    pub template_id: i32,
    /// The message id, echoed back on the response.
    pub user_msg: Vec<String>,
    /// FCM identifier, once per basket.
    pub fcm_id: Vec<String>,
    /// IB identifier, once per basket.
    pub ib_id: Vec<String>,
    /// Account identifier, once per basket.
    pub account_id: Vec<String>,
    /// Orders to link.
    pub basket_id: Vec<String>,
}

/// Subscribe to or unsubscribe from the easy-to-borrow list.
#[derive(Debug, Clone, PartialEq)]
pub struct RequestEasyToBorrowList {
    /// Message template.
    pub template_id: i32,
    /// The message id, echoed back on the response.
    pub user_msg: Vec<String>,
    /// Subscribe or unsubscribe.
    pub request: Option<SubscriptionRequest>,
}

/// Change the tag reported on an order.
#[derive(Debug, Clone, PartialEq)]
pub struct RequestModifyOrderReferenceData {
    /// Message template.
    pub template_id: i32,
    /// The message id, echoed back on the response.
    pub user_msg: Vec<String>,
    /// New tag.
    pub user_tag: Option<String>,
    /// FCM identifier.
    pub fcm_id: Option<String>,
    /// IB identifier.
    pub ib_id: Option<String>,
    /// Account identifier.
    pub account_id: Option<String>,
    /// Order to retag.
    pub basket_id: Option<String>,
}

/// Order session configuration.
#[derive(Debug, Clone, PartialEq)]
pub struct RequestOrderSessionConfig {
    /// Message template.
    pub template_id: i32,
    /// The message id, echoed back on the response.
    pub user_msg: Vec<String>,
    /// Defer requests until reference data is loaded.
    pub should_defer_request: Option<bool>,
}

/// Replay executions over a time range.
#[derive(Debug, Clone, PartialEq)]
pub struct RequestReplayExecutions {
    /// Message template.
    pub template_id: i32,
    /// The message id, echoed back on the response.
    pub user_msg: Vec<String>,
    /// FCM identifier.
    pub fcm_id: Option<String>,
    /// IB identifier.
    pub ib_id: Option<String>,
    /// Account identifier.
    pub account_id: Option<String>,
    /// Start, unix seconds.
    pub start_index: Option<i32>,
    /// End, unix seconds.
    pub finish_index: Option<i32>,
}

/// Accept an agreement.
#[derive(Debug, Clone, PartialEq)]
pub struct RequestAcceptAgreement {
    /// Message template.
    pub template_id: i32,
    /// The message id, echoed back on the response.
    pub user_msg: Vec<String>,
    /// Agreement to accept.
    pub agreement_id: Option<String>,
    /// Professional or Non-Professional.
    pub market_data_usage_capacity: Option<String>,
}

/// Show an agreement.
#[derive(Debug, Clone, PartialEq)]
pub struct RequestShowAgreement {
    /// Message template.
    pub template_id: i32,
    /// The message id, echoed back on the response.
    pub user_msg: Vec<String>,
    /// Agreement to show.
    pub agreement_id: Option<String>,
}

/// Set the market data self-certification status.
#[derive(Debug, Clone, PartialEq)]
pub struct RequestSetRithmicMrktDataSelfCertStatus {
    /// Message template.
    pub template_id: i32,
    /// The message id, echoed back on the response.
    pub user_msg: Vec<String>,
    /// Agreement concerned.
    pub agreement_id: Option<String>,
    /// Professional or Non-Professional.
    pub market_data_usage_capacity: Option<String>,
}

/// Place an order. Prices are of the caller's price type `P`.
#[derive(Debug, Clone, PartialEq)]
pub struct RequestNewOrder<P> {
    /// Message template.
    pub template_id: i32,
    /// The message id, echoed back on the response.
    pub user_msg: Vec<String>,
    /// FCM identifier.
    pub fcm_id: Option<String>,
    /// IB identifier.
    pub ib_id: Option<String>,
    /// Account identifier.
    pub account_id: Option<String>,
    /// Route the order is sent on.
    pub trade_route: Option<String>,
    /// Exchange code.
    pub exchange: Option<String>,
    /// Instrument symbol.
    pub symbol: Option<String>,
    /// Number of contracts.
    pub quantity: Option<i32>,
    /// Limit price, when the order has one.
    pub price: Option<P>,
    /// Buy or sell.
    pub transaction_type: Option<OrderSide>,
    /// Order type.
    pub price_type: Option<OrderType>,
    /// Who placed it.
    pub manual_or_auto: Option<OrderPlacement>,
    /// How long it stays working.
    pub duration: Option<TimeInForce>,
    /// The caller's identifier for the order.
    pub user_tag: Option<String>,
    /// Originating window name.
    pub window_name: Option<String>,
    /// Trigger price, when the order has one.
    pub trigger_price: Option<P>,
    /// Whether the order trails.
    pub trailing_stop: Option<bool>,
    /// Ticks to trail by.
    pub trail_by_ticks: Option<i32>,
    /// Price id to trail against.
    pub trail_by_price_id: Option<i32>,
    /// Release at this second-since-beginning-of-epoch value.
    pub release_at_ssboe: Option<i32>,
    /// Microsecond component of the release time.
    pub release_at_usecs: Option<i32>,
    /// Cancel at this second-since-beginning-of-epoch value.
    pub cancel_at_ssboe: Option<i32>,
    /// Microsecond component of the cancel time.
    pub cancel_at_usecs: Option<i32>,
    /// Cancel after this many seconds.
    pub cancel_after_secs: Option<i32>,
    /// Symbol the if-touched trigger watches.
    pub if_touched_symbol: Option<String>,
    /// Exchange of the watched symbol.
    pub if_touched_exchange: Option<String>,
    /// Comparison the trigger makes.
    pub if_touched_condition: Option<OrderCondition>,
    /// Price field the trigger reads.
    pub if_touched_price_field: Option<OrderPriceField>,
    /// Threshold price of the trigger.
    pub if_touched_price: Option<P>,
}

/// Place a bracket: an entry with linked target and stop legs.
#[derive(Debug, Clone, PartialEq)]
pub struct RequestBracketOrder<P> {
    /// Message template.
    pub template_id: i32,
    /// The message id, echoed back on the response.
    pub user_msg: Vec<String>,
    /// FCM identifier.
    pub fcm_id: Option<String>,
    /// IB identifier.
    pub ib_id: Option<String>,
    /// Account identifier.
    pub account_id: Option<String>,
    /// Route the order is sent on.
    pub trade_route: Option<String>,
    /// Exchange code.
    pub exchange: Option<String>,
    /// Instrument symbol.
    pub symbol: Option<String>,
    /// The user type of the sender.
    pub user_type: Option<i32>,
    /// Entry size.
    pub quantity: Option<i32>,
    /// Buy or sell on the entry.
    pub transaction_type: Option<OrderSide>,
    /// Entry order type.
    pub price_type: Option<OrderType>,
    /// Who placed it.
    pub manual_or_auto: Option<OrderPlacement>,
    /// How long the entry stays working.
    pub duration: Option<TimeInForce>,
    /// Bracket shape.
    pub bracket_type: Option<BracketType>,
    /// Move the stop to break-even by this many ticks.
    pub break_even_ticks: Option<i32>,
    /// Trigger break-even at this many ticks.
    pub break_even_trigger_ticks: Option<i32>,
    /// Target leg quantities.
    pub target_quantity: Vec<i32>,
    /// Target leg distances in ticks.
    pub target_ticks: Vec<i32>,
    /// Stop leg quantities.
    pub stop_quantity: Vec<i32>,
    /// Stop leg distances in ticks.
    pub stop_ticks: Vec<i32>,
    /// Enable a trailing stop after this many ticks.
    pub trailing_stop_trigger_ticks: Option<i32>,
    /// Trail against the last trade.
    pub trailing_stop_by_last_trade_price: Option<bool>,
    /// Convert the target to market-if-touched.
    pub target_market_order_if_touched: Option<bool>,
    /// Convert the stop to market on reject.
    pub stop_market_on_reject: Option<bool>,
    /// Convert the target to market at this time.
    pub target_market_at_ssboe: Option<i32>,
    /// Microsecond component of that time.
    pub target_market_at_usecs: Option<i32>,
    /// Convert the stop to market at this time.
    pub stop_market_at_ssboe: Option<i32>,
    /// Microsecond component of that time.
    pub stop_market_at_usecs: Option<i32>,
    /// Convert the target to market after this many seconds.
    pub target_market_order_after_secs: Option<i32>,
    /// Release at this second-since-beginning-of-epoch value.
    pub release_at_ssboe: Option<i32>,
    /// Microsecond component of the release time.
    pub release_at_usecs: Option<i32>,
    /// Cancel at this second-since-beginning-of-epoch value.
    pub cancel_at_ssboe: Option<i32>,
    /// Microsecond component of the cancel time.
    pub cancel_at_usecs: Option<i32>,
    /// Cancel after this many seconds.
    pub cancel_after_secs: Option<i32>,
    /// Symbol the if-touched trigger watches.
    pub if_touched_symbol: Option<String>,
    /// Exchange of the watched symbol.
    pub if_touched_exchange: Option<String>,
    /// Comparison the trigger makes.
    pub if_touched_condition: Option<OrderCondition>,
    /// Price field the trigger reads.
    pub if_touched_price_field: Option<OrderPriceField>,
    /// Threshold price of the trigger.
    pub if_touched_price: Option<P>,
    /// Entry price.
    pub price: Option<P>,
    /// Entry trigger price.
    pub trigger_price: Option<P>,
    /// The caller's identifier for the order.
    pub user_tag: Option<String>,
}

/// Place a group of orders where one fill cancels the others. Each repeated
/// field holds one entry per leg, in leg order.
#[derive(Debug, Clone, PartialEq)]
pub struct RequestOcoOrder<P> {
    /// Message template.
    pub template_id: i32,
    /// The message id, echoed back on the response.
    pub user_msg: Vec<String>,
    /// FCM identifier.
    pub fcm_id: Option<String>,
    /// IB identifier.
    pub ib_id: Option<String>,
    /// Account identifier.
    pub account_id: Option<String>,
    /// Each leg's identifier.
    pub user_tag: Vec<String>,
    /// Each leg's symbol.
    pub symbol: Vec<String>,
    /// Each leg's exchange.
    pub exchange: Vec<String>,
    /// Each leg's size.
    pub quantity: Vec<i32>,
    /// Each leg's price; left out when no leg has one, and `P::default()`
    /// for a leg without one when another leg has one.
    pub price: Vec<P>,
    /// Each leg's trigger price; left out when no leg has one, and
    /// `P::default()` for a leg without one when another leg has one.
    pub trigger_price: Vec<P>,
    /// Each leg's side.
    pub transaction_type: Vec<OrderSide>,
    /// Each leg's duration.
    pub duration: Vec<TimeInForce>,
    /// Each leg's order type.
    pub price_type: Vec<OrderType>,
    /// Each leg's route.
    pub trade_route: Vec<String>,
    /// Who placed each leg.
    pub manual_or_auto: Vec<OrderPlacement>,
}

/// Restate a working order with new terms.
#[derive(Debug, Clone, PartialEq)]
pub struct RequestModifyOrder<P> {
    /// Message template.
    pub template_id: i32,
    /// The message id, echoed back on the response.
    pub user_msg: Vec<String>,
    /// FCM identifier.
    pub fcm_id: Option<String>,
    /// IB identifier.
    pub ib_id: Option<String>,
    /// Account identifier.
    pub account_id: Option<String>,
    /// The order being modified.
    pub basket_id: Option<String>,
    /// Who modified it.
    pub manual_or_auto: Option<OrderPlacement>,
    /// Exchange code.
    pub exchange: Option<String>,
    /// Instrument symbol.
    pub symbol: Option<String>,
    /// The order's type after the modification.
    pub price_type: Option<OrderType>,
    /// The order's size after the modification.
    pub quantity: Option<i32>,
    /// The order's price after the modification.
    pub price: Option<P>,
    /// The trigger price, for the types that have one.
    pub trigger_price: Option<P>,
}

} // verus!
