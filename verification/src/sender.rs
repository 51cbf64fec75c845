//! Builds every request a session sends.
//!
//! A [`RithmicSenderApi`] holds what the session was configured with and a
//! message counter. Each request draws the next message id from the counter,
//! carries it as its only `user_msg`, and is returned with that id so the
//! caller can match the response. Account-scoped requests use the configured
//! account unless an account is passed explicitly.

use vstd::prelude::*;

use crate::config::{owned, LoginConfig, RithmicAccount, RithmicConfig, RithmicEnv};
use crate::error::clone_strings;
use crate::requests::{
    update_bit, BarSubType, InstrumentType, ReplayDirection,
    RequestAcceptAgreement, RequestAccountList, RequestAccountRmsInfo, RequestAccountRmsUpdates,
    RequestAuxilliaryReferenceData, RequestCancelAllOrders, RequestCancelOrder, RequestDepthByOrderSnapshot,
    RequestDepthByOrderUpdates, RequestEasyToBorrowList, RequestExitPosition, RequestFrontMonthContract,
    RequestGetInstrumentByUnderlying, RequestGetVolumeAtPrice, RequestGiveTickSizeTypeTable, RequestHeartbeat,
    RequestLinkOrders, RequestListAcceptedAgreements, RequestListExchangePermissions,
    RequestListUnacceptedAgreements, RequestLogin, RequestLoginInfo, RequestLogout, RequestMarketDataUpdate,
    RequestMarketDataUpdateByUnderlying, RequestModifyOrderReferenceData, RequestOrderSessionConfig,
    RequestPnLPositionSnapshot, RequestPnLPositionUpdates, RequestProductCodes, RequestProductRmsInfo,
    RequestReferenceData, RequestReplayExecutions, RequestResumeBars, RequestRithmicSystemGatewayInfo,
    RequestRithmicSystemInfo, RequestSearchSymbols, RequestSetRithmicMrktDataSelfCertStatus,
    RequestShowAgreement, RequestShowBracketStops, RequestShowBrackets, RequestShowOrderHistory,
    RequestShowOrderHistoryDates, RequestShowOrderHistoryDetail, RequestShowOrderHistorySummary,
    RequestShowOrders, RequestSubscribeForOrderUpdates, RequestSubscribeToBracketUpdates,
    RequestTickBarReplay, RequestTickBarUpdate, RequestTimeBarReplay, RequestTimeBarUpdate, RequestTradeRoutes,
    RequestUpdateStopBracketLevel, RequestUpdateTargetBracketLevel, RequestVolumeProfileMinuteBars,
    SearchPattern, SubscriptionRequest, SysInfraType, TickBarType, TimeBarType, TimeOrder,
    UpdateBits,
};
use crate::text::{decimal, decimal_string};
use crate::types::{OrderPlacement, OrderType};

verus! {

/// The route orders are sent on in the live environment.
pub const TRADE_ROUTE_LIVE: &'static str = "globex";

/// The route orders are sent on in the demo and test environments.
pub const TRADE_ROUTE_DEMO: &'static str = "simulator";

/// The user type every order-plant request is made as: a trader.
pub const USER_TYPE: i32 = 3;

/// What a sender holds.
pub struct SenderView {
    /// Configured account identifier.
    pub account_id: Seq<char>,
    /// Application name registered with Rithmic.
    pub app_name: Seq<char>,
    /// Application version.
    pub app_version: Seq<char>,
    /// Environment the session runs in.
    pub env: RithmicEnv,
    /// Configured FCM identifier.
    pub fcm_id: Seq<char>,
    /// Configured IB identifier.
    pub ib_id: Seq<char>,
    /// How many message ids have been issued.
    pub message_id_counter: nat,
}

/// Builds the requests of one session.
#[derive(Debug, Clone)]
pub struct RithmicSenderApi {
    account_id: String,
    app_name: String,
    app_version: String,
    env: RithmicEnv,
    fcm_id: String,
    ib_id: String,
    message_id_counter: u64,
}

impl View for RithmicSenderApi {
    type V = SenderView;

    closed spec fn view(&self) -> SenderView {
        SenderView {
            account_id: self.account_id@,
            app_name: self.app_name@,
            app_version: self.app_version@,
            env: self.env,
            fcm_id: self.fcm_id@,
            ib_id: self.ib_id@,
            message_id_counter: self.message_id_counter as nat,
        }
    }
}

/// Issuing a request advanced the counter by one and changed nothing else;
/// the request carries, as its only `user_msg`, the decimal rendering of the
/// new counter, which is also the id returned with it.
pub open spec fn issues(old: SenderView, new: SenderView, id: String, user_msg: Vec<String>) -> bool {
    &&& new == SenderView { message_id_counter: old.message_id_counter + 1, ..old }
    &&& id@ == decimal(new.message_id_counter)
    &&& user_msg.deep_view() == seq![id@]
}

/// Whether an optional field holds exactly `s`.
pub open spec fn holds(o: Option<String>, s: Seq<char>) -> bool {
    o.deep_view() == Some(s)
}

/// The text of an optional string argument.
pub open spec fn opt_text(s: Option<&str>) -> Option<Seq<char>> {
    match s {
        Some(x) => Some(x@),
        None => None,
    }
}

/// The FCM, IB and account ids a request is scoped to: those of the account
/// passed, else the configured ones.
pub open spec fn account_ids(s: SenderView, account: Option<&RithmicAccount>) -> (Seq<char>, Seq<char>, Seq<char>) {
    match account {
        Some(a) => (a.fcm_id@, a.ib_id@, a.account_id@),
        None => (s.fcm_id, s.ib_id, s.account_id),
    }
}

/// Whether three optional fields hold the given FCM, IB and account ids.
pub open spec fn scoped_to(
    fcm_id: Option<String>,
    ib_id: Option<String>,
    account_id: Option<String>,
    ids: (Seq<char>, Seq<char>, Seq<char>),
) -> bool {
    &&& holds(fcm_id, ids.0)
    &&& holds(ib_id, ids.1)
    &&& holds(account_id, ids.2)
}

/// The union of the bits of the requested market data, in request order.
pub open spec fn union_of_bits(fields: Seq<UpdateBits>) -> u32
    decreases fields.len(),
{
    if fields.len() == 0 {
        0
    } else {
        union_of_bits(fields.drop_last()) | update_bit(fields.last())
    }
}

/// The route orders are sent on in an environment.
pub open spec fn trade_route_for(env: RithmicEnv) -> Seq<char> {
    match env {
        RithmicEnv::Live => "globex"@,
        RithmicEnv::Demo | RithmicEnv::Test => "simulator"@,
    }
}

/// `n` copies of `x`.
pub open spec fn repeated(x: Seq<char>, n: nat) -> Seq<Seq<char>> {
    Seq::new(n, |i: int| x)
}

/// An optional string copied from an optional slice.
fn opt_owned(s: Option<&str>) -> (o: Option<String>)
    ensures
        o.deep_view() == opt_text(s),
{
    match s {
        Some(x) => Some(owned(x)),
        None => None,
    }
}

/// `Some` copy of a string slice.
pub(crate) fn some(s: &str) -> (o: Option<String>)
    ensures
        holds(o, s@),
{
    Some(owned(s))
}

/// A copy of an optional string.
pub(crate) fn clone_opt(s: &Option<String>) -> (o: Option<String>)
    ensures
        o.deep_view() == s.deep_view(),
{
    match s {
        Some(x) => Some(x.clone()),
        None => None,
    }
}

/// The one-element `user_msg` carrying a message id.
pub(crate) fn user_msg(id: &String) -> (v: Vec<String>)
    ensures
        v.deep_view() == seq![id@],
{
    let mut v: Vec<String> = Vec::new();
    v.push(id.clone());
    proof {
        assert(v.deep_view() =~= seq![id@]);
    }
    v
}

/// `n` copies of `x`.
fn repeat_string(x: &String, n: usize) -> (v: Vec<String>)
    ensures
        v.deep_view() == repeated(x@, n as nat),
{
    let mut v: Vec<String> = Vec::new();
    let mut i: usize = 0;
    while i < n
        invariant
            i <= n,
            v.len() == i,
            forall|j: int| 0 <= j < i ==> v@[j]@ == x@,
        decreases n - i,
    {
        v.push(x.clone());
        i = i + 1;
    }
    proof {
        assert(v.deep_view() =~= repeated(x@, n as nat));
    }
    v
}

/// Whether a modification of type `t` sends its price as the trigger too:
/// the stop types do, the others send no trigger.
pub open spec fn modify_sends_price_as_trigger(t: OrderType) -> bool {
    t is StopLimit || t is StopMarket
}

/// Decides whether a modification of type `t` repeats its price as the
/// trigger price.
pub fn modify_trigger_uses_price(t: OrderType) -> (b: bool)
    ensures
        b == modify_sends_price_as_trigger(t),
{
    match t {
        OrderType::StopLimit | OrderType::StopMarket => true,
        _ => false,
    }
}

impl RithmicSenderApi {
    /// A sender for a session configured by `config`, scoped by default to
    /// `account`, that has issued no message ids yet.
    pub fn new(config: &RithmicConfig, account: &RithmicAccount) -> (s: Self)
        ensures
            s@ == (SenderView {
                account_id: account.account_id@,
                app_name: config.app_name@,
                app_version: config.app_version@,
                env: config.env,
                fcm_id: account.fcm_id@,
                ib_id: account.ib_id@,
                message_id_counter: 0,
            }),
    {
        RithmicSenderApi {
            account_id: account.account_id.clone(),
            app_name: config.app_name.clone(),
            app_version: config.app_version.clone(),
            env: config.env,
            fcm_id: account.fcm_id.clone(),
            ib_id: account.ib_id.clone(),
            message_id_counter: 0,
        }
    }

    /// How many message ids this sender has issued.
    pub fn message_count(&self) -> (n: u64)
        ensures
            n as nat == self@.message_id_counter,
    {
        self.message_id_counter
    }

    /// Draws the next message id: the decimal rendering of the advanced
    /// counter.
    pub(crate) fn get_next_message_id(&mut self) -> (id: String)
        requires
            old(self)@.message_id_counter < u64::MAX,
        ensures
            final(self)@ == (SenderView { message_id_counter: old(self)@.message_id_counter + 1, ..old(self)@ }),
            id@ == decimal(final(self)@.message_id_counter),
    {
        self.message_id_counter = self.message_id_counter + 1;
        decimal_string(self.message_id_counter)
    }

    /// The FCM, IB and account ids of `account`, else the configured ones.
    pub(crate) fn account_fields(&self, account: Option<&RithmicAccount>) -> (ids: (String, String, String))
        ensures
            (ids.0@, ids.1@, ids.2@) == account_ids(self@, account),
    {
        match account {
            Some(account) => (account.fcm_id.clone(), account.ib_id.clone(), account.account_id.clone()),
            None => (self.fcm_id.clone(), self.ib_id.clone(), self.account_id.clone()),
        }
    }

    /// The route orders of this session are sent on.
    pub fn trade_route(&self) -> (r: &'static str)
        ensures
            r@ == trade_route_for(self@.env),
    {
        match self.env {
            RithmicEnv::Live => TRADE_ROUTE_LIVE,
            RithmicEnv::Demo | RithmicEnv::Test => TRADE_ROUTE_DEMO,
        }
    }

    /// Information about the Rithmic systems.
    pub fn request_rithmic_system_info(&mut self) -> (r: (RequestRithmicSystemInfo, String))
        requires
            old(self)@.message_id_counter < u64::MAX,
        ensures
            issues(old(self)@, final(self)@, r.1, r.0.user_msg),
            r.0.template_id == 16,
    {
        let id = self.get_next_message_id();
        let req = RequestRithmicSystemInfo {
            template_id: 16,
            user_msg: user_msg(&id),
        };
        (req, id)
    }

    /// Log out of the plant.
    pub fn request_logout(&mut self) -> (r: (RequestLogout, String))
        requires
            old(self)@.message_id_counter < u64::MAX,
        ensures
            issues(old(self)@, final(self)@, r.1, r.0.user_msg),
            r.0.template_id == 12,
    {
        let id = self.get_next_message_id();
        let req = RequestLogout {
            template_id: 12,
            user_msg: user_msg(&id),
        };
        (req, id)
    }

    /// Keep the session alive.
    pub fn request_heartbeat(&mut self) -> (r: (RequestHeartbeat, String))
        requires
            old(self)@.message_id_counter < u64::MAX,
        ensures
            issues(old(self)@, final(self)@, r.1, r.0.user_msg),
            r.0.template_id == 18,
    {
        let id = self.get_next_message_id();
        let req = RequestHeartbeat {
            template_id: 18,
            user_msg: user_msg(&id),
        };
        (req, id)
    }

    /// Gateway information for a Rithmic system, or for all when `system_name` is unset.
    pub fn request_rithmic_system_gateway_info(&mut self, system_name: Option<&str>) -> (r: (RequestRithmicSystemGatewayInfo, String))
        requires
            old(self)@.message_id_counter < u64::MAX,
        ensures
            issues(old(self)@, final(self)@, r.1, r.0.user_msg),
            r.0.template_id == 20,
            r.0.system_name.deep_view() == opt_text(system_name),
    {
        let id = self.get_next_message_id();
        let req = RequestRithmicSystemGatewayInfo {
            template_id: 20,
            user_msg: user_msg(&id),
            system_name: opt_owned(system_name),
        };
        (req, id)
    }

    /// All instruments (options, futures) of an underlying symbol.
    pub fn request_get_instrument_by_underlying(&mut self, underlying_symbol: &str, exchange: &str, expiration_date: Option<&str>) -> (r: (RequestGetInstrumentByUnderlying, String))
        requires
            old(self)@.message_id_counter < u64::MAX,
        ensures
            issues(old(self)@, final(self)@, r.1, r.0.user_msg),
            r.0.template_id == 102,
            holds(r.0.underlying_symbol, underlying_symbol@),
            holds(r.0.exchange, exchange@),
            r.0.expiration_date.deep_view() == opt_text(expiration_date),
    {
        let id = self.get_next_message_id();
        let req = RequestGetInstrumentByUnderlying {
            template_id: 102,
            user_msg: user_msg(&id),
            underlying_symbol: some(underlying_symbol),
            exchange: some(exchange),
            expiration_date: opt_owned(expiration_date),
        };
        (req, id)
    }

    /// The tick size table of a tick size type.
    pub fn request_give_tick_size_type_table(&mut self, tick_size_type: &str) -> (r: (RequestGiveTickSizeTypeTable, String))
        requires
            old(self)@.message_id_counter < u64::MAX,
        ensures
            issues(old(self)@, final(self)@, r.1, r.0.user_msg),
            r.0.template_id == 107,
            holds(r.0.tick_size_type, tick_size_type@),
    {
        let id = self.get_next_message_id();
        let req = RequestGiveTickSizeTypeTable {
            template_id: 107,
            user_msg: user_msg(&id),
            tick_size_type: some(tick_size_type),
        };
        (req, id)
    }

    /// Product codes, optionally of one exchange.
    pub fn request_product_codes(&mut self, exchange: Option<&str>, give_toi_products_only: Option<bool>) -> (r: (RequestProductCodes, String))
        requires
            old(self)@.message_id_counter < u64::MAX,
        ensures
            issues(old(self)@, final(self)@, r.1, r.0.user_msg),
            r.0.template_id == 111,
            r.0.exchange.deep_view() == opt_text(exchange),
            r.0.give_toi_products_only == give_toi_products_only,
    {
        let id = self.get_next_message_id();
        let req = RequestProductCodes {
            template_id: 111,
            user_msg: user_msg(&id),
            exchange: opt_owned(exchange),
            give_toi_products_only: give_toi_products_only,
        };
        (req, id)
    }

    /// The volume traded at each price of an instrument.
    pub fn request_get_volume_at_price(&mut self, symbol: &str, exchange: &str) -> (r: (RequestGetVolumeAtPrice, String))
        requires
            old(self)@.message_id_counter < u64::MAX,
        ensures
            issues(old(self)@, final(self)@, r.1, r.0.user_msg),
            r.0.template_id == 119,
            holds(r.0.symbol, symbol@),
            holds(r.0.exchange, exchange@),
    {
        let id = self.get_next_message_id();
        let req = RequestGetVolumeAtPrice {
            template_id: 119,
            user_msg: user_msg(&id),
            symbol: some(symbol),
            exchange: some(exchange),
        };
        (req, id)
    }

    /// Auxiliary reference data of an instrument.
    pub fn request_auxilliary_reference_data(&mut self, symbol: &str, exchange: &str) -> (r: (RequestAuxilliaryReferenceData, String))
        requires
            old(self)@.message_id_counter < u64::MAX,
        ensures
            issues(old(self)@, final(self)@, r.1, r.0.user_msg),
            r.0.template_id == 121,
            holds(r.0.symbol, symbol@),
            holds(r.0.exchange, exchange@),
    {
        let id = self.get_next_message_id();
        let req = RequestAuxilliaryReferenceData {
            template_id: 121,
            user_msg: user_msg(&id),
            symbol: some(symbol),
            exchange: some(exchange),
        };
        (req, id)
    }

    /// Information about the current login session.
    pub fn request_login_info(&mut self) -> (r: (RequestLoginInfo, String))
        requires
            old(self)@.message_id_counter < u64::MAX,
        ensures
            issues(old(self)@, final(self)@, r.1, r.0.user_msg),
            r.0.template_id == 300,
    {
        let id = self.get_next_message_id();
        let req = RequestLoginInfo {
            template_id: 300,
            user_msg: user_msg(&id),
        };
        (req, id)
    }

    /// Replay regular tick bars of `bar_type_specifier` ticks between two unix times, first bar first, oldest first. A large replay may be truncated; resume it with [`Self::request_resume_bars`].
    pub fn request_tick_bar_replay(&mut self, symbol: &str, exchange: &str, bar_type_specifier: &str, start_index_sec: i32, finish_index_sec: i32) -> (r: (RequestTickBarReplay, String))
        requires
            old(self)@.message_id_counter < u64::MAX,
        ensures
            issues(old(self)@, final(self)@, r.1, r.0.user_msg),
            r.0.template_id == 206,
            holds(r.0.exchange, exchange@),
            holds(r.0.symbol, symbol@),
            r.0.bar_type == Some(TickBarType::TickBar),
            r.0.bar_sub_type == Some(BarSubType::Regular),
            holds(r.0.bar_type_specifier, bar_type_specifier@),
            r.0.start_index == Some(start_index_sec),
            r.0.finish_index == Some(finish_index_sec),
            r.0.direction == Some(ReplayDirection::First),
            r.0.time_order == Some(TimeOrder::Forwards),
    {
        let id = self.get_next_message_id();
        let req = RequestTickBarReplay {
            template_id: 206,
            user_msg: user_msg(&id),
            exchange: some(exchange),
            symbol: some(symbol),
            bar_type: Some(TickBarType::TickBar),
            bar_sub_type: Some(BarSubType::Regular),
            bar_type_specifier: some(bar_type_specifier),
            start_index: Some(start_index_sec),
            finish_index: Some(finish_index_sec),
            direction: Some(ReplayDirection::First),
            time_order: Some(TimeOrder::Forwards),
        };
        (req, id)
    }

    /// Replay time bars between two unix times, first bar first, oldest first. A large replay may be truncated; resume it with [`Self::request_resume_bars`].
    pub fn request_time_bar_replay(&mut self, symbol: &str, exchange: &str, bar_type: TimeBarType, bar_type_period: i32, start_index_sec: i32, finish_index_sec: i32) -> (r: (RequestTimeBarReplay, String))
        requires
            old(self)@.message_id_counter < u64::MAX,
        ensures
            issues(old(self)@, final(self)@, r.1, r.0.user_msg),
            r.0.template_id == 202,
            holds(r.0.exchange, exchange@),
            holds(r.0.symbol, symbol@),
            r.0.bar_type == Some(bar_type),
            r.0.bar_type_period == Some(bar_type_period),
            r.0.start_index == Some(start_index_sec),
            r.0.finish_index == Some(finish_index_sec),
            r.0.direction == Some(ReplayDirection::First),
            r.0.time_order == Some(TimeOrder::Forwards),
    {
        let id = self.get_next_message_id();
        let req = RequestTimeBarReplay {
            template_id: 202,
            user_msg: user_msg(&id),
            exchange: some(exchange),
            symbol: some(symbol),
            bar_type: Some(bar_type),
            bar_type_period: Some(bar_type_period),
            start_index: Some(start_index_sec),
            finish_index: Some(finish_index_sec),
            direction: Some(ReplayDirection::First),
            time_order: Some(TimeOrder::Forwards),
        };
        (req, id)
    }

    /// Minute bars with volume profile between two unix times.
    pub fn request_volume_profile_minute_bars(&mut self, symbol: &str, exchange: &str, bar_type_period: i32, start_index_sec: i32, finish_index_sec: i32, user_max_count: Option<i32>, resume_bars: Option<bool>) -> (r: (RequestVolumeProfileMinuteBars, String))
        requires
            old(self)@.message_id_counter < u64::MAX,
        ensures
            issues(old(self)@, final(self)@, r.1, r.0.user_msg),
            r.0.template_id == 208,
            holds(r.0.symbol, symbol@),
            holds(r.0.exchange, exchange@),
            r.0.bar_type_period == Some(bar_type_period),
            r.0.start_index == Some(start_index_sec),
            r.0.finish_index == Some(finish_index_sec),
            r.0.user_max_count == user_max_count,
            r.0.resume_bars == resume_bars,
    {
        let id = self.get_next_message_id();
        let req = RequestVolumeProfileMinuteBars {
            template_id: 208,
            user_msg: user_msg(&id),
            symbol: some(symbol),
            exchange: some(exchange),
            bar_type_period: Some(bar_type_period),
            start_index: Some(start_index_sec),
            finish_index: Some(finish_index_sec),
            user_max_count: user_max_count,
            resume_bars: resume_bars,
        };
        (req, id)
    }

    /// Resume a truncated bar request by the key its response carried.
    pub fn request_resume_bars(&mut self, request_key: &str) -> (r: (RequestResumeBars, String))
        requires
            old(self)@.message_id_counter < u64::MAX,
        ensures
            issues(old(self)@, final(self)@, r.1, r.0.user_msg),
            r.0.template_id == 210,
            holds(r.0.request_key, request_key@),
    {
        let id = self.get_next_message_id();
        let req = RequestResumeBars {
            template_id: 210,
            user_msg: user_msg(&id),
            request_key: some(request_key),
        };
        (req, id)
    }

    /// A snapshot of the order book by order, at every price.
    pub fn request_depth_by_order_snapshot(&mut self, symbol: &str, exchange: &str) -> (r: (RequestDepthByOrderSnapshot, String))
        requires
            old(self)@.message_id_counter < u64::MAX,
        ensures
            issues(old(self)@, final(self)@, r.1, r.0.user_msg),
            r.0.template_id == 115,
            holds(r.0.symbol, symbol@),
            holds(r.0.exchange, exchange@),
    {
        let id = self.get_next_message_id();
        let req = RequestDepthByOrderSnapshot {
            template_id: 115,
            user_msg: user_msg(&id),
            symbol: some(symbol),
            exchange: some(exchange),
        };
        (req, id)
    }

    /// Subscribe to or unsubscribe from depth-by-order updates, at every price.
    pub fn request_depth_by_order_update(&mut self, symbol: &str, exchange: &str, request_type: SubscriptionRequest) -> (r: (RequestDepthByOrderUpdates, String))
        requires
            old(self)@.message_id_counter < u64::MAX,
        ensures
            issues(old(self)@, final(self)@, r.1, r.0.user_msg),
            r.0.template_id == 117,
            r.0.request == Some(request_type),
            holds(r.0.symbol, symbol@),
            holds(r.0.exchange, exchange@),
    {
        let id = self.get_next_message_id();
        let req = RequestDepthByOrderUpdates {
            template_id: 117,
            user_msg: user_msg(&id),
            request: Some(request_type),
            symbol: some(symbol),
            exchange: some(exchange),
        };
        (req, id)
    }

    /// The trade routes configured for the user.
    pub fn request_trade_routes(&mut self, subscribe_for_updates: bool) -> (r: (RequestTradeRoutes, String))
        requires
            old(self)@.message_id_counter < u64::MAX,
        ensures
            issues(old(self)@, final(self)@, r.1, r.0.user_msg),
            r.0.template_id == 310,
            r.0.subscribe_for_updates == Some(subscribe_for_updates),
    {
        let id = self.get_next_message_id();
        let req = RequestTradeRoutes {
            template_id: 310,
            user_msg: user_msg(&id),
            subscribe_for_updates: Some(subscribe_for_updates),
        };
        (req, id)
    }

    /// Search for symbols.
    pub fn request_search_symbols(&mut self, search_text: &str, exchange: Option<&str>, product_code: Option<&str>, instrument_type: Option<InstrumentType>, pattern: Option<SearchPattern>) -> (r: (RequestSearchSymbols, String))
        requires
            old(self)@.message_id_counter < u64::MAX,
        ensures
            issues(old(self)@, final(self)@, r.1, r.0.user_msg),
            r.0.template_id == 109,
            holds(r.0.search_text, search_text@),
            r.0.exchange.deep_view() == opt_text(exchange),
            r.0.product_code.deep_view() == opt_text(product_code),
            r.0.instrument_type == instrument_type,
            r.0.pattern == pattern,
    {
        let id = self.get_next_message_id();
        let req = RequestSearchSymbols {
            template_id: 109,
            user_msg: user_msg(&id),
            search_text: some(search_text),
            exchange: opt_owned(exchange),
            product_code: opt_owned(product_code),
            instrument_type: instrument_type,
            pattern: pattern,
        };
        (req, id)
    }

    /// The exchanges a user may trade on.
    pub fn request_list_exchanges(&mut self, user: &str) -> (r: (RequestListExchangePermissions, String))
        requires
            old(self)@.message_id_counter < u64::MAX,
        ensures
            issues(old(self)@, final(self)@, r.1, r.0.user_msg),
            r.0.template_id == 342,
            holds(r.0.user, user@),
    {
        let id = self.get_next_message_id();
        let req = RequestListExchangePermissions {
            template_id: 342,
            user_msg: user_msg(&id),
            user: some(user),
        };
        (req, id)
    }

    /// The dates with order history.
    pub fn request_show_order_history_dates(&mut self) -> (r: (RequestShowOrderHistoryDates, String))
        requires
            old(self)@.message_id_counter < u64::MAX,
        ensures
            issues(old(self)@, final(self)@, r.1, r.0.user_msg),
            r.0.template_id == 318,
    {
        let id = self.get_next_message_id();
        let req = RequestShowOrderHistoryDates {
            template_id: 318,
            user_msg: user_msg(&id),
        };
        (req, id)
    }

    /// Reference data of an instrument: tick size, point value, trading hours.
    pub fn request_reference_data(&mut self, symbol: &str, exchange: &str) -> (r: (RequestReferenceData, String))
        requires
            old(self)@.message_id_counter < u64::MAX,
        ensures
            issues(old(self)@, final(self)@, r.1, r.0.user_msg),
            r.0.template_id == 14,
            holds(r.0.symbol, symbol@),
            holds(r.0.exchange, exchange@),
    {
        let id = self.get_next_message_id();
        let req = RequestReferenceData {
            template_id: 14,
            user_msg: user_msg(&id),
            symbol: some(symbol),
            exchange: some(exchange),
        };
        (req, id)
    }

    /// The front month contract of a product, optionally with roll updates.
    pub fn request_front_month_contract(&mut self, symbol: &str, exchange: &str, need_updates: bool) -> (r: (RequestFrontMonthContract, String))
        requires
            old(self)@.message_id_counter < u64::MAX,
        ensures
            issues(old(self)@, final(self)@, r.1, r.0.user_msg),
            r.0.template_id == 113,
            holds(r.0.symbol, symbol@),
            holds(r.0.exchange, exchange@),
            r.0.need_updates == Some(need_updates),
    {
        let id = self.get_next_message_id();
        let req = RequestFrontMonthContract {
            template_id: 113,
            user_msg: user_msg(&id),
            symbol: some(symbol),
            exchange: some(exchange),
            need_updates: Some(need_updates),
        };
        (req, id)
    }

    /// Subscribe to or unsubscribe from live time bars.
    pub fn request_time_bar_update(&mut self, symbol: &str, exchange: &str, bar_type: TimeBarType, bar_type_period: i32, request: SubscriptionRequest) -> (r: (RequestTimeBarUpdate, String))
        requires
            old(self)@.message_id_counter < u64::MAX,
        ensures
            issues(old(self)@, final(self)@, r.1, r.0.user_msg),
            r.0.template_id == 200,
            holds(r.0.symbol, symbol@),
            holds(r.0.exchange, exchange@),
            r.0.bar_type == Some(bar_type),
            r.0.bar_type_period == Some(bar_type_period),
            r.0.request == Some(request),
    {
        let id = self.get_next_message_id();
        let req = RequestTimeBarUpdate {
            template_id: 200,
            user_msg: user_msg(&id),
            symbol: some(symbol),
            exchange: some(exchange),
            bar_type: Some(bar_type),
            bar_type_period: Some(bar_type_period),
            request: Some(request),
        };
        (req, id)
    }

    /// Subscribe to or unsubscribe from live tick bars.
    pub fn request_tick_bar_update(&mut self, symbol: &str, exchange: &str, bar_type: TickBarType, bar_sub_type: BarSubType, bar_type_specifier: &str, request: SubscriptionRequest) -> (r: (RequestTickBarUpdate, String))
        requires
            old(self)@.message_id_counter < u64::MAX,
        ensures
            issues(old(self)@, final(self)@, r.1, r.0.user_msg),
            r.0.template_id == 204,
            holds(r.0.symbol, symbol@),
            holds(r.0.exchange, exchange@),
            r.0.bar_type == Some(bar_type),
            r.0.bar_sub_type == Some(bar_sub_type),
            holds(r.0.bar_type_specifier, bar_type_specifier@),
            r.0.request == Some(request),
    {
        let id = self.get_next_message_id();
        let req = RequestTickBarUpdate {
            template_id: 204,
            user_msg: user_msg(&id),
            symbol: some(symbol),
            exchange: some(exchange),
            bar_type: Some(bar_type),
            bar_sub_type: Some(bar_sub_type),
            bar_type_specifier: some(bar_type_specifier),
            request: Some(request),
        };
        (req, id)
    }

    /// Subscribe to or unsubscribe from the easy-to-borrow list.
    pub fn request_easy_to_borrow_list(&mut self, request_type: SubscriptionRequest) -> (r: (RequestEasyToBorrowList, String))
        requires
            old(self)@.message_id_counter < u64::MAX,
        ensures
            issues(old(self)@, final(self)@, r.1, r.0.user_msg),
            r.0.template_id == 348,
            r.0.request == Some(request_type),
    {
        let id = self.get_next_message_id();
        let req = RequestEasyToBorrowList {
            template_id: 348,
            user_msg: user_msg(&id),
            request: Some(request_type),
        };
        (req, id)
    }

    /// Order session configuration.
    pub fn request_order_session_config(&mut self, should_defer_request: Option<bool>) -> (r: (RequestOrderSessionConfig, String))
        requires
            old(self)@.message_id_counter < u64::MAX,
        ensures
            issues(old(self)@, final(self)@, r.1, r.0.user_msg),
            r.0.template_id == 3502,
            r.0.should_defer_request == should_defer_request,
    {
        let id = self.get_next_message_id();
        let req = RequestOrderSessionConfig {
            template_id: 3502,
            user_msg: user_msg(&id),
            should_defer_request: should_defer_request,
        };
        (req, id)
    }

    /// Agreements the user has not accepted yet.
    pub fn request_list_unaccepted_agreements(&mut self) -> (r: (RequestListUnacceptedAgreements, String))
        requires
            old(self)@.message_id_counter < u64::MAX,
        ensures
            issues(old(self)@, final(self)@, r.1, r.0.user_msg),
            r.0.template_id == 500,
    {
        let id = self.get_next_message_id();
        let req = RequestListUnacceptedAgreements {
            template_id: 500,
            user_msg: user_msg(&id),
        };
        (req, id)
    }

    /// Agreements the user has accepted.
    pub fn request_list_accepted_agreements(&mut self) -> (r: (RequestListAcceptedAgreements, String))
        requires
            old(self)@.message_id_counter < u64::MAX,
        ensures
            issues(old(self)@, final(self)@, r.1, r.0.user_msg),
            r.0.template_id == 502,
    {
        let id = self.get_next_message_id();
        let req = RequestListAcceptedAgreements {
            template_id: 502,
            user_msg: user_msg(&id),
        };
        (req, id)
    }

    /// Accept an agreement.
    pub fn request_accept_agreement(&mut self, agreement_id: &str, market_data_usage_capacity: Option<&str>) -> (r: (RequestAcceptAgreement, String))
        requires
            old(self)@.message_id_counter < u64::MAX,
        ensures
            issues(old(self)@, final(self)@, r.1, r.0.user_msg),
            r.0.template_id == 504,
            holds(r.0.agreement_id, agreement_id@),
            r.0.market_data_usage_capacity.deep_view() == opt_text(market_data_usage_capacity),
    {
        let id = self.get_next_message_id();
        let req = RequestAcceptAgreement {
            template_id: 504,
            user_msg: user_msg(&id),
            agreement_id: some(agreement_id),
            market_data_usage_capacity: opt_owned(market_data_usage_capacity),
        };
        (req, id)
    }

    /// The text of an agreement.
    pub fn request_show_agreement(&mut self, agreement_id: &str) -> (r: (RequestShowAgreement, String))
        requires
            old(self)@.message_id_counter < u64::MAX,
        ensures
            issues(old(self)@, final(self)@, r.1, r.0.user_msg),
            r.0.template_id == 506,
            holds(r.0.agreement_id, agreement_id@),
    {
        let id = self.get_next_message_id();
        let req = RequestShowAgreement {
            template_id: 506,
            user_msg: user_msg(&id),
            agreement_id: some(agreement_id),
        };
        (req, id)
    }

    /// Set the market data self-certification status.
    pub fn request_set_rithmic_mrkt_data_self_cert_status(&mut self, agreement_id: &str, market_data_usage_capacity: &str) -> (r: (RequestSetRithmicMrktDataSelfCertStatus, String))
        requires
            old(self)@.message_id_counter < u64::MAX,
        ensures
            issues(old(self)@, final(self)@, r.1, r.0.user_msg),
            r.0.template_id == 508,
            holds(r.0.agreement_id, agreement_id@),
            holds(r.0.market_data_usage_capacity, market_data_usage_capacity@),
    {
        let id = self.get_next_message_id();
        let req = RequestSetRithmicMrktDataSelfCertStatus {
            template_id: 508,
            user_msg: user_msg(&id),
            agreement_id: some(agreement_id),
            market_data_usage_capacity: some(market_data_usage_capacity),
        };
        (req, id)
    }

    /// The accounts of the configured broker, listed for a trader.
    pub fn request_account_list(&mut self) -> (r: (RequestAccountList, String))
        requires
            old(self)@.message_id_counter < u64::MAX,
        ensures
            issues(old(self)@, final(self)@, r.1, r.0.user_msg),
            r.0.template_id == 302,
            holds(r.0.fcm_id, old(self)@.fcm_id),
            holds(r.0.ib_id, old(self)@.ib_id),
            r.0.user_type == Some(USER_TYPE),
    {
        let id = self.get_next_message_id();
        let req = RequestAccountList {
            template_id: 302,
            user_msg: user_msg(&id),
            fcm_id: Some(self.fcm_id.clone()),
            ib_id: Some(self.ib_id.clone()),
            user_type: Some(USER_TYPE),
        };
        (req, id)
    }

    /// Risk limits of the configured broker's accounts, for a trader.
    pub fn request_account_rms_info(&mut self) -> (r: (RequestAccountRmsInfo, String))
        requires
            old(self)@.message_id_counter < u64::MAX,
        ensures
            issues(old(self)@, final(self)@, r.1, r.0.user_msg),
            r.0.template_id == 304,
            holds(r.0.fcm_id, old(self)@.fcm_id),
            holds(r.0.ib_id, old(self)@.ib_id),
            r.0.user_type == Some(USER_TYPE),
    {
        let id = self.get_next_message_id();
        let req = RequestAccountRmsInfo {
            template_id: 304,
            user_msg: user_msg(&id),
            fcm_id: Some(self.fcm_id.clone()),
            ib_id: Some(self.ib_id.clone()),
            user_type: Some(USER_TYPE),
        };
        (req, id)
    }

    /// Risk limits per product of the configured account.
    pub fn request_product_rms_info(&mut self) -> (r: (RequestProductRmsInfo, String))
        requires
            old(self)@.message_id_counter < u64::MAX,
        ensures
            issues(old(self)@, final(self)@, r.1, r.0.user_msg),
            r.0.template_id == 306,
            holds(r.0.fcm_id, old(self)@.fcm_id),
            holds(r.0.ib_id, old(self)@.ib_id),
            holds(r.0.account_id, old(self)@.account_id),
    {
        let id = self.get_next_message_id();
        let req = RequestProductRmsInfo {
            template_id: 306,
            user_msg: user_msg(&id),
            fcm_id: Some(self.fcm_id.clone()),
            ib_id: Some(self.ib_id.clone()),
            account_id: Some(self.account_id.clone()),
        };
        (req, id)
    }

    /// Order history summary of the configured account for a date (YYYYMMDD).
    pub fn request_show_order_history_summary(&mut self, date: &str) -> (r: (RequestShowOrderHistorySummary, String))
        requires
            old(self)@.message_id_counter < u64::MAX,
        ensures
            issues(old(self)@, final(self)@, r.1, r.0.user_msg),
            r.0.template_id == 324,
            holds(r.0.fcm_id, old(self)@.fcm_id),
            holds(r.0.ib_id, old(self)@.ib_id),
            holds(r.0.account_id, old(self)@.account_id),
            holds(r.0.date, date@),
    {
        let id = self.get_next_message_id();
        let req = RequestShowOrderHistorySummary {
            template_id: 324,
            user_msg: user_msg(&id),
            fcm_id: Some(self.fcm_id.clone()),
            ib_id: Some(self.ib_id.clone()),
            account_id: Some(self.account_id.clone()),
            date: some(date),
        };
        (req, id)
    }

    /// History of one order of the configured account on a date (YYYYMMDD).
    pub fn request_show_order_history_detail(&mut self, basket_id: &str, date: &str) -> (r: (RequestShowOrderHistoryDetail, String))
        requires
            old(self)@.message_id_counter < u64::MAX,
        ensures
            issues(old(self)@, final(self)@, r.1, r.0.user_msg),
            r.0.template_id == 326,
            holds(r.0.fcm_id, old(self)@.fcm_id),
            holds(r.0.ib_id, old(self)@.ib_id),
            holds(r.0.account_id, old(self)@.account_id),
            holds(r.0.basket_id, basket_id@),
            holds(r.0.date, date@),
    {
        let id = self.get_next_message_id();
        let req = RequestShowOrderHistoryDetail {
            template_id: 326,
            user_msg: user_msg(&id),
            fcm_id: Some(self.fcm_id.clone()),
            ib_id: Some(self.ib_id.clone()),
            account_id: Some(self.account_id.clone()),
            basket_id: some(basket_id),
            date: some(date),
        };
        (req, id)
    }

    /// Order history of the configured account, optionally of one order.
    pub fn request_show_order_history(&mut self, basket_id: Option<&str>) -> (r: (RequestShowOrderHistory, String))
        requires
            old(self)@.message_id_counter < u64::MAX,
        ensures
            issues(old(self)@, final(self)@, r.1, r.0.user_msg),
            r.0.template_id == 322,
            holds(r.0.fcm_id, old(self)@.fcm_id),
            holds(r.0.ib_id, old(self)@.ib_id),
            holds(r.0.account_id, old(self)@.account_id),
            r.0.basket_id.deep_view() == opt_text(basket_id),
    {
        let id = self.get_next_message_id();
        let req = RequestShowOrderHistory {
            template_id: 322,
            user_msg: user_msg(&id),
            fcm_id: Some(self.fcm_id.clone()),
            ib_id: Some(self.ib_id.clone()),
            account_id: Some(self.account_id.clone()),
            basket_id: opt_owned(basket_id),
        };
        (req, id)
    }

    /// Subscribe to order updates on the configured account.
    pub fn request_subscribe_for_order_updates(&mut self) -> (r: (RequestSubscribeForOrderUpdates, String))
        requires
            old(self)@.message_id_counter < u64::MAX,
        ensures
            issues(old(self)@, final(self)@, r.1, r.0.user_msg),
            r.0.template_id == 308,
            scoped_to(r.0.fcm_id, r.0.ib_id, r.0.account_id, account_ids(old(self)@, None)),
    {
        self.request_subscribe_for_order_updates_with_account(None)
    }

    /// Subscribe to order updates on `account`.
    pub fn request_subscribe_for_order_updates_for_account(&mut self, account: &RithmicAccount) -> (r: (RequestSubscribeForOrderUpdates, String))
        requires
            old(self)@.message_id_counter < u64::MAX,
        ensures
            issues(old(self)@, final(self)@, r.1, r.0.user_msg),
            r.0.template_id == 308,
            scoped_to(r.0.fcm_id, r.0.ib_id, r.0.account_id, account_ids(old(self)@, Some(account))),
    {
        self.request_subscribe_for_order_updates_with_account(Some(account))
    }

    fn request_subscribe_for_order_updates_with_account(&mut self, account: Option<&RithmicAccount>) -> (r: (RequestSubscribeForOrderUpdates, String))
        requires
            old(self)@.message_id_counter < u64::MAX,
        ensures
            issues(old(self)@, final(self)@, r.1, r.0.user_msg),
            r.0.template_id == 308,
            scoped_to(r.0.fcm_id, r.0.ib_id, r.0.account_id, account_ids(old(self)@, account)),
    {
        let id = self.get_next_message_id();
        let (fcm_id, ib_id, account_id) = self.account_fields(account);
        let req = RequestSubscribeForOrderUpdates {
            template_id: 308,
            user_msg: user_msg(&id),
            fcm_id: Some(fcm_id),
            ib_id: Some(ib_id),
            account_id: Some(account_id),
        };
        (req, id)
    }

    /// Subscribe to bracket updates on the configured account.
    pub fn request_subscribe_to_bracket_updates(&mut self) -> (r: (RequestSubscribeToBracketUpdates, String))
        requires
            old(self)@.message_id_counter < u64::MAX,
        ensures
            issues(old(self)@, final(self)@, r.1, r.0.user_msg),
            r.0.template_id == 336,
            scoped_to(r.0.fcm_id, r.0.ib_id, r.0.account_id, account_ids(old(self)@, None)),
    {
        self.request_subscribe_to_bracket_updates_with_account(None)
    }

    /// Subscribe to bracket updates on `account`.
    pub fn request_subscribe_to_bracket_updates_for_account(&mut self, account: &RithmicAccount) -> (r: (RequestSubscribeToBracketUpdates, String))
        requires
            old(self)@.message_id_counter < u64::MAX,
        ensures
            issues(old(self)@, final(self)@, r.1, r.0.user_msg),
            r.0.template_id == 336,
            scoped_to(r.0.fcm_id, r.0.ib_id, r.0.account_id, account_ids(old(self)@, Some(account))),
    {
        self.request_subscribe_to_bracket_updates_with_account(Some(account))
    }

    fn request_subscribe_to_bracket_updates_with_account(&mut self, account: Option<&RithmicAccount>) -> (r: (RequestSubscribeToBracketUpdates, String))
        requires
            old(self)@.message_id_counter < u64::MAX,
        ensures
            issues(old(self)@, final(self)@, r.1, r.0.user_msg),
            r.0.template_id == 336,
            scoped_to(r.0.fcm_id, r.0.ib_id, r.0.account_id, account_ids(old(self)@, account)),
    {
        let id = self.get_next_message_id();
        let (fcm_id, ib_id, account_id) = self.account_fields(account);
        let req = RequestSubscribeToBracketUpdates {
            template_id: 336,
            user_msg: user_msg(&id),
            fcm_id: Some(fcm_id),
            ib_id: Some(ib_id),
            account_id: Some(account_id),
        };
        (req, id)
    }

    /// Cancel one working order, attributed to automation, on the configured account.
    pub fn request_cancel_order(&mut self, basket_id: &str) -> (r: (RequestCancelOrder, String))
        requires
            old(self)@.message_id_counter < u64::MAX,
        ensures
            issues(old(self)@, final(self)@, r.1, r.0.user_msg),
            r.0.template_id == 316,
            scoped_to(r.0.fcm_id, r.0.ib_id, r.0.account_id, account_ids(old(self)@, None)),
            holds(r.0.basket_id, basket_id@),
            r.0.manual_or_auto == Some(OrderPlacement::Auto),
    {
        self.request_cancel_order_with_account(basket_id, None)
    }

    /// Cancel one working order, attributed to automation, on `account`.
    pub fn request_cancel_order_for_account(&mut self, basket_id: &str, account: &RithmicAccount) -> (r: (RequestCancelOrder, String))
        requires
            old(self)@.message_id_counter < u64::MAX,
        ensures
            issues(old(self)@, final(self)@, r.1, r.0.user_msg),
            r.0.template_id == 316,
            scoped_to(r.0.fcm_id, r.0.ib_id, r.0.account_id, account_ids(old(self)@, Some(account))),
            holds(r.0.basket_id, basket_id@),
            r.0.manual_or_auto == Some(OrderPlacement::Auto),
    {
        self.request_cancel_order_with_account(basket_id, Some(account))
    }

    fn request_cancel_order_with_account(&mut self, basket_id: &str, account: Option<&RithmicAccount>) -> (r: (RequestCancelOrder, String))
        requires
            old(self)@.message_id_counter < u64::MAX,
        ensures
            issues(old(self)@, final(self)@, r.1, r.0.user_msg),
            r.0.template_id == 316,
            scoped_to(r.0.fcm_id, r.0.ib_id, r.0.account_id, account_ids(old(self)@, account)),
            holds(r.0.basket_id, basket_id@),
            r.0.manual_or_auto == Some(OrderPlacement::Auto),
    {
        let id = self.get_next_message_id();
        let (fcm_id, ib_id, account_id) = self.account_fields(account);
        let req = RequestCancelOrder {
            template_id: 316,
            user_msg: user_msg(&id),
            fcm_id: Some(fcm_id),
            ib_id: Some(ib_id),
            account_id: Some(account_id),
            basket_id: some(basket_id),
            manual_or_auto: Some(OrderPlacement::Auto),
        };
        (req, id)
    }

    /// Flatten the position in one instrument, attributed to automation, on the configured account.
    pub fn request_exit_position(&mut self, symbol: &str, exchange: &str) -> (r: (RequestExitPosition, String))
        requires
            old(self)@.message_id_counter < u64::MAX,
        ensures
            issues(old(self)@, final(self)@, r.1, r.0.user_msg),
            r.0.template_id == 3504,
            scoped_to(r.0.fcm_id, r.0.ib_id, r.0.account_id, account_ids(old(self)@, None)),
            holds(r.0.symbol, symbol@),
            holds(r.0.exchange, exchange@),
            r.0.manual_or_auto == Some(OrderPlacement::Auto),
    {
        self.request_exit_position_with_account(symbol, exchange, None)
    }

    /// Flatten the position in one instrument, attributed to automation, on `account`.
    pub fn request_exit_position_for_account(&mut self, symbol: &str, exchange: &str, account: &RithmicAccount) -> (r: (RequestExitPosition, String))
        requires
            old(self)@.message_id_counter < u64::MAX,
        ensures
            issues(old(self)@, final(self)@, r.1, r.0.user_msg),
            r.0.template_id == 3504,
            scoped_to(r.0.fcm_id, r.0.ib_id, r.0.account_id, account_ids(old(self)@, Some(account))),
            holds(r.0.symbol, symbol@),
            holds(r.0.exchange, exchange@),
            r.0.manual_or_auto == Some(OrderPlacement::Auto),
    {
        self.request_exit_position_with_account(symbol, exchange, Some(account))
    }

    fn request_exit_position_with_account(&mut self, symbol: &str, exchange: &str, account: Option<&RithmicAccount>) -> (r: (RequestExitPosition, String))
        requires
            old(self)@.message_id_counter < u64::MAX,
        ensures
            issues(old(self)@, final(self)@, r.1, r.0.user_msg),
            r.0.template_id == 3504,
            scoped_to(r.0.fcm_id, r.0.ib_id, r.0.account_id, account_ids(old(self)@, account)),
            holds(r.0.symbol, symbol@),
            holds(r.0.exchange, exchange@),
            r.0.manual_or_auto == Some(OrderPlacement::Auto),
    {
        let id = self.get_next_message_id();
        let (fcm_id, ib_id, account_id) = self.account_fields(account);
        let req = RequestExitPosition {
            template_id: 3504,
            user_msg: user_msg(&id),
            fcm_id: Some(fcm_id),
            ib_id: Some(ib_id),
            account_id: Some(account_id),
            symbol: some(symbol),
            exchange: some(exchange),
            manual_or_auto: Some(OrderPlacement::Auto),
        };
        (req, id)
    }

    /// Move a bracket's profit target to `profit_ticks` on the configured account.
    pub fn request_update_target_bracket_level(&mut self, basket_id: &str, profit_ticks: i32) -> (r: (RequestUpdateTargetBracketLevel, String))
        requires
            old(self)@.message_id_counter < u64::MAX,
        ensures
            issues(old(self)@, final(self)@, r.1, r.0.user_msg),
            r.0.template_id == 332,
            scoped_to(r.0.fcm_id, r.0.ib_id, r.0.account_id, account_ids(old(self)@, None)),
            holds(r.0.basket_id, basket_id@),
            r.0.target_ticks == Some(profit_ticks),
    {
        self.request_update_target_bracket_level_with_account(basket_id, profit_ticks, None)
    }

    /// Move a bracket's profit target to `profit_ticks` on `account`.
    pub fn request_update_target_bracket_level_for_account(&mut self, basket_id: &str, profit_ticks: i32, account: &RithmicAccount) -> (r: (RequestUpdateTargetBracketLevel, String))
        requires
            old(self)@.message_id_counter < u64::MAX,
        ensures
            issues(old(self)@, final(self)@, r.1, r.0.user_msg),
            r.0.template_id == 332,
            scoped_to(r.0.fcm_id, r.0.ib_id, r.0.account_id, account_ids(old(self)@, Some(account))),
            holds(r.0.basket_id, basket_id@),
            r.0.target_ticks == Some(profit_ticks),
    {
        self.request_update_target_bracket_level_with_account(basket_id, profit_ticks, Some(account))
    }

    fn request_update_target_bracket_level_with_account(&mut self, basket_id: &str, profit_ticks: i32, account: Option<&RithmicAccount>) -> (r: (RequestUpdateTargetBracketLevel, String))
        requires
            old(self)@.message_id_counter < u64::MAX,
        ensures
            issues(old(self)@, final(self)@, r.1, r.0.user_msg),
            r.0.template_id == 332,
            scoped_to(r.0.fcm_id, r.0.ib_id, r.0.account_id, account_ids(old(self)@, account)),
            holds(r.0.basket_id, basket_id@),
            r.0.target_ticks == Some(profit_ticks),
    {
        let id = self.get_next_message_id();
        let (fcm_id, ib_id, account_id) = self.account_fields(account);
        let req = RequestUpdateTargetBracketLevel {
            template_id: 332,
            user_msg: user_msg(&id),
            fcm_id: Some(fcm_id),
            ib_id: Some(ib_id),
            account_id: Some(account_id),
            basket_id: some(basket_id),
            target_ticks: Some(profit_ticks),
        };
        (req, id)
    }

    /// Move a bracket's stop loss to `stop_ticks` on the configured account.
    pub fn request_update_stop_bracket_level(&mut self, basket_id: &str, stop_ticks: i32) -> (r: (RequestUpdateStopBracketLevel, String))
        requires
            old(self)@.message_id_counter < u64::MAX,
        ensures
            issues(old(self)@, final(self)@, r.1, r.0.user_msg),
            r.0.template_id == 334,
            scoped_to(r.0.fcm_id, r.0.ib_id, r.0.account_id, account_ids(old(self)@, None)),
            holds(r.0.basket_id, basket_id@),
            r.0.stop_ticks == Some(stop_ticks),
    {
        self.request_update_stop_bracket_level_with_account(basket_id, stop_ticks, None)
    }

    /// Move a bracket's stop loss to `stop_ticks` on `account`.
    pub fn request_update_stop_bracket_level_for_account(&mut self, basket_id: &str, stop_ticks: i32, account: &RithmicAccount) -> (r: (RequestUpdateStopBracketLevel, String))
        requires
            old(self)@.message_id_counter < u64::MAX,
        ensures
            issues(old(self)@, final(self)@, r.1, r.0.user_msg),
            r.0.template_id == 334,
            scoped_to(r.0.fcm_id, r.0.ib_id, r.0.account_id, account_ids(old(self)@, Some(account))),
            holds(r.0.basket_id, basket_id@),
            r.0.stop_ticks == Some(stop_ticks),
    {
        self.request_update_stop_bracket_level_with_account(basket_id, stop_ticks, Some(account))
    }

    fn request_update_stop_bracket_level_with_account(&mut self, basket_id: &str, stop_ticks: i32, account: Option<&RithmicAccount>) -> (r: (RequestUpdateStopBracketLevel, String))
        requires
            old(self)@.message_id_counter < u64::MAX,
        ensures
            issues(old(self)@, final(self)@, r.1, r.0.user_msg),
            r.0.template_id == 334,
            scoped_to(r.0.fcm_id, r.0.ib_id, r.0.account_id, account_ids(old(self)@, account)),
            holds(r.0.basket_id, basket_id@),
            r.0.stop_ticks == Some(stop_ticks),
    {
        let id = self.get_next_message_id();
        let (fcm_id, ib_id, account_id) = self.account_fields(account);
        let req = RequestUpdateStopBracketLevel {
            template_id: 334,
            user_msg: user_msg(&id),
            fcm_id: Some(fcm_id),
            ib_id: Some(ib_id),
            account_id: Some(account_id),
            basket_id: some(basket_id),
            stop_ticks: Some(stop_ticks),
        };
        (req, id)
    }

    /// List the active bracket orders on the configured account.
    pub fn request_show_brackets(&mut self) -> (r: (RequestShowBrackets, String))
        requires
            old(self)@.message_id_counter < u64::MAX,
        ensures
            issues(old(self)@, final(self)@, r.1, r.0.user_msg),
            r.0.template_id == 338,
            scoped_to(r.0.fcm_id, r.0.ib_id, r.0.account_id, account_ids(old(self)@, None)),
    {
        self.request_show_brackets_with_account(None)
    }

    /// List the active bracket orders on `account`.
    pub fn request_show_brackets_for_account(&mut self, account: &RithmicAccount) -> (r: (RequestShowBrackets, String))
        requires
            old(self)@.message_id_counter < u64::MAX,
        ensures
            issues(old(self)@, final(self)@, r.1, r.0.user_msg),
            r.0.template_id == 338,
            scoped_to(r.0.fcm_id, r.0.ib_id, r.0.account_id, account_ids(old(self)@, Some(account))),
    {
        self.request_show_brackets_with_account(Some(account))
    }

    fn request_show_brackets_with_account(&mut self, account: Option<&RithmicAccount>) -> (r: (RequestShowBrackets, String))
        requires
            old(self)@.message_id_counter < u64::MAX,
        ensures
            issues(old(self)@, final(self)@, r.1, r.0.user_msg),
            r.0.template_id == 338,
            scoped_to(r.0.fcm_id, r.0.ib_id, r.0.account_id, account_ids(old(self)@, account)),
    {
        let id = self.get_next_message_id();
        let (fcm_id, ib_id, account_id) = self.account_fields(account);
        let req = RequestShowBrackets {
            template_id: 338,
            user_msg: user_msg(&id),
            fcm_id: Some(fcm_id),
            ib_id: Some(ib_id),
            account_id: Some(account_id),
        };
        (req, id)
    }

    /// List the stops of the active bracket orders on the configured account.
    pub fn request_show_bracket_stops(&mut self) -> (r: (RequestShowBracketStops, String))
        requires
            old(self)@.message_id_counter < u64::MAX,
        ensures
            issues(old(self)@, final(self)@, r.1, r.0.user_msg),
            r.0.template_id == 340,
            scoped_to(r.0.fcm_id, r.0.ib_id, r.0.account_id, account_ids(old(self)@, None)),
    {
        self.request_show_bracket_stops_with_account(None)
    }

    /// List the stops of the active bracket orders on `account`.
    pub fn request_show_bracket_stops_for_account(&mut self, account: &RithmicAccount) -> (r: (RequestShowBracketStops, String))
        requires
            old(self)@.message_id_counter < u64::MAX,
        ensures
            issues(old(self)@, final(self)@, r.1, r.0.user_msg),
            r.0.template_id == 340,
            scoped_to(r.0.fcm_id, r.0.ib_id, r.0.account_id, account_ids(old(self)@, Some(account))),
    {
        self.request_show_bracket_stops_with_account(Some(account))
    }

    fn request_show_bracket_stops_with_account(&mut self, account: Option<&RithmicAccount>) -> (r: (RequestShowBracketStops, String))
        requires
            old(self)@.message_id_counter < u64::MAX,
        ensures
            issues(old(self)@, final(self)@, r.1, r.0.user_msg),
            r.0.template_id == 340,
            scoped_to(r.0.fcm_id, r.0.ib_id, r.0.account_id, account_ids(old(self)@, account)),
    {
        let id = self.get_next_message_id();
        let (fcm_id, ib_id, account_id) = self.account_fields(account);
        let req = RequestShowBracketStops {
            template_id: 340,
            user_msg: user_msg(&id),
            fcm_id: Some(fcm_id),
            ib_id: Some(ib_id),
            account_id: Some(account_id),
        };
        (req, id)
    }

    /// List the working orders on the configured account.
    pub fn request_show_orders(&mut self) -> (r: (RequestShowOrders, String))
        requires
            old(self)@.message_id_counter < u64::MAX,
        ensures
            issues(old(self)@, final(self)@, r.1, r.0.user_msg),
            r.0.template_id == 320,
            scoped_to(r.0.fcm_id, r.0.ib_id, r.0.account_id, account_ids(old(self)@, None)),
    {
        self.request_show_orders_with_account(None)
    }

    /// List the working orders on `account`.
    pub fn request_show_orders_for_account(&mut self, account: &RithmicAccount) -> (r: (RequestShowOrders, String))
        requires
            old(self)@.message_id_counter < u64::MAX,
        ensures
            issues(old(self)@, final(self)@, r.1, r.0.user_msg),
            r.0.template_id == 320,
            scoped_to(r.0.fcm_id, r.0.ib_id, r.0.account_id, account_ids(old(self)@, Some(account))),
    {
        self.request_show_orders_with_account(Some(account))
    }

    fn request_show_orders_with_account(&mut self, account: Option<&RithmicAccount>) -> (r: (RequestShowOrders, String))
        requires
            old(self)@.message_id_counter < u64::MAX,
        ensures
            issues(old(self)@, final(self)@, r.1, r.0.user_msg),
            r.0.template_id == 320,
            scoped_to(r.0.fcm_id, r.0.ib_id, r.0.account_id, account_ids(old(self)@, account)),
    {
        let id = self.get_next_message_id();
        let (fcm_id, ib_id, account_id) = self.account_fields(account);
        let req = RequestShowOrders {
            template_id: 320,
            user_msg: user_msg(&id),
            fcm_id: Some(fcm_id),
            ib_id: Some(ib_id),
            account_id: Some(account_id),
        };
        (req, id)
    }

    /// Subscribe to or unsubscribe from PnL and position updates on the configured account.
    pub fn request_pnl_position_updates(&mut self, action: SubscriptionRequest) -> (r: (RequestPnLPositionUpdates, String))
        requires
            old(self)@.message_id_counter < u64::MAX,
        ensures
            issues(old(self)@, final(self)@, r.1, r.0.user_msg),
            r.0.template_id == 400,
            scoped_to(r.0.fcm_id, r.0.ib_id, r.0.account_id, account_ids(old(self)@, None)),
            r.0.request == Some(action),
    {
        self.request_pnl_position_updates_with_account(action, None)
    }

    /// Subscribe to or unsubscribe from PnL and position updates on `account`.
    pub fn request_pnl_position_updates_for_account(&mut self, action: SubscriptionRequest, account: &RithmicAccount) -> (r: (RequestPnLPositionUpdates, String))
        requires
            old(self)@.message_id_counter < u64::MAX,
        ensures
            issues(old(self)@, final(self)@, r.1, r.0.user_msg),
            r.0.template_id == 400,
            scoped_to(r.0.fcm_id, r.0.ib_id, r.0.account_id, account_ids(old(self)@, Some(account))),
            r.0.request == Some(action),
    {
        self.request_pnl_position_updates_with_account(action, Some(account))
    }

    fn request_pnl_position_updates_with_account(&mut self, action: SubscriptionRequest, account: Option<&RithmicAccount>) -> (r: (RequestPnLPositionUpdates, String))
        requires
            old(self)@.message_id_counter < u64::MAX,
        ensures
            issues(old(self)@, final(self)@, r.1, r.0.user_msg),
            r.0.template_id == 400,
            scoped_to(r.0.fcm_id, r.0.ib_id, r.0.account_id, account_ids(old(self)@, account)),
            r.0.request == Some(action),
    {
        let id = self.get_next_message_id();
        let (fcm_id, ib_id, account_id) = self.account_fields(account);
        let req = RequestPnLPositionUpdates {
            template_id: 400,
            user_msg: user_msg(&id),
            fcm_id: Some(fcm_id),
            ib_id: Some(ib_id),
            account_id: Some(account_id),
            request: Some(action),
        };
        (req, id)
    }

    /// A snapshot of PnL and positions on the configured account.
    pub fn request_pnl_position_snapshot(&mut self) -> (r: (RequestPnLPositionSnapshot, String))
        requires
            old(self)@.message_id_counter < u64::MAX,
        ensures
            issues(old(self)@, final(self)@, r.1, r.0.user_msg),
            r.0.template_id == 402,
            scoped_to(r.0.fcm_id, r.0.ib_id, r.0.account_id, account_ids(old(self)@, None)),
    {
        self.request_pnl_position_snapshot_with_account(None)
    }

    /// A snapshot of PnL and positions on `account`.
    pub fn request_pnl_position_snapshot_for_account(&mut self, account: &RithmicAccount) -> (r: (RequestPnLPositionSnapshot, String))
        requires
            old(self)@.message_id_counter < u64::MAX,
        ensures
            issues(old(self)@, final(self)@, r.1, r.0.user_msg),
            r.0.template_id == 402,
            scoped_to(r.0.fcm_id, r.0.ib_id, r.0.account_id, account_ids(old(self)@, Some(account))),
    {
        self.request_pnl_position_snapshot_with_account(Some(account))
    }

    fn request_pnl_position_snapshot_with_account(&mut self, account: Option<&RithmicAccount>) -> (r: (RequestPnLPositionSnapshot, String))
        requires
            old(self)@.message_id_counter < u64::MAX,
        ensures
            issues(old(self)@, final(self)@, r.1, r.0.user_msg),
            r.0.template_id == 402,
            scoped_to(r.0.fcm_id, r.0.ib_id, r.0.account_id, account_ids(old(self)@, account)),
    {
        let id = self.get_next_message_id();
        let (fcm_id, ib_id, account_id) = self.account_fields(account);
        let req = RequestPnLPositionSnapshot {
            template_id: 402,
            user_msg: user_msg(&id),
            fcm_id: Some(fcm_id),
            ib_id: Some(ib_id),
            account_id: Some(account_id),
        };
        (req, id)
    }

    /// Cancel every working order, as a trader's manual action, on the configured account.
    pub fn request_cancel_all_orders(&mut self) -> (r: (RequestCancelAllOrders, String))
        requires
            old(self)@.message_id_counter < u64::MAX,
        ensures
            issues(old(self)@, final(self)@, r.1, r.0.user_msg),
            r.0.template_id == 346,
            scoped_to(r.0.fcm_id, r.0.ib_id, r.0.account_id, account_ids(old(self)@, None)),
            r.0.user_type == Some(USER_TYPE),
            r.0.manual_or_auto == Some(OrderPlacement::Manual),
    {
        self.request_cancel_all_orders_with_account(None)
    }

    /// Cancel every working order, as a trader's manual action, on `account`.
    pub fn request_cancel_all_orders_for_account(&mut self, account: &RithmicAccount) -> (r: (RequestCancelAllOrders, String))
        requires
            old(self)@.message_id_counter < u64::MAX,
        ensures
            issues(old(self)@, final(self)@, r.1, r.0.user_msg),
            r.0.template_id == 346,
            scoped_to(r.0.fcm_id, r.0.ib_id, r.0.account_id, account_ids(old(self)@, Some(account))),
            r.0.user_type == Some(USER_TYPE),
            r.0.manual_or_auto == Some(OrderPlacement::Manual),
    {
        self.request_cancel_all_orders_with_account(Some(account))
    }

    fn request_cancel_all_orders_with_account(&mut self, account: Option<&RithmicAccount>) -> (r: (RequestCancelAllOrders, String))
        requires
            old(self)@.message_id_counter < u64::MAX,
        ensures
            issues(old(self)@, final(self)@, r.1, r.0.user_msg),
            r.0.template_id == 346,
            scoped_to(r.0.fcm_id, r.0.ib_id, r.0.account_id, account_ids(old(self)@, account)),
            r.0.user_type == Some(USER_TYPE),
            r.0.manual_or_auto == Some(OrderPlacement::Manual),
    {
        let id = self.get_next_message_id();
        let (fcm_id, ib_id, account_id) = self.account_fields(account);
        let req = RequestCancelAllOrders {
            template_id: 346,
            user_msg: user_msg(&id),
            fcm_id: Some(fcm_id),
            ib_id: Some(ib_id),
            account_id: Some(account_id),
            user_type: Some(USER_TYPE),
            manual_or_auto: Some(OrderPlacement::Manual),
        };
        (req, id)
    }

    /// Change the tag reported on an order on the configured account.
    pub fn request_modify_order_reference_data(&mut self, basket_id: &str, user_tag: &str) -> (r: (RequestModifyOrderReferenceData, String))
        requires
            old(self)@.message_id_counter < u64::MAX,
        ensures
            issues(old(self)@, final(self)@, r.1, r.0.user_msg),
            r.0.template_id == 3500,
            scoped_to(r.0.fcm_id, r.0.ib_id, r.0.account_id, account_ids(old(self)@, None)),
            holds(r.0.user_tag, user_tag@),
            holds(r.0.basket_id, basket_id@),
    {
        self.request_modify_order_reference_data_with_account(basket_id, user_tag, None)
    }

    /// Change the tag reported on an order on `account`.
    pub fn request_modify_order_reference_data_for_account(&mut self, basket_id: &str, user_tag: &str, account: &RithmicAccount) -> (r: (RequestModifyOrderReferenceData, String))
        requires
            old(self)@.message_id_counter < u64::MAX,
        ensures
            issues(old(self)@, final(self)@, r.1, r.0.user_msg),
            r.0.template_id == 3500,
            scoped_to(r.0.fcm_id, r.0.ib_id, r.0.account_id, account_ids(old(self)@, Some(account))),
            holds(r.0.user_tag, user_tag@),
            holds(r.0.basket_id, basket_id@),
    {
        self.request_modify_order_reference_data_with_account(basket_id, user_tag, Some(account))
    }

    fn request_modify_order_reference_data_with_account(&mut self, basket_id: &str, user_tag: &str, account: Option<&RithmicAccount>) -> (r: (RequestModifyOrderReferenceData, String))
        requires
            old(self)@.message_id_counter < u64::MAX,
        ensures
            issues(old(self)@, final(self)@, r.1, r.0.user_msg),
            r.0.template_id == 3500,
            scoped_to(r.0.fcm_id, r.0.ib_id, r.0.account_id, account_ids(old(self)@, account)),
            holds(r.0.user_tag, user_tag@),
            holds(r.0.basket_id, basket_id@),
    {
        let id = self.get_next_message_id();
        let (fcm_id, ib_id, account_id) = self.account_fields(account);
        let req = RequestModifyOrderReferenceData {
            template_id: 3500,
            user_msg: user_msg(&id),
            fcm_id: Some(fcm_id),
            ib_id: Some(ib_id),
            account_id: Some(account_id),
            user_tag: some(user_tag),
            basket_id: some(basket_id),
        };
        (req, id)
    }

    /// Replay the executions between two unix times on the configured account.
    pub fn request_replay_executions(&mut self, start_index_sec: i32, finish_index_sec: i32) -> (r: (RequestReplayExecutions, String))
        requires
            old(self)@.message_id_counter < u64::MAX,
        ensures
            issues(old(self)@, final(self)@, r.1, r.0.user_msg),
            r.0.template_id == 3506,
            scoped_to(r.0.fcm_id, r.0.ib_id, r.0.account_id, account_ids(old(self)@, None)),
            r.0.start_index == Some(start_index_sec),
            r.0.finish_index == Some(finish_index_sec),
    {
        self.request_replay_executions_with_account(start_index_sec, finish_index_sec, None)
    }

    /// Replay the executions between two unix times on `account`.
    pub fn request_replay_executions_for_account(&mut self, start_index_sec: i32, finish_index_sec: i32, account: &RithmicAccount) -> (r: (RequestReplayExecutions, String))
        requires
            old(self)@.message_id_counter < u64::MAX,
        ensures
            issues(old(self)@, final(self)@, r.1, r.0.user_msg),
            r.0.template_id == 3506,
            scoped_to(r.0.fcm_id, r.0.ib_id, r.0.account_id, account_ids(old(self)@, Some(account))),
            r.0.start_index == Some(start_index_sec),
            r.0.finish_index == Some(finish_index_sec),
    {
        self.request_replay_executions_with_account(start_index_sec, finish_index_sec, Some(account))
    }

    fn request_replay_executions_with_account(&mut self, start_index_sec: i32, finish_index_sec: i32, account: Option<&RithmicAccount>) -> (r: (RequestReplayExecutions, String))
        requires
            old(self)@.message_id_counter < u64::MAX,
        ensures
            issues(old(self)@, final(self)@, r.1, r.0.user_msg),
            r.0.template_id == 3506,
            scoped_to(r.0.fcm_id, r.0.ib_id, r.0.account_id, account_ids(old(self)@, account)),
            r.0.start_index == Some(start_index_sec),
            r.0.finish_index == Some(finish_index_sec),
    {
        let id = self.get_next_message_id();
        let (fcm_id, ib_id, account_id) = self.account_fields(account);
        let req = RequestReplayExecutions {
            template_id: 3506,
            user_msg: user_msg(&id),
            fcm_id: Some(fcm_id),
            ib_id: Some(ib_id),
            account_id: Some(account_id),
            start_index: Some(start_index_sec),
            finish_index: Some(finish_index_sec),
        };
        (req, id)
    }

    /// Log in to a plant as `user`, reporting this application's name and
    /// version and the options in `config`.
    pub fn request_login(
        &mut self,
        system_name: &str,
        infra_type: SysInfraType,
        user: &str,
        password: &str,
        config: &LoginConfig,
    ) -> (r: (RequestLogin, String))
        requires
            old(self)@.message_id_counter < u64::MAX,
        ensures
            issues(old(self)@, final(self)@, r.1, r.0.user_msg),
            r.0.template_id == 10,
            holds(r.0.template_version, "5.30"@),
            holds(r.0.user, user@),
            holds(r.0.password, password@),
            holds(r.0.app_name, old(self)@.app_name),
            holds(r.0.app_version, old(self)@.app_version),
            holds(r.0.system_name, system_name@),
            r.0.infra_type == Some(infra_type),
            r.0.aggregated_quotes == config.aggregated_quotes,
            r.0.mac_addr.deep_view() == match config.mac_addr {
                Some(v) => v.deep_view(),
                None => Seq::<Seq<char>>::empty(),
            },
            r.0.os_version.deep_view() == config.os_version.deep_view(),
            r.0.os_platform.deep_view() == config.os_platform.deep_view(),
    {
        let id = self.get_next_message_id();
        let mac_addr = match &config.mac_addr {
            Some(v) => clone_strings(v),
            None => Vec::new(),
        };
        proof {
            if config.mac_addr is None {
                assert(mac_addr.deep_view() =~= Seq::<Seq<char>>::empty());
            }
        }
        let req = RequestLogin {
            template_id: 10,
            user_msg: user_msg(&id),
            template_version: some("5.30"),
            user: some(user),
            password: some(password),
            app_name: Some(self.app_name.clone()),
            app_version: Some(self.app_version.clone()),
            system_name: some(system_name),
            infra_type: Some(infra_type),
            aggregated_quotes: config.aggregated_quotes,
            mac_addr,
            os_version: clone_opt(&config.os_version),
            os_platform: clone_opt(&config.os_platform),
        };
        (req, id)
    }

    /// Subscribe to or unsubscribe from the market data `fields` of one
    /// instrument; the request carries the union of their bits.
    pub fn request_market_data_update(
        &mut self,
        symbol: &str,
        exchange: &str,
        fields: Vec<UpdateBits>,
        request_type: SubscriptionRequest,
    ) -> (r: (RequestMarketDataUpdate, String))
        requires
            old(self)@.message_id_counter < u64::MAX,
        ensures
            issues(old(self)@, final(self)@, r.1, r.0.user_msg),
            r.0.template_id == 100,
            holds(r.0.symbol, symbol@),
            holds(r.0.exchange, exchange@),
            r.0.request == Some(request_type),
            r.0.update_bits == Some(union_of_bits(fields@)),
    {
        let id = self.get_next_message_id();
        let bits = fold_update_bits(&fields);
        let req = RequestMarketDataUpdate {
            template_id: 100,
            user_msg: user_msg(&id),
            symbol: some(symbol),
            exchange: some(exchange),
            request: Some(request_type),
            update_bits: Some(bits),
        };
        (req, id)
    }

    /// Subscribe to or unsubscribe from the market data `fields` of every
    /// instrument of an underlying; the request carries the union of their
    /// bits.
    pub fn request_market_data_update_by_underlying(
        &mut self,
        underlying_symbol: &str,
        exchange: &str,
        expiration_date: Option<&str>,
        fields: Vec<UpdateBits>,
        request_type: SubscriptionRequest,
    ) -> (r: (RequestMarketDataUpdateByUnderlying, String))
        requires
            old(self)@.message_id_counter < u64::MAX,
        ensures
            issues(old(self)@, final(self)@, r.1, r.0.user_msg),
            r.0.template_id == 105,
            holds(r.0.underlying_symbol, underlying_symbol@),
            holds(r.0.exchange, exchange@),
            r.0.expiration_date.deep_view() == opt_text(expiration_date),
            r.0.request == Some(request_type),
            r.0.update_bits == Some(union_of_bits(fields@)),
    {
        let id = self.get_next_message_id();
        let bits = fold_update_bits(&fields);
        let req = RequestMarketDataUpdateByUnderlying {
            template_id: 105,
            user_msg: user_msg(&id),
            underlying_symbol: some(underlying_symbol),
            exchange: some(exchange),
            expiration_date: opt_owned(expiration_date),
            request: Some(request_type),
            update_bits: Some(bits),
        };
        (req, id)
    }

    /// Subscribe to (`true`) or unsubscribe from account RMS updates on the
    /// configured account.
    pub fn request_account_rms_updates(&mut self, subscribe: bool) -> (r: (RequestAccountRmsUpdates, String))
        requires
            old(self)@.message_id_counter < u64::MAX,
        ensures
            issues(old(self)@, final(self)@, r.1, r.0.user_msg),
            r.0.template_id == 3508,
            scoped_to(r.0.fcm_id, r.0.ib_id, r.0.account_id, account_ids(old(self)@, None)),
            holds(r.0.request, if subscribe { "subscribe"@ } else { "unsubscribe"@ }),
    {
        self.request_account_rms_updates_with_account(subscribe, None)
    }

    /// Subscribe to (`true`) or unsubscribe from account RMS updates on
    /// `account`.
    pub fn request_account_rms_updates_for_account(
        &mut self,
        subscribe: bool,
        account: &RithmicAccount,
    ) -> (r: (RequestAccountRmsUpdates, String))
        requires
            old(self)@.message_id_counter < u64::MAX,
        ensures
            issues(old(self)@, final(self)@, r.1, r.0.user_msg),
            r.0.template_id == 3508,
            scoped_to(r.0.fcm_id, r.0.ib_id, r.0.account_id, account_ids(old(self)@, Some(account))),
            holds(r.0.request, if subscribe { "subscribe"@ } else { "unsubscribe"@ }),
    {
        self.request_account_rms_updates_with_account(subscribe, Some(account))
    }

    fn request_account_rms_updates_with_account(
        &mut self,
        subscribe: bool,
        account: Option<&RithmicAccount>,
    ) -> (r: (RequestAccountRmsUpdates, String))
        requires
            old(self)@.message_id_counter < u64::MAX,
        ensures
            issues(old(self)@, final(self)@, r.1, r.0.user_msg),
            r.0.template_id == 3508,
            scoped_to(r.0.fcm_id, r.0.ib_id, r.0.account_id, account_ids(old(self)@, account)),
            holds(r.0.request, if subscribe { "subscribe"@ } else { "unsubscribe"@ }),
    {
        let id = self.get_next_message_id();
        let (fcm_id, ib_id, account_id) = self.account_fields(account);
        let request = if subscribe { some("subscribe") } else { some("unsubscribe") };
        let req = RequestAccountRmsUpdates {
            template_id: 3508,
            user_msg: user_msg(&id),
            fcm_id: Some(fcm_id),
            ib_id: Some(ib_id),
            account_id: Some(account_id),
            request,
        };
        (req, id)
    }

    /// Link the orders `basket_ids` of the configured account into one group.
    pub fn request_link_orders(&mut self, basket_ids: Vec<String>) -> (r: (RequestLinkOrders, String))
        requires
            old(self)@.message_id_counter < u64::MAX,
        ensures
            issues(old(self)@, final(self)@, r.1, r.0.user_msg),
            r.0.template_id == 344,
            r.0.basket_id.deep_view() == basket_ids.deep_view(),
            r.0.fcm_id.deep_view() == repeated(account_ids(old(self)@, None).0, basket_ids@.len()),
            r.0.ib_id.deep_view() == repeated(account_ids(old(self)@, None).1, basket_ids@.len()),
            r.0.account_id.deep_view() == repeated(account_ids(old(self)@, None).2, basket_ids@.len()),
    {
        self.request_link_orders_with_account(basket_ids, None)
    }

    /// Link the orders `basket_ids` of `account` into one group.
    pub fn request_link_orders_for_account(
        &mut self,
        basket_ids: Vec<String>,
        account: &RithmicAccount,
    ) -> (r: (RequestLinkOrders, String))
        requires
            old(self)@.message_id_counter < u64::MAX,
        ensures
            issues(old(self)@, final(self)@, r.1, r.0.user_msg),
            r.0.template_id == 344,
            r.0.basket_id.deep_view() == basket_ids.deep_view(),
            r.0.fcm_id.deep_view() == repeated(account_ids(old(self)@, Some(account)).0, basket_ids@.len()),
            r.0.ib_id.deep_view() == repeated(account_ids(old(self)@, Some(account)).1, basket_ids@.len()),
            r.0.account_id.deep_view() == repeated(account_ids(old(self)@, Some(account)).2, basket_ids@.len()),
    {
        self.request_link_orders_with_account(basket_ids, Some(account))
    }

    fn request_link_orders_with_account(
        &mut self,
        basket_ids: Vec<String>,
        account: Option<&RithmicAccount>,
    ) -> (r: (RequestLinkOrders, String))
        requires
            old(self)@.message_id_counter < u64::MAX,
        ensures
            issues(old(self)@, final(self)@, r.1, r.0.user_msg),
            r.0.template_id == 344,
            r.0.basket_id.deep_view() == basket_ids.deep_view(),
            r.0.fcm_id.deep_view() == repeated(account_ids(old(self)@, account).0, basket_ids@.len()),
            r.0.ib_id.deep_view() == repeated(account_ids(old(self)@, account).1, basket_ids@.len()),
            r.0.account_id.deep_view() == repeated(account_ids(old(self)@, account).2, basket_ids@.len()),
    {
        let id = self.get_next_message_id();
        let count = basket_ids.len();
        let (fcm_id, ib_id, account_id) = self.account_fields(account);
        let req = RequestLinkOrders {
            template_id: 344,
            user_msg: user_msg(&id),
            fcm_id: repeat_string(&fcm_id, count),
            ib_id: repeat_string(&ib_id, count),
            account_id: repeat_string(&account_id, count),
            basket_id: basket_ids,
        };
        (req, id)
    }
}

/// The union of the bits of `fields`, in order.
pub fn fold_update_bits(fields: &Vec<UpdateBits>) -> (bits: u32)
    ensures
        bits == union_of_bits(fields@),
{
    let mut bits: u32 = 0;
    let mut i: usize = 0;
    proof {
        assert(fields@.take(0) =~= Seq::<UpdateBits>::empty());
    }
    while i < fields.len()
        invariant
            i <= fields.len(),
            bits == union_of_bits(fields@.take(i as int)),
        decreases fields.len() - i,
    {
        bits = bits | fields[i].bit();
        proof {
            assert(fields@.take(i + 1).drop_last() =~= fields@.take(i as int));
        }
        i = i + 1;
    }
    proof {
        assert(fields@.take(i as int) =~= fields@);
    }
    bits
}

/// Two requests issued one after the other carry different message ids.
pub proof fn lemma_consecutive_ids_differ(
    s0: SenderView,
    s1: SenderView,
    s2: SenderView,
    id1: String,
    msg1: Vec<String>,
    id2: String,
    msg2: Vec<String>,
)
    requires
        issues(s0, s1, id1, msg1),
        issues(s1, s2, id2, msg2),
    ensures
        id1@ != id2@,
{
    if id1@ == id2@ {
        crate::text::lemma_decimal_injective(s1.message_id_counter, s2.message_id_counter);
    }
}

/// Passing the configured account explicitly scopes a request exactly as
/// leaving the account out does.
pub proof fn lemma_configured_account_scope(s: SenderView, account: &RithmicAccount)
    requires
        account.fcm_id@ == s.fcm_id,
        account.ib_id@ == s.ib_id,
        account.account_id@ == s.account_id,
    ensures
        account_ids(s, Some(account)) == account_ids(s, None),
{
}

/// Message ids drawn at different counts differ, so no two requests of a
/// session share an id.
pub proof fn lemma_message_ids_distinct(a: nat, b: nat)
    requires
        a != b,
    ensures
        decimal(a) != decimal(b),
{
    if decimal(a) == decimal(b) {
        crate::text::lemma_decimal_injective(a, b);
    }
}

/// Every market data kind requested has its bit set in the request's
/// `update_bits`.
pub proof fn lemma_requested_bits_set(fields: Seq<UpdateBits>, i: int)
    requires
        0 <= i < fields.len(),
    ensures
        union_of_bits(fields) & update_bit(fields[i]) == update_bit(fields[i]),
    decreases fields.len(),
{
    let rest = union_of_bits(fields.drop_last());
    let b = update_bit(fields.last());
    let c = update_bit(fields[i]);
    if i == fields.len() - 1 {
        assert((rest | b) & b == b) by (bit_vector);
    } else {
        lemma_requested_bits_set(fields.drop_last(), i);
        assert(fields.drop_last()[i] == fields[i]);
        assert(rest & c == c ==> (rest | b) & c == c) by (bit_vector);
    }
}

} // verus!
