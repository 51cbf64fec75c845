//! The priced requests: new orders, brackets, OCO groups and modifications.
//!
//! Each is filled in from a command of `crate::orders` (or, for a
//! modification, from its terms) around a fresh message id, the account the
//! request is scoped to and the route it is sent on. Prices are carried as
//! given; the library never reads them.

use vstd::prelude::*;

use crate::config::{owned, RithmicAccount, RithmicEnv};
use crate::commands::TrailingStop;
use crate::orders::{RithmicBracketOrder, RithmicIfTouchedTrigger, RithmicOcoOrderLeg, RithmicOrder};
use crate::requests::{RequestBracketOrder, RequestModifyOrder, RequestNewOrder, RequestOcoOrder};
use crate::sender::{
    account_ids, clone_opt, holds, issues, modify_sends_price_as_trigger, modify_trigger_uses_price, scoped_to,
    some, trade_route_for, user_msg, RithmicSenderApi, USER_TYPE,
};
use crate::types::{OrderCondition, OrderPlacement, OrderPriceField, OrderType, TimeInForce};

verus! {

/// The route a command is sent on: the one it names, else the session's.
pub open spec fn route_of(given: Option<String>, env: RithmicEnv) -> Seq<char> {
    match given {
        Some(r) => r@,
        None => trade_route_for(env),
    }
}

/// The duration an order is sent with: the one it names, else `Day`.
pub open spec fn duration_or_day(d: Option<TimeInForce>) -> TimeInForce {
    match d {
        Some(d) => d,
        None => TimeInForce::Day,
    }
}

/// Whether the five if-touched fields of a request carry the trigger `t`,
/// or are all unset when there is none.
pub open spec fn carries_trigger<P>(
    symbol: Option<String>,
    exchange: Option<String>,
    condition: Option<OrderCondition>,
    price_field: Option<OrderPriceField>,
    price: Option<P>,
    t: Option<RithmicIfTouchedTrigger<P>>,
) -> bool {
    match t {
        Some(t) => {
            &&& holds(symbol, t.symbol@)
            &&& holds(exchange, t.exchange@)
            &&& condition == Some(t.condition)
            &&& price_field == Some(t.price_field)
            &&& price == Some(t.price)
        },
        None => {
            &&& symbol is None
            &&& exchange is None
            &&& condition is None
            &&& price_field is None
            &&& price is None
        },
    }
}

/// Whether the three trailing fields of a request carry the trailing stop
/// `t`, or are all unset when there is none.
pub open spec fn carries_trailing(
    trailing_stop: Option<bool>,
    trail_by_ticks: Option<i32>,
    trail_by_price_id: Option<i32>,
    t: Option<TrailingStop>,
) -> bool {
    match t {
        Some(t) => {
            &&& trailing_stop == Some(true)
            &&& trail_by_ticks == Some(t.trail_by_ticks)
            &&& trail_by_price_id == Some(t.trail_by_price_id)
        },
        None => trailing_stop is None && trail_by_ticks is None && trail_by_price_id is None,
    }
}

/// The fields of a new-order request that come from the order, in a session
/// of environment `env`.
pub open spec fn new_order_request<P>(r: RequestNewOrder<P>, order: RithmicOrder<P>, env: RithmicEnv) -> bool {
    &&& r.template_id == 312
    &&& holds(r.trade_route, route_of(order.trade_route, env))
    &&& holds(r.exchange, order.exchange@)
    &&& holds(r.symbol, order.symbol@)
    &&& r.quantity == Some(order.quantity)
    &&& r.price == order.price
    &&& r.transaction_type == Some(order.transaction_type)
    &&& r.price_type == Some(order.price_type)
    &&& r.manual_or_auto == Some(order.manual_or_auto)
    &&& r.duration == Some(duration_or_day(order.duration))
    &&& holds(r.user_tag, order.user_tag@)
    &&& r.window_name.deep_view() == order.window_name.deep_view()
    &&& r.trigger_price == order.trigger_price
    &&& carries_trailing(r.trailing_stop, r.trail_by_ticks, r.trail_by_price_id, order.trailing_stop)
    &&& r.release_at_ssboe == order.release_at_ssboe
    &&& r.release_at_usecs == order.release_at_usecs
    &&& r.cancel_at_ssboe == order.cancel_at_ssboe
    &&& r.cancel_at_usecs == order.cancel_at_usecs
    &&& r.cancel_after_secs == order.cancel_after_secs
    &&& carries_trigger(
        r.if_touched_symbol,
        r.if_touched_exchange,
        r.if_touched_condition,
        r.if_touched_price_field,
        r.if_touched_price,
        order.if_touched,
    )
}

/// The fields of a bracket request that come from the bracket, in a session
/// of environment `env`. The bracket's shape is sent as it stands; `build`
/// is what resolves an unset one.
pub open spec fn bracket_request<P>(r: RequestBracketOrder<P>, b: RithmicBracketOrder<P>, env: RithmicEnv) -> bool {
    &&& r.template_id == 330
    &&& holds(r.trade_route, route_of(b.trade_route, env))
    &&& holds(r.exchange, b.exchange@)
    &&& holds(r.symbol, b.symbol@)
    &&& r.user_type == Some(USER_TYPE)
    &&& r.quantity == Some(b.quantity)
    &&& r.transaction_type == Some(b.action)
    &&& r.price_type == Some(b.price_type)
    &&& r.manual_or_auto == Some(b.manual_or_auto)
    &&& r.duration == Some(b.duration)
    &&& r.bracket_type == b.bracket_type
    &&& r.break_even_ticks == b.break_even_ticks
    &&& r.break_even_trigger_ticks == b.break_even_trigger_ticks
    &&& r.target_quantity@ == b.target_quantity@
    &&& r.target_ticks@ == b.target_ticks@
    &&& r.stop_quantity@ == b.stop_quantity@
    &&& r.stop_ticks@ == b.stop_ticks@
    &&& r.trailing_stop_trigger_ticks == b.trailing_stop_trigger_ticks
    &&& r.trailing_stop_by_last_trade_price == b.trailing_stop_by_last_trade_price
    &&& r.target_market_order_if_touched == b.target_market_order_if_touched
    &&& r.stop_market_on_reject == b.stop_market_on_reject
    &&& r.target_market_at_ssboe == b.target_market_at_ssboe
    &&& r.target_market_at_usecs == b.target_market_at_usecs
    &&& r.stop_market_at_ssboe == b.stop_market_at_ssboe
    &&& r.stop_market_at_usecs == b.stop_market_at_usecs
    &&& r.target_market_order_after_secs == b.target_market_order_after_secs
    &&& r.release_at_ssboe == b.release_at_ssboe
    &&& r.release_at_usecs == b.release_at_usecs
    &&& r.cancel_at_ssboe == b.cancel_at_ssboe
    &&& r.cancel_at_usecs == b.cancel_at_usecs
    &&& r.cancel_after_secs == b.cancel_after_secs
    &&& carries_trigger(
        r.if_touched_symbol,
        r.if_touched_exchange,
        r.if_touched_condition,
        r.if_touched_price_field,
        r.if_touched_price,
        b.if_touched,
    )
    &&& r.price == b.price
    &&& r.trigger_price == b.trigger_price
    &&& holds(r.user_tag, b.localid@)
}

/// Whether `v` is a value `P::default()` returns: the zero of the price
/// type, `0.0` for `f64`.
pub open spec fn is_default_price<P: Default>(v: P) -> bool {
    call_ensures(P::default, (), v)
}

/// Whether one leg's entry of a repeated price field is right: the leg's own
/// price, or the default price for a leg without one.
pub open spec fn price_slot<P: Default>(sent: P, given: Option<P>) -> bool {
    match given {
        Some(p) => sent == p,
        None => is_default_price(sent),
    }
}

/// Whether a repeated price field of a two-leg group is right: left out when
/// neither leg has that price; otherwise one entry per leg, in leg order.
pub open spec fn leg_prices_sent<P: Default>(sent: Seq<P>, first: Option<P>, second: Option<P>) -> bool {
    if first is None && second is None {
        sent.len() == 0
    } else {
        &&& sent.len() == 2
        &&& price_slot(sent[0], first)
        &&& price_slot(sent[1], second)
    }
}

/// The fields of an OCO request that come from its two legs, in leg order,
/// in a session of environment `env`.
pub open spec fn oco_request<P: Default>(
    r: RequestOcoOrder<P>,
    l1: RithmicOcoOrderLeg<P>,
    l2: RithmicOcoOrderLeg<P>,
    env: RithmicEnv,
) -> bool {
    &&& r.template_id == 328
    &&& r.user_tag.deep_view() == seq![l1.user_tag@, l2.user_tag@]
    &&& r.symbol.deep_view() == seq![l1.symbol@, l2.symbol@]
    &&& r.exchange.deep_view() == seq![l1.exchange@, l2.exchange@]
    &&& r.quantity@ == seq![l1.quantity, l2.quantity]
    &&& leg_prices_sent(r.price@, l1.price, l2.price)
    &&& leg_prices_sent(r.trigger_price@, l1.trigger_price, l2.trigger_price)
    &&& r.transaction_type@ == seq![l1.transaction_type, l2.transaction_type]
    &&& r.duration@ == seq![l1.duration, l2.duration]
    &&& r.price_type@ == seq![l1.price_type, l2.price_type]
    &&& r.trade_route.deep_view() == seq![route_of(l1.trade_route, env), route_of(l2.trade_route, env)]
    &&& r.manual_or_auto@ == seq![l1.manual_or_auto, l2.manual_or_auto]
}

/// The fields of a modification request that come from its terms: the price
/// is also sent as the trigger for the stop types.
pub open spec fn modify_request<P>(
    r: RequestModifyOrder<P>,
    basket_id: Seq<char>,
    exchange: Seq<char>,
    symbol: Seq<char>,
    qty: i32,
    price: P,
    price_type: OrderType,
) -> bool {
    &&& r.template_id == 314
    &&& holds(r.basket_id, basket_id)
    &&& r.manual_or_auto == Some(OrderPlacement::Auto)
    &&& holds(r.exchange, exchange)
    &&& holds(r.symbol, symbol)
    &&& r.price_type == Some(price_type)
    &&& r.quantity == Some(qty)
    &&& r.price == Some(price)
    &&& r.trigger_price == (if modify_sends_price_as_trigger(price_type) { Some(price) } else { None })
}

/// The five if-touched fields of a request, filled from an optional trigger.
fn trigger_fields<P: Copy>(t: &Option<RithmicIfTouchedTrigger<P>>) -> (r: (
    Option<String>,
    Option<String>,
    Option<OrderCondition>,
    Option<OrderPriceField>,
    Option<P>,
))
    ensures
        carries_trigger(r.0, r.1, r.2, r.3, r.4, *t),
{
    match t {
        Some(t) => (Some(t.symbol.clone()), Some(t.exchange.clone()), Some(t.condition), Some(t.price_field), Some(t.price)),
        None => (None, None, None, None, None),
    }
}

/// The three trailing fields of a request, filled from an optional trailing
/// stop.
fn trailing_fields(t: Option<TrailingStop>) -> (r: (Option<bool>, Option<i32>, Option<i32>))
    ensures
        carries_trailing(r.0, r.1, r.2, t),
{
    match t {
        Some(t) => (Some(true), Some(t.trail_by_ticks), Some(t.trail_by_price_id)),
        None => (None, None, None),
    }
}

/// Two-element vector.
fn pair<T>(a: T, b: T) -> (v: Vec<T>)
    ensures
        v@ == seq![a, b],
{
    let mut v: Vec<T> = Vec::new();
    v.push(a);
    v.push(b);
    proof {
        assert(v@ =~= seq![a, b]);
    }
    v
}

/// The price a repeated price field sends for a leg: its own, else the
/// price type's default.
fn price_or_default<P: Copy + Default>(p: Option<P>) -> (r: P)
    ensures
        price_slot(r, p),
{
    match p {
        Some(p) => p,
        None => {
            let default_price = P::default;
            default_price()
        },
    }
}

/// A repeated price field for two legs: empty when neither leg has the
/// price, else each leg's price or the default in its place.
fn leg_prices<P: Copy + Default>(first: Option<P>, second: Option<P>) -> (v: Vec<P>)
    ensures
        leg_prices_sent(v@, first, second),
{
    if first.is_none() && second.is_none() {
        Vec::new()
    } else {
        pair(price_or_default(first), price_or_default(second))
    }
}

impl RithmicSenderApi {
    /// The route a command is sent on: the one it names, else the session's.
    fn route_for(&self, given: &Option<String>) -> (r: String)
        ensures
            r@ == route_of(*given, self@.env),
    {
        match given {
            Some(route) => route.clone(),
            None => owned(self.trade_route()),
        }
    }

    /// Place `order` on the configured account.
    pub fn request_order<P: Copy>(&mut self, order: &RithmicOrder<P>) -> (r: (RequestNewOrder<P>, String))
        requires
            old(self)@.message_id_counter < u64::MAX,
        ensures
            issues(old(self)@, final(self)@, r.1, r.0.user_msg),
            scoped_to(r.0.fcm_id, r.0.ib_id, r.0.account_id, account_ids(old(self)@, None)),
            new_order_request(r.0, *order, old(self)@.env),
    {
        self.request_order_with_account(order, None)
    }

    /// Place `order` on `account`.
    pub fn request_order_for_account<P: Copy>(
        &mut self,
        order: &RithmicOrder<P>,
        account: &RithmicAccount,
    ) -> (r: (RequestNewOrder<P>, String))
        requires
            old(self)@.message_id_counter < u64::MAX,
        ensures
            issues(old(self)@, final(self)@, r.1, r.0.user_msg),
            scoped_to(r.0.fcm_id, r.0.ib_id, r.0.account_id, account_ids(old(self)@, Some(account))),
            new_order_request(r.0, *order, old(self)@.env),
    {
        self.request_order_with_account(order, Some(account))
    }

    fn request_order_with_account<P: Copy>(
        &mut self,
        order: &RithmicOrder<P>,
        account: Option<&RithmicAccount>,
    ) -> (r: (RequestNewOrder<P>, String))
        requires
            old(self)@.message_id_counter < u64::MAX,
        ensures
            issues(old(self)@, final(self)@, r.1, r.0.user_msg),
            scoped_to(r.0.fcm_id, r.0.ib_id, r.0.account_id, account_ids(old(self)@, account)),
            new_order_request(r.0, *order, old(self)@.env),
    {
        let id = self.get_next_message_id();
        let (fcm_id, ib_id, account_id) = self.account_fields(account);
        let trade_route = self.route_for(&order.trade_route);
        let duration = match order.duration {
            Some(d) => d,
            None => TimeInForce::Day,
        };
        let (trailing_stop, trail_by_ticks, trail_by_price_id) = trailing_fields(order.trailing_stop);
        let (if_touched_symbol, if_touched_exchange, if_touched_condition, if_touched_price_field, if_touched_price) =
            trigger_fields(&order.if_touched);
        let req = RequestNewOrder {
            template_id: 312,
            user_msg: user_msg(&id),
            fcm_id: Some(fcm_id),
            ib_id: Some(ib_id),
            account_id: Some(account_id),
            trade_route: Some(trade_route),
            exchange: Some(order.exchange.clone()),
            symbol: Some(order.symbol.clone()),
            quantity: Some(order.quantity),
            price: order.price,
            transaction_type: Some(order.transaction_type),
            price_type: Some(order.price_type),
            manual_or_auto: Some(order.manual_or_auto),
            duration: Some(duration),
            user_tag: Some(order.user_tag.clone()),
            window_name: clone_opt(&order.window_name),
            trigger_price: order.trigger_price,
            trailing_stop,
            trail_by_ticks,
            trail_by_price_id,
            release_at_ssboe: order.release_at_ssboe,
            release_at_usecs: order.release_at_usecs,
            cancel_at_ssboe: order.cancel_at_ssboe,
            cancel_at_usecs: order.cancel_at_usecs,
            cancel_after_secs: order.cancel_after_secs,
            if_touched_symbol,
            if_touched_exchange,
            if_touched_condition,
            if_touched_price_field,
            if_touched_price,
        };
        (req, id)
    }

    /// Place a bracket on the configured account.
    pub fn request_bracket_order<P: Copy>(&mut self, bracket_order: RithmicBracketOrder<P>) -> (r: (
        RequestBracketOrder<P>,
        String,
    ))
        requires
            old(self)@.message_id_counter < u64::MAX,
        ensures
            issues(old(self)@, final(self)@, r.1, r.0.user_msg),
            scoped_to(r.0.fcm_id, r.0.ib_id, r.0.account_id, account_ids(old(self)@, None)),
            bracket_request(r.0, bracket_order, old(self)@.env),
    {
        self.request_advanced_bracket_order(bracket_order)
    }

    /// Place a bracket on `account`.
    pub fn request_bracket_order_for_account<P: Copy>(
        &mut self,
        bracket_order: RithmicBracketOrder<P>,
        account: &RithmicAccount,
    ) -> (r: (RequestBracketOrder<P>, String))
        requires
            old(self)@.message_id_counter < u64::MAX,
        ensures
            issues(old(self)@, final(self)@, r.1, r.0.user_msg),
            scoped_to(r.0.fcm_id, r.0.ib_id, r.0.account_id, account_ids(old(self)@, Some(account))),
            bracket_request(r.0, bracket_order, old(self)@.env),
    {
        self.request_advanced_bracket_order_for_account(bracket_order, account)
    }

    /// Place a bracket, with every management and timing field it carries,
    /// on the configured account.
    pub fn request_advanced_bracket_order<P: Copy>(&mut self, bracket_order: RithmicBracketOrder<P>) -> (r: (
        RequestBracketOrder<P>,
        String,
    ))
        requires
            old(self)@.message_id_counter < u64::MAX,
        ensures
            issues(old(self)@, final(self)@, r.1, r.0.user_msg),
            scoped_to(r.0.fcm_id, r.0.ib_id, r.0.account_id, account_ids(old(self)@, None)),
            bracket_request(r.0, bracket_order, old(self)@.env),
    {
        self.request_advanced_bracket_order_with_account(bracket_order, None)
    }

    /// Place a bracket, with every management and timing field it carries,
    /// on `account`.
    pub fn request_advanced_bracket_order_for_account<P: Copy>(
        &mut self,
        bracket_order: RithmicBracketOrder<P>,
        account: &RithmicAccount,
    ) -> (r: (RequestBracketOrder<P>, String))
        requires
            old(self)@.message_id_counter < u64::MAX,
        ensures
            issues(old(self)@, final(self)@, r.1, r.0.user_msg),
            scoped_to(r.0.fcm_id, r.0.ib_id, r.0.account_id, account_ids(old(self)@, Some(account))),
            bracket_request(r.0, bracket_order, old(self)@.env),
    {
        self.request_advanced_bracket_order_with_account(bracket_order, Some(account))
    }

    fn request_advanced_bracket_order_with_account<P: Copy>(
        &mut self,
        bracket_order: RithmicBracketOrder<P>,
        account: Option<&RithmicAccount>,
    ) -> (r: (RequestBracketOrder<P>, String))
        requires
            old(self)@.message_id_counter < u64::MAX,
        ensures
            issues(old(self)@, final(self)@, r.1, r.0.user_msg),
            scoped_to(r.0.fcm_id, r.0.ib_id, r.0.account_id, account_ids(old(self)@, account)),
            bracket_request(r.0, bracket_order, old(self)@.env),
    {
        let id = self.get_next_message_id();
        let (fcm_id, ib_id, account_id) = self.account_fields(account);
        let trade_route = self.route_for(&bracket_order.trade_route);
        let (if_touched_symbol, if_touched_exchange, if_touched_condition, if_touched_price_field, if_touched_price) =
            trigger_fields(&bracket_order.if_touched);
        let b = bracket_order;
        let req = RequestBracketOrder {
            template_id: 330,
            user_msg: user_msg(&id),
            fcm_id: Some(fcm_id),
            ib_id: Some(ib_id),
            account_id: Some(account_id),
            trade_route: Some(trade_route),
            exchange: Some(b.exchange),
            symbol: Some(b.symbol),
            user_type: Some(USER_TYPE),
            quantity: Some(b.quantity),
            transaction_type: Some(b.action),
            price_type: Some(b.price_type),
            manual_or_auto: Some(b.manual_or_auto),
            duration: Some(b.duration),
            bracket_type: b.bracket_type,
            break_even_ticks: b.break_even_ticks,
            break_even_trigger_ticks: b.break_even_trigger_ticks,
            target_quantity: b.target_quantity,
            target_ticks: b.target_ticks,
            stop_quantity: b.stop_quantity,
            stop_ticks: b.stop_ticks,
            trailing_stop_trigger_ticks: b.trailing_stop_trigger_ticks,
            trailing_stop_by_last_trade_price: b.trailing_stop_by_last_trade_price,
            target_market_order_if_touched: b.target_market_order_if_touched,
            stop_market_on_reject: b.stop_market_on_reject,
            target_market_at_ssboe: b.target_market_at_ssboe,
            target_market_at_usecs: b.target_market_at_usecs,
            stop_market_at_ssboe: b.stop_market_at_ssboe,
            stop_market_at_usecs: b.stop_market_at_usecs,
            target_market_order_after_secs: b.target_market_order_after_secs,
            release_at_ssboe: b.release_at_ssboe,
            release_at_usecs: b.release_at_usecs,
            cancel_at_ssboe: b.cancel_at_ssboe,
            cancel_at_usecs: b.cancel_at_usecs,
            cancel_after_secs: b.cancel_after_secs,
            if_touched_symbol,
            if_touched_exchange,
            if_touched_condition,
            if_touched_price_field,
            if_touched_price,
            price: b.price,
            trigger_price: b.trigger_price,
            user_tag: Some(b.localid),
        };
        (req, id)
    }

    /// Place two legs as one OCO group on the configured account.
    pub fn request_oco_order<P: Copy + Default>(
        &mut self,
        order1: RithmicOcoOrderLeg<P>,
        order2: RithmicOcoOrderLeg<P>,
    ) -> (r: (RequestOcoOrder<P>, String))
        requires
            old(self)@.message_id_counter < u64::MAX,
        ensures
            issues(old(self)@, final(self)@, r.1, r.0.user_msg),
            scoped_to(r.0.fcm_id, r.0.ib_id, r.0.account_id, account_ids(old(self)@, None)),
            oco_request(r.0, order1, order2, old(self)@.env),
    {
        self.request_oco_order_with_account(order1, order2, None)
    }

    /// Place two legs as one OCO group on `account`.
    pub fn request_oco_order_for_account<P: Copy + Default>(
        &mut self,
        order1: RithmicOcoOrderLeg<P>,
        order2: RithmicOcoOrderLeg<P>,
        account: &RithmicAccount,
    ) -> (r: (RequestOcoOrder<P>, String))
        requires
            old(self)@.message_id_counter < u64::MAX,
        ensures
            issues(old(self)@, final(self)@, r.1, r.0.user_msg),
            scoped_to(r.0.fcm_id, r.0.ib_id, r.0.account_id, account_ids(old(self)@, Some(account))),
            oco_request(r.0, order1, order2, old(self)@.env),
    {
        self.request_oco_order_with_account(order1, order2, Some(account))
    }

    fn request_oco_order_with_account<P: Copy + Default>(
        &mut self,
        order1: RithmicOcoOrderLeg<P>,
        order2: RithmicOcoOrderLeg<P>,
        account: Option<&RithmicAccount>,
    ) -> (r: (RequestOcoOrder<P>, String))
        requires
            old(self)@.message_id_counter < u64::MAX,
        ensures
            issues(old(self)@, final(self)@, r.1, r.0.user_msg),
            scoped_to(r.0.fcm_id, r.0.ib_id, r.0.account_id, account_ids(old(self)@, account)),
            oco_request(r.0, order1, order2, old(self)@.env),
    {
        let id = self.get_next_message_id();
        let (fcm_id, ib_id, account_id) = self.account_fields(account);
        let route1 = self.route_for(&order1.trade_route);
        let route2 = self.route_for(&order2.trade_route);
        let prices = leg_prices(order1.price, order2.price);
        let trigger_prices = leg_prices(order1.trigger_price, order2.trigger_price);
        let user_tags = pair(order1.user_tag, order2.user_tag);
        let symbols = pair(order1.symbol, order2.symbol);
        let exchanges = pair(order1.exchange, order2.exchange);
        let routes = pair(route1, route2);
        proof {
            assert(user_tags.deep_view() =~= seq![user_tags@[0]@, user_tags@[1]@]);
            assert(symbols.deep_view() =~= seq![symbols@[0]@, symbols@[1]@]);
            assert(exchanges.deep_view() =~= seq![exchanges@[0]@, exchanges@[1]@]);
            assert(routes.deep_view() =~= seq![routes@[0]@, routes@[1]@]);
        }
        let req = RequestOcoOrder {
            template_id: 328,
            user_msg: user_msg(&id),
            fcm_id: Some(fcm_id),
            ib_id: Some(ib_id),
            account_id: Some(account_id),
            user_tag: user_tags,
            symbol: symbols,
            exchange: exchanges,
            quantity: pair(order1.quantity, order2.quantity),
            price: prices,
            trigger_price: trigger_prices,
            transaction_type: pair(order1.transaction_type, order2.transaction_type),
            duration: pair(order1.duration, order2.duration),
            price_type: pair(order1.price_type, order2.price_type),
            trade_route: routes,
            manual_or_auto: pair(order1.manual_or_auto, order2.manual_or_auto),
        };
        (req, id)
    }

    /// Restate the order `basket_id` on the configured account.
    pub fn request_modify_order<P: Copy>(
        &mut self,
        basket_id: &str,
        exchange: &str,
        symbol: &str,
        qty: i32,
        price: P,
        price_type: OrderType,
    ) -> (r: (RequestModifyOrder<P>, String))
        requires
            old(self)@.message_id_counter < u64::MAX,
        ensures
            issues(old(self)@, final(self)@, r.1, r.0.user_msg),
            scoped_to(r.0.fcm_id, r.0.ib_id, r.0.account_id, account_ids(old(self)@, None)),
            modify_request(r.0, basket_id@, exchange@, symbol@, qty, price, price_type),
    {
        self.request_modify_order_with_account(basket_id, exchange, symbol, qty, price, price_type, None)
    }

    /// Restate the order `basket_id` on `account`.
    pub fn request_modify_order_for_account<P: Copy>(
        &mut self,
        basket_id: &str,
        exchange: &str,
        symbol: &str,
        qty: i32,
        price: P,
        price_type: OrderType,
        account: &RithmicAccount,
    ) -> (r: (RequestModifyOrder<P>, String))
        requires
            old(self)@.message_id_counter < u64::MAX,
        ensures
            issues(old(self)@, final(self)@, r.1, r.0.user_msg),
            scoped_to(r.0.fcm_id, r.0.ib_id, r.0.account_id, account_ids(old(self)@, Some(account))),
            modify_request(r.0, basket_id@, exchange@, symbol@, qty, price, price_type),
    {
        self.request_modify_order_with_account(basket_id, exchange, symbol, qty, price, price_type, Some(account))
    }

    fn request_modify_order_with_account<P: Copy>(
        &mut self,
        basket_id: &str,
        exchange: &str,
        symbol: &str,
        qty: i32,
        price: P,
        price_type: OrderType,
        account: Option<&RithmicAccount>,
    ) -> (r: (RequestModifyOrder<P>, String))
        requires
            old(self)@.message_id_counter < u64::MAX,
        ensures
            issues(old(self)@, final(self)@, r.1, r.0.user_msg),
            scoped_to(r.0.fcm_id, r.0.ib_id, r.0.account_id, account_ids(old(self)@, account)),
            modify_request(r.0, basket_id@, exchange@, symbol@, qty, price, price_type),
    {
        let id = self.get_next_message_id();
        let (fcm_id, ib_id, account_id) = self.account_fields(account);
        let trigger_price = if modify_trigger_uses_price(price_type) {
            Some(price)
        } else {
            None
        };
        let req = RequestModifyOrder {
            template_id: 314,
            user_msg: user_msg(&id),
            fcm_id: Some(fcm_id),
            ib_id: Some(ib_id),
            account_id: Some(account_id),
            basket_id: some(basket_id),
            manual_or_auto: Some(OrderPlacement::Auto),
            exchange: some(exchange),
            symbol: some(symbol),
            price_type: Some(price_type),
            quantity: Some(qty),
            price: Some(price),
            trigger_price,
        };
        (req, id)
    }
}

/// A new-order request keeps the order's own duration, and only an order
/// that names none is sent as a day order.
pub proof fn lemma_new_order_keeps_its_duration<P>(r: RequestNewOrder<P>, order: RithmicOrder<P>, env: RithmicEnv)
    requires
        new_order_request(r, order, env),
    ensures
        order.duration matches Some(d) ==> r.duration == Some(d),
        order.duration is None ==> r.duration == Some(TimeInForce::Day),
        r.price == order.price,
        r.trigger_price == order.trigger_price,
{
}

/// A modification of a stop type (stop-market or stop-limit) repeats its
/// price as the trigger price; a modification of any other type sends no
/// trigger.
pub proof fn lemma_modify_repeats_price_for_stops<P>(
    r: RequestModifyOrder<P>,
    basket_id: Seq<char>,
    exchange: Seq<char>,
    symbol: Seq<char>,
    qty: i32,
    price: P,
    price_type: OrderType,
)
    requires
        modify_request(r, basket_id, exchange, symbol, qty, price, price_type),
    ensures
        r.price == Some(price),
        (price_type is StopMarket || price_type is StopLimit) ==> r.trigger_price == Some(price),
        !(price_type is StopMarket || price_type is StopLimit) ==> r.trigger_price is None,
{
}

} // verus!
