//! The priced order commands: orders, brackets, OCO legs and groups, and
//! modifications.
//!
//! The price type is a parameter `P`. The library carries prices from the
//! caller to the request without reading them: what it checks of a priced
//! command is only which prices are present, so every rule here holds
//! whatever the prices are.

use vstd::prelude::*;

use crate::commands::{
    check_modify_prices, check_oco_leg_prices, check_oco_legs, check_order_prices, check_outcome, is_invalid_argument, oco_leg_price_failure, modify_price_failure,
    lemma_oco_group_checks_each_leg, oco_group_failure, order_price_failure, resolve_bracket_type, resolved_bracket_type, LegPrices,
    TrailingStop,
};
use crate::config::owned;
use crate::error::RithmicError;
use crate::types::{
    BracketType, OrderCondition, OrderPlacement, OrderPriceField, OrderSide, OrderType, TimeInForce,
};

verus! {

/// Conditional trigger that releases an order once a price is touched.
/// Every field is required, so there is no builder.
#[derive(Debug, Clone, PartialEq)]
pub struct RithmicIfTouchedTrigger<P> {
    /// Trading symbol to monitor for the condition.
    pub symbol: String,
    /// Exchange for the monitored symbol.
    pub exchange: String,
    /// Comparison operator for the trigger.
    pub condition: OrderCondition,
    /// Price field to evaluate.
    pub price_field: OrderPriceField,
    /// Threshold price for the condition.
    pub price: P,
}

impl<P> RithmicIfTouchedTrigger<P> {
    /// Build a trigger from its five fields.
    pub fn new(
        symbol: &str,
        exchange: &str,
        condition: OrderCondition,
        price_field: OrderPriceField,
        price: P,
    ) -> (t: Self)
        ensures
            t.symbol@ == symbol@,
            t.exchange@ == exchange@,
            t.condition == condition,
            t.price_field == price_field,
            t.price == price,
    {
        RithmicIfTouchedTrigger {
            symbol: owned(symbol),
            exchange: owned(exchange),
            condition,
            price_field,
            price,
        }
    }
}

/// A new order, placed as it is given.
#[derive(Debug, Clone, Default, PartialEq)]
pub struct RithmicOrder<P> {
    /// Trading symbol (e.g., "ESH6").
    pub symbol: String,
    /// Exchange code (e.g., "CME").
    pub exchange: String,
    /// Number of contracts.
    pub quantity: i32,
    /// Order price, omitted from the request when unset. A market order has no price.
    pub price: Option<P>,
    /// Buy or Sell.
    pub transaction_type: OrderSide,
    /// Order type.
    pub price_type: OrderType,
    /// Your identifier for tracking this order.
    pub user_tag: String,
    /// Order duration; a request sends `Day` when unset.
    pub duration: Option<TimeInForce>,
    /// Trigger price for the stop and if-touched order types.
    pub trigger_price: Option<P>,
    /// Trailing stop configuration.
    pub trailing_stop: Option<TrailingStop>,
    /// Route to send on. `None` uses the session's route.
    pub trade_route: Option<String>,
    /// How this order is attributed to its originator.
    pub manual_or_auto: OrderPlacement,
    /// Originating window name reported to Rithmic.
    pub window_name: Option<String>,
    /// Release the order at this second-since-beginning-of-epoch value.
    pub release_at_ssboe: Option<i32>,
    /// Microsecond component of the release time.
    pub release_at_usecs: Option<i32>,
    /// Cancel the order at this second-since-beginning-of-epoch value.
    pub cancel_at_ssboe: Option<i32>,
    /// Microsecond component of the cancel time.
    pub cancel_at_usecs: Option<i32>,
    /// Cancel the order after this many seconds.
    pub cancel_after_secs: Option<i32>,
    /// Conditional trigger that releases this order once touched.
    pub if_touched: Option<RithmicIfTouchedTrigger<P>>,
}

impl<P> RithmicOrder<P> {
    /// Start from the defaults: a `Limit` buy of no contracts, automatic, with nothing optional set.
    pub fn new() -> (c: Self)
        ensures
            c.symbol@ == Seq::<char>::empty(),
            c.exchange@ == Seq::<char>::empty(),
            c.quantity == 0,
            c.price is None,
            c.transaction_type == OrderSide::Buy,
            c.price_type == OrderType::Limit,
            c.user_tag@ == Seq::<char>::empty(),
            c.duration is None,
            c.trigger_price is None,
            c.trailing_stop is None,
            c.trade_route is None,
            c.manual_or_auto == OrderPlacement::Auto,
            c.window_name is None,
            c.release_at_ssboe is None,
            c.release_at_usecs is None,
            c.cancel_at_ssboe is None,
            c.cancel_at_usecs is None,
            c.cancel_after_secs is None,
            c.if_touched is None,
    {
        RithmicOrder {
            symbol: String::new(),
            exchange: String::new(),
            quantity: 0,
            price: None,
            transaction_type: OrderSide::Buy,
            price_type: OrderType::Limit,
            user_tag: String::new(),
            duration: None,
            trigger_price: None,
            trailing_stop: None,
            trade_route: None,
            manual_or_auto: OrderPlacement::Auto,
            window_name: None,
            release_at_ssboe: None,
            release_at_usecs: None,
            cancel_at_ssboe: None,
            cancel_at_usecs: None,
            cancel_after_secs: None,
            if_touched: None,
        }
    }

    /// Instrument symbol.
    pub fn symbol(self, symbol: &str) -> (r: Self)
        ensures
            r.symbol@ == symbol@,
            r == (RithmicOrder { symbol: r.symbol, ..self }),
    {
        RithmicOrder { symbol: owned(symbol), ..self }
    }

    /// Exchange the instrument trades on.
    pub fn exchange(self, exchange: &str) -> (r: Self)
        ensures
            r.exchange@ == exchange@,
            r == (RithmicOrder { exchange: r.exchange, ..self }),
    {
        RithmicOrder { exchange: owned(exchange), ..self }
    }

    /// Number of contracts.
    pub fn quantity(self, quantity: i32) -> (r: Self)
        ensures
            r == (RithmicOrder { quantity: quantity, ..self }),
    {
        RithmicOrder { quantity: quantity, ..self }
    }

    /// Buy or sell.
    pub fn transaction_type(self, transaction_type: OrderSide) -> (r: Self)
        ensures
            r == (RithmicOrder { transaction_type: transaction_type, ..self }),
    {
        RithmicOrder { transaction_type: transaction_type, ..self }
    }

    /// Market, limit, stop, or if-touched.
    pub fn price_type(self, price_type: OrderType) -> (r: Self)
        ensures
            r == (RithmicOrder { price_type: price_type, ..self }),
    {
        RithmicOrder { price_type: price_type, ..self }
    }

    /// Order price.
    pub fn price(self, price: P) -> (r: Self)
        ensures
            r == (RithmicOrder { price: Some(price), ..self }),
    {
        RithmicOrder { price: Some(price), ..self }
    }

    /// Trigger price for stop and if-touched order types.
    pub fn trigger_price(self, trigger_price: P) -> (r: Self)
        ensures
            r == (RithmicOrder { trigger_price: Some(trigger_price), ..self }),
    {
        RithmicOrder { trigger_price: Some(trigger_price), ..self }
    }

    /// Your identifier for this order.
    pub fn user_tag(self, user_tag: &str) -> (r: Self)
        ensures
            r.user_tag@ == user_tag@,
            r == (RithmicOrder { user_tag: r.user_tag, ..self }),
    {
        RithmicOrder { user_tag: owned(user_tag), ..self }
    }

    /// How long the order stays working.
    pub fn duration(self, duration: TimeInForce) -> (r: Self)
        ensures
            r == (RithmicOrder { duration: Some(duration), ..self }),
    {
        RithmicOrder { duration: Some(duration), ..self }
    }

    /// Trailing stop configuration.
    pub fn trailing_stop(self, trailing_stop: TrailingStop) -> (r: Self)
        ensures
            r == (RithmicOrder { trailing_stop: Some(trailing_stop), ..self }),
    {
        RithmicOrder { trailing_stop: Some(trailing_stop), ..self }
    }

    /// Trail by `trail_by_ticks` against Rithmic's `trail_by_price_id`.
    pub fn trailing_stop_by(self, trail_by_ticks: i32, trail_by_price_id: i32) -> (r: Self)
        ensures
            r == (RithmicOrder { trailing_stop: Some(TrailingStop { trail_by_ticks, trail_by_price_id }), ..self }),
    {
        self.trailing_stop(TrailingStop::new(trail_by_ticks, trail_by_price_id))
    }

    /// Route to send on, overriding the session's route.
    pub fn trade_route(self, trade_route: &str) -> (r: Self)
        ensures
            r.trade_route.deep_view() == Some(trade_route@),
            r == (RithmicOrder { trade_route: r.trade_route, ..self }),
    {
        RithmicOrder { trade_route: Some(owned(trade_route)), ..self }
    }

    /// How this order is attributed to its originator.
    pub fn manual_or_auto(self, manual_or_auto: OrderPlacement) -> (r: Self)
        ensures
            r == (RithmicOrder { manual_or_auto: manual_or_auto, ..self }),
    {
        RithmicOrder { manual_or_auto: manual_or_auto, ..self }
    }

    /// Originating window name reported to Rithmic.
    pub fn window_name(self, window_name: &str) -> (r: Self)
        ensures
            r.window_name.deep_view() == Some(window_name@),
            r == (RithmicOrder { window_name: r.window_name, ..self }),
    {
        RithmicOrder { window_name: Some(owned(window_name)), ..self }
    }

    /// Release the order at this second-since-beginning-of-epoch value.
    pub fn release_at_ssboe(self, ssboe: i32) -> (r: Self)
        ensures
            r == (RithmicOrder { release_at_ssboe: Some(ssboe), ..self }),
    {
        RithmicOrder { release_at_ssboe: Some(ssboe), ..self }
    }

    /// Microsecond component of the release time.
    pub fn release_at_usecs(self, usecs: i32) -> (r: Self)
        ensures
            r == (RithmicOrder { release_at_usecs: Some(usecs), ..self }),
    {
        RithmicOrder { release_at_usecs: Some(usecs), ..self }
    }

    /// Set both halves of the release time.
    pub fn release_at(self, ssboe: i32, usecs: i32) -> (r: Self)
        ensures
            r == (RithmicOrder { release_at_ssboe: Some(ssboe), release_at_usecs: Some(usecs), ..self }),
    {
        self.release_at_ssboe(ssboe).release_at_usecs(usecs)
    }

    /// Cancel the order at this second-since-beginning-of-epoch value.
    pub fn cancel_at_ssboe(self, ssboe: i32) -> (r: Self)
        ensures
            r == (RithmicOrder { cancel_at_ssboe: Some(ssboe), ..self }),
    {
        RithmicOrder { cancel_at_ssboe: Some(ssboe), ..self }
    }

    /// Microsecond component of the cancel time.
    pub fn cancel_at_usecs(self, usecs: i32) -> (r: Self)
        ensures
            r == (RithmicOrder { cancel_at_usecs: Some(usecs), ..self }),
    {
        RithmicOrder { cancel_at_usecs: Some(usecs), ..self }
    }

    /// Set both halves of the cancel time.
    pub fn cancel_at(self, ssboe: i32, usecs: i32) -> (r: Self)
        ensures
            r == (RithmicOrder { cancel_at_ssboe: Some(ssboe), cancel_at_usecs: Some(usecs), ..self }),
    {
        self.cancel_at_ssboe(ssboe).cancel_at_usecs(usecs)
    }

    /// Cancel the order after this many seconds.
    pub fn cancel_after_secs(self, secs: i32) -> (r: Self)
        ensures
            r == (RithmicOrder { cancel_after_secs: Some(secs), ..self }),
    {
        RithmicOrder { cancel_after_secs: Some(secs), ..self }
    }

    /// Conditional trigger that releases this order once touched.
    pub fn if_touched(self, if_touched: RithmicIfTouchedTrigger<P>) -> (r: Self)
        ensures
            r == (RithmicOrder { if_touched: Some(if_touched), ..self }),
    {
        RithmicOrder { if_touched: Some(if_touched), ..self }
    }

    /// Check this order carries the prices its `price_type` requires:
    /// `Limit`, `StopLimit` and `LimitIfTouched` need a price; `StopMarket`,
    /// `StopLimit`, `MarketIfTouched` and `LimitIfTouched` need a trigger
    /// price. The instrument and the size are not checked.
    pub fn validate(&self) -> (r: Result<(), RithmicError>)
        ensures
            check_outcome(r, order_price_failure(self.price_type, self.price is Some, self.trigger_price is Some)),
    {
        check_order_prices(self.price_type, self.price.is_some(), self.trigger_price.is_some())
    }

    /// Validate and return the order.
    pub fn build(self) -> (r: Result<Self, RithmicError>)
        ensures
            match order_price_failure(self.price_type, self.price is Some, self.trigger_price is Some) {
                None => r == Ok::<Self, RithmicError>(self),
                Some(msg) => is_invalid_argument(r, msg),
            },
    {
        self.validate()?;
        Ok(self)
    }
}

/// The first components of a sequence of pairs.
pub open spec fn firsts(legs: Seq<(i32, i32)>) -> Seq<i32> {
    legs.map_values(|l: (i32, i32)| l.0)
}

/// The second components of a sequence of pairs.
pub open spec fn seconds(legs: Seq<(i32, i32)>) -> Seq<i32> {
    legs.map_values(|l: (i32, i32)| l.1)
}

/// Splits `(quantity, ticks)` pairs into the quantities and the ticks.
fn unzip_legs(legs: &[(i32, i32)]) -> (r: (Vec<i32>, Vec<i32>))
    ensures
        r.0@ == firsts(legs@),
        r.1@ == seconds(legs@),
{
    let mut quantities: Vec<i32> = Vec::new();
    let mut ticks: Vec<i32> = Vec::new();
    let mut i: usize = 0;
    while i < legs.len()
        invariant
            i <= legs.len(),
            quantities@ == firsts(legs@.take(i as int)),
            ticks@ == seconds(legs@.take(i as int)),
        decreases legs.len() - i,
    {
        let (q, t) = legs[i];
        proof {
            assert(legs@.take(i + 1) =~= legs@.take(i as int).push((q, t)));
        }
        quantities.push(q);
        ticks.push(t);
        i = i + 1;
        proof {
            assert(quantities@ =~= firsts(legs@.take(i as int)));
            assert(ticks@ =~= seconds(legs@.take(i as int)));
        }
    }
    proof {
        assert(legs@.take(i as int) =~= legs@);
    }
    (quantities, ticks)
}

/// A bracket as `build` hands it back: the shape resolved from the one given
/// and the exit legs supplied, everything else as it was.
pub open spec fn with_resolved_shape<P>(b: RithmicBracketOrder<P>) -> RithmicBracketOrder<P> {
    RithmicBracketOrder {
        bracket_type: resolved_bracket_type(b.bracket_type, b.target_ticks.len() > 0, b.stop_ticks.len() > 0),
        ..b
    }
}

/// Entry order with linked profit target and stop loss orders.
#[derive(Debug, Clone, Default, PartialEq)]
pub struct RithmicBracketOrder<P> {
    /// Buy or Sell on the entry.
    pub action: OrderSide,
    /// Order duration.
    pub duration: TimeInForce,
    /// Exchange code (e.g., "CME").
    pub exchange: String,
    /// Your identifier for tracking this order.
    pub localid: String,
    /// Order type of the entry.
    pub price_type: OrderType,
    /// Entry price. A market entry does not need one.
    pub price: Option<P>,
    /// Trigger price. Only a stop or if-touched entry needs one.
    pub trigger_price: Option<P>,
    /// Entry order size. A coherent bracket's target quantities add up to it; that is not checked.
    pub quantity: i32,
    /// Trading symbol (e.g., "ESH6").
    pub symbol: String,
    /// Bracket shape. `None` means "derive it from the legs supplied".
    pub bracket_type: Option<BracketType>,
    /// Exit target quantities, one per target leg.
    pub target_quantity: Vec<i32>,
    /// Exit target distances in ticks.
    pub target_ticks: Vec<i32>,
    /// Exit stop quantities.
    pub stop_quantity: Vec<i32>,
    /// Exit stop distances in ticks.
    pub stop_ticks: Vec<i32>,
    /// Optional if-touched trigger settings.
    pub if_touched: Option<RithmicIfTouchedTrigger<P>>,
    /// Move the stop to break-even by this many ticks.
    pub break_even_ticks: Option<i32>,
    /// Trigger break-even once the position reaches this many ticks.
    pub break_even_trigger_ticks: Option<i32>,
    /// Enable a trailing stop after this many ticks.
    pub trailing_stop_trigger_ticks: Option<i32>,
    /// Track the trailing stop against the last trade instead of bid/offer.
    pub trailing_stop_by_last_trade_price: Option<bool>,
    /// Convert the target to market-if-touched once touched.
    pub target_market_order_if_touched: Option<bool>,
    /// Convert the stop to market if the resting stop is rejected.
    pub stop_market_on_reject: Option<bool>,
    /// Convert the target to market at this second-since-beginning-of-epoch value.
    pub target_market_at_ssboe: Option<i32>,
    /// Microsecond component for `target_market_at_ssboe`.
    pub target_market_at_usecs: Option<i32>,
    /// Convert the stop to market at this second-since-beginning-of-epoch value.
    pub stop_market_at_ssboe: Option<i32>,
    /// Microsecond component for `stop_market_at_ssboe`.
    pub stop_market_at_usecs: Option<i32>,
    /// Convert the target to market after this many seconds.
    pub target_market_order_after_secs: Option<i32>,
    /// Release the order at this second-since-beginning-of-epoch value.
    pub release_at_ssboe: Option<i32>,
    /// Microsecond component for `release_at_ssboe`.
    pub release_at_usecs: Option<i32>,
    /// Cancel the order at this second-since-beginning-of-epoch value.
    pub cancel_at_ssboe: Option<i32>,
    /// Microsecond component for `cancel_at_ssboe`.
    pub cancel_at_usecs: Option<i32>,
    /// Cancel the order after this many seconds.
    pub cancel_after_secs: Option<i32>,
    /// Route to send on. `None` uses the session's route.
    pub trade_route: Option<String>,
    /// Whether the order was placed by a human or automatically.
    pub manual_or_auto: OrderPlacement,
}

impl<P> RithmicBracketOrder<P> {
    /// Start from the defaults: a `Limit` day buy of no contracts, automatic, with no exit legs and nothing optional set.
    pub fn new() -> (c: Self)
        ensures
            c.action == OrderSide::Buy,
            c.duration == TimeInForce::Day,
            c.exchange@ == Seq::<char>::empty(),
            c.localid@ == Seq::<char>::empty(),
            c.price_type == OrderType::Limit,
            c.price is None,
            c.trigger_price is None,
            c.quantity == 0,
            c.symbol@ == Seq::<char>::empty(),
            c.bracket_type is None,
            c.target_quantity@ == Seq::<i32>::empty(),
            c.target_ticks@ == Seq::<i32>::empty(),
            c.stop_quantity@ == Seq::<i32>::empty(),
            c.stop_ticks@ == Seq::<i32>::empty(),
            c.if_touched is None,
            c.break_even_ticks is None,
            c.break_even_trigger_ticks is None,
            c.trailing_stop_trigger_ticks is None,
            c.trailing_stop_by_last_trade_price is None,
            c.target_market_order_if_touched is None,
            c.stop_market_on_reject is None,
            c.target_market_at_ssboe is None,
            c.target_market_at_usecs is None,
            c.stop_market_at_ssboe is None,
            c.stop_market_at_usecs is None,
            c.target_market_order_after_secs is None,
            c.release_at_ssboe is None,
            c.release_at_usecs is None,
            c.cancel_at_ssboe is None,
            c.cancel_at_usecs is None,
            c.cancel_after_secs is None,
            c.trade_route is None,
            c.manual_or_auto == OrderPlacement::Auto,
    {
        RithmicBracketOrder {
            action: OrderSide::Buy,
            duration: TimeInForce::Day,
            exchange: String::new(),
            localid: String::new(),
            price_type: OrderType::Limit,
            price: None,
            trigger_price: None,
            quantity: 0,
            symbol: String::new(),
            bracket_type: None,
            target_quantity: Vec::new(),
            target_ticks: Vec::new(),
            stop_quantity: Vec::new(),
            stop_ticks: Vec::new(),
            if_touched: None,
            break_even_ticks: None,
            break_even_trigger_ticks: None,
            trailing_stop_trigger_ticks: None,
            trailing_stop_by_last_trade_price: None,
            target_market_order_if_touched: None,
            stop_market_on_reject: None,
            target_market_at_ssboe: None,
            target_market_at_usecs: None,
            stop_market_at_ssboe: None,
            stop_market_at_usecs: None,
            target_market_order_after_secs: None,
            release_at_ssboe: None,
            release_at_usecs: None,
            cancel_at_ssboe: None,
            cancel_at_usecs: None,
            cancel_after_secs: None,
            trade_route: None,
            manual_or_auto: OrderPlacement::Auto,
        }
    }

    /// Instrument symbol.
    pub fn symbol(self, symbol: &str) -> (r: Self)
        ensures
            r.symbol@ == symbol@,
            r == (RithmicBracketOrder { symbol: r.symbol, ..self }),
    {
        RithmicBracketOrder { symbol: owned(symbol), ..self }
    }

    /// Exchange the instrument trades on.
    pub fn exchange(self, exchange: &str) -> (r: Self)
        ensures
            r.exchange@ == exchange@,
            r == (RithmicBracketOrder { exchange: r.exchange, ..self }),
    {
        RithmicBracketOrder { exchange: owned(exchange), ..self }
    }

    /// Number of contracts on the entry. Set it before `target` or `stop`, which size their leg to the quantity as it stands.
    pub fn quantity(self, quantity: i32) -> (r: Self)
        ensures
            r == (RithmicBracketOrder { quantity: quantity, ..self }),
    {
        RithmicBracketOrder { quantity: quantity, ..self }
    }

    /// Buy or sell on the entry.
    pub fn action(self, action: OrderSide) -> (r: Self)
        ensures
            r == (RithmicBracketOrder { action: action, ..self }),
    {
        RithmicBracketOrder { action: action, ..self }
    }

    /// Market, limit, stop, or if-touched entry.
    pub fn price_type(self, price_type: OrderType) -> (r: Self)
        ensures
            r == (RithmicBracketOrder { price_type: price_type, ..self }),
    {
        RithmicBracketOrder { price_type: price_type, ..self }
    }

    /// How long the entry stays working.
    pub fn duration(self, duration: TimeInForce) -> (r: Self)
        ensures
            r == (RithmicBracketOrder { duration: duration, ..self }),
    {
        RithmicBracketOrder { duration: duration, ..self }
    }

    /// Your identifier for tracking this order.
    pub fn localid(self, localid: &str) -> (r: Self)
        ensures
            r.localid@ == localid@,
            r == (RithmicBracketOrder { localid: r.localid, ..self }),
    {
        RithmicBracketOrder { localid: owned(localid), ..self }
    }

    /// Entry price.
    pub fn price(self, price: P) -> (r: Self)
        ensures
            r == (RithmicBracketOrder { price: Some(price), ..self }),
    {
        RithmicBracketOrder { price: Some(price), ..self }
    }

    /// Trigger price for stop and if-touched entry types.
    pub fn trigger_price(self, trigger_price: P) -> (r: Self)
        ensures
            r == (RithmicBracketOrder { trigger_price: Some(trigger_price), ..self }),
    {
        RithmicBracketOrder { trigger_price: Some(trigger_price), ..self }
    }

    /// Bracket shape, overriding what `build` would derive from the legs.
    pub fn bracket_type(self, bracket_type: BracketType) -> (r: Self)
        ensures
            r == (RithmicBracketOrder { bracket_type: Some(bracket_type), ..self }),
    {
        RithmicBracketOrder { bracket_type: Some(bracket_type), ..self }
    }

    /// One target leg at this tick distance, sized to the entry quantity as
    /// it stands now.
    pub fn target(self, ticks: i32) -> (r: Self)
        ensures
            r.target_quantity@ == seq![self.quantity],
            r.target_ticks@ == seq![ticks],
            r == (RithmicBracketOrder { target_quantity: r.target_quantity, target_ticks: r.target_ticks, ..self }),
    {
        let quantity = self.quantity;
        RithmicBracketOrder { target_quantity: vec![quantity], target_ticks: vec![ticks], ..self }
    }

    /// One stop leg at this tick distance, sized to the entry quantity as it
    /// stands now.
    pub fn stop(self, ticks: i32) -> (r: Self)
        ensures
            r.stop_quantity@ == seq![self.quantity],
            r.stop_ticks@ == seq![ticks],
            r == (RithmicBracketOrder { stop_quantity: r.stop_quantity, stop_ticks: r.stop_ticks, ..self }),
    {
        let quantity = self.quantity;
        RithmicBracketOrder { stop_quantity: vec![quantity], stop_ticks: vec![ticks], ..self }
    }

    /// Target legs as `(quantity, ticks)` pairs, replacing any already set.
    pub fn targets(self, legs: &[(i32, i32)]) -> (r: Self)
        ensures
            r.target_quantity@ == firsts(legs@),
            r.target_ticks@ == seconds(legs@),
            r == (RithmicBracketOrder { target_quantity: r.target_quantity, target_ticks: r.target_ticks, ..self }),
    {
        let (quantities, ticks) = unzip_legs(legs);
        RithmicBracketOrder { target_quantity: quantities, target_ticks: ticks, ..self }
    }

    /// Stop legs as `(quantity, ticks)` pairs, replacing any already set.
    pub fn stops(self, legs: &[(i32, i32)]) -> (r: Self)
        ensures
            r.stop_quantity@ == firsts(legs@),
            r.stop_ticks@ == seconds(legs@),
            r == (RithmicBracketOrder { stop_quantity: r.stop_quantity, stop_ticks: r.stop_ticks, ..self }),
    {
        let (quantities, ticks) = unzip_legs(legs);
        RithmicBracketOrder { stop_quantity: quantities, stop_ticks: ticks, ..self }
    }

    /// Conditional trigger that releases the entry once touched.
    pub fn if_touched(self, if_touched: RithmicIfTouchedTrigger<P>) -> (r: Self)
        ensures
            r == (RithmicBracketOrder { if_touched: Some(if_touched), ..self }),
    {
        RithmicBracketOrder { if_touched: Some(if_touched), ..self }
    }

    /// Move the stop to break-even by this many ticks.
    pub fn break_even_ticks(self, ticks: i32) -> (r: Self)
        ensures
            r == (RithmicBracketOrder { break_even_ticks: Some(ticks), ..self }),
    {
        RithmicBracketOrder { break_even_ticks: Some(ticks), ..self }
    }

    /// Trigger break-even once the position reaches this many ticks.
    pub fn break_even_trigger_ticks(self, ticks: i32) -> (r: Self)
        ensures
            r == (RithmicBracketOrder { break_even_trigger_ticks: Some(ticks), ..self }),
    {
        RithmicBracketOrder { break_even_trigger_ticks: Some(ticks), ..self }
    }

    /// Enable a trailing stop after this many ticks.
    pub fn trailing_stop_trigger_ticks(self, ticks: i32) -> (r: Self)
        ensures
            r == (RithmicBracketOrder { trailing_stop_trigger_ticks: Some(ticks), ..self }),
    {
        RithmicBracketOrder { trailing_stop_trigger_ticks: Some(ticks), ..self }
    }

    /// Track the trailing stop against the last trade instead of bid/offer.
    pub fn trailing_stop_by_last_trade_price(self, by_last_trade_price: bool) -> (r: Self)
        ensures
            r == (RithmicBracketOrder { trailing_stop_by_last_trade_price: Some(by_last_trade_price), ..self }),
    {
        RithmicBracketOrder { trailing_stop_by_last_trade_price: Some(by_last_trade_price), ..self }
    }

    /// Convert the target to market-if-touched once touched.
    pub fn target_market_order_if_touched(self, market_if_touched: bool) -> (r: Self)
        ensures
            r == (RithmicBracketOrder { target_market_order_if_touched: Some(market_if_touched), ..self }),
    {
        RithmicBracketOrder { target_market_order_if_touched: Some(market_if_touched), ..self }
    }

    /// Convert the stop to market if the resting stop order is rejected.
    pub fn stop_market_on_reject(self, market_on_reject: bool) -> (r: Self)
        ensures
            r == (RithmicBracketOrder { stop_market_on_reject: Some(market_on_reject), ..self }),
    {
        RithmicBracketOrder { stop_market_on_reject: Some(market_on_reject), ..self }
    }

    /// Convert the target to market at this second-since-beginning-of-epoch value.
    pub fn target_market_at_ssboe(self, ssboe: i32) -> (r: Self)
        ensures
            r == (RithmicBracketOrder { target_market_at_ssboe: Some(ssboe), ..self }),
    {
        RithmicBracketOrder { target_market_at_ssboe: Some(ssboe), ..self }
    }

    /// Microsecond component of the target's market-conversion time.
    pub fn target_market_at_usecs(self, usecs: i32) -> (r: Self)
        ensures
            r == (RithmicBracketOrder { target_market_at_usecs: Some(usecs), ..self }),
    {
        RithmicBracketOrder { target_market_at_usecs: Some(usecs), ..self }
    }

    /// Set both halves of the target's market-conversion time.
    pub fn target_market_at(self, ssboe: i32, usecs: i32) -> (r: Self)
        ensures
            r == (RithmicBracketOrder { target_market_at_ssboe: Some(ssboe), target_market_at_usecs: Some(usecs), ..self }),
    {
        self.target_market_at_ssboe(ssboe).target_market_at_usecs(usecs)
    }

    /// Convert the stop to market at this second-since-beginning-of-epoch value.
    pub fn stop_market_at_ssboe(self, ssboe: i32) -> (r: Self)
        ensures
            r == (RithmicBracketOrder { stop_market_at_ssboe: Some(ssboe), ..self }),
    {
        RithmicBracketOrder { stop_market_at_ssboe: Some(ssboe), ..self }
    }

    /// Microsecond component of the stop's market-conversion time.
    pub fn stop_market_at_usecs(self, usecs: i32) -> (r: Self)
        ensures
            r == (RithmicBracketOrder { stop_market_at_usecs: Some(usecs), ..self }),
    {
        RithmicBracketOrder { stop_market_at_usecs: Some(usecs), ..self }
    }

    /// Set both halves of the stop's market-conversion time.
    pub fn stop_market_at(self, ssboe: i32, usecs: i32) -> (r: Self)
        ensures
            r == (RithmicBracketOrder { stop_market_at_ssboe: Some(ssboe), stop_market_at_usecs: Some(usecs), ..self }),
    {
        self.stop_market_at_ssboe(ssboe).stop_market_at_usecs(usecs)
    }

    /// Convert the target to market after this many seconds.
    pub fn target_market_order_after_secs(self, secs: i32) -> (r: Self)
        ensures
            r == (RithmicBracketOrder { target_market_order_after_secs: Some(secs), ..self }),
    {
        RithmicBracketOrder { target_market_order_after_secs: Some(secs), ..self }
    }

    /// Release the order at this second-since-beginning-of-epoch value.
    pub fn release_at_ssboe(self, ssboe: i32) -> (r: Self)
        ensures
            r == (RithmicBracketOrder { release_at_ssboe: Some(ssboe), ..self }),
    {
        RithmicBracketOrder { release_at_ssboe: Some(ssboe), ..self }
    }

    /// Microsecond component of the release time.
    pub fn release_at_usecs(self, usecs: i32) -> (r: Self)
        ensures
            r == (RithmicBracketOrder { release_at_usecs: Some(usecs), ..self }),
    {
        RithmicBracketOrder { release_at_usecs: Some(usecs), ..self }
    }

    /// Set both halves of the release time.
    pub fn release_at(self, ssboe: i32, usecs: i32) -> (r: Self)
        ensures
            r == (RithmicBracketOrder { release_at_ssboe: Some(ssboe), release_at_usecs: Some(usecs), ..self }),
    {
        self.release_at_ssboe(ssboe).release_at_usecs(usecs)
    }

    /// Cancel the order at this second-since-beginning-of-epoch value.
    pub fn cancel_at_ssboe(self, ssboe: i32) -> (r: Self)
        ensures
            r == (RithmicBracketOrder { cancel_at_ssboe: Some(ssboe), ..self }),
    {
        RithmicBracketOrder { cancel_at_ssboe: Some(ssboe), ..self }
    }

    /// Microsecond component of the cancel time.
    pub fn cancel_at_usecs(self, usecs: i32) -> (r: Self)
        ensures
            r == (RithmicBracketOrder { cancel_at_usecs: Some(usecs), ..self }),
    {
        RithmicBracketOrder { cancel_at_usecs: Some(usecs), ..self }
    }

    /// Set both halves of the cancel time.
    pub fn cancel_at(self, ssboe: i32, usecs: i32) -> (r: Self)
        ensures
            r == (RithmicBracketOrder { cancel_at_ssboe: Some(ssboe), cancel_at_usecs: Some(usecs), ..self }),
    {
        self.cancel_at_ssboe(ssboe).cancel_at_usecs(usecs)
    }

    /// Cancel the order after this many seconds.
    pub fn cancel_after_secs(self, secs: i32) -> (r: Self)
        ensures
            r == (RithmicBracketOrder { cancel_after_secs: Some(secs), ..self }),
    {
        RithmicBracketOrder { cancel_after_secs: Some(secs), ..self }
    }

    /// Route to send on, overriding the session's route.
    pub fn trade_route(self, trade_route: &str) -> (r: Self)
        ensures
            r.trade_route.deep_view() == Some(trade_route@),
            r == (RithmicBracketOrder { trade_route: r.trade_route, ..self }),
    {
        RithmicBracketOrder { trade_route: Some(owned(trade_route)), ..self }
    }

    /// Whether this was done by a human or automatically.
    pub fn manual_or_auto(self, manual_or_auto: OrderPlacement) -> (r: Self)
        ensures
            r == (RithmicBracketOrder { manual_or_auto: manual_or_auto, ..self }),
    {
        RithmicBracketOrder { manual_or_auto: manual_or_auto, ..self }
    }

    /// Check the entry carries the prices its `price_type` requires, by the
    /// order rule. The exit legs are not checked.
    pub fn validate(&self) -> (r: Result<(), RithmicError>)
        ensures
            check_outcome(r, order_price_failure(self.price_type, self.price is Some, self.trigger_price is Some)),
    {
        check_order_prices(self.price_type, self.price.is_some(), self.trigger_price.is_some())
    }

    /// Validate and return the order, deriving an unset `bracket_type` from
    /// the exit legs supplied.
    pub fn build(self) -> (r: Result<Self, RithmicError>)
        ensures
            match order_price_failure(self.price_type, self.price is Some, self.trigger_price is Some) {
                None => r == Ok::<Self, RithmicError>(with_resolved_shape(self)),
                Some(msg) => is_invalid_argument(r, msg),
            },
    {
        self.validate()?;
        let has_targets = self.target_ticks.len() > 0;
        let has_stops = self.stop_ticks.len() > 0;
        let bracket_type = resolve_bracket_type(self.bracket_type, has_targets, has_stops);
        Ok(RithmicBracketOrder { bracket_type, ..self })
    }
}
/// One leg of an OCO (One-Cancels-Other) order group.
#[derive(Debug, Clone, Default, PartialEq)]
pub struct RithmicOcoOrderLeg<P> {
    /// Trading symbol (e.g., "ESH6").
    pub symbol: String,
    /// Exchange code (e.g., "CME").
    pub exchange: String,
    /// Number of contracts.
    pub quantity: i32,
    /// Leg price. A market leg does not need one.
    pub price: Option<P>,
    /// Trigger price. Only a stop leg needs one.
    pub trigger_price: Option<P>,
    /// Buy or Sell.
    pub transaction_type: OrderSide,
    /// Order duration.
    pub duration: TimeInForce,
    /// Order type. The if-touched types are refused on an OCO leg.
    pub price_type: OrderType,
    /// Your identifier for this leg.
    pub user_tag: String,
    /// Optional trailing stop configuration for this leg.
    pub trailing_stop: Option<TrailingStop>,
    /// Route to send on. `None` uses the session's route.
    pub trade_route: Option<String>,
    /// Whether the leg was placed by a human or automatically.
    pub manual_or_auto: OrderPlacement,
}

/// The price facts of a leg that the OCO leg rule reads.
pub open spec fn leg_prices<P>(l: RithmicOcoOrderLeg<P>) -> LegPrices {
    LegPrices { price_type: l.price_type, has_price: l.price is Some, has_trigger: l.trigger_price is Some }
}

impl<P> RithmicOcoOrderLeg<P> {
    /// Start from the defaults: a `Limit` day buy of no contracts, automatic, with nothing optional set.
    pub fn new() -> (c: Self)
        ensures
            c.symbol@ == Seq::<char>::empty(),
            c.exchange@ == Seq::<char>::empty(),
            c.quantity == 0,
            c.price is None,
            c.trigger_price is None,
            c.transaction_type == OrderSide::Buy,
            c.duration == TimeInForce::Day,
            c.price_type == OrderType::Limit,
            c.user_tag@ == Seq::<char>::empty(),
            c.trailing_stop is None,
            c.trade_route is None,
            c.manual_or_auto == OrderPlacement::Auto,
    {
        RithmicOcoOrderLeg {
            symbol: String::new(),
            exchange: String::new(),
            quantity: 0,
            price: None,
            trigger_price: None,
            transaction_type: OrderSide::Buy,
            duration: TimeInForce::Day,
            price_type: OrderType::Limit,
            user_tag: String::new(),
            trailing_stop: None,
            trade_route: None,
            manual_or_auto: OrderPlacement::Auto,
        }
    }

    /// Instrument symbol.
    pub fn symbol(self, symbol: &str) -> (r: Self)
        ensures
            r.symbol@ == symbol@,
            r == (RithmicOcoOrderLeg { symbol: r.symbol, ..self }),
    {
        RithmicOcoOrderLeg { symbol: owned(symbol), ..self }
    }

    /// Exchange the instrument trades on.
    pub fn exchange(self, exchange: &str) -> (r: Self)
        ensures
            r.exchange@ == exchange@,
            r == (RithmicOcoOrderLeg { exchange: r.exchange, ..self }),
    {
        RithmicOcoOrderLeg { exchange: owned(exchange), ..self }
    }

    /// Number of contracts on this leg.
    pub fn quantity(self, quantity: i32) -> (r: Self)
        ensures
            r == (RithmicOcoOrderLeg { quantity: quantity, ..self }),
    {
        RithmicOcoOrderLeg { quantity: quantity, ..self }
    }

    /// Buy or sell.
    pub fn transaction_type(self, transaction_type: OrderSide) -> (r: Self)
        ensures
            r == (RithmicOcoOrderLeg { transaction_type: transaction_type, ..self }),
    {
        RithmicOcoOrderLeg { transaction_type: transaction_type, ..self }
    }

    /// Market, limit, or stop.
    pub fn price_type(self, price_type: OrderType) -> (r: Self)
        ensures
            r == (RithmicOcoOrderLeg { price_type: price_type, ..self }),
    {
        RithmicOcoOrderLeg { price_type: price_type, ..self }
    }

    /// Leg price.
    pub fn price(self, price: P) -> (r: Self)
        ensures
            r == (RithmicOcoOrderLeg { price: Some(price), ..self }),
    {
        RithmicOcoOrderLeg { price: Some(price), ..self }
    }

    /// Trigger price for stop order types.
    pub fn trigger_price(self, trigger_price: P) -> (r: Self)
        ensures
            r == (RithmicOcoOrderLeg { trigger_price: Some(trigger_price), ..self }),
    {
        RithmicOcoOrderLeg { trigger_price: Some(trigger_price), ..self }
    }

    /// How long the leg stays working.
    pub fn duration(self, duration: TimeInForce) -> (r: Self)
        ensures
            r == (RithmicOcoOrderLeg { duration: duration, ..self }),
    {
        RithmicOcoOrderLeg { duration: duration, ..self }
    }

    /// Your identifier for this leg.
    pub fn user_tag(self, user_tag: &str) -> (r: Self)
        ensures
            r.user_tag@ == user_tag@,
            r == (RithmicOcoOrderLeg { user_tag: r.user_tag, ..self }),
    {
        RithmicOcoOrderLeg { user_tag: owned(user_tag), ..self }
    }

    /// Trailing stop configuration for this leg.
    pub fn trailing_stop(self, trailing_stop: TrailingStop) -> (r: Self)
        ensures
            r == (RithmicOcoOrderLeg { trailing_stop: Some(trailing_stop), ..self }),
    {
        RithmicOcoOrderLeg { trailing_stop: Some(trailing_stop), ..self }
    }

    /// Trail by `trail_by_ticks` against Rithmic's `trail_by_price_id`.
    pub fn trailing_stop_by(self, trail_by_ticks: i32, trail_by_price_id: i32) -> (r: Self)
        ensures
            r == (RithmicOcoOrderLeg { trailing_stop: Some(TrailingStop { trail_by_ticks, trail_by_price_id }), ..self }),
    {
        self.trailing_stop(TrailingStop::new(trail_by_ticks, trail_by_price_id))
    }

    /// Route to send on, overriding the session's route.
    pub fn trade_route(self, trade_route: &str) -> (r: Self)
        ensures
            r.trade_route.deep_view() == Some(trade_route@),
            r == (RithmicOcoOrderLeg { trade_route: r.trade_route, ..self }),
    {
        RithmicOcoOrderLeg { trade_route: Some(owned(trade_route)), ..self }
    }

    /// Whether this was done by a human or automatically.
    pub fn manual_or_auto(self, manual_or_auto: OrderPlacement) -> (r: Self)
        ensures
            r == (RithmicOcoOrderLeg { manual_or_auto: manual_or_auto, ..self }),
    {
        RithmicOcoOrderLeg { manual_or_auto: manual_or_auto, ..self }
    }

    /// Check the leg by the OCO leg rule: the if-touched types are refused;
    /// `Limit` and `StopLimit` need a price; `StopMarket` and `StopLimit` need
    /// a trigger price.
    pub fn validate(&self) -> (r: Result<(), RithmicError>)
        ensures
            check_outcome(r, oco_leg_price_failure(self.price_type, self.price is Some, self.trigger_price is Some)),
    {
        check_oco_leg_prices(self.price_type, self.price.is_some(), self.trigger_price.is_some())
    }

    /// Validate and return the leg.
    pub fn build(self) -> (r: Result<Self, RithmicError>)
        ensures
            match oco_leg_price_failure(self.price_type, self.price is Some, self.trigger_price is Some) {
                None => r == Ok::<Self, RithmicError>(self),
                Some(msg) => is_invalid_argument(r, msg),
            },
    {
        self.validate()?;
        Ok(self)
    }
}

/// A group of OCO legs: when one fills, the others are cancelled.
#[derive(Debug, Clone, Default, PartialEq)]
pub struct RithmicOcoOrder<P> {
    /// The legs of the group, in the order they are sent.
    pub legs: Vec<RithmicOcoOrderLeg<P>>,
}

/// The price facts of each leg of a group, in order.
pub open spec fn group_prices<P>(legs: Seq<RithmicOcoOrderLeg<P>>) -> Seq<LegPrices> {
    legs.map_values(|l: RithmicOcoOrderLeg<P>| leg_prices(l))
}

impl<P> RithmicOcoOrder<P> {
    /// Start with no legs.
    pub fn new() -> (c: Self)
        ensures
            c.legs@ == Seq::<RithmicOcoOrderLeg<P>>::empty(),
    {
        RithmicOcoOrder { legs: Vec::new() }
    }

    /// Append one more leg.
    pub fn leg(self, leg: RithmicOcoOrderLeg<P>) -> (r: Self)
        ensures
            r.legs@ == self.legs@.push(leg),
    {
        let mut legs = self.legs;
        legs.push(leg);
        RithmicOcoOrder { legs }
    }

    /// Append several more legs, in the order given.
    pub fn legs(self, more: Vec<RithmicOcoOrderLeg<P>>) -> (r: Self)
        ensures
            r.legs@ == self.legs@ + more@,
    {
        let mut legs = self.legs;
        let mut more = more;
        legs.append(&mut more);
        RithmicOcoOrder { legs }
    }

    /// Check every leg, in order, and report the first failing leg's error.
    /// How many legs there are is not checked.
    pub fn validate(&self) -> (r: Result<(), RithmicError>)
        ensures
            check_outcome(r, oco_group_failure(group_prices(self.legs@))),
    {
        let mut prices: Vec<LegPrices> = Vec::new();
        let mut i: usize = 0;
        while i < self.legs.len()
            invariant
                i <= self.legs.len(),
                prices@ == group_prices(self.legs@.take(i as int)),
            decreases self.legs.len() - i,
        {
            let l = &self.legs[i];
            let p = LegPrices { price_type: l.price_type, has_price: l.price.is_some(), has_trigger: l.trigger_price.is_some() };
            proof {
                assert(self.legs@.take(i + 1) =~= self.legs@.take(i as int).push(*l));
            }
            prices.push(p);
            i = i + 1;
            proof {
                assert(prices@ =~= group_prices(self.legs@.take(i as int)));
            }
        }
        proof {
            assert(self.legs@.take(i as int) =~= self.legs@);
        }
        check_oco_legs(&prices)
    }

    /// Validate and return the group.
    pub fn build(self) -> (r: Result<Self, RithmicError>)
        ensures
            match oco_group_failure(group_prices(self.legs@)) {
                None => r == Ok::<Self, RithmicError>(self),
                Some(msg) => is_invalid_argument(r, msg),
            },
    {
        self.validate()?;
        Ok(self)
    }
}
/// Modify an existing order's price, quantity, or type.
#[derive(Debug, Clone, Default, PartialEq)]
pub struct RithmicModifyOrder<P> {
    /// The `basket_id` from the order notification.
    pub id: String,
    /// Exchange code.
    pub exchange: String,
    /// Trading symbol.
    pub symbol: String,
    /// New quantity.
    pub quantity: i32,
    /// New price, omitted from the request when unset. A modify restates the order, so set it to the current price when only the quantity changes.
    pub price: Option<P>,
    /// Order type.
    pub price_type: OrderType,
    /// Trigger price. Left unset, the stop types send the price in its place.
    pub trigger_price: Option<P>,
    /// Whether the modification was made by a human or automatically.
    pub manual_or_auto: OrderPlacement,
    /// Originating window name reported to Rithmic.
    pub window_name: Option<String>,
    /// Ticks to trail behind the market price.
    pub trail_by_ticks: Option<i32>,
    /// Conditional trigger on the resulting order.
    pub if_touched: Option<RithmicIfTouchedTrigger<P>>,
}

impl<P> RithmicModifyOrder<P> {
    /// Start from the defaults: a `Limit` modification of no order, automatic, with nothing optional set.
    pub fn new() -> (c: Self)
        ensures
            c.id@ == Seq::<char>::empty(),
            c.exchange@ == Seq::<char>::empty(),
            c.symbol@ == Seq::<char>::empty(),
            c.quantity == 0,
            c.price is None,
            c.price_type == OrderType::Limit,
            c.trigger_price is None,
            c.manual_or_auto == OrderPlacement::Auto,
            c.window_name is None,
            c.trail_by_ticks is None,
            c.if_touched is None,
    {
        RithmicModifyOrder {
            id: String::new(),
            exchange: String::new(),
            symbol: String::new(),
            quantity: 0,
            price: None,
            price_type: OrderType::Limit,
            trigger_price: None,
            manual_or_auto: OrderPlacement::Auto,
            window_name: None,
            trail_by_ticks: None,
            if_touched: None,
        }
    }

    /// The `basket_id` of the order being modified.
    pub fn id(self, id: &str) -> (r: Self)
        ensures
            r.id@ == id@,
            r == (RithmicModifyOrder { id: r.id, ..self }),
    {
        RithmicModifyOrder { id: owned(id), ..self }
    }

    /// Instrument symbol.
    pub fn symbol(self, symbol: &str) -> (r: Self)
        ensures
            r.symbol@ == symbol@,
            r == (RithmicModifyOrder { symbol: r.symbol, ..self }),
    {
        RithmicModifyOrder { symbol: owned(symbol), ..self }
    }

    /// Exchange the instrument trades on.
    pub fn exchange(self, exchange: &str) -> (r: Self)
        ensures
            r.exchange@ == exchange@,
            r == (RithmicModifyOrder { exchange: r.exchange, ..self }),
    {
        RithmicModifyOrder { exchange: owned(exchange), ..self }
    }

    /// The order's size after the modification.
    pub fn quantity(self, quantity: i32) -> (r: Self)
        ensures
            r == (RithmicModifyOrder { quantity: quantity, ..self }),
    {
        RithmicModifyOrder { quantity: quantity, ..self }
    }

    /// The order's price after the modification.
    pub fn price(self, price: P) -> (r: Self)
        ensures
            r == (RithmicModifyOrder { price: Some(price), ..self }),
    {
        RithmicModifyOrder { price: Some(price), ..self }
    }

    /// The order's type after the modification.
    pub fn price_type(self, price_type: OrderType) -> (r: Self)
        ensures
            r == (RithmicModifyOrder { price_type: price_type, ..self }),
    {
        RithmicModifyOrder { price_type: price_type, ..self }
    }

    /// Trigger price distinct from the limit price.
    pub fn trigger_price(self, trigger_price: P) -> (r: Self)
        ensures
            r == (RithmicModifyOrder { trigger_price: Some(trigger_price), ..self }),
    {
        RithmicModifyOrder { trigger_price: Some(trigger_price), ..self }
    }

    /// Whether this was done by a human or automatically.
    pub fn manual_or_auto(self, manual_or_auto: OrderPlacement) -> (r: Self)
        ensures
            r == (RithmicModifyOrder { manual_or_auto: manual_or_auto, ..self }),
    {
        RithmicModifyOrder { manual_or_auto: manual_or_auto, ..self }
    }

    /// Window name to report this modification under.
    pub fn window_name(self, window_name: &str) -> (r: Self)
        ensures
            r.window_name.deep_view() == Some(window_name@),
            r == (RithmicModifyOrder { window_name: r.window_name, ..self }),
    {
        RithmicModifyOrder { window_name: Some(owned(window_name)), ..self }
    }

    /// Trail the resulting order this many ticks behind the market price.
    pub fn trail_by_ticks(self, trail_by_ticks: i32) -> (r: Self)
        ensures
            r == (RithmicModifyOrder { trail_by_ticks: Some(trail_by_ticks), ..self }),
    {
        RithmicModifyOrder { trail_by_ticks: Some(trail_by_ticks), ..self }
    }

    /// Attach a conditional trigger to the resulting order.
    pub fn if_touched(self, if_touched: RithmicIfTouchedTrigger<P>) -> (r: Self)
        ensures
            r == (RithmicModifyOrder { if_touched: Some(if_touched), ..self }),
    {
        RithmicModifyOrder { if_touched: Some(if_touched), ..self }
    }

    /// Check the modification carries the prices its `price_type` requires:
    /// a needed limit price must be present, and a needed trigger is the
    /// trigger price or the price standing in for it.
    pub fn validate(&self) -> (r: Result<(), RithmicError>)
        ensures
            check_outcome(r, modify_price_failure(self.price_type, self.price is Some, self.trigger_price is Some)),
    {
        check_modify_prices(self.price_type, self.price.is_some(), self.trigger_price.is_some())
    }

    /// Validate and return the modification.
    pub fn build(self) -> (r: Result<Self, RithmicError>)
        ensures
            match modify_price_failure(self.price_type, self.price is Some, self.trigger_price is Some) {
                None => r == Ok::<Self, RithmicError>(self),
                Some(msg) => is_invalid_argument(r, msg),
            },
    {
        self.validate()?;
        Ok(self)
    }
}

/// One exit leg set by its ticks alone is the leg set explicitly as the pair
/// of the entry quantity and those ticks.
pub proof fn lemma_single_leg_matches_pairs(quantity: i32, ticks: i32)
    ensures
        firsts(seq![(quantity, ticks)]) == seq![quantity],
        seconds(seq![(quantity, ticks)]) == seq![ticks],
{
    assert(firsts(seq![(quantity, ticks)]) =~= seq![quantity]);
    assert(seconds(seq![(quantity, ticks)]) =~= seq![ticks]);
}

/// Building a built bracket changes nothing: the shape `build` resolved is
/// kept.
pub proof fn lemma_bracket_build_is_idempotent<P>(b: RithmicBracketOrder<P>)
    ensures
        with_resolved_shape(with_resolved_shape(b)) == with_resolved_shape(b),
{
}

/// An OCO leg is checked by the order rule, except that the if-touched types
/// are refused outright.
pub proof fn lemma_oco_leg_follows_the_order_rule(t: OrderType, has_price: bool, has_trigger: bool)
    ensures
        !(t is MarketIfTouched || t is LimitIfTouched) ==> oco_leg_price_failure(t, has_price, has_trigger)
            == order_price_failure(t, has_price, has_trigger),
        (t is MarketIfTouched || t is LimitIfTouched) ==> oco_leg_price_failure(t, has_price, has_trigger) is Some,
{
}

/// An OCO group passes exactly when each of its legs passes the leg rule,
/// whatever the number of legs.
pub proof fn lemma_oco_order_checks_each_leg<P>(legs: Seq<RithmicOcoOrderLeg<P>>)
    ensures
        oco_group_failure(group_prices(legs)) is None <==> forall|i: int| 0 <= i < legs.len()
            ==> (#[trigger] oco_leg_price_failure(legs[i].price_type, legs[i].price is Some, legs[i].trigger_price is Some)) is None,
{
    let g = group_prices(legs);
    lemma_oco_group_checks_each_leg(g);
    if oco_group_failure(g) is None {
        assert forall|i: int| 0 <= i < legs.len() implies (#[trigger] oco_leg_price_failure(
            legs[i].price_type,
            legs[i].price is Some,
            legs[i].trigger_price is Some,
        )) is None by {
            assert(g[i] == leg_prices(legs[i]));
            assert(oco_leg_price_failure(g[i].price_type, g[i].has_price, g[i].has_trigger) is None);
        }
    } else {
        let j = choose|j: int|
            0 <= j < g.len() && !(oco_leg_price_failure(g[j].price_type, g[j].has_price, g[j].has_trigger) is None);
        assert(g[j] == leg_prices(legs[j]));
    }
}

} // verus!
