//! The order commands that carry no price, and the price rules that every
//! priced command (orders, brackets, OCO legs, modifications) is checked
//! against.
//!
//! Every command is built the same way: `T::new()` starts from the command's
//! defaults, a chained setter covers each field, and `build()` runs
//! `validate()` before handing the command back.

use vstd::prelude::*;

use crate::config::owned;
use crate::error::RithmicError;
use crate::types::{order_type_name, BracketType, OrderPlacement, OrderType};

verus! {

/// Whether `r` is an [`RithmicError::InvalidArgument`] with text `msg`.
pub open spec fn is_invalid_argument<T>(r: Result<T, RithmicError>, msg: Seq<char>) -> bool {
    r matches Err(RithmicError::InvalidArgument(m)) && m@ == msg
}

/// Whether `r` is the outcome a check with the given failure text describes:
/// `Ok` when there is no failure, else that invalid-argument error.
pub open spec fn check_outcome(r: Result<(), RithmicError>, failure: Option<Seq<char>>) -> bool {
    match failure {
        None => r is Ok,
        Some(msg) => is_invalid_argument(r, msg),
    }
}

/// Order types that need a limit price: `Limit`, `StopLimit`, `LimitIfTouched`.
pub open spec fn needs_price(t: OrderType) -> bool {
    t is Limit || t is StopLimit || t is LimitIfTouched
}

/// Order types that need a trigger price: the stop and if-touched types.
pub open spec fn needs_trigger(t: OrderType) -> bool {
    t is StopMarket || t is StopLimit || t is MarketIfTouched || t is LimitIfTouched
}

/// `"<what> is required for a <TYPE> order"`.
pub open spec fn required_text(what: Seq<char>, t: OrderType) -> Seq<char> {
    what + " is required for a "@ + order_type_name(t) + " order"@
}

/// The price rule for an order or a bracket entry: the first missing price
/// its type needs, the limit price checked before the trigger.
pub open spec fn order_price_failure(t: OrderType, has_price: bool, has_trigger: bool) -> Option<Seq<char>> {
    if needs_price(t) && !has_price {
        Some(required_text("price"@, t))
    } else if needs_trigger(t) && !has_trigger {
        Some(required_text("trigger_price"@, t))
    } else {
        None
    }
}

/// The price rule for an OCO leg: the if-touched types are not available on
/// a leg; otherwise as for an order.
pub open spec fn oco_leg_price_failure(t: OrderType, has_price: bool, has_trigger: bool) -> Option<Seq<char>> {
    if t is MarketIfTouched || t is LimitIfTouched {
        Some("price_type "@ + order_type_name(t) + " is not available on an OCO leg"@)
    } else {
        order_price_failure(t, has_price, has_trigger)
    }
}

/// The price rule for a modification, which restates the order: as for an
/// order, except that the price may stand in for a missing trigger.
pub open spec fn modify_price_failure(t: OrderType, has_price: bool, has_trigger: bool) -> Option<Seq<char>> {
    if needs_price(t) && !has_price {
        Some(required_text("price"@, t))
    } else if needs_trigger(t) && !has_trigger && !has_price {
        Some(required_text("trigger_price, or a price to stand in for it,"@, t))
    } else {
        None
    }
}

/// Which prices an order type needs: `(limit price, trigger price)`.
pub fn price_requirements(t: OrderType) -> (r: (bool, bool))
    ensures
        r == (needs_price(t), needs_trigger(t)),
{
    match t {
        OrderType::Market => (false, false),
        OrderType::Limit => (true, false),
        OrderType::StopMarket | OrderType::MarketIfTouched => (false, true),
        OrderType::StopLimit | OrderType::LimitIfTouched => (true, true),
    }
}

/// An invalid-argument error reading `"<what> is required for a <TYPE> order"`.
fn required_error(what: &str, t: OrderType) -> (e: RithmicError)
    ensures
        e matches RithmicError::InvalidArgument(m) && m@ == required_text(what@, t),
{
    let mut m = String::new();
    m.append(what);
    m.append(" is required for a ");
    m.append(t.as_str_name());
    m.append(" order");
    proof {
        assert(Seq::<char>::empty() + what@ =~= what@);
    }
    RithmicError::InvalidArgument(m)
}

/// Checks that an order or bracket entry of type `t` carries the prices the
/// type needs, given whether it has a limit price and a trigger price.
pub fn check_order_prices(t: OrderType, has_price: bool, has_trigger: bool) -> (r: Result<(), RithmicError>)
    ensures
        check_outcome(r, order_price_failure(t, has_price, has_trigger)),
{
    let (price_needed, trigger_needed) = price_requirements(t);
    if price_needed && !has_price {
        return Err(required_error("price", t));
    }
    if trigger_needed && !has_trigger {
        return Err(required_error("trigger_price", t));
    }
    Ok(())
}

/// Checks one OCO leg: the if-touched types are refused, the rest follow the
/// order rule.
pub fn check_oco_leg_prices(t: OrderType, has_price: bool, has_trigger: bool) -> (r: Result<(), RithmicError>)
    ensures
        check_outcome(r, oco_leg_price_failure(t, has_price, has_trigger)),
{
    match t {
        OrderType::MarketIfTouched | OrderType::LimitIfTouched => {
            let mut m = String::new();
            m.append("price_type ");
            m.append(t.as_str_name());
            m.append(" is not available on an OCO leg");
            proof {
                assert(Seq::<char>::empty() + "price_type "@ =~= "price_type "@);
            }
            Err(RithmicError::InvalidArgument(m))
        },
        _ => check_order_prices(t, has_price, has_trigger),
    }
}

/// Checks a modification: a needed limit price must be present, and a
/// needed trigger may be supplied by the price standing in for it.
pub fn check_modify_prices(t: OrderType, has_price: bool, has_trigger: bool) -> (r: Result<(), RithmicError>)
    ensures
        check_outcome(r, modify_price_failure(t, has_price, has_trigger)),
{
    let (price_needed, trigger_needed) = price_requirements(t);
    if price_needed && !has_price {
        return Err(required_error("price", t));
    }
    if trigger_needed && !has_trigger && !has_price {
        return Err(required_error("trigger_price, or a price to stand in for it,", t));
    }
    Ok(())
}

/// The price facts about one leg of an OCO group.
#[derive(Debug, Clone, Copy, PartialEq, Eq, Structural)]
pub struct LegPrices {
    /// The leg's order type.
    pub price_type: OrderType,
    /// Whether the leg has a limit price.
    pub has_price: bool,
    /// Whether the leg has a trigger price.
    pub has_trigger: bool,
}

/// The failure of the first leg, in order, that fails the OCO leg rule.
pub open spec fn oco_group_failure(legs: Seq<LegPrices>) -> Option<Seq<char>>
    decreases legs.len(),
{
    if legs.len() == 0 {
        None
    } else {
        match oco_leg_price_failure(legs[0].price_type, legs[0].has_price, legs[0].has_trigger) {
            Some(m) => Some(m),
            None => oco_group_failure(legs.drop_first()),
        }
    }
}

/// Checks every leg of an OCO group in order and reports the first leg's
/// failure. The number of legs is not checked here.
pub fn check_oco_legs(legs: &Vec<LegPrices>) -> (r: Result<(), RithmicError>)
    ensures
        check_outcome(r, oco_group_failure(legs@)),
{
    let mut i: usize = 0;
    proof {
        assert(legs@.skip(0) =~= legs@);
    }
    while i < legs.len()
        invariant
            i <= legs.len(),
            oco_group_failure(legs@) == oco_group_failure(legs@.skip(i as int)),
        decreases legs.len() - i,
    {
        let leg = legs[i];
        proof {
            assert(legs@.skip(i as int)[0] == leg);
            assert(legs@.skip(i as int).drop_first() =~= legs@.skip(i + 1));
        }
        let checked = check_oco_leg_prices(leg.price_type, leg.has_price, leg.has_trigger);
        if checked.is_err() {
            return checked;
        }
        i = i + 1;
    }
    proof {
        assert(legs@.skip(i as int).len() == 0);
    }
    Ok(())
}

/// The bracket shape a bracket is sent with: the one it was given, else the
/// `Static` shape its exit legs describe, else none when it has no exit legs.
pub open spec fn resolved_bracket_type(given: Option<BracketType>, has_targets: bool, has_stops: bool) -> Option<BracketType> {
    match given {
        Some(t) => Some(t),
        None => if has_targets && has_stops {
            Some(BracketType::TargetAndStopStatic)
        } else if has_targets {
            Some(BracketType::TargetOnlyStatic)
        } else if has_stops {
            Some(BracketType::StopOnlyStatic)
        } else {
            None
        },
    }
}

/// Resolves a bracket's shape from the one given and the exit legs supplied.
pub fn resolve_bracket_type(given: Option<BracketType>, has_targets: bool, has_stops: bool) -> (r: Option<BracketType>)
    ensures
        r == resolved_bracket_type(given, has_targets, has_stops),
{
    match given {
        Some(t) => Some(t),
        None => {
            if has_targets && has_stops {
                Some(BracketType::TargetAndStopStatic)
            } else if has_targets {
                Some(BracketType::TargetOnlyStatic)
            } else if has_stops {
                Some(BracketType::StopOnlyStatic)
            } else {
                None
            }
        },
    }
}

/// Configuration for trailing stop orders. Both fields are required; a
/// `trail_by_price_id` of zero is the unset value Rithmic rejects.
#[derive(Debug, Clone, Copy, PartialEq, Eq, Structural)]
pub struct TrailingStop {
    /// Number of ticks to trail behind the market price.
    pub trail_by_ticks: i32,
    /// Rithmic price-id to trail against.
    pub trail_by_price_id: i32,
}

impl TrailingStop {
    /// Build a trailing stop from its two required fields.
    pub fn new(trail_by_ticks: i32, trail_by_price_id: i32) -> (t: Self)
        ensures
            t.trail_by_ticks == trail_by_ticks,
            t.trail_by_price_id == trail_by_price_id,
    {
        TrailingStop { trail_by_ticks, trail_by_price_id }
    }
}

/// Cancel an existing order.
#[derive(Debug, Clone, Default, PartialEq)]
pub struct RithmicCancelOrder {
    /// The `basket_id` from the order notification.
    pub id: String,
    /// Whether the cancellation was made by a human or automatically.
    pub manual_or_auto: OrderPlacement,
    /// Originating window name reported to Rithmic.
    pub window_name: Option<String>,
}

impl RithmicCancelOrder {
    /// Start from the defaults: no id, automatic, no window name.
    pub fn new() -> (c: Self)
        ensures
            c.id@ == Seq::<char>::empty(),
            c.manual_or_auto == OrderPlacement::Auto,
            c.window_name is None,
    {
        RithmicCancelOrder { id: String::new(), manual_or_auto: OrderPlacement::Auto, window_name: None }
    }

    /// The `basket_id` of the order to cancel.
    pub fn id(self, id: &str) -> (c: Self)
        ensures
            c.id@ == id@,
            c.manual_or_auto == self.manual_or_auto,
            c.window_name == self.window_name,
    {
        RithmicCancelOrder { id: owned(id), ..self }
    }

    /// Whether this was done by a human or automatically.
    pub fn manual_or_auto(self, manual_or_auto: OrderPlacement) -> (c: Self)
        ensures
            c.id == self.id,
            c.manual_or_auto == manual_or_auto,
            c.window_name == self.window_name,
    {
        RithmicCancelOrder { manual_or_auto, ..self }
    }

    /// Window name to report this cancellation under.
    pub fn window_name(self, window_name: &str) -> (c: Self)
        ensures
            c.id == self.id,
            c.manual_or_auto == self.manual_or_auto,
            c.window_name.deep_view() == Some(window_name@),
    {
        RithmicCancelOrder { window_name: Some(owned(window_name)), ..self }
    }

    /// Always succeeds: a cancellation carries no price rule.
    pub fn validate(&self) -> (r: Result<(), RithmicError>)
        ensures
            r is Ok,
    {
        Ok(())
    }

    /// Validate and return the cancellation.
    pub fn build(self) -> (r: Result<Self, RithmicError>)
        ensures
            r == Ok::<Self, RithmicError>(self),
    {
        self.validate()?;
        Ok(self)
    }
}

/// Cancel every working order on the account.
#[derive(Debug, Clone, Copy, Default, PartialEq, Eq, Structural)]
pub struct RithmicCancelAllOrders {
    /// Whether the cancellation was made by a human or automatically.
    pub manual_or_auto: OrderPlacement,
}

impl RithmicCancelAllOrders {
    /// Start from the defaults, which attribute the cancellation to `Auto`.
    pub fn new() -> (c: Self)
        ensures
            c.manual_or_auto == OrderPlacement::Auto,
    {
        RithmicCancelAllOrders { manual_or_auto: OrderPlacement::Auto }
    }

    /// Whether this was done by a human or automatically.
    pub fn manual_or_auto(self, manual_or_auto: OrderPlacement) -> (c: Self)
        ensures
            c.manual_or_auto == manual_or_auto,
    {
        RithmicCancelAllOrders { manual_or_auto }
    }

    /// Always `Ok`; the command carries nothing to check.
    pub fn validate(&self) -> (r: Result<(), RithmicError>)
        ensures
            r is Ok,
    {
        Ok(())
    }

    /// Return the command.
    pub fn build(self) -> (r: Result<Self, RithmicError>)
        ensures
            r == Ok::<Self, RithmicError>(self),
    {
        self.validate()?;
        Ok(self)
    }
}

/// Flatten the position in one instrument.
#[derive(Debug, Clone, Default, PartialEq)]
pub struct RithmicExitPosition {
    /// Trading symbol (e.g., "ESM6").
    pub symbol: String,
    /// Exchange code (e.g., "CME").
    pub exchange: String,
    /// Whether the exit was made by a human or automatically.
    pub manual_or_auto: OrderPlacement,
    /// Originating window name reported to Rithmic.
    pub window_name: Option<String>,
    /// Name of the trading algorithm credited with the exit.
    pub trading_algorithm: Option<String>,
}

impl RithmicExitPosition {
    /// Start from the defaults: no instrument, automatic, no names.
    pub fn new() -> (c: Self)
        ensures
            c.symbol@ == Seq::<char>::empty(),
            c.exchange@ == Seq::<char>::empty(),
            c.manual_or_auto == OrderPlacement::Auto,
            c.window_name is None,
            c.trading_algorithm is None,
    {
        RithmicExitPosition {
            symbol: String::new(),
            exchange: String::new(),
            manual_or_auto: OrderPlacement::Auto,
            window_name: None,
            trading_algorithm: None,
        }
    }

    /// Instrument symbol of the position to exit.
    pub fn symbol(self, symbol: &str) -> (c: Self)
        ensures
            c.symbol@ == symbol@,
            c.exchange == self.exchange,
            c.manual_or_auto == self.manual_or_auto,
            c.window_name == self.window_name,
            c.trading_algorithm == self.trading_algorithm,
    {
        RithmicExitPosition { symbol: owned(symbol), ..self }
    }

    /// Exchange the instrument trades on.
    pub fn exchange(self, exchange: &str) -> (c: Self)
        ensures
            c.symbol == self.symbol,
            c.exchange@ == exchange@,
            c.manual_or_auto == self.manual_or_auto,
            c.window_name == self.window_name,
            c.trading_algorithm == self.trading_algorithm,
    {
        RithmicExitPosition { exchange: owned(exchange), ..self }
    }

    /// Whether this was done by a human or automatically.
    pub fn manual_or_auto(self, manual_or_auto: OrderPlacement) -> (c: Self)
        ensures
            c.symbol == self.symbol,
            c.exchange == self.exchange,
            c.manual_or_auto == manual_or_auto,
            c.window_name == self.window_name,
            c.trading_algorithm == self.trading_algorithm,
    {
        RithmicExitPosition { manual_or_auto, ..self }
    }

    /// Window name to report this exit under.
    pub fn window_name(self, window_name: &str) -> (c: Self)
        ensures
            c.symbol == self.symbol,
            c.exchange == self.exchange,
            c.manual_or_auto == self.manual_or_auto,
            c.window_name.deep_view() == Some(window_name@),
            c.trading_algorithm == self.trading_algorithm,
    {
        RithmicExitPosition { window_name: Some(owned(window_name)), ..self }
    }

    /// Trading algorithm to credit with this exit.
    pub fn trading_algorithm(self, trading_algorithm: &str) -> (c: Self)
        ensures
            c.symbol == self.symbol,
            c.exchange == self.exchange,
            c.manual_or_auto == self.manual_or_auto,
            c.window_name == self.window_name,
            c.trading_algorithm.deep_view() == Some(trading_algorithm@),
    {
        RithmicExitPosition { trading_algorithm: Some(owned(trading_algorithm)), ..self }
    }

    /// Always succeeds: an exit carries no price rule.
    pub fn validate(&self) -> (r: Result<(), RithmicError>)
        ensures
            r is Ok,
    {
        Ok(())
    }

    /// Validate and return the command.
    pub fn build(self) -> (r: Result<Self, RithmicError>)
        ensures
            r == Ok::<Self, RithmicError>(self),
    {
        self.validate()?;
        Ok(self)
    }
}

/// Adjust one leg of a bracket's profit target or stop loss.
#[derive(Debug, Clone, Default, PartialEq)]
pub struct RithmicBracketLevelAdjustment {
    /// The `basket_id` from the order notification.
    pub id: String,
    /// The new distance in ticks.
    pub ticks: i32,
    /// Which bracket leg to adjust, sent verbatim; `None` omits the field.
    pub level: Option<i32>,
}

impl RithmicBracketLevelAdjustment {
    /// Start from the defaults: no id, zero ticks, no level.
    pub fn new() -> (c: Self)
        ensures
            c.id@ == Seq::<char>::empty(),
            c.ticks == 0,
            c.level is None,
    {
        RithmicBracketLevelAdjustment { id: String::new(), ticks: 0, level: None }
    }

    /// The `basket_id` of the bracket to adjust.
    pub fn id(self, id: &str) -> (c: Self)
        ensures
            c.id@ == id@,
            c.ticks == self.ticks,
            c.level == self.level,
    {
        RithmicBracketLevelAdjustment { id: owned(id), ..self }
    }

    /// The new distance in ticks.
    pub fn ticks(self, ticks: i32) -> (c: Self)
        ensures
            c.id == self.id,
            c.ticks == ticks,
            c.level == self.level,
    {
        RithmicBracketLevelAdjustment { ticks, ..self }
    }

    /// Which bracket leg to adjust.
    pub fn level(self, level: i32) -> (c: Self)
        ensures
            c.id == self.id,
            c.ticks == self.ticks,
            c.level == Some(level),
    {
        RithmicBracketLevelAdjustment { level: Some(level), ..self }
    }

    /// Always succeeds: the ticks and level are sent as given.
    pub fn validate(&self) -> (r: Result<(), RithmicError>)
        ensures
            r is Ok,
    {
        Ok(())
    }

    /// Validate and return the adjustment.
    pub fn build(self) -> (r: Result<Self, RithmicError>)
        ensures
            r == Ok::<Self, RithmicError>(self),
    {
        self.validate()?;
        Ok(self)
    }
}

/// Link working orders together so the server treats them as one group.
#[derive(Debug, Clone, Default, PartialEq)]
pub struct RithmicLinkOrders {
    /// The `basket_id`s to link, from the order notifications.
    pub basket_ids: Vec<String>,
}

impl RithmicLinkOrders {
    /// Start from the defaults, with no baskets to link.
    pub fn new() -> (c: Self)
        ensures
            c.basket_ids@.len() == 0,
    {
        RithmicLinkOrders { basket_ids: Vec::new() }
    }

    /// Append one more `basket_id`.
    pub fn basket_id(self, basket_id: &str) -> (c: Self)
        ensures
            c.basket_ids.deep_view() == self.basket_ids.deep_view().push(basket_id@),
    {
        let mut ids = self.basket_ids;
        ids.push(owned(basket_id));
        proof {
            assert(ids.deep_view() =~= self.basket_ids.deep_view().push(basket_id@));
        }
        RithmicLinkOrders { basket_ids: ids }
    }

    /// Append several more `basket_id`s, in order.
    pub fn basket_ids(self, basket_ids: &[&str]) -> (c: Self)
        ensures
            c.basket_ids.deep_view() == self.basket_ids.deep_view() + basket_ids@.map_values(|s: &str| s@),
    {
        let mut ids = self.basket_ids;
        let ghost start = ids.deep_view();
        let mut i: usize = 0;
        while i < basket_ids.len()
            invariant
                i <= basket_ids@.len(),
                ids.deep_view() =~= start + basket_ids@.take(i as int).map_values(|s: &str| s@),
            decreases basket_ids.len() - i,
        {
            let ghost prev = ids.deep_view();
            ids.push(owned(basket_ids[i]));
            proof {
                assert(ids.deep_view() =~= prev.push(basket_ids@[i as int]@));
                assert(basket_ids@.take(i + 1).map_values(|s: &str| s@)
                    =~= basket_ids@.take(i as int).map_values(|s: &str| s@).push(basket_ids@[i as int]@));
            }
            i = i + 1;
        }
        proof {
            assert(basket_ids@.take(i as int) =~= basket_ids@);
        }
        RithmicLinkOrders { basket_ids: ids }
    }

    /// Always succeeds: the ids are sent as given.
    pub fn validate(&self) -> (r: Result<(), RithmicError>)
        ensures
            r is Ok,
    {
        Ok(())
    }

    /// Validate and return the command.
    pub fn build(self) -> (r: Result<Self, RithmicError>)
        ensures
            r == Ok::<Self, RithmicError>(self),
    {
        self.validate()?;
        Ok(self)
    }
}

/// Change the `user_tag` reported on an order's subsequent notifications.
#[derive(Debug, Clone, Default, PartialEq)]
pub struct RithmicModifyOrderReferenceData {
    /// The `basket_id` from the order notification.
    pub basket_id: String,
    /// The new tag. Empty is how a tag is cleared, so it is sent as given.
    pub user_tag: String,
}

impl RithmicModifyOrderReferenceData {
    /// Start from the defaults: no basket, empty tag.
    pub fn new() -> (c: Self)
        ensures
            c.basket_id@ == Seq::<char>::empty(),
            c.user_tag@ == Seq::<char>::empty(),
    {
        RithmicModifyOrderReferenceData { basket_id: String::new(), user_tag: String::new() }
    }

    /// The `basket_id` of the order to retag.
    pub fn basket_id(self, basket_id: &str) -> (c: Self)
        ensures
            c.basket_id@ == basket_id@,
            c.user_tag == self.user_tag,
    {
        RithmicModifyOrderReferenceData { basket_id: owned(basket_id), ..self }
    }

    /// The new tag. Empty clears the tag.
    pub fn user_tag(self, user_tag: &str) -> (c: Self)
        ensures
            c.basket_id == self.basket_id,
            c.user_tag@ == user_tag@,
    {
        RithmicModifyOrderReferenceData { user_tag: owned(user_tag), ..self }
    }

    /// Always succeeds: an empty tag is how a tag is cleared.
    pub fn validate(&self) -> (r: Result<(), RithmicError>)
        ensures
            r is Ok,
    {
        Ok(())
    }

    /// Validate and return the command.
    pub fn build(self) -> (r: Result<Self, RithmicError>)
        ensures
            r == Ok::<Self, RithmicError>(self),
    {
        self.validate()?;
        Ok(self)
    }
}

/// A market order needs no price, and an order carrying both prices passes
/// the order rule whatever its type.
pub proof fn lemma_fully_priced_orders_pass(t: OrderType)
    ensures
        order_price_failure(OrderType::Market, false, false) is None,
        order_price_failure(t, true, true) is None,
{
}

/// A modification accepts whatever an order of the same type accepts.
pub proof fn lemma_modify_accepts_valid_orders(t: OrderType, has_price: bool, has_trigger: bool)
    requires
        order_price_failure(t, has_price, has_trigger) is None,
    ensures
        modify_price_failure(t, has_price, has_trigger) is None,
{
}

/// An OCO group passes exactly when each of its legs passes the leg rule;
/// how many legs it has is not checked.
pub proof fn lemma_oco_group_checks_each_leg(legs: Seq<LegPrices>)
    ensures
        oco_group_failure(legs) is None <==> forall|i: int| 0 <= i < legs.len()
            ==> (#[trigger] oco_leg_price_failure(legs[i].price_type, legs[i].has_price, legs[i].has_trigger)) is None,
    decreases legs.len(),
{
    if legs.len() > 0 {
        lemma_oco_group_checks_each_leg(legs.drop_first());
        if oco_group_failure(legs) is None {
            assert forall|i: int| 0 <= i < legs.len() implies (#[trigger] oco_leg_price_failure(
                legs[i].price_type,
                legs[i].has_price,
                legs[i].has_trigger,
            )) is None by {
                if i > 0 {
                    assert(legs.drop_first()[i - 1] == legs[i]);
                }
            }
        } else {
            if oco_leg_price_failure(legs[0].price_type, legs[0].has_price, legs[0].has_trigger) is None {
                let j = choose|j: int| 0 <= j < legs.drop_first().len() && (#[trigger] oco_leg_price_failure(
                    legs.drop_first()[j].price_type,
                    legs.drop_first()[j].has_price,
                    legs.drop_first()[j].has_trigger,
                )) is Some;
                assert(legs.drop_first()[j] == legs[j + 1]);
            }
        }
    }
}

/// A bracket keeps the shape it was given; without one, it has a shape
/// exactly when it has an exit leg.
pub proof fn lemma_bracket_shape(given: Option<BracketType>, has_targets: bool, has_stops: bool)
    ensures
        given is Some ==> resolved_bracket_type(given, has_targets, has_stops) == given,
        given is None ==> (resolved_bracket_type(given, has_targets, has_stops) is Some <==> (has_targets
            || has_stops)),
{
}

/// Which prices an order needs, type by type: a market order none; a limit
/// order its price; a stop-market or market-if-touched order its trigger; a
/// stop-limit or limit-if-touched order both. The price is checked first.
pub proof fn lemma_order_price_rule(t: OrderType, has_price: bool, has_trigger: bool)
    ensures
        t is Market ==> order_price_failure(t, has_price, has_trigger) is None,
        t is Limit ==> (order_price_failure(t, has_price, has_trigger) is None <==> has_price),
        (t is StopMarket || t is MarketIfTouched) ==> (order_price_failure(t, has_price, has_trigger) is None
            <==> has_trigger),
        (t is StopLimit || t is LimitIfTouched) ==> (order_price_failure(t, has_price, has_trigger) is None
            <==> has_price && has_trigger),
        (t is Limit || t is StopLimit || t is LimitIfTouched) && !has_price ==> order_price_failure(
            t,
            has_price,
            has_trigger,
        ) == Some("price is required for a "@ + order_type_name(t) + " order"@),
{
    reveal_strlit("price");
    reveal_strlit(" is required for a ");
    reveal_strlit("price is required for a ");
    assert("price"@ + " is required for a "@ =~= "price is required for a "@);
    assert("price"@ + " is required for a "@ + order_type_name(t) + " order"@ =~= "price is required for a "@
        + order_type_name(t) + " order"@);
}

/// A modification's price always stands in for a missing trigger: with a
/// price, a modification of any type passes; without one, only a market
/// modification, or one of a trigger-only type that has its trigger, does.
pub proof fn lemma_modify_price_rule(t: OrderType, has_price: bool, has_trigger: bool)
    ensures
        has_price ==> modify_price_failure(t, has_price, has_trigger) is None,
        !has_price ==> (modify_price_failure(t, has_price, has_trigger) is None <==> (t is Market || (
        has_trigger && (t is StopMarket || t is MarketIfTouched)))),
{
}

} // verus!
