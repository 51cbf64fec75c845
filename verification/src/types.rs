//! The order vocabulary shared by the command types and the requests.

use vstd::prelude::*;

verus! {

/// Whether an order action was taken by a person or by software.
#[derive(Debug, Clone, Copy, PartialEq, Eq, Structural, Default)]
pub enum OrderPlacement {
    /// Entered by a human at a screen.
    Manual,
    /// Generated automatically. Every command starts here.
    #[default]
    Auto,
}

/// Buy or sell.
#[derive(Debug, Clone, Copy, PartialEq, Eq, Structural, Default)]
pub enum OrderSide {
    /// Buy.
    #[default]
    Buy,
    /// Sell.
    Sell,
}

/// How an order is priced.
#[derive(Debug, Clone, Copy, PartialEq, Eq, Structural, Default)]
pub enum OrderType {
    /// Priced at a limit.
    #[default]
    Limit,
    /// Executes at the market.
    Market,
    /// A limit order released once a stop price trades.
    StopLimit,
    /// A market order released once a stop price trades.
    StopMarket,
    /// A market order released once a price is touched.
    MarketIfTouched,
    /// A limit order released once a price is touched.
    LimitIfTouched,
}

/// The protocol's name for an order type.
pub open spec fn order_type_name(t: OrderType) -> Seq<char> {
    match t {
        OrderType::Limit => "LIMIT"@,
        OrderType::Market => "MARKET"@,
        OrderType::StopLimit => "STOP_LIMIT"@,
        OrderType::StopMarket => "STOP_MARKET"@,
        OrderType::MarketIfTouched => "MARKET_IF_TOUCHED"@,
        OrderType::LimitIfTouched => "LIMIT_IF_TOUCHED"@,
    }
}

impl OrderType {
    /// The protocol's name for this order type, e.g. `LIMIT_IF_TOUCHED`.
    pub fn as_str_name(&self) -> (s: &'static str)
        ensures
            s@ == order_type_name(*self),
    {
        match self {
            OrderType::Limit => "LIMIT",
            OrderType::Market => "MARKET",
            OrderType::StopLimit => "STOP_LIMIT",
            OrderType::StopMarket => "STOP_MARKET",
            OrderType::MarketIfTouched => "MARKET_IF_TOUCHED",
            OrderType::LimitIfTouched => "LIMIT_IF_TOUCHED",
        }
    }
}

/// How long an order stays working.
#[derive(Debug, Clone, Copy, PartialEq, Eq, Structural, Default)]
pub enum TimeInForce {
    /// Until the end of the trading day.
    #[default]
    Day,
    /// Good till cancelled.
    Gtc,
    /// Immediate or cancel.
    Ioc,
    /// Fill or kill.
    Fok,
}

/// The shape of a bracket's exit legs.
#[derive(Debug, Clone, Copy, PartialEq, Eq, Structural)]
pub enum BracketType {
    /// Stop legs only.
    StopOnly,
    /// Target legs only.
    TargetOnly,
    /// Target and stop legs.
    TargetAndStop,
    /// Stop legs only, fixed once placed.
    StopOnlyStatic,
    /// Target legs only, fixed once placed.
    TargetOnlyStatic,
    /// Target and stop legs, fixed once placed.
    TargetAndStopStatic,
}

/// Comparison applied by an if-touched trigger.
#[derive(Debug, Clone, Copy, PartialEq, Eq, Structural)]
pub enum OrderCondition {
    /// Equal to.
    EqualTo,
    /// Not equal to.
    NotEqualTo,
    /// Greater than.
    GreaterThan,
    /// Greater than or equal to.
    GreaterThanEqualTo,
    /// Less than.
    LesserThan,
    /// Less than or equal to.
    LesserThanEqualTo,
}

/// The price an if-touched trigger watches.
#[derive(Debug, Clone, Copy, PartialEq, Eq, Structural)]
pub enum OrderPriceField {
    /// Best bid.
    BidPrice,
    /// Best offer.
    OfferPrice,
    /// Last trade.
    TradePrice,
    /// Lean price.
    LeanPrice,
}

} // verus!
