//! Verified core of a client for Rithmic's R | Protocol API.
//!
//! The crate holds the decisions a Rithmic client makes: how session and
//! account configuration is assembled and checked, how every outgoing request
//! is filled in, how inbound frames are classified and routed, how order
//! commands are validated, and when a WebSocket ping has timed out. Prices
//! are of the caller's own type: the library carries them and never reads them.

pub mod commands;
pub mod config;
pub mod error;
pub mod framing;
pub mod order_entry;
pub mod orders;
pub mod ping_manager;
pub mod receiver;
pub mod requests;
pub mod sender;
pub mod text;
pub mod types;

pub use commands::{
    RithmicBracketLevelAdjustment, RithmicCancelAllOrders, RithmicCancelOrder,
    RithmicExitPosition, RithmicLinkOrders, RithmicModifyOrderReferenceData, TrailingStop,
};
pub use config::{
    ConfigError, LoginConfig, RithmicAccount, RithmicConfig, RithmicConfigBuilder, RithmicEnv,
};
pub use error::{ConnectionMessage, RithmicError, RithmicRequestError};
pub use orders::{
    RithmicBracketOrder, RithmicIfTouchedTrigger, RithmicModifyOrder, RithmicOcoOrder,
    RithmicOcoOrderLeg, RithmicOrder,
};
pub use receiver::{RithmicReceiverApi, RithmicResponse};
pub use requests::SubscriptionRequest as EasyToBorrowRequest;
pub use sender::RithmicSenderApi;
pub use types::{
    BracketType, OrderCondition, OrderPlacement, OrderPriceField, OrderSide, OrderType,
    TimeInForce,
};
