//! Normalizes real-time trade messages from cryptocurrency exchanges'
//! streaming APIs into one canonical record schema.
//!
//! A caller hands the dispatcher an exchange identifier, a market type and
//! the raw message text; back comes the ordered sequence of per-trade
//! outcomes, each a canonical [`schema::TradeMsg`] or the
//! [`schema::DecodeError`] for that one trade. Prices and quantities are
//! exact rationals, so `volume == price * quantity` is an identity, not an
//! approximation.

pub mod binance;
pub mod dispatch;
pub mod jsonval;
pub mod num;
pub mod pairs;
pub mod schema;
