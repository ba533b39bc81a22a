//! The canonical trade schema: the one record every exchange's messages are
//! normalized into, the supporting enums, and the error taxonomy a decode
//! call can surface.

use vstd::prelude::*;

use crate::num::{Rat, RatModel};
use serde_json::Value;

verus! {

/// The kind of market a message belongs to.
#[derive(Clone, Copy, Debug, PartialEq, Eq, Structural)]
pub enum MarketType {
    Spot,
    LinearSwap,
    LinearFuture,
    InverseSwap,
    InverseFuture,
    EuropeanOption,
    Unknown,
}

impl MarketType {
    /// Inverse-settled derivatives report quantity as a count of
    /// fixed-notional contracts; everything else reports base-asset units.
    pub open spec fn is_inverse(self) -> bool {
        self is InverseSwap || self is InverseFuture
    }
}

/// The kind of event a canonical record describes. This engine decodes
/// trades.
#[derive(Clone, Copy, Debug, PartialEq, Eq, Structural)]
pub enum MessageType {
    Trade,
}

/// Which side the aggressing order was on.
#[derive(Clone, Copy, Debug, PartialEq, Eq, Structural)]
pub enum TradeSide {
    Buy,
    Sell,
}

/// Everything a decode call can report instead of a record.
///
/// Envelope-level faults fail the whole call; `NumericParseError` and
/// `UnknownSymbolError` are reported for the one trade they concern, and the
/// other trades of a batch still decode.
#[derive(Debug)]
pub enum DecodeError {
    /// The payload's discriminator named a variant no decoder recognizes.
    UnsupportedEventType(String),
    /// The message is not a JSON envelope of the expected shape.
    MalformedEnvelope,
    /// A price or quantity field does not hold accepted decimal text, or a
    /// price is not positive.
    NumericParseError(String),
    /// The exchange-native symbol is absent from the normalization table.
    UnknownSymbolError(String),
    /// No decoder is registered for this exchange and market type.
    UnknownMarketTypeCombination(String),
}

/// Mathematical value of a [`DecodeError`].
pub ghost enum ErrorModel {
    UnsupportedEventType(Seq<char>),
    MalformedEnvelope,
    NumericParseError(Seq<char>),
    UnknownSymbolError(Seq<char>),
    UnknownMarketTypeCombination(Seq<char>),
}

impl View for DecodeError {
    type V = ErrorModel;

    open spec fn view(&self) -> ErrorModel {
        match self {
            DecodeError::UnsupportedEventType(s) => ErrorModel::UnsupportedEventType(s@),
            DecodeError::MalformedEnvelope => ErrorModel::MalformedEnvelope,
            DecodeError::NumericParseError(s) => ErrorModel::NumericParseError(s@),
            DecodeError::UnknownSymbolError(s) => ErrorModel::UnknownSymbolError(s@),
            DecodeError::UnknownMarketTypeCombination(s) => ErrorModel::UnknownMarketTypeCombination(
                s@,
            ),
        }
    }
}

/// The canonical trade record: one fixed field set for every exchange.
/// Built once inside a decoder call and never mutated afterward.
pub struct TradeMsg {
    /// Which exchange emitted the message.
    pub exchange: String,
    pub market_type: MarketType,
    /// Exchange-native symbol, preserved verbatim.
    pub symbol: String,
    /// Canonical `BASE/QUOTE` pair resolved from the symbol.
    pub pair: String,
    pub msg_type: MessageType,
    /// Exchange-reported trade time, milliseconds since the epoch.
    pub timestamp: i64,
    /// Trade price, exact.
    pub price: Rat,
    /// Quantity in base-asset units, exact.
    pub quantity: Rat,
    /// Volume in quote-asset units, exact.
    pub volume: Rat,
    pub side: TradeSide,
    /// Exchange-scoped identifier of the trade.
    pub trade_id: String,
    /// The original payload of this one trade, unmodified, for audit and
    /// forward compatibility.
    pub raw: Value,
}

/// Mathematical value of a [`TradeMsg`].
pub ghost struct TradeModel {
    pub exchange: Seq<char>,
    pub market_type: MarketType,
    pub symbol: Seq<char>,
    pub pair: Seq<char>,
    pub msg_type: MessageType,
    pub timestamp: i64,
    pub price: RatModel,
    pub quantity: RatModel,
    pub volume: RatModel,
    pub side: TradeSide,
    pub trade_id: Seq<char>,
    pub raw: Value,
}

impl View for TradeMsg {
    type V = TradeModel;

    open spec fn view(&self) -> TradeModel {
        TradeModel {
            exchange: self.exchange@,
            market_type: self.market_type,
            symbol: self.symbol@,
            pair: self.pair@,
            msg_type: self.msg_type,
            timestamp: self.timestamp,
            price: self.price@,
            quantity: self.quantity@,
            volume: self.volume@,
            side: self.side,
            trade_id: self.trade_id@,
            raw: self.raw,
        }
    }
}

/// The invariants every successfully decoded record satisfies: positive
/// price, non-negative quantity, `volume == price * quantity` exactly (as
/// rationals, by cross multiplication), a definite side, and the trade
/// message type.
pub open spec fn trade_wf(t: TradeModel) -> bool {
    &&& t.price.wf()
    &&& t.price.num > 0
    &&& t.quantity.wf()
    &&& t.volume.wf()
    &&& t.volume.same_value(t.price.times(t.quantity))
    &&& t.side is Buy || t.side is Sell
    &&& t.msg_type is Trade
}

/// The model of one per-trade outcome.
pub open spec fn outcome_view(o: Result<TradeMsg, DecodeError>) -> Result<TradeModel, ErrorModel> {
    match o {
        Ok(t) => Ok(t@),
        Err(e) => Err(e@),
    }
}

} // verus!
