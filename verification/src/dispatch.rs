//! The dispatcher: routes an incoming (exchange, market type, raw text)
//! triple to the registered decoder for that exchange and returns its
//! ordered per-trade outcomes.
//!
//! The registry holds the shared, read-only normalization table and knows
//! one decoder per exchange identifier; a triple no decoder claims is the
//! typed `UnknownMarketTypeCombination`, never an abort.

use vstd::prelude::*;

use crate::binance;
use crate::binance::{outcomes_wf, parse_trade_spec};
use crate::pairs::PairTable;
use crate::schema::{outcome_view, DecodeError, ErrorModel, MarketType, TradeModel, TradeMsg};

verus! {

/// The decoder registry. Built once, with the normalization table the
/// decoders resolve symbols against, then only read.
pub struct Dispatcher {
    pub table: PairTable,
}

impl Dispatcher {
    pub fn new(table: PairTable) -> (d: Dispatcher)
        ensures
            d.table@ == table@,
    {
        Dispatcher { table }
    }

    /// Decodes one raw message: routes by exchange identifier, then by the
    /// payload's discriminator inside the decoder. For the registered
    /// exchange the result is exactly what [`parse_trade_spec`] assigns to
    /// the message — the typed error for a malformed envelope or an
    /// unrecognized discriminator, else the ordered per-trade outcomes —
    /// and every successful record satisfies the canonical invariants. A
    /// triple for which no decoder is registered is refused as
    /// `UnknownMarketTypeCombination`.
    pub fn decode(&self, exchange: &str, market_type: MarketType, msg: &str) -> (r: Result<
        Vec<Result<TradeMsg, DecodeError>>,
        DecodeError,
    >)
        ensures
            r matches Ok(outs) ==> outcomes_wf(
                outs@.map_values(|o: Result<TradeMsg, DecodeError>| outcome_view(o)),
                market_type,
            ),
            exchange@ != "binance"@ ==> (r matches Err(e) && e@
                == ErrorModel::UnknownMarketTypeCombination(exchange@)),
            exchange@ == "binance"@ ==> (r matches Ok(outs) ==> parse_trade_spec(
                market_type,
                msg@,
                self.table@,
            ) == Ok::<Seq<Result<TradeModel, ErrorModel>>, ErrorModel>(
                outs@.map_values(|o: Result<TradeMsg, DecodeError>| outcome_view(o)),
            )),
            exchange@ == "binance"@ ==> (r matches Err(e) ==> parse_trade_spec(
                market_type,
                msg@,
                self.table@,
            ) == Err::<Seq<Result<TradeModel, ErrorModel>>, ErrorModel>(e@)),
    {
        let ex: String = exchange.to_owned();
        if ex == "binance".to_owned() {
            binance::parse_trade(&self.table, market_type, msg)
        } else {
            Err(DecodeError::UnknownMarketTypeCombination(ex))
        }
    }
}

} // verus!
