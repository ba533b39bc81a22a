//! The reference per-exchange decoder, for Binance.
//!
//! One exchange exposes several structurally distinct trade payloads,
//! selected by the envelope's discriminator: a pre-aggregated trade, a raw
//! trade, and a batched variant carrying an array of trades. The decoder
//! extracts the known fields of the matching variant through the trusted
//! JSON accessors, and everything after extraction — numeric parsing, symbol
//! resolution, side derivation, unit reconciliation, record assembly — is
//! verified against one total specification, [`decode_outcomes_spec`].

use vstd::prelude::*;
use vstd::string::*;

use crate::jsonval::{json_array_of, json_as_array, json_as_bool, json_as_i64, json_as_str, json_bool_of, json_clone, json_doc_of, json_from_str, json_get, json_i64_of, json_member_of, json_str_of};
use crate::num::{dec_ok, dec_rat, i64_to_string, idec_str, lemma_pow10_16_17, mant_of, parse_decimal, pow10, rat_divided, rat_times, Rat, RatModel};
use crate::pairs::PairTable;
use crate::schema::{outcome_view, trade_wf, DecodeError, ErrorModel, MarketType, MessageType, TradeMsg, TradeModel, TradeSide};
use serde_json::Value;

verus! {

/// The identifier this decoder stamps into every record.
pub fn exchange_name() -> (r: String)
    ensures
        r@ == "binance"@,
{
    "binance".to_owned()
}

/// Derives the taker side from an exchange's "is the buyer the maker" flag:
/// a maker buy means the aggressing order sold.
pub fn side_from_maker_flag(buyer_is_maker: bool) -> (side: TradeSide)
    ensures
        side == (if buyer_is_maker {
            TradeSide::Sell
        } else {
            TradeSide::Buy
        }),
{
    if buyer_is_maker {
        TradeSide::Sell
    } else {
        TradeSide::Buy
    }
}

/// The side encoding of the batched variant. The exchange does not document
/// this field reliably; the mapping below — `"1"` means the seller was the
/// aggressor — is provisional and deliberately isolated here, so that a
/// confirmed reading changes one place.
pub open spec fn batch_side(code: Seq<char>) -> TradeSide {
    if code == "1"@ {
        TradeSide::Sell
    } else {
        TradeSide::Buy
    }
}

/// Executable form of [`batch_side`].
pub fn side_from_code(code: &str) -> (side: TradeSide)
    ensures
        side == batch_side(code@),
{
    let sell: String = "1".to_owned();
    if code.to_owned() == sell {
        TradeSide::Sell
    } else {
        TradeSide::Buy
    }
}

/// Whether a canonical pair's base asset is BTC.
pub open spec fn btc_base(pair: Seq<char>) -> bool {
    pair.len() >= 4 && pair[0] == 'B' && pair[1] == 'T' && pair[2] == 'C' && pair[3] == '/'
}

/// Executable form of [`btc_base`].
fn is_btc_base(pair: &str) -> (r: bool)
    ensures
        r == btc_base(pair@),
{
    pair.unicode_len() >= 4 && pair.get_char(0) == 'B' && pair.get_char(1) == 'T' && pair.get_char(
        2,
    ) == 'C' && pair.get_char(3) == '/'
}

/// A price text the decoders accept: accepted decimal text with a positive
/// value, since every trade's price must be positive.
pub open spec fn price_text_ok(s: Seq<char>) -> bool {
    dec_ok(s) && mant_of(s) > 0
}

/// The contract unit reconciliation. An inverse-settled derivative reports
/// quantity as a count of fixed-notional contracts: each contract stands for
/// 100 quote units when the base asset is BTC, else 10. The result is the
/// pair (base-asset quantity, quote-asset volume); in every branch
/// `volume == price * quantity` exactly.
pub open spec fn reconcile(
    market_type: MarketType,
    pair: Seq<char>,
    price: RatModel,
    reported: RatModel,
) -> (RatModel, RatModel) {
    if market_type.is_inverse() {
        let face = RatModel {
            num: if btc_base(pair) {
                100int
            } else {
                10int
            },
            den: 1,
        };
        let volume = reported.times(face);
        (volume.divided_by(price), volume)
    } else {
        (reported, price.times(reported))
    }
}

/// The face value used by [`reconcile`] for an inverse market.
pub open spec fn face_value(pair: Seq<char>) -> int {
    if btc_base(pair) {
        100int
    } else {
        10int
    }
}

/// Converts the exchange-reported quantity into base-asset units and
/// quote-asset volume, exactly as [`reconcile`] describes.
pub fn calc_quantity_and_volume(
    market_type: MarketType,
    pair: &str,
    price: Rat,
    reported: Rat,
) -> (r: (Rat, Rat))
    requires
        price@.wf(),
        reported@.wf(),
        price@.num < pow10(17),
        price@.den <= pow10(17),
        reported@.num < pow10(17),
        reported@.den <= pow10(17),
        market_type.is_inverse() ==> price@.num > 0,
    ensures
        (r.0@, r.1@) == reconcile(market_type, pair@, price@, reported@),
{
    proof {
        lemma_pow10_16_17();
    }
    if market_type == MarketType::InverseSwap || market_type == MarketType::InverseFuture {
        let face = if is_btc_base(pair) {
            Rat { num: 100, den: 1 }
        } else {
            Rat { num: 10, den: 1 }
        };
        proof {
            assert(reported@.num * face@.num <= u128::MAX) by (nonlinear_arith)
                requires
                    0 <= reported@.num < 100_000_000_000_000_000,
                    0 < face@.num <= 100,
            ;
        }
        let volume = rat_times(reported, face);
        proof {
            assert(volume@.num * price@.den <= u128::MAX && volume@.den * price@.num
                <= u128::MAX) by (nonlinear_arith)
                requires
                    0 <= volume@.num <= 100_000_000_000_000_000 * 100,
                    0 < volume@.den <= 100_000_000_000_000_000,
                    0 < price@.num < 100_000_000_000_000_000,
                    0 < price@.den <= 100_000_000_000_000_000,
            ;
        }
        let quantity = rat_divided(volume, price);
        (quantity, volume)
    } else {
        proof {
            assert(price@.num * reported@.num <= u128::MAX && price@.den * reported@.den
                <= u128::MAX) by (nonlinear_arith)
                requires
                    0 <= price@.num < 100_000_000_000_000_000,
                    0 < price@.den <= 100_000_000_000_000_000,
                    0 <= reported@.num < 100_000_000_000_000_000,
                    0 < reported@.den <= 100_000_000_000_000_000,
            ;
        }
        let volume = rat_times(price, reported);
        (reported, volume)
    }
}

/// The fields the aggregated-trade and raw-trade variants supply to the
/// canonical record; the two differ only in which field the identifier
/// comes from.
pub struct SingleFields {
    pub symbol: String,
    pub price_text: String,
    pub quantity_text: String,
    pub buyer_is_maker: bool,
    pub timestamp: i64,
    pub trade_id: i64,
}

/// Mathematical value of [`SingleFields`].
pub ghost struct SingleModel {
    pub symbol: Seq<char>,
    pub price_text: Seq<char>,
    pub quantity_text: Seq<char>,
    pub buyer_is_maker: bool,
    pub timestamp: i64,
    pub trade_id: i64,
}

impl View for SingleFields {
    type V = SingleModel;

    open spec fn view(&self) -> SingleModel {
        SingleModel {
            symbol: self.symbol@,
            price_text: self.price_text@,
            quantity_text: self.quantity_text@,
            buyer_is_maker: self.buyer_is_maker,
            timestamp: self.timestamp,
            trade_id: self.trade_id,
        }
    }
}

/// One trade of the batched variant, with its own payload preserved.
pub struct BatchItem {
    pub symbol: String,
    pub price_text: String,
    pub quantity_text: String,
    pub side_code: String,
    pub trade_id: String,
    pub raw: Value,
}

/// Mathematical value of [`BatchItem`].
pub ghost struct BatchItemModel {
    pub symbol: Seq<char>,
    pub price_text: Seq<char>,
    pub quantity_text: Seq<char>,
    pub side_code: Seq<char>,
    pub trade_id: Seq<char>,
    pub raw: Value,
}

impl View for BatchItem {
    type V = BatchItemModel;

    open spec fn view(&self) -> BatchItemModel {
        BatchItemModel {
            symbol: self.symbol@,
            price_text: self.price_text@,
            quantity_text: self.quantity_text@,
            side_code: self.side_code@,
            trade_id: self.trade_id@,
            raw: self.raw,
        }
    }
}

/// What extraction hands the verified core: one trade with its data
/// section, or a batch of trades sharing the envelope's timestamp.
pub enum EventPayload {
    Single { fields: SingleFields, raw: Value },
    Batch { timestamp: i64, items: Vec<BatchItem> },
}

/// Mathematical value of [`EventPayload`].
pub ghost enum PayloadModel {
    Single { fields: SingleModel, raw: Value },
    Batch { timestamp: i64, items: Seq<BatchItemModel> },
}

impl View for EventPayload {
    type V = PayloadModel;

    open spec fn view(&self) -> PayloadModel {
        match self {
            EventPayload::Single { fields, raw } => PayloadModel::Single {
                fields: fields@,
                raw: *raw,
            },
            EventPayload::Batch { timestamp, items } => PayloadModel::Batch {
                timestamp: *timestamp,
                items: items@.map_values(|it: BatchItem| it@),
            },
        }
    }
}

/// The outcome of one aggregated or raw trade: resolve the symbol, parse the
/// two numeric texts, reconcile units, assemble the record. Each failure is
/// the typed error for exactly that condition.
pub open spec fn single_outcome(
    market_type: MarketType,
    f: SingleModel,
    raw: Value,
    table: Map<Seq<char>, Seq<char>>,
) -> Result<TradeModel, ErrorModel> {
    if !table.contains_key(f.symbol) {
        Err(ErrorModel::UnknownSymbolError(f.symbol))
    } else if !price_text_ok(f.price_text) {
        Err(ErrorModel::NumericParseError(f.price_text))
    } else if !dec_ok(f.quantity_text) {
        Err(ErrorModel::NumericParseError(f.quantity_text))
    } else {
        let pair = table[f.symbol];
        let price = dec_rat(f.price_text);
        let reported = dec_rat(f.quantity_text);
        let qv = reconcile(market_type, pair, price, reported);
        Ok(
            TradeModel {
                exchange: "binance"@,
                market_type,
                symbol: f.symbol,
                pair,
                msg_type: MessageType::Trade,
                timestamp: f.timestamp,
                price,
                quantity: qv.0,
                volume: qv.1,
                side: if f.buyer_is_maker {
                    TradeSide::Sell
                } else {
                    TradeSide::Buy
                },
                trade_id: idec_str(f.trade_id as int),
                raw,
            },
        )
    }
}

/// The outcome of one trade of the batched variant. The record takes the
/// envelope's shared timestamp; volume is directly `price * quantity`, the
/// batched markets not being inverse-settled.
pub open spec fn batch_outcome(
    market_type: MarketType,
    timestamp: i64,
    it: BatchItemModel,
    table: Map<Seq<char>, Seq<char>>,
) -> Result<TradeModel, ErrorModel> {
    if !table.contains_key(it.symbol) {
        Err(ErrorModel::UnknownSymbolError(it.symbol))
    } else if !price_text_ok(it.price_text) {
        Err(ErrorModel::NumericParseError(it.price_text))
    } else if !dec_ok(it.quantity_text) {
        Err(ErrorModel::NumericParseError(it.quantity_text))
    } else {
        let price = dec_rat(it.price_text);
        let quantity = dec_rat(it.quantity_text);
        Ok(
            TradeModel {
                exchange: "binance"@,
                market_type,
                symbol: it.symbol,
                pair: table[it.symbol],
                msg_type: MessageType::Trade,
                timestamp,
                price,
                quantity,
                volume: price.times(quantity),
                side: batch_side(it.side_code),
                trade_id: it.trade_id,
                raw: it.raw,
            },
        )
    }
}

/// The one total specification of the decode core: the ordered sequence of
/// per-trade outcomes a payload decodes to, as a function of the payload,
/// the market type and the normalization table.
pub open spec fn decode_outcomes_spec(
    market_type: MarketType,
    p: PayloadModel,
    table: Map<Seq<char>, Seq<char>>,
) -> Seq<Result<TradeModel, ErrorModel>> {
    match p {
        PayloadModel::Single { fields, raw } => seq![
            single_outcome(market_type, fields, raw, table),
        ],
        PayloadModel::Batch { timestamp, items } => items.map_values(
            |it: BatchItemModel| batch_outcome(market_type, timestamp, it, table),
        ),
    }
}

/// Decodes one aggregated or raw trade, meeting [`single_outcome`] exactly.
fn decode_single(
    market_type: MarketType,
    fields: SingleFields,
    raw: Value,
    table: &PairTable,
) -> (o: Result<TradeMsg, DecodeError>)
    ensures
        outcome_view(o) == single_outcome(market_type, fields@, raw, table@),
{
    let pair = match table.lookup(fields.symbol.as_str()) {
        Some(p) => p,
        None => {
            return Err(DecodeError::UnknownSymbolError(fields.symbol));
        },
    };
    let price = match parse_decimal(fields.price_text.as_str()) {
        Some(p) => p,
        None => {
            return Err(DecodeError::NumericParseError(fields.price_text));
        },
    };
    if price.num == 0 {
        return Err(DecodeError::NumericParseError(fields.price_text));
    }
    let reported = match parse_decimal(fields.quantity_text.as_str()) {
        Some(q) => q,
        None => {
            return Err(DecodeError::NumericParseError(fields.quantity_text));
        },
    };
    let qv = calc_quantity_and_volume(market_type, pair.as_str(), price, reported);
    Ok(
        TradeMsg {
            exchange: exchange_name(),
            market_type,
            symbol: fields.symbol,
            pair,
            msg_type: MessageType::Trade,
            timestamp: fields.timestamp,
            price,
            quantity: qv.0,
            volume: qv.1,
            side: side_from_maker_flag(fields.buyer_is_maker),
            trade_id: i64_to_string(fields.trade_id),
            raw,
        },
    )
}

/// Decodes one trade of the batched variant, meeting [`batch_outcome`]
/// exactly.
fn decode_batch_item(
    market_type: MarketType,
    timestamp: i64,
    item: &BatchItem,
    table: &PairTable,
) -> (o: Result<TradeMsg, DecodeError>)
    ensures
        outcome_view(o) == batch_outcome(market_type, timestamp, item@, table@),
{
    let pair = match table.lookup(item.symbol.as_str()) {
        Some(p) => p,
        None => {
            return Err(DecodeError::UnknownSymbolError(item.symbol.clone()));
        },
    };
    let price = match parse_decimal(item.price_text.as_str()) {
        Some(p) => p,
        None => {
            return Err(DecodeError::NumericParseError(item.price_text.clone()));
        },
    };
    if price.num == 0 {
        return Err(DecodeError::NumericParseError(item.price_text.clone()));
    }
    let quantity = match parse_decimal(item.quantity_text.as_str()) {
        Some(q) => q,
        None => {
            return Err(DecodeError::NumericParseError(item.quantity_text.clone()));
        },
    };
    proof {
        lemma_pow10_16_17();
        assert(price@.num * quantity@.num <= u128::MAX && price@.den * quantity@.den
            <= u128::MAX) by (nonlinear_arith)
            requires
                0 <= price@.num < 100_000_000_000_000_000,
                0 < price@.den <= 100_000_000_000_000_000,
                0 <= quantity@.num < 100_000_000_000_000_000,
                0 < quantity@.den <= 100_000_000_000_000_000,
        ;
    }
    let volume = rat_times(price, quantity);
    Ok(
        TradeMsg {
            exchange: exchange_name(),
            market_type,
            symbol: item.symbol.clone(),
            pair,
            msg_type: MessageType::Trade,
            timestamp,
            price,
            quantity,
            volume,
            side: side_from_code(item.side_code.as_str()),
            trade_id: item.trade_id.clone(),
            raw: json_clone(&item.raw),
        },
    )
}

/// Decodes an extracted payload into its ordered per-trade outcomes,
/// meeting [`decode_outcomes_spec`] exactly. A failed trade of a batch is
/// reported in place; its siblings still decode.
pub fn decode_payload(market_type: MarketType, payload: EventPayload, table: &PairTable) -> (outs:
    Vec<Result<TradeMsg, DecodeError>>)
    ensures
        outs@.map_values(|o: Result<TradeMsg, DecodeError>| outcome_view(o))
            == decode_outcomes_spec(market_type, payload@, table@),
{
    let ghost pm = payload@;
    match payload {
        EventPayload::Single { fields, raw } => {
            let o = decode_single(market_type, fields, raw, table);
            let mut outs: Vec<Result<TradeMsg, DecodeError>> = Vec::new();
            outs.push(o);
            proof {
                assert(outs@.map_values(|x: Result<TradeMsg, DecodeError>| outcome_view(x))
                    =~= decode_outcomes_spec(market_type, pm, table@));
            }
            outs
        },
        EventPayload::Batch { timestamp, items } => {
            let ghost im = items@.map_values(|it: BatchItem| it@);
            let mut outs: Vec<Result<TradeMsg, DecodeError>> = Vec::new();
            let mut i: usize = 0;
            while i < items.len()
                invariant
                    i <= items@.len(),
                    im == items@.map_values(|it: BatchItem| it@),
                    outs@.map_values(|x: Result<TradeMsg, DecodeError>| outcome_view(x)) == im.take(
                        i as int,
                    ).map_values(
                        |it: BatchItemModel| batch_outcome(market_type, timestamp, it, table@),
                    ),
                decreases items@.len() - i,
            {
                let ghost prev = outs@;
                let o = decode_batch_item(market_type, timestamp, &items[i], table);
                outs.push(o);
                proof {
                    assert(im[i as int] == items@[i as int]@);
                    assert(im.take(i as int + 1) =~= im.take(i as int).push(im[i as int]));
                    assert(outs@.map_values(|x: Result<TradeMsg, DecodeError>| outcome_view(x))
                        =~= prev.map_values(
                        |x: Result<TradeMsg, DecodeError>| outcome_view(x),
                    ).push(outcome_view(o)));
                    assert(im.take(i as int + 1).map_values(
                        |it: BatchItemModel| batch_outcome(market_type, timestamp, it, table@),
                    ) =~= im.take(i as int).map_values(
                        |it: BatchItemModel| batch_outcome(market_type, timestamp, it, table@),
                    ).push(batch_outcome(market_type, timestamp, im[i as int], table@)));
                }
                i = i + 1;
            }
            proof {
                assert(im.take(items@.len() as int) =~= im);
            }
            outs
        },
    }
}

/// The text under `key` of a JSON object, where the member is a string.
pub open spec fn member_str(v: Value, key: Seq<char>) -> Option<Seq<char>> {
    match json_member_of(v, key) {
        Some(m) => json_str_of(m),
        None => None,
    }
}

/// The integer under `key` of a JSON object, where the member is one.
pub open spec fn member_i64(v: Value, key: Seq<char>) -> Option<i64> {
    match json_member_of(v, key) {
        Some(m) => json_i64_of(m),
        None => None,
    }
}

/// The boolean under `key` of a JSON object, where the member is one.
pub open spec fn member_bool(v: Value, key: Seq<char>) -> Option<bool> {
    match json_member_of(v, key) {
        Some(m) => json_bool_of(m),
        None => None,
    }
}

/// The elements under `key` of a JSON object, where the member is an array.
pub open spec fn member_array(v: Value, key: Seq<char>) -> Option<Seq<Value>> {
    match json_member_of(v, key) {
        Some(m) => json_array_of(m),
        None => None,
    }
}

/// The fields a single-trade data section supplies, or `None` where a known
/// field is missing or mistyped. `id_key` selects the identifier field.
pub open spec fn single_fields_of(data: Value, id_key: Seq<char>) -> Option<SingleModel> {
    match (
        member_str(data, "s"@),
        member_str(data, "p"@),
        member_str(data, "q"@),
        member_bool(data, "m"@),
        member_i64(data, "T"@),
        member_i64(data, id_key),
    ) {
        (
            Some(symbol),
            Some(price_text),
            Some(quantity_text),
            Some(buyer_is_maker),
            Some(timestamp),
            Some(trade_id),
        ) => Some(
            SingleModel {
                symbol,
                price_text,
                quantity_text,
                buyer_is_maker,
                timestamp,
                trade_id,
            },
        ),
        _ => None,
    }
}

/// One trade of the batched variant, or `None` where a known field is
/// missing or mistyped; the element itself is kept as the trade's payload.
pub open spec fn batch_item_of(elem: Value) -> Option<BatchItemModel> {
    match (
        member_str(elem, "S"@),
        member_str(elem, "p"@),
        member_str(elem, "q"@),
        member_str(elem, "s"@),
        member_str(elem, "a"@),
    ) {
        (Some(symbol), Some(price_text), Some(quantity_text), Some(side_code), Some(trade_id)) => Some(
            BatchItemModel { symbol, price_text, quantity_text, side_code, trade_id, raw: elem },
        ),
        _ => None,
    }
}

/// All trades of a batch array, or `None` as soon as one element is
/// malformed.
pub open spec fn batch_items_of(elems: Seq<Value>) -> Option<Seq<BatchItemModel>>
    decreases elems.len(),
{
    if elems.len() == 0 {
        Some(Seq::empty())
    } else {
        match (batch_items_of(elems.drop_last()), batch_item_of(elems.last())) {
            (Some(init), Some(it)) => Some(init.push(it)),
            _ => None,
        }
    }
}

/// One malformed element makes the whole batch malformed.
proof fn lemma_batch_items_none(elems: Seq<Value>, i: int)
    requires
        0 <= i < elems.len(),
        batch_item_of(elems[i]) is None,
    ensures
        batch_items_of(elems) is None,
    decreases elems.len(),
{
    if i < elems.len() - 1 {
        assert(elems.drop_last()[i] == elems[i]);
        lemma_batch_items_none(elems.drop_last(), i);
    }
}

/// What a batched data section supplies: the shared timestamp and the
/// trades, or `None` where the structure is malformed.
pub open spec fn batch_of(data: Value) -> Option<(i64, Seq<BatchItemModel>)> {
    match (member_i64(data, "E"@), member_array(data, "t"@)) {
        (Some(timestamp), Some(elems)) => match batch_items_of(elems) {
            Some(items) => Some((timestamp, items)),
            None => None,
        },
        _ => None,
    }
}

/// Extracts the fields the single-trade variants supply, reading the
/// identifier from `id_key` (the aggregate trade id for the aggregated
/// variant, the trade id for the raw variant). Unknown keys are simply left
/// in the data section, which the caller preserves whole; a missing or
/// mistyped known field is a malformed envelope.
fn extract_single(data: &Value, id_key: &str) -> (r: Result<SingleFields, DecodeError>)
    ensures
        match r {
            Ok(f) => single_fields_of(*data, id_key@) == Some(f@),
            Err(e) => single_fields_of(*data, id_key@) is None && e@ is MalformedEnvelope,
        },
{
    let symbol = match json_get(data, "s") {
        Some(v) => match json_as_str(v) {
            Some(s) => s.to_owned(),
            None => {
                return Err(DecodeError::MalformedEnvelope);
            },
        },
        None => {
            return Err(DecodeError::MalformedEnvelope);
        },
    };
    let price_text = match json_get(data, "p") {
        Some(v) => match json_as_str(v) {
            Some(s) => s.to_owned(),
            None => {
                return Err(DecodeError::MalformedEnvelope);
            },
        },
        None => {
            return Err(DecodeError::MalformedEnvelope);
        },
    };
    let quantity_text = match json_get(data, "q") {
        Some(v) => match json_as_str(v) {
            Some(s) => s.to_owned(),
            None => {
                return Err(DecodeError::MalformedEnvelope);
            },
        },
        None => {
            return Err(DecodeError::MalformedEnvelope);
        },
    };
    let buyer_is_maker = match json_get(data, "m") {
        Some(v) => match json_as_bool(v) {
            Some(b) => b,
            None => {
                return Err(DecodeError::MalformedEnvelope);
            },
        },
        None => {
            return Err(DecodeError::MalformedEnvelope);
        },
    };
    let timestamp = match json_get(data, "T") {
        Some(v) => match json_as_i64(v) {
            Some(t) => t,
            None => {
                return Err(DecodeError::MalformedEnvelope);
            },
        },
        None => {
            return Err(DecodeError::MalformedEnvelope);
        },
    };
    let trade_id = match json_get(data, id_key) {
        Some(v) => match json_as_i64(v) {
            Some(t) => t,
            None => {
                return Err(DecodeError::MalformedEnvelope);
            },
        },
        None => {
            return Err(DecodeError::MalformedEnvelope);
        },
    };
    Ok(SingleFields { symbol, price_text, quantity_text, buyer_is_maker, timestamp, trade_id })
}

/// Extracts the batched variant: the envelope's shared timestamp and its
/// array of trades, each with its own payload preserved.
fn extract_batch(data: &Value) -> (r: Result<(i64, Vec<BatchItem>), DecodeError>)
    ensures
        match r {
            Ok(ti) => batch_of(*data) == Some(
                (ti.0, ti.1@.map_values(|it: BatchItem| it@)),
            ),
            Err(e) => batch_of(*data) is None && e@ is MalformedEnvelope,
        },
{
    let timestamp = match json_get(data, "E") {
        Some(v) => match json_as_i64(v) {
            Some(t) => t,
            None => {
                return Err(DecodeError::MalformedEnvelope);
            },
        },
        None => {
            return Err(DecodeError::MalformedEnvelope);
        },
    };
    let arr = match json_get(data, "t") {
        Some(v) => match json_as_array(v) {
            Some(a) => a,
            None => {
                return Err(DecodeError::MalformedEnvelope);
            },
        },
        None => {
            return Err(DecodeError::MalformedEnvelope);
        },
    };
    let mut items: Vec<BatchItem> = Vec::new();
    let mut i: usize = 0;
    while i < arr.len()
        invariant
            i <= arr@.len(),
            member_i64(*data, "E"@) == Some(timestamp),
            member_array(*data, "t"@) == Some(arr@),
            batch_items_of(arr@.take(i as int)) == Some(
                items@.map_values(|it: BatchItem| it@),
            ),
        decreases arr@.len() - i,
    {
        let ghost prev = items@;
        let elem = &arr[i];
        let item = match extract_batch_item(elem) {
            Ok(it) => it,
            Err(e) => {
                proof {
                    lemma_batch_items_none(arr@, i as int);
                }
                return Err(e);
            },
        };
        items.push(item);
        proof {
            assert(arr@.take(i as int + 1).drop_last() =~= arr@.take(i as int));
            assert(arr@.take(i as int + 1).last() == arr@[i as int]);
            assert(items@.map_values(|it: BatchItem| it@) =~= prev.map_values(
                |it: BatchItem| it@,
            ).push(item@));
        }
        i = i + 1;
    }
    proof {
        assert(arr@.take(arr@.len() as int) =~= arr@);
    }
    Ok((timestamp, items))
}

/// Extracts one trade of the batched variant's array.
fn extract_batch_item(elem: &Value) -> (r: Result<BatchItem, DecodeError>)
    ensures
        match r {
            Ok(it) => batch_item_of(*elem) == Some(it@),
            Err(e) => batch_item_of(*elem) is None && e@ is MalformedEnvelope,
        },
{
    let symbol = match json_get(elem, "S") {
        Some(v) => match json_as_str(v) {
            Some(s) => s.to_owned(),
            None => {
                return Err(DecodeError::MalformedEnvelope);
            },
        },
        None => {
            return Err(DecodeError::MalformedEnvelope);
        },
    };
    let price_text = match json_get(elem, "p") {
        Some(v) => match json_as_str(v) {
            Some(s) => s.to_owned(),
            None => {
                return Err(DecodeError::MalformedEnvelope);
            },
        },
        None => {
            return Err(DecodeError::MalformedEnvelope);
        },
    };
    let quantity_text = match json_get(elem, "q") {
        Some(v) => match json_as_str(v) {
            Some(s) => s.to_owned(),
            None => {
                return Err(DecodeError::MalformedEnvelope);
            },
        },
        None => {
            return Err(DecodeError::MalformedEnvelope);
        },
    };
    let side_code = match json_get(elem, "s") {
        Some(v) => match json_as_str(v) {
            Some(s) => s.to_owned(),
            None => {
                return Err(DecodeError::MalformedEnvelope);
            },
        },
        None => {
            return Err(DecodeError::MalformedEnvelope);
        },
    };
    let trade_id = match json_get(elem, "a") {
        Some(v) => match json_as_str(v) {
            Some(s) => s.to_owned(),
            None => {
                return Err(DecodeError::MalformedEnvelope);
            },
        },
        None => {
            return Err(DecodeError::MalformedEnvelope);
        },
    };
    let raw = json_clone(elem);
    Ok(BatchItem { symbol, price_text, quantity_text, side_code, trade_id, raw })
}

/// The discriminator of a data section: the text under its `"e"` key.
pub open spec fn discriminator_of(data: Value) -> Option<Seq<char>> {
    member_str(data, "e"@)
}

/// The data section of a raw message: the member under the envelope's
/// `"data"` key, where the text parses to a document that has one.
pub open spec fn envelope_data(msg: Seq<char>) -> Option<Value> {
    match json_doc_of(msg) {
        Some(root) => json_member_of(root, "data"@),
        None => None,
    }
}

/// The full specification of [`parse_trade`]: what one raw message decodes
/// to, as a function of the message text (through the named JSON results),
/// the market type and the normalization table. A missing envelope
/// structure or a malformed known field is `MalformedEnvelope`; an
/// unrecognized discriminator is `UnsupportedEventType` carrying that
/// discriminator; otherwise the result is exactly
/// [`decode_outcomes_spec`] of the extracted payload.
pub open spec fn parse_trade_spec(
    market_type: MarketType,
    msg: Seq<char>,
    table: Map<Seq<char>, Seq<char>>,
) -> Result<Seq<Result<TradeModel, ErrorModel>>, ErrorModel> {
    match envelope_data(msg) {
        None => Err(ErrorModel::MalformedEnvelope),
        Some(data) => match discriminator_of(data) {
            None => Err(ErrorModel::MalformedEnvelope),
            Some(d) => if d == "aggTrade"@ {
                match single_fields_of(data, "a"@) {
                    Some(f) => Ok(
                        decode_outcomes_spec(
                            market_type,
                            PayloadModel::Single { fields: f, raw: data },
                            table,
                        ),
                    ),
                    None => Err(ErrorModel::MalformedEnvelope),
                }
            } else if d == "trade"@ {
                match single_fields_of(data, "t"@) {
                    Some(f) => Ok(
                        decode_outcomes_spec(
                            market_type,
                            PayloadModel::Single { fields: f, raw: data },
                            table,
                        ),
                    ),
                    None => Err(ErrorModel::MalformedEnvelope),
                }
            } else if d == "trade_all"@ {
                match batch_of(data) {
                    Some(ti) => Ok(
                        decode_outcomes_spec(
                            market_type,
                            PayloadModel::Batch { timestamp: ti.0, items: ti.1 },
                            table,
                        ),
                    ),
                    None => Err(ErrorModel::MalformedEnvelope),
                }
            } else {
                Err(ErrorModel::UnsupportedEventType(d))
            },
        },
    }
}

/// Decodes one raw message of this exchange: parses the envelope, reads the
/// discriminator under the data section's `"e"` key, extracts the matching
/// variant and hands it to the verified core. A message that is not an
/// envelope with a data section and discriminator is malformed; an
/// unrecognized discriminator is the typed `UnsupportedEventType`, never an
/// abort. On success every record of the outcome sequence satisfies the
/// canonical invariants.
pub fn parse_trade(table: &PairTable, market_type: MarketType, msg: &str) -> (r: Result<
    Vec<Result<TradeMsg, DecodeError>>,
    DecodeError,
>)
    ensures
        r matches Ok(outs) ==> parse_trade_spec(market_type, msg@, table@) == Ok::<
            Seq<Result<TradeModel, ErrorModel>>,
            ErrorModel,
        >(outs@.map_values(|o: Result<TradeMsg, DecodeError>| outcome_view(o))),
        r matches Err(e) ==> parse_trade_spec(market_type, msg@, table@) == Err::<
            Seq<Result<TradeModel, ErrorModel>>,
            ErrorModel,
        >(e@),
        r matches Ok(outs) ==> outcomes_wf(
            outs@.map_values(|o: Result<TradeMsg, DecodeError>| outcome_view(o)),
            market_type,
        ),
        r matches Err(e) ==> e@ is MalformedEnvelope || e@ is UnsupportedEventType,
{
    let root = match json_from_str(msg) {
        Ok(v) => v,
        Err(_) => {
            return Err(DecodeError::MalformedEnvelope);
        },
    };
    let data = match json_get(&root, "data") {
        Some(d) => d,
        None => {
            return Err(DecodeError::MalformedEnvelope);
        },
    };
    let event_type: String = match json_get(data, "e") {
        Some(e) => match json_as_str(e) {
            Some(s) => s.to_owned(),
            None => {
                return Err(DecodeError::MalformedEnvelope);
            },
        },
        None => {
            return Err(DecodeError::MalformedEnvelope);
        },
    };
    let payload = if event_type == "aggTrade".to_owned() {
        let fields = match extract_single(data, "a") {
            Ok(f) => f,
            Err(_) => {
                return Err(DecodeError::MalformedEnvelope);
            },
        };
        EventPayload::Single { fields, raw: json_clone(data) }
    } else if event_type == "trade".to_owned() {
        let fields = match extract_single(data, "t") {
            Ok(f) => f,
            Err(_) => {
                return Err(DecodeError::MalformedEnvelope);
            },
        };
        EventPayload::Single { fields, raw: json_clone(data) }
    } else if event_type == "trade_all".to_owned() {
        let (timestamp, items) = match extract_batch(data) {
            Ok(ti) => ti,
            Err(_) => {
                return Err(DecodeError::MalformedEnvelope);
            },
        };
        EventPayload::Batch { timestamp, items }
    } else {
        return Err(DecodeError::UnsupportedEventType(event_type));
    };
    let ghost pm = payload@;
    let outs = decode_payload(market_type, payload, table);
    proof {
        lemma_outcomes_well_formed(market_type, pm, table@);
    }
    Ok(outs)
}

/// What this decoder guarantees of every outcome sequence it can produce:
/// each successful record satisfies the canonical invariants
/// ([`trade_wf`]: positive price, non-negative quantity,
/// `volume == price * quantity` exactly, a definite side) and carries this
/// exchange's identifier and the caller's market type.
pub open spec fn outcomes_wf(
    outs: Seq<Result<TradeModel, ErrorModel>>,
    market_type: MarketType,
) -> bool {
    forall|i: int|
        0 <= i < outs.len() && (#[trigger] outs[i]) is Ok ==> trade_wf(outs[i]->Ok_0) && outs[i]->Ok_0.exchange
            == "binance"@ && outs[i]->Ok_0.market_type == market_type
}

/// Whatever the branch, [`reconcile`] yields well-formed amounts whose
/// volume is exactly price times quantity.
proof fn lemma_reconcile_wf(
    market_type: MarketType,
    pair: Seq<char>,
    price: RatModel,
    reported: RatModel,
)
    requires
        price.wf(),
        price.num > 0,
        reported.wf(),
    ensures
        reconcile(market_type, pair, price, reported).0.wf(),
        reconcile(market_type, pair, price, reported).1.wf(),
        reconcile(market_type, pair, price, reported).1.same_value(
            price.times(reconcile(market_type, pair, price, reported).0),
        ),
{
    let qv = reconcile(market_type, pair, price, reported);
    if market_type.is_inverse() {
        let fv = face_value(pair);
        let volume = qv.1;
        let quantity = qv.0;
        assert(reported.num * fv >= 0 && reported.den * 1 > 0) by (nonlinear_arith)
            requires
                reported.num >= 0,
                reported.den > 0,
                fv >= 10,
        ;
        assert(volume.num * price.den >= 0 && volume.den * price.num > 0) by (nonlinear_arith)
            requires
                volume.num >= 0,
                volume.den > 0,
                price.num > 0,
                price.den > 0,
        ;
        assert(volume.num * (price.den * (volume.den * price.num)) == (price.num * (volume.num
            * price.den)) * volume.den) by (nonlinear_arith);
    } else {
        assert(price.num * reported.num >= 0 && price.den * reported.den > 0) by (nonlinear_arith)
            requires
                price.num > 0,
                price.den > 0,
                reported.num >= 0,
                reported.den > 0,
        ;
    }
}

/// A successful single-variant outcome satisfies the record invariants.
proof fn lemma_single_outcome_wf(
    market_type: MarketType,
    f: SingleModel,
    raw: Value,
    table: Map<Seq<char>, Seq<char>>,
)
    requires
        single_outcome(market_type, f, raw, table) is Ok,
    ensures
        trade_wf(single_outcome(market_type, f, raw, table)->Ok_0),
{
    crate::num::lemma_dec_rat_bounds(f.price_text);
    crate::num::lemma_dec_rat_bounds(f.quantity_text);
    lemma_reconcile_wf(market_type, table[f.symbol], dec_rat(f.price_text), dec_rat(f.quantity_text));
}

/// A successful batch-variant outcome satisfies the record invariants.
proof fn lemma_batch_outcome_wf(
    market_type: MarketType,
    timestamp: i64,
    it: BatchItemModel,
    table: Map<Seq<char>, Seq<char>>,
)
    requires
        batch_outcome(market_type, timestamp, it, table) is Ok,
    ensures
        trade_wf(batch_outcome(market_type, timestamp, it, table)->Ok_0),
{
    crate::num::lemma_dec_rat_bounds(it.price_text);
    crate::num::lemma_dec_rat_bounds(it.quantity_text);
    let price = dec_rat(it.price_text);
    let quantity = dec_rat(it.quantity_text);
    assert(price.num * quantity.num >= 0 && price.den * quantity.den > 0) by (nonlinear_arith)
        requires
            price.num > 0,
            price.den > 0,
            quantity.num >= 0,
            quantity.den > 0,
    ;
}

/// Every successfully decoded trade satisfies the canonical invariants: the
/// price is positive, the quantity non-negative, `volume == price *
/// quantity` holds exactly as rationals, the side is definitely Buy or
/// Sell, and the record carries this exchange's name and the caller's
/// market type.
pub proof fn lemma_outcomes_well_formed(
    market_type: MarketType,
    p: PayloadModel,
    table: Map<Seq<char>, Seq<char>>,
)
    ensures
        outcomes_wf(decode_outcomes_spec(market_type, p, table), market_type),
{
    let outs = decode_outcomes_spec(market_type, p, table);
    assert forall|i: int| 0 <= i < outs.len() && (#[trigger] outs[i]) is Ok implies trade_wf(
        outs[i]->Ok_0,
    ) && outs[i]->Ok_0.exchange == "binance"@ && outs[i]->Ok_0.market_type == market_type by {
        match p {
            PayloadModel::Single { fields, raw } => {
                lemma_single_outcome_wf(market_type, fields, raw, table);
            },
            PayloadModel::Batch { timestamp, items } => {
                assert(outs[i] == batch_outcome(market_type, timestamp, items[i], table));
                lemma_batch_outcome_wf(market_type, timestamp, items[i], table);
            },
        }
    }
}

/// Determinism: the outcome sequence is a function of the payload, the
/// market type and the table alone, so decoding the same input twice yields
/// identical sequences.
pub proof fn lemma_decode_deterministic(
    market_type: MarketType,
    p: PayloadModel,
    table: Map<Seq<char>, Seq<char>>,
    o1: Seq<Result<TradeModel, ErrorModel>>,
    o2: Seq<Result<TradeModel, ErrorModel>>,
)
    requires
        o1 == decode_outcomes_spec(market_type, p, table),
        o2 == decode_outcomes_spec(market_type, p, table),
    ensures
        o1 == o2,
{
}

/// Inverse-contract reconciliation: on an inverse market a successful
/// record's volume is exactly the reported contract count times the face
/// value, its quantity is exactly volume over price, and therefore volume
/// over face value equals the reported count as rationals.
pub proof fn lemma_inverse_reconciliation(
    market_type: MarketType,
    f: SingleModel,
    raw: Value,
    table: Map<Seq<char>, Seq<char>>,
)
    requires
        market_type.is_inverse(),
        single_outcome(market_type, f, raw, table) is Ok,
    ensures
        ({
            let t = single_outcome(market_type, f, raw, table)->Ok_0;
            let face = RatModel { num: face_value(t.pair), den: 1 };
            let reported = dec_rat(f.quantity_text);
            &&& t.volume == reported.times(face)
            &&& t.quantity == t.volume.divided_by(t.price)
            &&& t.volume.divided_by(face).same_value(reported)
        }),
{
    let t = single_outcome(market_type, f, raw, table)->Ok_0;
    let face = RatModel { num: face_value(t.pair), den: 1 };
    let reported = dec_rat(f.quantity_text);
    let v = t.volume;
    assert(v.num * 1 * reported.den == reported.num * (v.den * face.num)) by (nonlinear_arith)
        requires
            v.num == reported.num * face.num,
            v.den == reported.den * 1,
    ;
}

/// Per-item isolation and shared structure of a batch: there is one outcome
/// per trade, in payload order, and the i-th outcome is exactly
/// [`batch_outcome`] of the i-th item alone — so a trade whose symbol the
/// table does not know reports `UnknownSymbolError` in its place while its
/// siblings decode as if it were absent, and every successful record takes
/// the envelope's shared timestamp, its own item's identifier and its own
/// item's coded side.
pub proof fn lemma_batch_isolation(
    market_type: MarketType,
    timestamp: i64,
    items: Seq<BatchItemModel>,
    table: Map<Seq<char>, Seq<char>>,
    i: int,
)
    requires
        0 <= i < items.len(),
    ensures
        ({
            let outs = decode_outcomes_spec(
                market_type,
                PayloadModel::Batch { timestamp, items },
                table,
            );
            &&& outs.len() == items.len()
            &&& outs[i] == batch_outcome(market_type, timestamp, items[i], table)
            &&& !table.contains_key(items[i].symbol) ==> outs[i] == Err::<
                TradeModel,
                ErrorModel,
            >(ErrorModel::UnknownSymbolError(items[i].symbol))
            &&& outs[i] is Ok ==> outs[i]->Ok_0.timestamp == timestamp && outs[i]->Ok_0.trade_id
                == items[i].trade_id && outs[i]->Ok_0.side == batch_side(items[i].side_code)
        }),
{
}

/// Raw preservation: every successful record carries, unmodified, exactly
/// the payload it was decoded from — the envelope's data section for the
/// single variants, the item's own payload for the batched variant.
pub proof fn lemma_raw_preserved(
    market_type: MarketType,
    p: PayloadModel,
    table: Map<Seq<char>, Seq<char>>,
)
    ensures
        ({
            let outs = decode_outcomes_spec(market_type, p, table);
            forall|i: int|
                0 <= i < outs.len() && (#[trigger] outs[i]) is Ok ==> outs[i]->Ok_0.raw == (match p {
                    PayloadModel::Single { raw, .. } => raw,
                    PayloadModel::Batch { items, .. } => items[i].raw,
                })
        }),
{
}


} // verus!
