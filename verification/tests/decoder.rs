use crypto_msg_parser::dispatch::Dispatcher;
use crypto_msg_parser::pairs::PairTable;
use crypto_msg_parser::schema::{DecodeError, MarketType, MessageType, TradeMsg, TradeSide};

fn spot_table() -> PairTable {
    let mut t = PairTable::new();
    t.insert("BTCUSDT".to_string(), "BTC/USDT".to_string());
    t.insert("ETHUSDT".to_string(), "ETH/USDT".to_string());
    t.insert("BTCUSD_PERP".to_string(), "BTC/USD".to_string());
    t.insert("ETHUSD_PERP".to_string(), "ETH/USD".to_string());
    t
}

fn as_f64(r: &crypto_msg_parser::num::Rat) -> f64 {
    (r.num as f64) / (r.den as f64)
}

fn agg_trade_msg(maker: bool) -> String {
    format!(
        r#"{{"stream":"btcusdt@aggTrade","data":{{"e":"aggTrade","E":1616176861895,"s":"BTCUSDT","a":41045788,"p":"100.5","q":"2","f":716073,"l":716073,"T":1616176861886,"m":{}}}}}"#,
        maker
    )
}

fn decode_one(table: PairTable, market_type: MarketType, msg: &str) -> TradeMsg {
    let d = Dispatcher::new(table);
    let outs = d.decode("binance", market_type, msg).unwrap();
    assert_eq!(outs.len(), 1);
    outs.into_iter().next().unwrap().unwrap()
}

#[test]
fn maker_flag_true_means_sell() {
    let t = decode_one(spot_table(), MarketType::Spot, &agg_trade_msg(true));
    assert_eq!(t.side, TradeSide::Sell);
}

#[test]
fn maker_flag_false_means_buy() {
    let t = decode_one(spot_table(), MarketType::Spot, &agg_trade_msg(false));
    assert_eq!(t.side, TradeSide::Buy);
}

#[test]
fn agg_trade_fields_carry_over() {
    let t = decode_one(spot_table(), MarketType::Spot, &agg_trade_msg(true));
    assert_eq!(t.exchange, "binance");
    assert_eq!(t.market_type, MarketType::Spot);
    assert_eq!(t.symbol, "BTCUSDT");
    assert_eq!(t.pair, "BTC/USDT");
    assert_eq!(t.msg_type, MessageType::Trade);
    assert_eq!(t.timestamp, 1616176861886);
    assert_eq!(t.trade_id, "41045788");
}

#[test]
fn spot_raw_trade_price_quantity_volume() {
    let msg = r#"{"stream":"btcusdt@trade","data":{"e":"trade","E":1616176861895,"s":"BTCUSDT","t":716073,"p":"100.5","q":"2","b":1,"a":2,"T":1616176861886,"m":false}}"#;
    let t = decode_one(spot_table(), MarketType::Spot, msg);
    assert_eq!(as_f64(&t.price), 100.5);
    assert_eq!(as_f64(&t.quantity), 2.0);
    assert_eq!(as_f64(&t.volume), 201.0);
    assert_eq!(t.trade_id, "716073");
}

#[test]
fn inverse_swap_btc_face_value_reconciliation() {
    let msg = r#"{"stream":"btcusd_perp@aggTrade","data":{"e":"aggTrade","E":1616176861895,"s":"BTCUSD_PERP","a":5,"p":"20000","q":"50","f":1,"l":1,"T":1616176861886,"m":false}}"#;
    let t = decode_one(spot_table(), MarketType::InverseSwap, msg);
    // 50 contracts of 100 quote units each: volume 5000, quantity 0.25 base.
    assert_eq!(as_f64(&t.volume), 5000.0);
    assert_eq!(as_f64(&t.quantity), 0.25);
    assert_eq!(as_f64(&t.price), 20000.0);
}

#[test]
fn inverse_swap_non_btc_face_value() {
    let msg = r#"{"stream":"ethusd_perp@aggTrade","data":{"e":"aggTrade","E":1,"s":"ETHUSD_PERP","a":5,"p":"2000","q":"50","f":1,"l":1,"T":2,"m":false}}"#;
    let t = decode_one(spot_table(), MarketType::InverseSwap, msg);
    // non-BTC base: each contract is 10 quote units.
    assert_eq!(as_f64(&t.volume), 500.0);
    assert_eq!(as_f64(&t.quantity), 0.25);
}

#[test]
fn linear_market_keeps_reported_quantity() {
    let msg = r#"{"stream":"btcusdt@aggTrade","data":{"e":"aggTrade","E":1,"s":"BTCUSDT","a":5,"p":"20000","q":"50","f":1,"l":1,"T":2,"m":false}}"#;
    let t = decode_one(spot_table(), MarketType::LinearSwap, msg);
    assert_eq!(as_f64(&t.quantity), 50.0);
    assert_eq!(as_f64(&t.volume), 1_000_000.0);
}

fn batch_msg() -> &'static str {
    r#"{"stream":"option@trade_all","data":{"e":"trade_all","E":1616176861895,"s":"BTCUSDT","t":[{"t":"117","p":"100","q":"2","b":"b1","a":"1001","T":1,"s":"1","S":"BTCUSDT"},{"t":"118","p":"200","q":"3","b":"b2","a":"1002","T":2,"s":"4","S":"ETHUSDT"}]}}"#
}

#[test]
fn batch_shares_outer_timestamp_distinct_ids() {
    let d = Dispatcher::new(spot_table());
    let outs = d.decode("binance", MarketType::EuropeanOption, batch_msg()).unwrap();
    assert_eq!(outs.len(), 2);
    let first = outs[0].as_ref().unwrap();
    let second = outs[1].as_ref().unwrap();
    assert_eq!(first.timestamp, 1616176861895);
    assert_eq!(second.timestamp, 1616176861895);
    assert_eq!(first.trade_id, "1001");
    assert_eq!(second.trade_id, "1002");
    assert_ne!(first.trade_id, second.trade_id);
}

#[test]
fn batch_side_code_mapping() {
    let d = Dispatcher::new(spot_table());
    let outs = d.decode("binance", MarketType::EuropeanOption, batch_msg()).unwrap();
    assert_eq!(outs[0].as_ref().unwrap().side, TradeSide::Sell);
    assert_eq!(outs[1].as_ref().unwrap().side, TradeSide::Buy);
}

#[test]
fn batch_volume_is_price_times_quantity() {
    let d = Dispatcher::new(spot_table());
    let outs = d.decode("binance", MarketType::EuropeanOption, batch_msg()).unwrap();
    assert_eq!(as_f64(&outs[0].as_ref().unwrap().volume), 200.0);
    assert_eq!(as_f64(&outs[1].as_ref().unwrap().volume), 600.0);
}

#[test]
fn unsupported_event_type_is_typed_error() {
    let d = Dispatcher::new(spot_table());
    let r = d.decode("binance", MarketType::Spot, r#"{"stream":"x","data":{"e":"foobar"}}"#);
    match r {
        Err(DecodeError::UnsupportedEventType(name)) => assert_eq!(name, "foobar"),
        _ => panic!("expected UnsupportedEventType"),
    }
    // the dispatcher is untouched and keeps decoding afterwards
    let outs = d.decode("binance", MarketType::Spot, &agg_trade_msg(true)).unwrap();
    assert_eq!(outs[0].as_ref().unwrap().pair, "BTC/USDT");
}

#[test]
fn unknown_symbol_in_batch_is_isolated() {
    let msg = r#"{"stream":"option@trade_all","data":{"e":"trade_all","E":7,"s":"BTCUSDT","t":[{"p":"1","q":"1","a":"1","s":"1","S":"BTCUSDT"},{"p":"1","q":"1","a":"2","s":"1","S":"ETHUSDT"},{"p":"1","q":"1","a":"3","s":"1","S":"NOSUCHCOIN"},{"p":"1","q":"1","a":"4","s":"1","S":"BTCUSDT"},{"p":"1","q":"1","a":"5","s":"1","S":"ETHUSDT"}]}}"#;
    let d = Dispatcher::new(spot_table());
    let outs = d.decode("binance", MarketType::EuropeanOption, msg).unwrap();
    assert_eq!(outs.len(), 5);
    assert!(outs[0].is_ok());
    assert!(outs[1].is_ok());
    match &outs[2] {
        Err(DecodeError::UnknownSymbolError(sym)) => assert_eq!(sym, "NOSUCHCOIN"),
        _ => panic!("expected UnknownSymbolError for the third trade"),
    }
    assert!(outs[3].is_ok());
    assert!(outs[4].is_ok());
}

#[test]
fn raw_reserializes_to_data_section() {
    let msg = agg_trade_msg(true);
    let t = decode_one(spot_table(), MarketType::Spot, &msg);
    let whole: serde_json::Value = serde_json::from_str(&msg).unwrap();
    let data = whole.get("data").unwrap();
    let reserialized = serde_json::to_string(&t.raw).unwrap();
    let reparsed: serde_json::Value = serde_json::from_str(&reserialized).unwrap();
    assert_eq!(&reparsed, data);
}

#[test]
fn batch_raw_is_the_inner_payload() {
    let d = Dispatcher::new(spot_table());
    let outs = d.decode("binance", MarketType::EuropeanOption, batch_msg()).unwrap();
    let whole: serde_json::Value = serde_json::from_str(batch_msg()).unwrap();
    let inner = whole.get("data").unwrap().get("t").unwrap().get(1).unwrap();
    assert_eq!(&outs[1].as_ref().unwrap().raw, inner);
}

#[test]
fn unknown_fields_are_kept_in_raw() {
    let msg = r#"{"stream":"s","data":{"e":"trade","E":1,"s":"BTCUSDT","t":9,"p":"1","q":"1","b":1,"a":2,"T":3,"m":false,"novel":"kept"}}"#;
    let t = decode_one(spot_table(), MarketType::Spot, msg);
    assert_eq!(t.raw.get("novel").unwrap().as_str().unwrap(), "kept");
}

#[test]
fn decoding_twice_is_identical() {
    let msg = agg_trade_msg(true);
    let a = decode_one(spot_table(), MarketType::Spot, &msg);
    let b = decode_one(spot_table(), MarketType::Spot, &msg);
    assert_eq!(a.exchange, b.exchange);
    assert_eq!(a.symbol, b.symbol);
    assert_eq!(a.pair, b.pair);
    assert_eq!(a.timestamp, b.timestamp);
    assert_eq!((a.price.num, a.price.den), (b.price.num, b.price.den));
    assert_eq!((a.quantity.num, a.quantity.den), (b.quantity.num, b.quantity.den));
    assert_eq!((a.volume.num, a.volume.den), (b.volume.num, b.volume.den));
    assert_eq!(a.side, b.side);
    assert_eq!(a.trade_id, b.trade_id);
    assert_eq!(a.raw, b.raw);
}

#[test]
fn malformed_envelope_variants() {
    let d = Dispatcher::new(spot_table());
    assert!(matches!(
        d.decode("binance", MarketType::Spot, "not json at all"),
        Err(DecodeError::MalformedEnvelope)
    ));
    assert!(matches!(
        d.decode("binance", MarketType::Spot, r#"{"nodata":1}"#),
        Err(DecodeError::MalformedEnvelope)
    ));
    assert!(matches!(
        d.decode("binance", MarketType::Spot, r#"{"data":{"x":1}}"#),
        Err(DecodeError::MalformedEnvelope)
    ));
    assert!(matches!(
        d.decode("binance", MarketType::Spot, r#"{"data":{"e":"aggTrade","s":"BTCUSDT"}}"#),
        Err(DecodeError::MalformedEnvelope)
    ));
}

#[test]
fn bad_numeric_text_is_per_trade_error() {
    let msg = r#"{"stream":"s","data":{"e":"trade","E":1,"s":"BTCUSDT","t":9,"p":"abc","q":"1","b":1,"a":2,"T":3,"m":false}}"#;
    let d = Dispatcher::new(spot_table());
    let outs = d.decode("binance", MarketType::Spot, msg).unwrap();
    assert_eq!(outs.len(), 1);
    match &outs[0] {
        Err(DecodeError::NumericParseError(text)) => assert_eq!(text, "abc"),
        _ => panic!("expected NumericParseError"),
    }
}

#[test]
fn zero_price_is_refused() {
    let msg = r#"{"stream":"s","data":{"e":"trade","E":1,"s":"BTCUSDT","t":9,"p":"0","q":"1","b":1,"a":2,"T":3,"m":false}}"#;
    let d = Dispatcher::new(spot_table());
    let outs = d.decode("binance", MarketType::Spot, msg).unwrap();
    assert!(matches!(&outs[0], Err(DecodeError::NumericParseError(_))));
}

#[test]
fn unknown_exchange_is_refused() {
    let d = Dispatcher::new(spot_table());
    match d.decode("kraken", MarketType::Spot, "{}") {
        Err(DecodeError::UnknownMarketTypeCombination(ex)) => assert_eq!(ex, "kraken"),
        _ => panic!("expected UnknownMarketTypeCombination"),
    }
}
