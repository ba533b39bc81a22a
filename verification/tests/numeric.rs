use crypto_msg_parser::num::{i64_to_string, parse_decimal};
use crypto_msg_parser::pairs::{catalog_symbol_supported, PairTable};

fn parts(s: &str) -> Option<(u128, u128)> {
    parse_decimal(s).map(|r| (r.num, r.den))
}

#[test]
fn parse_decimal_integers_and_fractions() {
    assert_eq!(parts("2"), Some((2, 1)));
    assert_eq!(parts("100.5"), Some((1005, 10)));
    assert_eq!(parts("0.25"), Some((25, 100)));
    assert_eq!(parts("0"), Some((0, 1)));
    assert_eq!(parts(".5"), Some((5, 10)));
    assert_eq!(parts("3."), Some((3, 1)));
    assert_eq!(parts("00012"), Some((12, 1)));
}

#[test]
fn parse_decimal_refuses_non_decimals() {
    assert_eq!(parts(""), None);
    assert_eq!(parts("."), None);
    assert_eq!(parts("abc"), None);
    assert_eq!(parts("1.2.3"), None);
    assert_eq!(parts("+5"), None);
    assert_eq!(parts("-5"), None);
    assert_eq!(parts("1e5"), None);
    assert_eq!(parts(" 1"), None);
}

#[test]
fn parse_decimal_digit_budget() {
    // seventeen digits are the most the parser accepts
    assert_eq!(parts("99999999999999999"), Some((99_999_999_999_999_999, 1)));
    assert_eq!(parts("999999999999999999"), None);
    assert_eq!(parts("1.0000000000000000"), Some((10_000_000_000_000_000, 10_000_000_000_000_000)));
}

#[test]
fn i64_renders_decimal_digits() {
    assert_eq!(i64_to_string(41045788), "41045788");
    assert_eq!(i64_to_string(0), "0");
    assert_eq!(i64_to_string(-17), "-17");
}

#[test]
fn pair_table_lookup_hits_and_misses() {
    let mut t = PairTable::new();
    assert!(t.lookup("BTCUSDT").is_none());
    t.insert("BTCUSDT".to_string(), "BTC/USDT".to_string());
    assert_eq!(t.lookup("BTCUSDT").unwrap(), "BTC/USDT");
    assert!(t.lookup("ETHUSDT").is_none());
}

#[test]
fn pair_table_later_insert_overrides() {
    let mut t = PairTable::new();
    t.insert("BTCUSDT".to_string(), "WRONG/PAIR".to_string());
    t.insert("BTCUSDT".to_string(), "BTC/USDT".to_string());
    assert_eq!(t.lookup("BTCUSDT").unwrap(), "BTC/USDT");
}

#[test]
fn catalog_symbol_support_rules() {
    assert!(catalog_symbol_supported("BTCUSDT"));
    assert!(catalog_symbol_supported("BTCUSD_PERP"));
    assert!(catalog_symbol_supported("BTCUSD_210625"));
    assert!(catalog_symbol_supported("BTCUSDT_210625"));
    // a dated symbol whose head names no USD or USDT settlement is kept
    // away from the catalog resolver
    assert!(!catalog_symbol_supported("FOOBAR_123456"));
    assert!(!catalog_symbol_supported("BTC\u{20ac}USDT"));
}

#[test]
fn catalog_initialization_fills_the_table() {
    // the one-time initialization pattern: consult the catalog resolver on
    // each symbol the verified filter admits, and record its answers
    // through the verified insert
    let symbols = vec![
        "BTCUSD_PERP".to_string(),
        "BTCUSD_210625".to_string(),
        "FOOBAR_123456".to_string(),
    ];
    let mut t = PairTable::new();
    for symbol in &symbols {
        if catalog_symbol_supported(symbol) {
            if let Some(pair) = crypto_pair::normalize_pair(symbol, "binance") {
                t.insert(symbol.clone(), pair);
            }
        }
    }
    assert_eq!(t.lookup("BTCUSD_PERP").unwrap(), "BTC/USD");
    assert_eq!(t.lookup("BTCUSD_210625").unwrap(), "BTC/USD");
    assert!(t.lookup("FOOBAR_123456").is_none());
}
