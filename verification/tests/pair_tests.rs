use termcrypt::bybit_core::bybit_utils::{base_of_upper_pair, bybit_get_base};
use termcrypt::bybit_exchange::bybit_utils::bybit_get_base as earlier_bybit_get_base;
use termcrypt::ftx_core::ftx_utils::{_formatted_pair, _get_suffix_symbol, join_market_name};
use termcrypt::ftx_exchange::ftx_utils::{ftx_formattedpair, ftx_getsuffixsymbol};

#[test]
fn base_of_linear_pairs_is_quote_coin() {
    assert_eq!(bybit_get_base("BTCUSDT".to_string()).ok().unwrap(), "USDT");
    assert_eq!(bybit_get_base("ethbtc".to_string()).ok().unwrap(), "BTC");
    assert_eq!(bybit_get_base("SOLUSDC".to_string()).ok().unwrap(), "USDC");
}

#[test]
fn base_of_inverse_pairs_is_coin() {
    assert_eq!(bybit_get_base("BTCUSD".to_string()).ok().unwrap(), "BTC");
    assert_eq!(bybit_get_base("ethusd".to_string()).ok().unwrap(), "ETH");
    assert_eq!(bybit_get_base("BTCUSD0325".to_string()).ok().unwrap(), "BTC");
    assert_eq!(bybit_get_base("ETHUSD0624".to_string()).ok().unwrap(), "ETH");
}

#[test]
fn unknown_base_is_an_error() {
    let e = bybit_get_base("BTCEUR".to_string()).err().unwrap();
    assert_eq!(e.message, "Could not find base currency for pair.");
    assert!(base_of_upper_pair("btcusdt").is_err());
}

#[test]
fn earlier_interface_agrees() {
    for p in ["BTCUSDT", "ethbtc", "BTCUSD", "XRPUSD0624", "DOGE"] {
        let a = bybit_get_base(p.to_string()).map_err(|e| e.message);
        let b = earlier_bybit_get_base(p.to_string()).map_err(|e| e.message);
        assert_eq!(a, b);
    }
}

#[test]
fn ftx_market_names() {
    assert_eq!(_formatted_pair(["btc", "perp"]), "BTC-PERP");
    assert_eq!(_formatted_pair(["btc", "1231"]), "BTC-1231");
    assert_eq!(_formatted_pair(["eth", "usd"]), "ETH/USD");
    assert_eq!(ftx_formattedpair(["sol", "Perp"]), "SOL-PERP");
    assert_eq!(join_market_name("A", "B"), "A/B");
}

#[test]
fn price_symbols() {
    assert_eq!(_get_suffix_symbol("BTC-PERP"), "$");
    assert_eq!(_get_suffix_symbol("ETH/USD"), "$");
    assert_eq!(_get_suffix_symbol("SOL/USDT"), "$");
    assert_eq!(_get_suffix_symbol("ETH/BTC"), "₿");
    assert_eq!(_get_suffix_symbol("SOL/ETH"), "₿");
    assert_eq!(_get_suffix_symbol("SOL/EUR"), "");
    assert_eq!(ftx_getsuffixsymbol("BTC-PERP"), "$");
}

#[test]
fn base_is_found_after_unicode_upper_casing() {
    assert_eq!(bybit_get_base("straßeusd".to_string()).ok().unwrap(), "STRASSE");
}
