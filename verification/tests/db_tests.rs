use termcrypt::db::{
    checked_trade_id, config_from_entries, decode_direction, decode_entry_type, decode_exchange,
    decode_exchange_context, decode_filled, decode_optional, decode_order_entry_type, draw_trade_id,
    encode_direction, encode_entry_type, encode_exchange, encode_exchange_context, encode_filled,
    encode_optional, encode_order_entry_type, entry_or_default, id_in_use,
};
use termcrypt::orders::{EntryType, ExchangeContext, OrderDirection, OrderEntryType};
use termcrypt::Exchange;

#[test]
fn stored_names_read_back() {
    for e in [Exchange::Bybit, Exchange::Ftx] {
        assert_eq!(decode_exchange(encode_exchange(e)).ok(), Some(e));
    }
    for c in [ExchangeContext::BybitInverse, ExchangeContext::BybitLinear] {
        let code = encode_exchange_context(c).ok().unwrap();
        assert_eq!(decode_exchange_context(code).ok(), Some(c));
    }
    for t in [EntryType::Market, EntryType::Limit] {
        assert_eq!(decode_entry_type(encode_entry_type(t)).ok(), Some(t));
    }
    for t in [OrderEntryType::Market, OrderEntryType::Limit, OrderEntryType::Conditional, OrderEntryType::OrderBook] {
        assert_eq!(decode_order_entry_type(encode_order_entry_type(t)).ok(), Some(t));
    }
    for d in [OrderDirection::Long, OrderDirection::Short] {
        assert_eq!(decode_direction(encode_direction(d)), d);
    }
    for f in [true, false] {
        assert_eq!(decode_filled(encode_filled(f)), f);
    }
    assert_eq!(decode_optional(&encode_optional(&Some("abc".to_string()))), Some("abc".to_string()));
    assert_eq!(decode_optional(&encode_optional(&None)), None);
}

#[test]
fn stored_names_are_fixed() {
    assert_eq!(encode_exchange(Exchange::Ftx), "ftx");
    assert_eq!(encode_exchange_context(ExchangeContext::BybitLinear).ok(), Some("bybit_linear"));
    assert_eq!(encode_order_entry_type(OrderEntryType::OrderBook), "orderbook");
    assert_eq!(encode_direction(OrderDirection::Short), "short");
    assert_eq!(encode_filled(false), "false");
}

#[test]
fn unknown_stored_names_are_errors() {
    assert_eq!(decode_exchange("kraken").err().unwrap().message, "Exchange: <\"kraken\"> is not available (yet).");
    assert_eq!(
        decode_exchange_context("bybit_spot").err().unwrap().message,
        "Exchange context: <\"bybit_spot\"> is not available (yet)."
    );
    assert_eq!(decode_entry_type("stop").err().unwrap().message, "Entry type: <\"stop\"> is not available (yet).");
    assert_eq!(
        decode_order_entry_type("twap").err().unwrap().message,
        "Client order type: <\"twap\"> is not available (yet)."
    );
    assert_eq!(decode_direction("sideways"), OrderDirection::Short);
    assert!(!decode_filled("yes"));
    assert_eq!(decode_optional(""), None);
}

#[test]
fn spot_and_futures_cannot_be_stored() {
    assert_eq!(
        encode_exchange_context(ExchangeContext::_BybitSpot).err().unwrap().message,
        "Exchange context: <_BybitSpot> is not a available (yet)."
    );
    assert_eq!(
        encode_exchange_context(ExchangeContext::_BybitFutures).err().unwrap().message,
        "Exchange context: <_BybitFutures> is not a available (yet)."
    );
}

#[test]
fn trade_ids_are_fresh() {
    let existing = vec![10, 500, 999998];
    assert!(id_in_use(500, &existing));
    assert!(!id_in_use(501, &existing));
    assert_eq!(checked_trade_id(500, &existing), None);
    assert_eq!(checked_trade_id(42, &existing), Some(42));
    for _ in 0..100 {
        if let Some(id) = draw_trade_id(&existing) {
            assert!((10..999999).contains(&id));
            assert!(!existing.contains(&id));
        }
    }
}

#[test]
fn settings_fall_back_to_defaults() {
    assert_eq!(entry_or_default(Some("x".to_string()), Some("d")), Some("x".to_string()));
    assert_eq!(entry_or_default(None, Some("d")), Some("d".to_string()));
    assert_eq!(entry_or_default(None, None), None);
    let c = config_from_entries(None, Some("sub1".to_string()), None, None);
    assert_eq!(c.bybit_default_pair, "BTCUSDT");
    assert_eq!(c.bybit_default_sub, "sub1");
    assert_eq!(c.ftx_default_pair, "BTC/PERP");
    assert_eq!(c.ftx_default_sub, "main");
}

#[test]
fn a_present_empty_text_reads_back_as_absent() {
    assert_eq!(decode_optional(&encode_optional(&Some(String::new()))), None);
}

#[test]
fn a_draw_succeeds_when_no_id_is_taken() {
    for _ in 0..100 {
        let id = draw_trade_id(&Vec::new()).unwrap();
        assert!((10..999999).contains(&id));
    }
}
