use termcrypt::bybit_core::bybit_commands::{
    apply_pair_change, context_for, defaults_start, defaults_step, entry_type_for, listed_pair, menu_choice, order_type_choice, pair_is_listed, pair_request,
    pair_shape, quantity_rule, report_pair_lookup, report_prices, report_search, search_query, trigger_type_label,
    DefaultsAction, DefaultsEvent, DefaultsNext, DefaultsStage, MenuChoice, QuantityRule,
};
use termcrypt::orders::{EntryType, ExchangeContext, OrderEntryType};
use termcrypt::{Config, Exchange, UserSpace};

fn session() -> UserSpace {
    UserSpace {
        db_info: Config {
            bybit_default_pair: "BTCUSDT".to_string(),
            bybit_default_sub: "main".to_string(),
            ftx_default_pair: "BTC/PERP".to_string(),
            ftx_default_sub: "main".to_string(),
        },
        active_exchange: Exchange::Bybit,
        pair: "BTCUSDT".to_string(),
        sub_account: "main".to_string(),
        desktop_terminal: true,
        input: String::new(),
        input_old: String::new(),
        input_prefix: String::new(),
        command_history: Vec::new(),
        command_history_scroll_overflow: Vec::new(),
        command_count: 0,
        event_history: Vec::new(),
        stream_differ: 0,
    }
}

fn printed(us: &UserSpace) -> Vec<String> {
    us.command_history.iter().rev().cloned().collect()
}

#[test]
fn order_type_shortcuts() {
    assert_eq!(order_type_choice("m"), Some(OrderEntryType::Market));
    assert_eq!(order_type_choice("l"), Some(OrderEntryType::Limit));
    assert_eq!(order_type_choice("ob"), Some(OrderEntryType::OrderBook));
    assert_eq!(order_type_choice("o"), None);
}

#[test]
fn pair_shapes() {
    let s = pair_shape("BTCUSD", "BTC").unwrap();
    assert_eq!((s.alt_base.as_str(), s.long_dec_needed, s.is_linear), ("USD", true, false));
    let s = pair_shape("BTCUSDT", "USDT").unwrap();
    assert_eq!((s.alt_base.as_str(), s.long_dec_needed, s.is_linear), ("BTC", false, true));
    assert!(pair_shape("btcusd", "BTC").is_none());
}

#[test]
fn quantity_rules() {
    assert_eq!(quantity_rule("BTCUSDT").ok(), Some(QuantityRule::DivideByEntry));
    assert_eq!(quantity_rule("BTCUSD").ok(), Some(QuantityRule::MultiplyByEntry));
    assert_eq!(quantity_rule("BTCUSD0325").ok(), Some(QuantityRule::MultiplyByEntry));
    assert!(quantity_rule("ETHBTC").is_err());
}

#[test]
fn order_labels() {
    assert_eq!(trigger_type_label(OrderEntryType::Conditional, true).ok(), Some("Conditional Market"));
    assert_eq!(trigger_type_label(OrderEntryType::Conditional, false).ok(), Some("Conditional Limit"));
    assert_eq!(trigger_type_label(OrderEntryType::Limit, true).ok(), Some("Limit"));
    assert_eq!(
        trigger_type_label(OrderEntryType::OrderBook, true).err().unwrap().message,
        "Big Panik! order_type not supported at order_type match"
    );
    assert_eq!(entry_type_for(OrderEntryType::Market, false), EntryType::Market);
    assert_eq!(entry_type_for(OrderEntryType::Conditional, true), EntryType::Market);
    assert_eq!(entry_type_for(OrderEntryType::Conditional, false), EntryType::Limit);
    assert_eq!(entry_type_for(OrderEntryType::Limit, true), EntryType::Limit);
    assert_eq!(context_for(true), ExchangeContext::BybitLinear);
    assert_eq!(context_for(false), ExchangeContext::BybitInverse);
}

#[test]
fn search_reports_hits() {
    assert_eq!(search_query("search eth"), Some("eth".to_string()));
    assert_eq!(search_query("search"), None);
    let aliases = vec!["BTCUSD".to_string(), "ETHUSD".to_string(), "ETHUSDT".to_string()];
    let mut us = session();
    assert!(report_search(&mut us, &aliases, "ETH").is_ok());
    assert_eq!(
        printed(&us),
        vec!["  HIT: ETHUSD".to_string(), "  HIT: ETHUSDT".to_string(), "    2 Pairs Found".to_string()]
    );
    let mut none = session();
    assert!(report_search(&mut none, &aliases, "SOL").is_ok());
    assert_eq!(printed(&none), vec!["    0 Pair Found".to_string()]);
}

#[test]
fn pair_changes() {
    assert_eq!(pair_request("pair ethusd"), Some("ethusd".to_string()));
    assert_eq!(pair_request("pair"), None);
    let aliases = vec!["BTCUSD".to_string(), "ETHUSD".to_string()];
    assert!(pair_is_listed(&aliases, "ETHUSD"));
    assert!(!pair_is_listed(&aliases, "ETH"));
    let mut us = session();
    assert!(report_pair_lookup(&mut us, true).is_ok());
    assert!(apply_pair_change(&mut us, "ETHUSD".to_string(), "2000.5", "Ticker {..}").is_ok());
    assert!(report_pair_lookup(&mut us, false).is_ok());
    assert_eq!(us.pair, "ETHUSD");
    assert_eq!(
        printed(&us),
        vec![
            "    Switched (pair found)".to_string(),
            "    Price (ETHUSD): 2000.5".to_string(),
            "Ticker {..}".to_string(),
            "    Switch failed (pair not found)".to_string()
        ]
    );
}

#[test]
fn price_lines() {
    let mut us = session();
    assert!(report_prices(&mut us, "1", "2", "3").is_ok());
    assert_eq!(printed(&us), vec!["  Mid: 1".to_string(), "  Ask: 2".to_string(), "  Bid: 3".to_string()]);
}

#[test]
fn menu_choices() {
    assert_eq!(menu_choice("1"), MenuChoice::First);
    assert_eq!(menu_choice("2"), MenuChoice::Second);
    assert_eq!(menu_choice("3"), MenuChoice::Invalid);
}

#[test]
fn search_upper_cases_the_query() {
    let aliases = vec!["BTCUSD".to_string(), "ETHUSD".to_string()];
    let mut us = session();
    assert!(report_search(&mut us, &aliases, "eth").is_ok());
    assert_eq!(printed(&us), vec!["  HIT: ETHUSD".to_string(), "    1 Pair Found".to_string()]);
}

#[test]
fn requested_pairs_are_upper_cased_before_lookup() {
    let aliases = vec!["BTCUSD".to_string(), "ETHUSD".to_string()];
    assert_eq!(listed_pair(&aliases, "ethusd"), Some("ETHUSD".to_string()));
    assert_eq!(listed_pair(&aliases, "ETHUSD"), Some("ETHUSD".to_string()));
    assert_eq!(listed_pair(&aliases, "solusd"), None);
}

#[test]
fn every_pair_with_a_base_has_a_shape() {
    for pair in ["BTCUSDT", "ETHBTC", "SOLUSDC", "BTCUSD", "ETHUSD0325", "ETHUSD0624", "USD", "USDT"] {
        let base = termcrypt::bybit_core::bybit_utils::bybit_get_base(pair.to_string()).ok().unwrap();
        assert!(pair_shape(pair, &base).is_some(), "{}", pair);
    }
}

fn prompt_of(a: &DefaultsAction) -> Option<String> {
    match &a.next {
        DefaultsNext::Ask(p) => Some(p.clone()),
        _ => None,
    }
}

fn store_of(a: &DefaultsAction) -> Option<(String, String)> {
    match &a.next {
        DefaultsNext::Store { key, value } => Some((key.clone(), value.clone())),
        _ => None,
    }
}

fn answer(s: &str) -> DefaultsEvent {
    DefaultsEvent::Answer(s.to_string())
}

#[test]
fn defaults_menu_opens_with_both_kinds() {
    let (stage, action) = defaults_start();
    assert_eq!(stage, DefaultsStage::Context);
    assert_eq!(action.print, vec![" 1. Bybit defaults".to_string(), " 2. Universal defaults".to_string()]);
    assert_eq!(prompt_of(&action), Some("Choose an option number".to_string()));
}

#[test]
fn defaults_store_the_current_pair() {
    let (stage, action) = defaults_step(DefaultsStage::Context, "ETHUSDT", "main", answer("1"));
    assert_eq!(stage, DefaultsStage::Option);
    assert_eq!(action.print.len(), 6);
    assert_eq!(action.print[1], " Bybit defaults");
    assert_eq!(prompt_of(&action), Some("Option Number".to_string()));

    let (stage, action) = defaults_step(stage, "ETHUSDT", "main", answer("1"));
    assert_eq!(stage, DefaultsStage::StoredPair);
    assert!(action.print.is_empty());
    assert_eq!(store_of(&action), Some(("bybit_default_pair".to_string(), "ETHUSDT".to_string())));

    let (stage, action) = defaults_step(stage, "ETHUSDT", "main", DefaultsEvent::Stored("ETHUSDT".to_string()));
    assert_eq!(stage, DefaultsStage::Done);
    assert_eq!(action.print, vec!["ETHUSDT".to_string(), " Changed default pair successfully".to_string()]);
    assert!(matches!(action.next, DefaultsNext::Finished));
}

#[test]
fn defaults_store_the_current_subaccount() {
    let (stage, action) = defaults_step(DefaultsStage::Option, "ETHUSDT", "trading", answer("2"));
    assert_eq!(stage, DefaultsStage::StoredSub);
    assert_eq!(store_of(&action), Some(("bybit_default_sub".to_string(), "trading".to_string())));
    let (stage, action) = defaults_step(stage, "ETHUSDT", "trading", DefaultsEvent::Stored("trading".to_string()));
    assert_eq!(stage, DefaultsStage::Done);
    assert_eq!(action.print, vec![" Changed default subaccount successfully".to_string()]);
}

#[test]
fn defaults_ask_again_on_a_wrong_answer() {
    let (stage, action) = defaults_step(DefaultsStage::Context, "BTCUSDT", "main", answer("9"));
    assert_eq!(stage, DefaultsStage::Context);
    assert_eq!(action.print[1], "NOT AN OPTION, CHOOSE AGAIN");
    assert_eq!(action.print.len(), 5);
    let (stage, action) = defaults_step(DefaultsStage::Option, "BTCUSDT", "main", answer("x"));
    assert_eq!(stage, DefaultsStage::Option);
    assert_eq!(action.print, vec![" !! Not a choice !!".to_string(), String::new()]);
    assert_eq!(prompt_of(&action), Some("Option Number".to_string()));
}

#[test]
fn universal_defaults_are_not_available() {
    let (stage, action) = defaults_step(DefaultsStage::Context, "BTCUSDT", "main", answer("2"));
    assert_eq!(stage, DefaultsStage::Done);
    assert_eq!(action.print[3], " Not Available yet!");
    assert!(matches!(action.next, DefaultsNext::Finished));
}
