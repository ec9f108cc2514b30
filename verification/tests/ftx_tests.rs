use termcrypt::ftx_order_run::{ftx_order_start, ftx_order_step, FtxOrderEvent, FtxOrderNext, OrderStage};
use termcrypt::decimal::DecimalValue;
use termcrypt::ftx_advanced_orders::{
    now_order_next, now_order_start, sl_order_call, tp_order_call, FtxOrderCall, NowOrder, OrderEvent, OrderSide,
    OrderStep, PlainKind, SLOrder, SLType, TPOrder, TPType, TriggerKind,
};
use termcrypt::ftx_exchange::ftx_ws::{ftx_fill_line, ftx_filled_trades};
use termcrypt::ftx_inter::{
    ftx_entry_choice, ftx_exit_is_market, ftx_liquidity_share, ftx_order_direction,
    ftx_order_quantity, ftx_quote_currency, ftx_tpsl_ratio, FtxEntryChoice,
};
use termcrypt::ftx_session::{ftx_command_step, FtxBalance, FtxEvent, FtxNext, FtxSession, FtxStage};

fn d(negative: bool, magnitude: u128, scale: u32) -> DecimalValue {
    DecimalValue { negative, magnitude, scale }
}

fn value(x: DecimalValue) -> f64 {
    let v = x.magnitude as f64 / 10f64.powi(x.scale as i32);
    if x.negative { -v } else { v }
}

fn order(islong: bool, entry: Option<DecimalValue>, ismarket: bool, isorderbook: bool) -> NowOrder {
    NowOrder {
        pair: "BTC-PERP".to_string(),
        islong,
        real_quantity: d(false, 2, 0),
        ismarket,
        entry,
        price: d(false, 100, 0),
        isorderbook,
        orderbookpos: Some(d(false, 1, 0)),
    }
}

#[test]
fn entry_orders_fix_every_argument() {
    match now_order_start(&order(true, Some(d(false, 110, 0)), false, false)) {
        OrderStep::Call(FtxOrderCall::PlaceTrigger { pair, side, size, trigger_kind, trigger_price, reduce_only }) => {
            assert_eq!(pair, "BTC-PERP");
            assert_eq!(side, OrderSide::Buy);
            assert_eq!(size, d(false, 2, 0));
            assert_eq!(trigger_kind, TriggerKind::Stop);
            assert_eq!(trigger_price, d(false, 110, 0));
            assert_eq!(reduce_only, None);
        }
        _ => panic!("expected a trigger order"),
    }
    match now_order_start(&order(false, Some(d(false, 110, 0)), false, false)) {
        OrderStep::Call(FtxOrderCall::PlaceOrder { side, price, order_kind, post_only, .. }) => {
            assert_eq!(side, OrderSide::Sell);
            assert_eq!(price, Some(d(false, 110, 0)));
            assert_eq!(order_kind, PlainKind::Limit);
            assert_eq!(post_only, Some(true));
        }
        _ => panic!("expected a limit order"),
    }
    match now_order_start(&order(true, None, true, false)) {
        OrderStep::Call(FtxOrderCall::PlaceOrder { price, order_kind, post_only, .. }) => {
            assert_eq!(price, None);
            assert_eq!(order_kind, PlainKind::Market);
            assert_eq!(post_only, None);
        }
        _ => panic!("expected a market order"),
    }
    match now_order_start(&order(true, None, false, false)) {
        OrderStep::Fail(e) => assert_eq!(e.message, "No order types supported for function yet"),
        _ => panic!("expected a failure"),
    }
    // A placed non-book order ends the run with its reply, ok or not.
    let o = order(true, None, true, false);
    assert!(matches!(now_order_next(&o, 0, 1, &OrderEvent::Placed { ok: false }).1, OrderStep::Return));
}

#[test]
fn order_book_entries_retry_nine_times() {
    let o = order(true, None, false, true);
    assert!(matches!(now_order_start(&o), OrderStep::Call(FtxOrderCall::GetOrderbook { depth: 10, .. })));
    let book = OrderEvent::Book { bids: vec![d(false, 99, 0), d(false, 98, 0)], asks: vec![d(false, 101, 0)] };
    match now_order_next(&o, 1, 1, &book).1 {
        OrderStep::Call(FtxOrderCall::PlaceOrder { price, post_only, side, .. }) => {
            assert_eq!(price, Some(d(false, 98, 0)));
            assert_eq!(post_only, Some(true));
            assert_eq!(side, OrderSide::Buy);
        }
        _ => panic!("expected a limit order at the book level"),
    }
    let mut attempt = 1;
    let mut tries = 0;
    loop {
        tries += 1;
        let (a, step) = now_order_next(&o, 1, attempt, &OrderEvent::Placed { ok: false });
        attempt = a;
        match step {
            OrderStep::Call(FtxOrderCall::GetOrderbook { .. }) => continue,
            OrderStep::Fail(e) => {
                assert_eq!(e.message, "Order failed after multiple tries.");
                break;
            }
            _ => panic!("unexpected step"),
        }
    }
    assert_eq!(tries, 9);
    assert!(matches!(now_order_next(&o, 1, 3, &OrderEvent::Placed { ok: true }).1, OrderStep::Return));
}

#[test]
fn exits_are_reduce_only_on_the_closing_side() {
    let sl = SLOrder { pair: "X".to_string(), islong: true, real_quantity: d(false, 1, 0), stop_price: d(false, 9, 0), sl_type: SLType::M };
    match sl_order_call(&sl) {
        OrderStep::Call(FtxOrderCall::PlaceTrigger { side, trigger_kind, trigger_price, reduce_only, .. }) => {
            assert_eq!(side, OrderSide::Sell);
            assert_eq!(trigger_kind, TriggerKind::Stop);
            assert_eq!(trigger_price, d(false, 9, 0));
            assert_eq!(reduce_only, Some(true));
        }
        _ => panic!("expected a stop"),
    }
    let hs = SLOrder { sl_type: SLType::Hs, ..sl };
    assert!(matches!(sl_order_call(&hs), OrderStep::Fail(e) if e.message == "Type not ready yet."));
    let tp = TPOrder { pair: "X".to_string(), islong: false, real_quantity: d(false, 1, 0), tp_price: d(false, 7, 0), tp_type: TPType::M };
    match tp_order_call(&tp) {
        OrderStep::Call(FtxOrderCall::PlaceTrigger { side, trigger_kind, reduce_only, .. }) => {
            assert_eq!(side, OrderSide::Buy);
            assert_eq!(trigger_kind, TriggerKind::TakeProfit);
            assert_eq!(reduce_only, Some(true));
        }
        _ => panic!("expected a take-profit"),
    }
}

fn ready(sub: &str, pair: &str) -> FtxSession {
    FtxSession { subaccount: sub.to_string(), pair: pair.to_string(), stage: FtxStage::Ready }
}

#[test]
fn ftx_commands_switch_sub_accounts() {
    let (s, a) = ftx_command_step(ready("main", "BTC-PERP"), FtxEvent::Command("sub def".to_string()));
    assert_eq!(s.subaccount, "def");
    assert!(matches!(a.next, FtxNext::UseAccount(None)));
    assert_eq!(a.print, vec!["    \u{1b}[1mReturning to default account\u{1b}[0m".to_string()]);

    let (s, a) = ftx_command_step(ready("def", "BTC-PERP"), FtxEvent::Command("sub alt".to_string()));
    assert!(matches!(a.next, FtxNext::FetchSubaccounts));
    let (s2, a2) = ftx_command_step(s, FtxEvent::Names(vec!["main".to_string(), "alt".to_string()]));
    assert_eq!(s2.subaccount, "alt");
    assert!(matches!(a2.next, FtxNext::UseAccount(Some(ref x)) if x == "alt"));

    let (s, _) = ftx_command_step(ready("def", "BTC-PERP"), FtxEvent::Command("sub nope".to_string()));
    let (s2, a2) = ftx_command_step(s, FtxEvent::Names(vec!["main".to_string()]));
    assert_eq!(s2.subaccount, "def");
    assert_eq!(a2.print, vec!["  No subaccount found called - nope".to_string()]);
}

#[test]
fn ftx_commands_search_list_and_leverage() {
    let (s, _) = ftx_command_step(ready("def", "BTC-PERP"), FtxEvent::Command("search eth".to_string()));
    let names = vec!["ETH-PERP".to_string(), "BTC-PERP".to_string(), "ETH/USD".to_string()];
    let (_, a) = ftx_command_step(s, FtxEvent::Names(names));
    assert_eq!(
        a.print,
        vec![
            "".to_string(),
            "HIT: ETH-PERP".to_string(),
            "HIT: ETH/USD".to_string(),
            "  2 \u{1b}[1mPairs Found\u{1b}[0m".to_string()
        ]
    );

    let (s, _) = ftx_command_step(ready("def", "BTC-PERP"), FtxEvent::Command("subs".to_string()));
    let (_, a) = ftx_command_step(s, FtxEvent::Names(vec!["a".to_string(), "b".to_string()]));
    assert_eq!(a.print, vec!["1. \u{1b}[1ma\u{1b}[0m".to_string(), "2. \u{1b}[1mb\u{1b}[0m".to_string()]);

    let (s, a) = ftx_command_step(ready("def", "BTC-PERP"), FtxEvent::Command("lev 5".to_string()));
    assert!(matches!(a.next, FtxNext::FetchAccount));
    let (s, a) = ftx_command_step(s, FtxEvent::Texts(vec!["10".to_string()]));
    assert!(matches!(a.next, FtxNext::ChangeLeverage(5)));
    let (s, a) = ftx_command_step(s, FtxEvent::Done);
    assert!(matches!(s.stage, FtxStage::Ready));
    assert_eq!(a.print, vec!["CHANGE: 10 -> 5".to_string(), "  \u{1b}[1mSuccess (changed leverage)\u{1b}[0m".to_string()]);

    let (_, a) = ftx_command_step(ready("def", "BTC-PERP"), FtxEvent::Command("lev x".to_string()));
    assert!(matches!(a.next, FtxNext::Fail(_)));

    let (s, _) = ftx_command_step(ready("def", "BTC-PERP"), FtxEvent::Command("allmarkets".to_string()));
    let (_, a) = ftx_command_step(s, FtxEvent::Names(vec!["A".to_string(), "B".to_string()]));
    assert_eq!(a.print, vec!["A | B | ".to_string()]);
}

#[test]
fn ftx_commands_change_pair_and_show_prices() {
    let (s, a) = ftx_command_step(ready("def", "BTC-PERP"), FtxEvent::Command("pair".to_string()));
    assert_eq!(a.print, vec!["  Change pair:".to_string()]);
    assert!(matches!(a.next, FtxNext::Ask(ref p) if p == "[Prefix]"));
    let (s, a) = ftx_command_step(s, FtxEvent::Answer("eth".to_string()));
    assert!(matches!(a.next, FtxNext::Ask(ref p) if p == "[Suffix]"));
    let (s, a) = ftx_command_step(s, FtxEvent::Answer("perp".to_string()));
    assert!(matches!(a.next, FtxNext::FetchMarketNames));
    let (s, a) = ftx_command_step(s, FtxEvent::Names(vec!["ETH-PERP".to_string()]));
    assert!(matches!(a.next, FtxNext::FetchMarket(ref p) if p == "ETH-PERP"));
    let (s, a) = ftx_command_step(s, FtxEvent::Texts(vec!["1800".to_string()]));
    assert_eq!(s.pair, "ETH-PERP");
    assert_eq!(a.print, vec!["    Price (ETH-PERP): 1800$".to_string()]);

    let (s, a) = ftx_command_step(ready("def", "BTC-PERP"), FtxEvent::Command("p".to_string()));
    assert!(matches!(a.next, FtxNext::FetchMarket(ref p) if p == "BTC-PERP"));
    let (_, a) = ftx_command_step(s, FtxEvent::Texts(vec!["1".to_string(), "2".to_string(), "3".to_string()]));
    assert_eq!(a.print, vec!["  Mid: 1".to_string(), "  Ask: 2".to_string(), "  Bid: 3".to_string()]);

    let (_, a) = ftx_command_step(ready("def", "BTC-PERP"), FtxEvent::Command("help".to_string()));
    assert_eq!(a.print.len(), 22);
    let (_, a) = ftx_command_step(ready("def", "BTC-PERP"), FtxEvent::Command("sub".to_string()));
    assert_eq!(a.print, vec!["  !For this function, please use this format: sub [parameters]".to_string()]);
    let (_, a) = ftx_command_step(ready("def", "BTC-PERP"), FtxEvent::Command("o".to_string()));
    assert!(matches!(a.next, FtxNext::StartOrder));
}

#[test]
fn order_sizing_is_risk_based() {
    // Long: entry 100, stop 90, take 120, 1% risk of 1000.
    let (risk, liquid) = (d(false, 1, 0), d(false, 1000, 0));
    let (entry, sl, tp) = (d(false, 100, 0), d(false, 90, 0), d(false, 120, 0));
    assert_eq!(ftx_order_direction(risk, entry, sl, tp).ok(), Some(true));
    let q = ftx_order_quantity(risk, liquid, entry, sl, true).ok().unwrap();
    assert!((value(q) - 100.0).abs() < 1e-9);
    let r = ftx_tpsl_ratio(entry, sl, tp, true).ok().unwrap();
    assert!((value(r) - 2.0).abs() < 1e-9);
    // Short on the mirrored prices.
    assert_eq!(ftx_order_direction(risk, entry, d(false, 110, 0), d(false, 80, 0)).ok(), Some(false));
    // Invalid parameters and no direction.
    assert_eq!(
        ftx_order_direction(d(false, 101, 0), entry, sl, tp).err().unwrap().message,
        "Invalid parameters (error in calculating order size) - Check your inputs"
    );
    assert_eq!(
        ftx_order_direction(risk, d(false, 130, 0), sl, tp).err().unwrap().message,
        "Something bad happened in calculate_order!"
    );
    // Division by a zero entry is an error.
    assert!(ftx_order_quantity(risk, liquid, d(false, 0, 0), sl, true).is_err());
    // Share of liquidity: 100 of 1000 at leverage 1 is 10%.
    let share = ftx_liquidity_share(q, liquid, d(false, 5, 0), false).ok().unwrap();
    assert!((value(share) - 10.0).abs() < 1e-9);
}

#[test]
fn order_prompts_and_quote_currency() {
    assert_eq!(ftx_entry_choice("m"), FtxEntryChoice::Market);
    assert_eq!(ftx_entry_choice("Ob"), FtxEntryChoice::OrderBook);
    assert_eq!(ftx_entry_choice("101.5"), FtxEntryChoice::Price);
    assert!(ftx_exit_is_market("M"));
    assert!(!ftx_exit_is_market("x"));
    let (c, fut) = ftx_quote_currency("BTC-PERP", None);
    assert_eq!((c.as_str(), fut), ("USD", true));
    let (c, fut) = ftx_quote_currency("ETH/BTC", Some("BTC".to_string()));
    assert_eq!((c.as_str(), fut), ("BTC", false));
}

#[test]
fn fills_are_reported_with_value() {
    let line = ftx_fill_line("BTC-PERP", OrderSide::Buy, d(false, 25, 0), d(false, 2, 1)).ok().unwrap();
    assert_eq!(line, "\"BTC-PERP\" - Fill (Buy) at: 25 with size: 5.0 $");
}

#[test]
fn ftx_orderbook_is_laid_out_in_columns() {
    let (s, a) = ftx_command_step(ready("def", "BTC-PERP"), FtxEvent::Command("ob".to_string()));
    assert!(matches!(a.next, FtxNext::FetchOrderbook(ref p) if p == "BTC-PERP"));
    let bids = vec![(d(false, 995, 1), d(false, 2, 0)), (d(false, 99, 0), d(false, 10, 0))];
    let asks = vec![(d(false, 100, 0), d(false, 1, 0)), (d(false, 101, 0), d(false, 3, 0))];
    let (_, a) = ftx_command_step(s, FtxEvent::Book { bids, asks });
    assert_eq!(
        a.print,
        vec![
            "  \u{1b}[1mORDERBOOK FOR BTC-PERP\u{1b}[0m".to_string(),
            "   BID       ASK   ".to_string(),
            " 99.5 [2] | 100 [1]".to_string(),
            " 99 [10]  | 101 [3]".to_string(),
        ]
    );
    let (s, _) = ftx_command_step(ready("def", "BTC-PERP"), FtxEvent::Command("orderbook".to_string()));
    let (_, a) = ftx_command_step(s, FtxEvent::Book { bids: vec![], asks: vec![(d(false, 1, 0), d(false, 1, 0))] });
    assert!(matches!(a.next, FtxNext::Fail(_)));
}

#[test]
fn ftx_balances_show_free_share() {
    let (s, a) = ftx_command_step(ready("alt", "BTC-PERP"), FtxEvent::Command("bal".to_string()));
    assert!(matches!(a.next, FtxNext::FetchBalances(ref x) if x == "alt"));
    let bs = vec![
        FtxBalance { coin: "USD".to_string(), free: d(false, 50, 0), total: d(false, 200, 0) },
        FtxBalance { coin: "BTC".to_string(), free: d(false, 0, 0), total: d(false, 0, 0) },
    ];
    let (_, a) = ftx_command_step(s, FtxEvent::Balances(bs));
    assert_eq!(
        a.print,
        vec![
            "[2 Balance types]".to_string(),
            "  \u{1b}[1mUSD\u{1b}[0m".to_string(),
            "     Free:  50 (25.00%)".to_string(),
            "     Total: 200".to_string(),
            "".to_string(),
            "  \u{1b}[1mBTC\u{1b}[0m".to_string(),
            "     Free:  0 (0%)".to_string(),
            "     Total: 0".to_string(),
            "".to_string(),
        ]
    );
}

#[test]
fn ftx_order_run_goes_through_every_step() {
    let (run, a) = ftx_order_start("BTC-PERP".to_string(), "def".to_string());
    assert!(matches!(a.next, FtxOrderNext::FetchMarket(ref p) if p == "BTC-PERP"));
    let (run, a) = ftx_order_step(
        run,
        FtxOrderEvent::Market {
            leverage: d(false, 5, 0),
            taker_fee: d(false, 7, 4),
            maker_fee: d(false, 2, 4),
            price: d(false, 100, 0),
            bid: "99".to_string(),
            ask: "101".to_string(),
            quote: None,
        },
    );
    assert!(matches!(a.next, FtxOrderNext::FetchBalances(ref s) if s == "def"));
    assert_eq!(run.inputs.quote, "USD");
    let bal = vec![FtxBalance { coin: "USD".to_string(), free: d(false, 1000, 0), total: d(false, 1000, 0) }];
    let (run, a) = ftx_order_step(run, FtxOrderEvent::Balances(bal));
    assert!(matches!(a.next, FtxOrderNext::Ask(ref p) if p == "[Risk % of sub]"));
    let (run, _) = ftx_order_step(run, FtxOrderEvent::Answer("1".to_string()));
    let (run, _) = ftx_order_step(run, FtxOrderEvent::Answer("90".to_string()));
    let (run, a) = ftx_order_step(run, FtxOrderEvent::Answer("120".to_string()));
    assert_eq!(a.print, vec!["    Bid: 99".to_string(), "    Ask: 101".to_string()]);
    let (run, a) = ftx_order_step(run, FtxOrderEvent::Answer("m".to_string()));
    assert_eq!(run.stage, OrderStage::Confirm);
    assert!(run.islong);
    assert!(a.print.contains(&"    Direction Type: Long".to_string()));
    assert!(a.print.contains(&"    Leverage: 5".to_string()));
    let (run, a) = ftx_order_step(run, FtxOrderEvent::Answer("y".to_string()));
    assert_eq!(a.print, vec!["  HIT: Confirmed".to_string()]);
    match &a.next {
        FtxOrderNext::PlaceEntry(o) => {
            assert!(o.ismarket && o.islong);
            assert_eq!(o.entry, Some(d(false, 100, 0)));
        }
        _ => panic!("expected the entry order"),
    }
    let (run, a) = ftx_order_step(run, FtxOrderEvent::Placed { id: "1".to_string(), kind: "Market".to_string() });
    assert!(matches!(a.next, FtxOrderNext::Ask(ref p) if p == "SL [m]"));
    let (run, a) = ftx_order_step(run, FtxOrderEvent::Answer("x".to_string()));
    assert_eq!(a.print, vec!["You must choose a stoploss type".to_string()]);
    let (run, a) = ftx_order_step(run, FtxOrderEvent::Answer("M".to_string()));
    assert!(matches!(a.next, FtxOrderNext::PlaceStop(_)));
    let (run, _) = ftx_order_step(run, FtxOrderEvent::Placed { id: "2".to_string(), kind: String::new() });
    let (run, a) = ftx_order_step(run, FtxOrderEvent::Answer("m".to_string()));
    assert!(matches!(a.next, FtxOrderNext::PlaceTakeProfit(_)));
    let (run, a) = ftx_order_step(run, FtxOrderEvent::Placed { id: "3".to_string(), kind: String::new() });
    assert_eq!(run.stage, OrderStage::Done);
    assert!(matches!(a.next, FtxOrderNext::Finished));
    assert_eq!(a.print[1], "  Take-profit order id: 3");
    assert_eq!(a.print.last().unwrap(), "\u{1b}[1m  ORDER COMPLETE!\u{1b}[0m");
}

#[test]
fn ftx_order_run_stops_without_funds() {
    let (run, _) = ftx_order_start("ETH/BTC".to_string(), "def".to_string());
    let (run, _) = ftx_order_step(
        run,
        FtxOrderEvent::Market {
            leverage: d(false, 1, 0),
            taker_fee: d(false, 7, 4),
            maker_fee: d(false, 2, 4),
            price: d(false, 7, 2),
            bid: "0.07".to_string(),
            ask: "0.07".to_string(),
            quote: Some("BTC".to_string()),
        },
    );
    let bal = vec![FtxBalance { coin: "USD".to_string(), free: d(false, 1, 0), total: d(false, 1, 0) }];
    let (_, a) = ftx_order_step(run, FtxOrderEvent::Balances(bal));
    assert!(matches!(a.next, FtxOrderNext::Fail(ref e) if e.message == "You have no base currency matching the current pair"));
}

#[test]
fn a_fill_marks_the_trades_with_its_order_id() {
    let ids = vec!["101".to_string(), "202".to_string(), "101".to_string()];
    assert_eq!(ftx_filled_trades(&ids, "101"), vec![true, false, true]);
    assert_eq!(ftx_filled_trades(&ids, "303"), vec![false, false, false]);
    assert_eq!(ftx_filled_trades(&Vec::new(), "101"), Vec::<bool>::new());
}

#[test]
fn leverage_is_read_as_std_reads_a_u32() {
    let (s, a) = ftx_command_step(ready("def", "BTC-PERP"), FtxEvent::Command("lev +7".to_string()));
    assert!(matches!(a.next, FtxNext::FetchAccount));
    let (_, a) = ftx_command_step(s, FtxEvent::Texts(vec!["10".to_string()]));
    assert!(matches!(a.next, FtxNext::ChangeLeverage(7)));
    for bad in ["lev 4294967296", "lev -1", "lev ", "lev 1_0"] {
        let (_, a) = ftx_command_step(ready("def", "BTC-PERP"), FtxEvent::Command(bad.to_string()));
        assert!(matches!(a.next, FtxNext::Fail(_)), "{}", bad);
    }
}
