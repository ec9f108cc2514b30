use termcrypt::advanced_orders::{now_order_plan as first_plan, NowOrder as FirstNowOrder, NowOrderPlan as FirstPlan};
use termcrypt::decimal::DecimalValue;
use termcrypt::ftx_advanced_orders::{
    now_order_plan, sl_order_side, tp_order_side, NowOrder, NowOrderPlan, OrderSide, SLOrder, SLType, TPOrder, TPType,
};
use termcrypt::ftx_inter::calculate_fees;
use termcrypt::utils::{_round_dp_up, round_dp_tz};

fn d(negative: bool, magnitude: u128, scale: u32) -> DecimalValue {
    DecimalValue { negative, magnitude, scale }
}

#[test]
fn truncation_drops_digits() {
    assert_eq!(round_dp_tz(d(false, 12345, 3), 1), d(false, 123, 1));
    assert_eq!(round_dp_tz(d(true, 12399, 2), 0), d(true, 123, 0));
    assert_eq!(round_dp_tz(d(false, 5, 0), 3), d(false, 5, 0));
    assert_eq!(round_dp_tz(d(true, 5, 1), 0), d(false, 0, 0));
    assert_eq!(round_dp_tz(d(true, 0, 3), 1), d(true, 0, 1));
}

#[test]
fn rounding_up_goes_away_from_zero() {
    assert_eq!(_round_dp_up(d(false, 125, 2), 1), d(false, 13, 1));
    assert_eq!(_round_dp_up(d(true, 125, 2), 1), d(true, 13, 1));
    assert_eq!(_round_dp_up(d(false, 121, 2), 1), d(false, 13, 1));
    assert_eq!(_round_dp_up(d(false, 120, 2), 1), d(false, 12, 1));
    assert_eq!(_round_dp_up(d(true, 1, 3), 0), d(true, 1, 0));
    assert_eq!(_round_dp_up(d(false, 7, 0), 2), d(false, 7, 0));
}

#[test]
fn fees_use_taker_or_maker_rate() {
    // 1234.5 at 0.07% taker = 0.86415 -> 0.864; at 0.02% maker = 0.2469 -> 0.247
    let q = d(false, 12345, 1);
    let taker = d(false, 7, 4);
    let maker = d(false, 2, 4);
    assert_eq!(calculate_fees(true, q, taker, maker), d(false, 864, 3));
    assert_eq!(calculate_fees(false, q, taker, maker), d(false, 247, 3));
}

#[test]
fn fees_round_halves_to_even() {
    // 12.5 * 0.001 = 0.0125 -> 0.012; 13.5 * 0.001 = 0.0135 -> 0.014
    let rate = d(false, 1, 3);
    assert_eq!(calculate_fees(true, d(false, 125, 1), rate, rate), d(false, 12, 3));
    assert_eq!(calculate_fees(false, d(false, 135, 1), rate, rate), d(false, 14, 3));
    // A product that needs no rounding keeps its digits.
    assert_eq!(calculate_fees(true, d(false, 2, 0), d(false, 15, 1), rate), d(false, 30, 1));
}

fn order(islong: bool, entry: Option<DecimalValue>, ismarket: bool, isorderbook: bool) -> NowOrder {
    NowOrder {
        pair: "BTC-PERP".to_string(),
        islong,
        real_quantity: d(false, 1, 0),
        ismarket,
        entry,
        price: d(false, 100, 0),
        isorderbook,
        orderbookpos: None,
    }
}

#[test]
fn entry_plans() {
    let above = Some(d(false, 110, 0));
    let below = Some(d(false, 90, 0));
    assert_eq!(now_order_plan(&order(true, above, false, false)), NowOrderPlan::Trigger(d(false, 110, 0)));
    assert_eq!(now_order_plan(&order(true, below, false, false)), NowOrderPlan::Limit(d(false, 90, 0)));
    assert_eq!(now_order_plan(&order(false, below, false, false)), NowOrderPlan::Trigger(d(false, 90, 0)));
    assert_eq!(now_order_plan(&order(false, above, false, false)), NowOrderPlan::Limit(d(false, 110, 0)));
    assert_eq!(now_order_plan(&order(false, above, false, true)), NowOrderPlan::OrderBook);
    assert_eq!(now_order_plan(&order(true, above, false, true)), NowOrderPlan::Trigger(d(false, 110, 0)));
    assert_eq!(now_order_plan(&order(true, None, true, false)), NowOrderPlan::Market);
    assert_eq!(now_order_plan(&order(true, Some(d(false, 100, 0)), false, false)), NowOrderPlan::Unsupported);
}

#[test]
fn first_interface_entry_plans() {
    let mk = |entry: Option<DecimalValue>, ismarket: bool, isorderbook: bool| FirstNowOrder {
        pair: "BTC-PERP".to_string(),
        islong: true,
        real_quantity: d(false, 1, 0),
        ismarket,
        entry,
        price: d(false, 100, 0),
        isorderbook,
        orderbookpos: None,
    };
    assert_eq!(first_plan(&mk(Some(d(false, 101, 0)), true, false)), FirstPlan::Trigger(d(false, 101, 0)));
    assert_eq!(first_plan(&mk(Some(d(false, 99, 0)), true, false)), FirstPlan::Market);
    assert_eq!(first_plan(&mk(None, false, true)), FirstPlan::OrderBook);
    assert_eq!(first_plan(&mk(None, false, false)), FirstPlan::Unsupported);
}

#[test]
fn exit_orders_close_the_position() {
    let sl = SLOrder { pair: "X".to_string(), islong: true, real_quantity: d(false, 1, 0), stop_price: d(false, 1, 0), sl_type: SLType::M };
    assert_eq!(sl_order_side(&sl).ok(), Some(OrderSide::Sell));
    let hs = SLOrder { sl_type: SLType::Hs, ..sl };
    assert_eq!(sl_order_side(&hs).err().unwrap().message, "Type not ready yet.");
    let tp = TPOrder { pair: "X".to_string(), islong: false, real_quantity: d(false, 1, 0), tp_price: d(false, 1, 0), tp_type: TPType::M };
    assert_eq!(tp_order_side(&tp).ok(), Some(OrderSide::Buy));
    let ob = TPOrder { tp_type: TPType::Ob, ..tp };
    assert!(tp_order_side(&ob).is_err());
}

#[test]
fn truncating_twice_is_truncating_once() {
    for x in [d(false, 98765, 4), d(true, 5, 1), d(false, 3, 0), d(true, 0, 2)] {
        for places in [0u32, 1, 2, 5] {
            let once = round_dp_tz(x, places);
            assert_eq!(round_dp_tz(once, places), once);
        }
    }
}
