//! Which order an entry request placed through the first order interface.

use vstd::prelude::*;

use crate::decimal::{decimal_gt, greater, DecimalValue};
use crate::ftx_advanced_orders::{
    asks_orderbook, entry_side, fails_with, no_order_type_message, orderbook_attempts, orderbook_step, places_order,
    places_trigger, retries_exhausted_message, FtxOrderCall, OrderEvent, OrderSide, OrderStep, PlainKind, TriggerKind,
};
use crate::TermError;

verus! {

/// An entry order request.
pub struct NowOrder {
    pub pair: String,
    pub islong: bool,
    pub real_quantity: DecimalValue,
    pub ismarket: bool,
    pub entry: Option<DecimalValue>,
    pub price: DecimalValue,
    pub isorderbook: bool,
    pub orderbookpos: Option<DecimalValue>,
}

/// The order an entry request places.
#[derive(Copy, Clone, Debug, PartialEq, Eq, Structural)]
pub enum NowOrderPlan {
    /// A stop order triggered at the entry, which is above the market.
    Trigger(DecimalValue),
    /// A market order.
    Market,
    /// A limit order at a depth of the order book, retried.
    OrderBook,
    /// Nothing can be placed.
    Unsupported,
}

/// The order an entry request places: an entry above the market triggers a
/// stop; otherwise a market, order-book or unsupported order.
pub open spec fn now_order_plan_of(o: NowOrder) -> NowOrderPlan {
    if o.entry matches Some(entry) && greater(entry, o.price) {
        NowOrderPlan::Trigger(o.entry->0)
    } else if o.ismarket {
        NowOrderPlan::Market
    } else if o.isorderbook {
        NowOrderPlan::OrderBook
    } else {
        NowOrderPlan::Unsupported
    }
}

/// Decides the order an entry request places.
pub fn now_order_plan(o: &NowOrder) -> (r: NowOrderPlan)
    requires
        o.price.wf(),
        o.entry matches Some(e) ==> e.wf(),
    ensures
        r == now_order_plan_of(*o),
{
    if let Some(entry) = o.entry {
        if decimal_gt(entry, o.price) {
            return NowOrderPlan::Trigger(entry);
        }
    }
    if o.ismarket {
        NowOrderPlan::Market
    } else if o.isorderbook {
        NowOrderPlan::OrderBook
    } else {
        NowOrderPlan::Unsupported
    }
}

/// The first step of an entry order: a reduce-only trigger stop at an entry
/// above the market, a market order, a look at the order book, or a failure;
/// the run's result is the reply of the order.
pub fn now_order_start(o: &NowOrder) -> (r: OrderStep)
    requires
        o.price.wf(),
        o.entry matches Some(e) ==> e.wf(),
    ensures
        match now_order_plan_of(*o) {
            NowOrderPlan::Trigger(e) => places_trigger(r, o.pair@, entry_side(o.islong), o.real_quantity,
                TriggerKind::Stop, e, Some(true)),
            NowOrderPlan::Market => places_order(r, o.pair@, entry_side(o.islong), None, PlainKind::Market,
                o.real_quantity, None),
            NowOrderPlan::OrderBook => asks_orderbook(r, o.pair@),
            NowOrderPlan::Unsupported => fails_with(r, no_order_type_message()),
        },
{
    let side = if o.islong { OrderSide::Buy } else { OrderSide::Sell };
    match now_order_plan(o) {
        NowOrderPlan::Trigger(e) => OrderStep::Call(FtxOrderCall::PlaceTrigger {
            pair: o.pair.clone(),
            side,
            size: o.real_quantity,
            trigger_kind: TriggerKind::Stop,
            trigger_price: e,
            reduce_only: Some(true),
        }),
        NowOrderPlan::Market => OrderStep::Call(FtxOrderCall::PlaceOrder {
            pair: o.pair.clone(),
            side,
            price: None,
            order_kind: PlainKind::Market,
            size: o.real_quantity,
            post_only: None,
        }),
        NowOrderPlan::OrderBook => OrderStep::Call(FtxOrderCall::GetOrderbook { pair: o.pair.clone(), depth: 10 }),
        NowOrderPlan::Unsupported => OrderStep::Fail(
            TermError { message: String::from_str("No order types supported for function yet") },
        ),
    }
}

/// The step after an entry order's call replied, at order-book attempt
/// `attempt`: the order-book entry goes on as `orderbook_step` says (its
/// limit orders not post-only, at level `pos`); any other placed order ends
/// the run with its reply.
pub fn now_order_next(o: &NowOrder, pos: usize, attempt: u32, event: &OrderEvent) -> (r: (u32, OrderStep))
    requires
        o.price.wf(),
        o.entry matches Some(e) ==> e.wf(),
        1 <= attempt <= orderbook_attempts(),
        event matches OrderEvent::Book { bids, asks } ==> pos < (if o.islong { bids@.len() } else { asks@.len() }),
    ensures
        now_order_plan_of(*o) != NowOrderPlan::OrderBook ==> r.1 is Return,
        now_order_plan_of(*o) == NowOrderPlan::OrderBook ==> match event {
            OrderEvent::Book { bids, asks } => r.0 == attempt && places_order(r.1, o.pair@, entry_side(o.islong),
                Some(if o.islong { bids@[pos as int] } else { asks@[pos as int] }), PlainKind::Limit,
                o.real_quantity, None),
            OrderEvent::Placed { ok } => if *ok {
                r.1 is Return
            } else if attempt < orderbook_attempts() {
                r.0 == attempt + 1 && asks_orderbook(r.1, o.pair@)
            } else {
                fails_with(r.1, retries_exhausted_message())
            },
        },
{
    match now_order_plan(o) {
        NowOrderPlan::OrderBook => orderbook_step(&o.pair, o.islong, o.real_quantity, None, pos, attempt, event),
        _ => (attempt, OrderStep::Return),
    }
}

} // verus!
