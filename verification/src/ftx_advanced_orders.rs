//! Which FTX order an entry, stop-loss or take-profit request places.

use vstd::prelude::*;
use vstd::string::*;

use crate::decimal::{decimal_gt, greater, DecimalValue};
use crate::TermError;

verus! {

/// Buy or sell.
#[derive(Copy, Clone, Debug, PartialEq, Eq, Structural)]
pub enum OrderSide {
    Buy,
    Sell,
}

/// An entry order request.
pub struct NowOrder {
    pub pair: String,
    pub islong: bool,
    pub real_quantity: DecimalValue,
    pub ismarket: bool,
    pub entry: Option<DecimalValue>,
    pub price: DecimalValue,
    pub isorderbook: bool,
    pub orderbookpos: Option<DecimalValue>,
}

/// A stop-loss order request.
pub struct SLOrder {
    pub pair: String,
    pub islong: bool,
    pub real_quantity: DecimalValue,
    pub stop_price: DecimalValue,
    pub sl_type: SLType,
}

/// A take-profit order request.
pub struct TPOrder {
    pub pair: String,
    pub islong: bool,
    pub real_quantity: DecimalValue,
    pub tp_price: DecimalValue,
    pub tp_type: TPType,
}

/// Stop-loss kinds.
#[derive(Copy, Clone, Debug, PartialEq, Eq, Structural)]
pub enum SLType {
    /// Market stop.
    M,
    /// Hard and soft stop (not available yet).
    Hs,
}

/// Take-profit kinds.
#[derive(Copy, Clone, Debug, PartialEq, Eq, Structural)]
pub enum TPType {
    /// Market take-profit.
    M,
    /// Order-book limit take-profit (not available yet).
    Ob,
}

/// The order an entry request places.
#[derive(Copy, Clone, Debug, PartialEq, Eq, Structural)]
pub enum NowOrderPlan {
    /// A stop order triggered at the entry (entry on the far side of the market).
    Trigger(DecimalValue),
    /// A limit order at the entry (entry on the near side of the market).
    Limit(DecimalValue),
    /// A market order.
    Market,
    /// A limit order at a depth of the order book, retried.
    OrderBook,
    /// Nothing can be placed.
    Unsupported,
}

/// The side of an entry.
pub open spec fn entry_side(islong: bool) -> OrderSide {
    if islong {
        OrderSide::Buy
    } else {
        OrderSide::Sell
    }
}

/// The side that closes a position.
pub open spec fn exit_side(islong: bool) -> OrderSide {
    if islong {
        OrderSide::Sell
    } else {
        OrderSide::Buy
    }
}

/// The order an entry request places: an entry beyond the market (above it
/// for a long, below for a short) triggers a stop; one inside it rests as a
/// limit; without an entry the request is a market, order-book or unsupported
/// order. A short's conditions also need the request not to be an order-book one.
pub open spec fn now_order_plan_of(o: NowOrder) -> NowOrderPlan {
    match o.entry {
        Some(entry) => {
            if (greater(entry, o.price) && o.islong) || (greater(o.price, entry) && !o.islong && !o.isorderbook) {
                NowOrderPlan::Trigger(entry)
            } else if (greater(o.price, entry) && o.islong) || (greater(entry, o.price) && !o.islong && !o.isorderbook) {
                NowOrderPlan::Limit(entry)
            } else {
                fallback_plan(o)
            }
        },
        None => fallback_plan(o),
    }
}

/// The order placed when no entry price decides it.
pub open spec fn fallback_plan(o: NowOrder) -> NowOrderPlan {
    if o.ismarket {
        NowOrderPlan::Market
    } else if o.isorderbook {
        NowOrderPlan::OrderBook
    } else {
        NowOrderPlan::Unsupported
    }
}

fn fallback(o: &NowOrder) -> (r: NowOrderPlan)
    ensures
        r == fallback_plan(*o),
{
    if o.ismarket {
        NowOrderPlan::Market
    } else if o.isorderbook {
        NowOrderPlan::OrderBook
    } else {
        NowOrderPlan::Unsupported
    }
}

/// Decides the order an entry request places.
pub fn now_order_plan(o: &NowOrder) -> (r: NowOrderPlan)
    requires
        o.price.wf(),
        o.entry matches Some(e) ==> e.wf(),
    ensures
        r == now_order_plan_of(*o),
{
    match o.entry {
        Some(entry) => {
            let above = decimal_gt(entry, o.price);
            let below = decimal_gt(o.price, entry);
            if (above && o.islong) || (below && !o.islong && !o.isorderbook) {
                NowOrderPlan::Trigger(entry)
            } else if (below && o.islong) || (above && !o.islong && !o.isorderbook) {
                NowOrderPlan::Limit(entry)
            } else {
                fallback(o)
            }
        },
        None => fallback(o),
    }
}

/// The message for an order kind that is not available.
pub open spec fn not_ready_message() -> Seq<char> {
    "Type not ready yet."@
}

/// The side of a stop-loss order; hard/soft stops are not available yet.
pub fn sl_order_side(o: &SLOrder) -> (r: Result<OrderSide, TermError>)
    ensures
        match r {
            Ok(side) => o.sl_type == SLType::M && side == exit_side(o.islong),
            Err(e) => o.sl_type == SLType::Hs && e.message@ == not_ready_message(),
        },
{
    match o.sl_type {
        SLType::M => Ok(if o.islong { OrderSide::Sell } else { OrderSide::Buy }),
        SLType::Hs => Err(TermError { message: String::from_str("Type not ready yet.") }),
    }
}

/// The side of a take-profit order; order-book take-profits are not available
/// yet.
pub fn tp_order_side(o: &TPOrder) -> (r: Result<OrderSide, TermError>)
    ensures
        match r {
            Ok(side) => o.tp_type == TPType::M && side == exit_side(o.islong),
            Err(e) => o.tp_type == TPType::Ob && e.message@ == not_ready_message(),
        },
{
    match o.tp_type {
        TPType::M => Ok(if o.islong { OrderSide::Sell } else { OrderSide::Buy }),
        TPType::Ob => Err(TermError { message: String::from_str("Type not ready yet.") }),
    }
}

/// The kind of a trigger order (`ftx::rest::OrderType::Stop` or `TakeProfit`).
#[derive(Copy, Clone, Debug, PartialEq, Eq, Structural)]
pub enum TriggerKind {
    Stop,
    TakeProfit,
}

/// The kind of a plain order (`ftx::rest::OrderType::Limit` or `Market`).
#[derive(Copy, Clone, Debug, PartialEq, Eq, Structural)]
pub enum PlainKind {
    Limit,
    Market,
}

/// A call on the FTX REST client that an order run makes; every argument the
/// call takes is fixed here.
pub enum FtxOrderCall {
    /// `place_trigger_order(pair, side, size, trigger_kind, trigger_price, reduce_only, None, None, None)`.
    PlaceTrigger {
        pair: String,
        side: OrderSide,
        size: DecimalValue,
        trigger_kind: TriggerKind,
        trigger_price: DecimalValue,
        reduce_only: Option<bool>,
    },
    /// `place_order(pair, side, price, order_kind, size, None, None, post_only, None)`.
    PlaceOrder {
        pair: String,
        side: OrderSide,
        price: Option<DecimalValue>,
        order_kind: PlainKind,
        size: DecimalValue,
        post_only: Option<bool>,
    },
    /// `get_orderbook(pair, Some(depth))`.
    GetOrderbook { pair: String, depth: u32 },
}

/// What an order run does next.
pub enum OrderStep {
    /// Make this call and report how it went.
    Call(FtxOrderCall),
    /// The run is over: its result is the reply of the order it placed last.
    Return,
    /// The run fails with this error.
    Fail(TermError),
}

/// What the application reports back to an order run.
pub enum OrderEvent {
    /// An order placement replied, successfully or not.
    Placed { ok: bool },
    /// The order book arrived: the bid and ask prices by level.
    Book { bids: Vec<DecimalValue>, asks: Vec<DecimalValue> },
}

/// The step places a trigger order with these arguments.
pub open spec fn places_trigger(
    s: OrderStep,
    pair: Seq<char>,
    side: OrderSide,
    size: DecimalValue,
    kind: TriggerKind,
    price: DecimalValue,
    reduce_only: Option<bool>,
) -> bool {
    &&& s matches OrderStep::Call(FtxOrderCall::PlaceTrigger { pair: p, side: sd, size: sz, trigger_kind: k, trigger_price: t, reduce_only: ro })
    &&& p@ == pair && sd == side && sz == size && k == kind && t == price && ro == reduce_only
}

/// The step places a plain order with these arguments.
pub open spec fn places_order(
    s: OrderStep,
    pair: Seq<char>,
    side: OrderSide,
    price: Option<DecimalValue>,
    kind: PlainKind,
    size: DecimalValue,
    post_only: Option<bool>,
) -> bool {
    &&& s matches OrderStep::Call(FtxOrderCall::PlaceOrder { pair: p, side: sd, price: pr, order_kind: k, size: sz, post_only: po })
    &&& p@ == pair && sd == side && pr == price && k == kind && sz == size && po == post_only
}

/// The step fetches the ten best levels of the order book of `pair`.
pub open spec fn asks_orderbook(s: OrderStep, pair: Seq<char>) -> bool {
    s matches OrderStep::Call(FtxOrderCall::GetOrderbook { pair: p, depth: d }) && p@ == pair && d == 10
}

/// The step fails with the message `message`.
pub open spec fn fails_with(s: OrderStep, message: Seq<char>) -> bool {
    s matches OrderStep::Fail(e) && e.message@ == message
}

/// The number of order-book attempts an order-book entry makes.
pub open spec fn orderbook_attempts() -> u32 {
    9
}

/// The message when every order-book attempt failed.
pub open spec fn retries_exhausted_message() -> Seq<char> {
    "Order failed after multiple tries."@
}

/// The message when an entry request names no order that can be placed.
pub open spec fn no_order_type_message() -> Seq<char> {
    "No order types supported for function yet"@
}

/// The first step of an entry order: a trigger stop at an entry beyond the
/// market, a post-only limit at an entry inside it, a market order, a look at
/// the order book, or a failure; the run's result is the reply of the order.
pub fn now_order_start(o: &NowOrder) -> (r: OrderStep)
    requires
        o.price.wf(),
        o.entry matches Some(e) ==> e.wf(),
    ensures
        match now_order_plan_of(*o) {
            NowOrderPlan::Trigger(e) => places_trigger(r, o.pair@, entry_side(o.islong), o.real_quantity,
                TriggerKind::Stop, e, None),
            NowOrderPlan::Limit(e) => places_order(r, o.pair@, entry_side(o.islong), Some(e), PlainKind::Limit,
                o.real_quantity, Some(true)),
            NowOrderPlan::Market => places_order(r, o.pair@, entry_side(o.islong), None, PlainKind::Market,
                o.real_quantity, None),
            NowOrderPlan::OrderBook => asks_orderbook(r, o.pair@),
            NowOrderPlan::Unsupported => fails_with(r, no_order_type_message()),
        },
{
    let side = if o.islong { OrderSide::Buy } else { OrderSide::Sell };
    match now_order_plan(o) {
        NowOrderPlan::Trigger(e) => OrderStep::Call(FtxOrderCall::PlaceTrigger {
            pair: o.pair.clone(),
            side,
            size: o.real_quantity,
            trigger_kind: TriggerKind::Stop,
            trigger_price: e,
            reduce_only: None,
        }),
        NowOrderPlan::Limit(e) => OrderStep::Call(FtxOrderCall::PlaceOrder {
            pair: o.pair.clone(),
            side,
            price: Some(e),
            order_kind: PlainKind::Limit,
            size: o.real_quantity,
            post_only: Some(true),
        }),
        NowOrderPlan::Market => OrderStep::Call(FtxOrderCall::PlaceOrder {
            pair: o.pair.clone(),
            side,
            price: None,
            order_kind: PlainKind::Market,
            size: o.real_quantity,
            post_only: None,
        }),
        NowOrderPlan::OrderBook => OrderStep::Call(FtxOrderCall::GetOrderbook { pair: o.pair.clone(), depth: 10 }),
        NowOrderPlan::Unsupported => OrderStep::Fail(
            TermError { message: String::from_str("No order types supported for function yet") },
        ),
    }
}

/// One step of an order-book entry at attempt `attempt` (from one): the book
/// gives the price at level `pos` (bids for a long, asks for a short), where a
/// limit order of `size` is placed (post-only as `post_only` says); a placed
/// order ends the run, a refused one is retried from the book until the
/// attempts run out. Returns the next attempt number with the step.
pub fn orderbook_step(
    pair: &String,
    islong: bool,
    size: DecimalValue,
    post_only: Option<bool>,
    pos: usize,
    attempt: u32,
    event: &OrderEvent,
) -> (r: (u32, OrderStep))
    requires
        1 <= attempt <= orderbook_attempts(),
        event matches OrderEvent::Book { bids, asks } ==> pos < (if islong { bids@.len() } else { asks@.len() }),
    ensures
        match event {
            OrderEvent::Book { bids, asks } => r.0 == attempt && places_order(r.1, pair@, entry_side(islong),
                Some(if islong { bids@[pos as int] } else { asks@[pos as int] }), PlainKind::Limit, size, post_only),
            OrderEvent::Placed { ok } => if *ok {
                r.1 is Return
            } else if attempt < orderbook_attempts() {
                r.0 == attempt + 1 && asks_orderbook(r.1, pair@)
            } else {
                fails_with(r.1, retries_exhausted_message())
            },
        },
{
    match event {
        OrderEvent::Book { bids, asks } => {
            let level = if islong { bids[pos] } else { asks[pos] };
            let side = if islong { OrderSide::Buy } else { OrderSide::Sell };
            (attempt, OrderStep::Call(FtxOrderCall::PlaceOrder {
                pair: pair.clone(),
                side,
                price: Some(level),
                order_kind: PlainKind::Limit,
                size,
                post_only,
            }))
        },
        OrderEvent::Placed { ok } => {
            if *ok {
                (attempt, OrderStep::Return)
            } else if attempt < 9 {
                (attempt + 1, OrderStep::Call(FtxOrderCall::GetOrderbook { pair: pair.clone(), depth: 10 }))
            } else {
                (attempt, OrderStep::Fail(TermError { message: String::from_str("Order failed after multiple tries.") }))
            }
        },
    }
}

/// The step after an entry order's call replied, at order-book attempt
/// `attempt`: the order-book entry goes on as `orderbook_step` says (its
/// limit orders post-only, at level `pos`); any other placed order ends the
/// run with its reply.
pub fn now_order_next(o: &NowOrder, pos: usize, attempt: u32, event: &OrderEvent) -> (r: (u32, OrderStep))
    requires
        o.price.wf(),
        o.entry matches Some(e) ==> e.wf(),
        1 <= attempt <= orderbook_attempts(),
        event matches OrderEvent::Book { bids, asks } ==> pos < (if o.islong { bids@.len() } else { asks@.len() }),
    ensures
        now_order_plan_of(*o) != NowOrderPlan::OrderBook ==> r.1 is Return,
        now_order_plan_of(*o) == NowOrderPlan::OrderBook ==> match event {
            OrderEvent::Book { bids, asks } => r.0 == attempt && places_order(r.1, o.pair@, entry_side(o.islong),
                Some(if o.islong { bids@[pos as int] } else { asks@[pos as int] }), PlainKind::Limit,
                o.real_quantity, Some(true)),
            OrderEvent::Placed { ok } => if *ok {
                r.1 is Return
            } else if attempt < orderbook_attempts() {
                r.0 == attempt + 1 && asks_orderbook(r.1, o.pair@)
            } else {
                fails_with(r.1, retries_exhausted_message())
            },
        },
{
    match now_order_plan(o) {
        NowOrderPlan::OrderBook => orderbook_step(&o.pair, o.islong, o.real_quantity, Some(true), pos, attempt, event),
        _ => (attempt, OrderStep::Return),
    }
}

/// The stop-loss order call: a reduce-only stop on the closing side at the
/// stop price; hard/soft stops are not available yet.
pub fn sl_order_call(o: &SLOrder) -> (r: OrderStep)
    ensures
        o.sl_type == SLType::M ==> places_trigger(r, o.pair@, exit_side(o.islong), o.real_quantity,
            TriggerKind::Stop, o.stop_price, Some(true)),
        o.sl_type == SLType::Hs ==> fails_with(r, not_ready_message()),
{
    match sl_order_side(o) {
        Ok(side) => OrderStep::Call(FtxOrderCall::PlaceTrigger {
            pair: o.pair.clone(),
            side,
            size: o.real_quantity,
            trigger_kind: TriggerKind::Stop,
            trigger_price: o.stop_price,
            reduce_only: Some(true),
        }),
        Err(e) => OrderStep::Fail(e),
    }
}

/// The take-profit order call: a reduce-only take-profit on the closing side
/// at the take-profit price; order-book take-profits are not available yet.
pub fn tp_order_call(o: &TPOrder) -> (r: OrderStep)
    ensures
        o.tp_type == TPType::M ==> places_trigger(r, o.pair@, exit_side(o.islong), o.real_quantity,
            TriggerKind::TakeProfit, o.tp_price, Some(true)),
        o.tp_type == TPType::Ob ==> fails_with(r, not_ready_message()),
{
    match tp_order_side(o) {
        Ok(side) => OrderStep::Call(FtxOrderCall::PlaceTrigger {
            pair: o.pair.clone(),
            side,
            size: o.real_quantity,
            trigger_kind: TriggerKind::TakeProfit,
            trigger_price: o.tp_price,
            reduce_only: Some(true),
        }),
        Err(e) => OrderStep::Fail(e),
    }
}

} // verus!
