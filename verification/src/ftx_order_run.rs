//! The FTX `order` command as a state machine: it reads the market and the
//! balances, asks for risk, stop-loss, take-profit and entry, plans and
//! confirms the order, then places the entry, the stop-loss and the
//! take-profit and reports their fees.

use vstd::prelude::*;
use vstd::string::*;

use crate::decimal::{
    decimal_checked_product, decimal_checked_quotient, decimal_checked_sum, decimal_from_str, decimal_gt, decimal_product,
    quotient_is, same_number, lemma_quotients_agree,
    decimal_parse, decimal_text, decimal_to_string, decimal_try_add, decimal_try_div, decimal_try_mul, greater,
    round_dp, round_half_even, DecimalValue, MAX_MAGNITUDE, MAX_SCALE,
};
use crate::ftx_advanced_orders::{NowOrder, SLOrder, SLType, TPOrder, TPType};
use crate::ftx_inter::{
    dec, ftx_entry_choice, ftx_exit_is_market, ftx_order_plan, inputs_fit, overflow_message, plan_lines, plan_numbers,
    same_value, FtxEntryChoice, FtxOrderInputs,
};
use crate::ftx_session::{bold, FtxBalance};
use crate::text::{seq_ends_with, str_ends_with, str_equal, unicode_upper};
use crate::userspace::texts;
use crate::utils::{boldt, yn, yn_answer, yn_line, yn_report, YnAnswer};
use crate::TermError;

verus! {

/// Where an order run stands.
#[derive(Copy, Clone, Debug, PartialEq, Eq, Structural)]
pub enum OrderStage {
    /// Waiting for the account and the market.
    AwaitMarket,
    /// Waiting for the balances.
    AwaitBalances,
    AskRisk,
    AskStop,
    AskTake,
    AskEntry,
    AskBookPos,
    /// Waiting for the confirmation of the values.
    Confirm,
    /// Waiting for the confirmation of an unfavourable ratio.
    ConfirmRatio,
    /// Waiting for the entry order.
    AwaitMain,
    AskSl,
    /// Waiting for the stop-loss order.
    AwaitSl,
    AskTp,
    /// Waiting for the take-profit order.
    AwaitTp,
    /// The run is over.
    Done,
}

/// An order run: its stage, the pair, the market's price (and bid and ask as
/// shown), the inputs gathered so far and the planned direction, size, R
/// ratio and size in the base coin.
pub struct FtxOrderRun {
    pub stage: OrderStage,
    pub pair: String,
    pub price: DecimalValue,
    pub bid: String,
    pub ask: String,
    pub inputs: FtxOrderInputs,
    pub islong: bool,
    pub quantity: DecimalValue,
    pub ratio: DecimalValue,
    pub real_quantity: DecimalValue,
}

/// What the application reports back to an order run.
pub enum FtxOrderEvent {
    /// The account's leverage and fees, and the market's price, bid and ask
    /// (as shown) and quote currency.
    Market {
        leverage: DecimalValue,
        taker_fee: DecimalValue,
        maker_fee: DecimalValue,
        price: DecimalValue,
        bid: String,
        ask: String,
        quote: Option<String>,
    },
    /// The balances of the account.
    Balances(Vec<FtxBalance>),
    /// An answer to a prompt.
    Answer(String),
    /// An order was placed: its id and its type, as shown.
    Placed { id: String, kind: String },
}

/// What to do after printing.
pub enum FtxOrderNext {
    /// `get_account` and `get_market(pair)`: reply with `Market`.
    FetchMarket(String),
    /// The balances of this sub-account (`def` for the default account).
    FetchBalances(String),
    /// Ask the user, with this prompt.
    Ask(String),
    /// Run this entry order: reply with `Placed`.
    PlaceEntry(NowOrder),
    /// Run this stop-loss order: reply with `Placed`.
    PlaceStop(SLOrder),
    /// Run this take-profit order: reply with `Placed`.
    PlaceTakeProfit(TPOrder),
    /// The order is complete.
    Finished,
    /// The run fails with this error.
    Fail(TermError),
}

/// Lines to print, then what to do.
pub struct FtxOrderAction {
    pub print: Vec<String>,
    pub next: FtxOrderNext,
}

/// Every number of the run fits a `Decimal`.
pub open spec fn run_fits(r: FtxOrderRun) -> bool {
    r.price.wf() && inputs_fit(r.inputs) && r.quantity.wf() && r.ratio.wf() && r.real_quantity.wf()
}

/// A pair is a future (`PERP` or `1231`).
pub open spec fn is_future(pair: Seq<char>) -> bool {
    seq_ends_with(pair, "PERP"@) || seq_ends_with(pair, "1231"@)
}

/// The last balance of the coin `coin`.
pub open spec fn last_match(bs: Seq<FtxBalance>, coin: Seq<char>) -> Option<FtxBalance>
    decreases bs.len(),
{
    if bs.len() == 0 {
        None
    } else if bs.last().coin@ == coin {
        Some(bs.last())
    } else {
        last_match(bs.drop_last(), coin)
    }
}

/// The message when the account holds none of the quote currency.
pub open spec fn no_base_message() -> Seq<char> {
    "You have no base currency matching the current pair"@
}

/// The message when none of the quote currency is free.
pub open spec fn no_free_message() -> Seq<char> {
    "Your base currency for the current pair has no free liquidity"@
}

/// The message when a spot market names no quote currency.
pub open spec fn no_quote_message() -> Seq<char> {
    "The market has no quote currency"@
}

/// The message for a reply the stage does not wait for.
pub open spec fn unexpected_message() -> Seq<char> {
    "Unexpected reply"@
}

/// The run keeps its pair, market and inputs.
pub open spec fn keeps_run(n: FtxOrderRun, o: FtxOrderRun) -> bool {
    n.pair == o.pair && n.price == o.price && n.bid == o.bid && n.ask == o.ask && n.inputs == o.inputs
        && n.islong == o.islong && n.quantity == o.quantity && n.ratio == o.ratio && n.real_quantity
        == o.real_quantity
}

/// The action prints `lines` and asks with `prompt`.
pub open spec fn asks(a: FtxOrderAction, lines: Seq<Seq<char>>, prompt: Seq<char>) -> bool {
    texts(a.print@) == lines && (a.next matches FtxOrderNext::Ask(p) && p@ == prompt)
}

/// The action prints `lines` and fails with `message`.
pub open spec fn fails(a: FtxOrderAction, lines: Seq<Seq<char>>, message: Seq<char>) -> bool {
    texts(a.print@) == lines && (a.next matches FtxOrderNext::Fail(e) && e.message@ == message)
}

/// The action prints `lines` and fails with some error.
pub open spec fn fails_somehow(a: FtxOrderAction, lines: Seq<Seq<char>>) -> bool {
    texts(a.print@) == lines && a.next is Fail
}

/// The inputs with new answers.
pub open spec fn with_entry(i: FtxOrderInputs, entry: DecimalValue, ismarket: bool, isorderbook: bool, pos: DecimalValue) -> FtxOrderInputs {
    FtxOrderInputs { entry, ismarket, isorderbook, book_pos: pos, ..i }
}

/// Planning the order from the inputs `i`: its failure, or its lines and the
/// confirmation prompt.
pub open spec fn plan_step(o: FtxOrderRun, i: FtxOrderInputs, n: FtxOrderRun, a: FtxOrderAction) -> bool {
    match plan_numbers(i) {
        Err(m) => n.stage == OrderStage::Done && fails(a, Seq::empty(), m),
        Ok((islong, q, r, share, fees, fs)) => {
            &&& n.stage == OrderStage::Confirm && n.inputs == i && n.islong == islong && n.quantity == q && n.ratio == r
            &&& n.pair == o.pair && n.price == o.price
            &&& asks(a, plan_lines(i, islong, q, r, share, fees, fs), "(y/n)"@)
        },
    }
}

/// Placing the entry: its size in the base coin is the size over the price.
pub open spec fn entry_step(o: FtxOrderRun, before: Seq<Seq<char>>, n: FtxOrderRun, a: FtxOrderAction) -> bool {
    match decimal_checked_quotient(o.quantity, o.price) {
        None => n.stage == OrderStage::Done && fails(a, before, overflow_message()),
        Some(rq) => {
            &&& n.stage == OrderStage::AwaitMain && n.real_quantity == rq && n.pair == o.pair && n.inputs == o.inputs
            &&& n.islong == o.islong && n.quantity == o.quantity
            &&& texts(a.print@) == before
            &&& a.next matches FtxOrderNext::PlaceEntry(e) && e.pair@ == o.pair@ && e.islong == o.islong
                && e.real_quantity == rq && e.ismarket == o.inputs.ismarket && e.entry == Some(o.inputs.entry)
                && e.price == o.price && e.isorderbook == o.inputs.isorderbook && e.orderbookpos == (if o.inputs.isorderbook {
                Some(o.inputs.book_pos)
            } else {
                None
            })
        },
    }
}

/// The fee lines of the closing orders.
pub open spec fn closing_lines(i: FtxOrderInputs, id: Seq<char>, sl: DecimalValue, tp: DecimalValue, split: DecimalValue, sl_share: DecimalValue, tp_share: DecimalValue, split_share: DecimalValue) -> Seq<Seq<char>> {
    seq![
        ""@,
        "  Take-profit order id: "@ + id,
        ""@,
        "  SL Fees: "@ + decimal_text(sl) + " "@ + i.quote@ + " ("@ + decimal_text(round_half_even(sl_share, 6)) + "% of sub)"@,
        "  TP Fees: "@ + decimal_text(tp) + " "@ + i.quote@ + " ("@ + decimal_text(round_half_even(tp_share, 6)) + "% of sub)"@,
        "  Split TPSL Fees: "@ + decimal_text(split) + " "@ + i.quote@ + " ("@ + decimal_text(round_half_even(split_share, 6))
            + "% of sub)"@,
        ""@,
        bold("  ORDER COMPLETE!"@)
    ]
}

/// The fees of the closing orders (both market orders, so at the taker fee)
/// and their shares of the liquidity; none where the arithmetic overflows.
pub open spec fn closing_fees(i: FtxOrderInputs, q: DecimalValue) -> Option<(DecimalValue, DecimalValue, DecimalValue, DecimalValue, DecimalValue)> {
    match decimal_checked_product(q, i.taker_fee) {
        None => None,
        Some(p) => {
            let fee = round_half_even(p, 3);
            match (decimal_checked_quotient(fee, dec(2, 0)), decimal_checked_quotient(fee, i.total_liquid)) {
                (Some(half), Some(share)) => match decimal_checked_sum(half, half) {
                    Some(split) => match decimal_checked_quotient(split, i.total_liquid) {
                        Some(split_share) => Some((fee, share, split, split_share, half)),
                        None => None,
                    },
                    None => None,
                },
                _ => None,
            }
        },
    }
}

/// The fee of a market order of size `quantity`: the taker fee, rounded to
/// three places, as `calculate_fees(true, ..)` gives it.
pub open spec fn market_exit_fee(quantity: DecimalValue, taker_fee: DecimalValue) -> DecimalValue {
    round_half_even(decimal_product(quantity, taker_fee), 3)
}

/// The stop-loss and take-profit that close an order are market orders, so
/// the fee reported for each is the market (taker) fee of the order's size.
pub open spec fn exits_pay_taker_fee(o: FtxOrderRun) -> bool {
    closing_fees(o.inputs, o.quantity) matches Some(t) ==> t.0 == market_exit_fee(o.quantity, o.inputs.taker_fee)
}

/// The share of the liquidity reported for each exit fee is the fee over the
/// total liquidity, exactly wherever a `Decimal` holds that quotient.
pub open spec fn exit_share_of_liquidity(o: FtxOrderRun) -> bool {
    closing_fees(o.inputs, o.quantity) matches Some(t) ==> forall|x: DecimalValue|
        x.wf() && #[trigger] quotient_is(x, t.0, o.inputs.total_liquid) ==> same_number(t.1, x)
}

/// One step of an order run.
pub open spec fn order_step(o: FtxOrderRun, e: FtxOrderEvent, n: FtxOrderRun, a: FtxOrderAction) -> bool {
    match (o.stage, e) {
        (OrderStage::AwaitMarket, FtxOrderEvent::Market { leverage, taker_fee, maker_fee, price, bid, ask, quote }) => {
            if !(leverage.wf() && taker_fee.wf() && maker_fee.wf() && price.wf()) {
                n.stage == OrderStage::Done && fails(a, Seq::empty(), overflow_message())
            } else if !is_future(o.pair@) && quote is None {
                n.stage == OrderStage::Done && fails(a, Seq::empty(), no_quote_message())
            } else {
                &&& n.stage == OrderStage::AwaitBalances && n.pair == o.pair && n.price == price && n.bid == bid && n.ask == ask
                &&& n.inputs.leverage == leverage && n.inputs.taker_fee == taker_fee && n.inputs.maker_fee == maker_fee
                &&& n.inputs.isfuture == is_future(o.pair@)
                &&& n.inputs.quote@ == (if is_future(o.pair@) { "USD"@ } else { quote->0@ })
                &&& n.inputs.subaccount == o.inputs.subaccount
                &&& a.print@.len() == 0 && (a.next matches FtxOrderNext::FetchBalances(s) && s == o.inputs.subaccount)
            }
        },
        (OrderStage::AwaitBalances, FtxOrderEvent::Balances(bs)) => match last_match(bs@, o.inputs.quote@) {
            None => n.stage == OrderStage::Done && fails(a, Seq::empty(), no_base_message()),
            Some(b) => if !(b.free.wf() && b.total.wf()) {
                n.stage == OrderStage::Done && fails(a, Seq::empty(), overflow_message())
            } else if same_value(b.free, dec(0, 0)) {
                n.stage == OrderStage::Done && fails(a, Seq::empty(), no_free_message())
            } else {
                n.stage == OrderStage::AskRisk && n.inputs == (FtxOrderInputs { total_liquid: b.total, ..o.inputs })
                    && n.pair == o.pair && n.price == o.price && asks(a, Seq::empty(), "[Risk % of sub]"@)
            },
        },
        (OrderStage::AskRisk, FtxOrderEvent::Answer(t)) => match decimal_parse(t@) {
            None => n.stage == OrderStage::Done && fails_somehow(a, Seq::empty()),
            Some(v) => n.stage == OrderStage::AskStop && n.inputs == (FtxOrderInputs { risk: v, ..o.inputs })
                && n.pair == o.pair && n.price == o.price && asks(a, Seq::empty(), "[Stop-Loss]"@),
        },
        (OrderStage::AskStop, FtxOrderEvent::Answer(t)) => match decimal_parse(t@) {
            None => n.stage == OrderStage::Done && fails_somehow(a, Seq::empty()),
            Some(v) => n.stage == OrderStage::AskTake && n.inputs == (FtxOrderInputs { stoploss: v, ..o.inputs })
                && n.pair == o.pair && n.price == o.price && asks(a, Seq::empty(), "[Take-Profit]"@),
        },
        (OrderStage::AskTake, FtxOrderEvent::Answer(t)) => match decimal_parse(t@) {
            None => n.stage == OrderStage::Done && fails_somehow(a, Seq::empty()),
            Some(v) => n.stage == OrderStage::AskEntry && n.inputs == (FtxOrderInputs { takeprofit: v, ..o.inputs })
                && n.pair == o.pair && n.price == o.price && asks(
                a,
                seq!["    Bid: "@ + o.bid@, "    Ask: "@ + o.ask@],
                "[Entry | m | ob]"@,
            ),
        },
        (OrderStage::AskEntry, FtxOrderEvent::Answer(t)) => if unicode_upper(t@) == "M"@ {
            plan_step(o, with_entry(o.inputs, o.price, true, false, o.inputs.book_pos), n, a)
        } else if unicode_upper(t@) == "OB"@ {
            n.stage == OrderStage::AskBookPos && keeps_run(n, o) && asks(a, Seq::empty(), "[OrderBook Pos (0-9)]"@)
        } else {
            match decimal_parse(t@) {
                None => n.stage == OrderStage::Done && fails_somehow(a, Seq::empty()),
                Some(v) => plan_step(o, with_entry(o.inputs, v, false, false, o.inputs.book_pos), n, a),
            }
        },
        (OrderStage::AskBookPos, FtxOrderEvent::Answer(t)) => match decimal_parse(t@) {
            None => n.stage == OrderStage::Done && fails_somehow(a, Seq::empty()),
            Some(v) => plan_step(o, with_entry(o.inputs, o.price, false, true, v), n, a),
        },
        (OrderStage::Confirm, FtxOrderEvent::Answer(t)) => match yn_answer(unicode_upper(t@)) {
            None => n.stage == OrderStage::Done && fails_somehow(a, Seq::empty()),
            Some(y) => if greater(dec(1, 0), o.ratio) {
                n.stage == OrderStage::ConfirmRatio && keeps_run(n, o) && asks(
                    a,
                    seq![yn_line(y), ""@, bold("The SLTP ratio is not favourable. Proceed?"@)],
                    "(y/n)"@,
                )
            } else {
                entry_step(o, seq![yn_line(y)], n, a)
            },
        },
        (OrderStage::ConfirmRatio, FtxOrderEvent::Answer(t)) => match yn_answer(unicode_upper(t@)) {
            None => n.stage == OrderStage::Done && fails_somehow(a, Seq::empty()),
            Some(y) => entry_step(o, seq![yn_line(y)], n, a),
        },
        (OrderStage::AwaitMain, FtxOrderEvent::Placed { id, kind }) => n.stage == OrderStage::AskSl && keeps_run(n, o)
            && asks(
            a,
            seq!["  main order id: "@ + id@, "  main order type: "@ + kind@, ""@, bold("Stoploss options"@)],
            "SL [m]"@,
        ),
        (OrderStage::AskSl, FtxOrderEvent::Answer(t)) => if unicode_upper(t@) == "M"@ {
            n.stage == OrderStage::AwaitSl && keeps_run(n, o) && a.print@.len() == 0 && (a.next matches FtxOrderNext::PlaceStop(
                s,
            ) && s.pair@ == o.pair@ && s.islong == o.islong && s.real_quantity == o.real_quantity && s.stop_price
                == o.inputs.stoploss && s.sl_type == SLType::M)
        } else {
            n.stage == OrderStage::AskSl && keeps_run(n, o) && asks(a, seq!["You must choose a stoploss type"@], "SL [m]"@)
        },
        (OrderStage::AwaitSl, FtxOrderEvent::Placed { id, kind: _ }) => n.stage == OrderStage::AskTp && keeps_run(n, o)
            && asks(a, seq![""@, "  Stop order id: "@ + id@, ""@, bold("Take-profit options"@)], "TP [m]"@),
        (OrderStage::AskTp, FtxOrderEvent::Answer(t)) => if unicode_upper(t@) == "M"@ {
            n.stage == OrderStage::AwaitTp && keeps_run(n, o) && a.print@.len() == 0 && (
            a.next matches FtxOrderNext::PlaceTakeProfit(p) && p.pair@ == o.pair@ && p.islong == o.islong
                && p.real_quantity == o.real_quantity && p.tp_price == o.inputs.takeprofit && p.tp_type == TPType::M)
        } else {
            n.stage == OrderStage::AskTp && keeps_run(n, o) && asks(
                a,
                seq!["Err: You must choose a take-profit type!"@],
                "TP [m]"@,
            )
        },
        (OrderStage::AwaitTp, FtxOrderEvent::Placed { id, kind: _ }) => n.stage == OrderStage::Done && match closing_fees(
            o.inputs,
            o.quantity,
        ) {
            None => fails(a, Seq::empty(), overflow_message()),
            Some((fee, share, split, split_share, _half)) => texts(a.print@) == closing_lines(
                o.inputs,
                id@,
                fee,
                fee,
                split,
                share,
                share,
                split_share,
            ) && a.next is Finished,
        },
        _ => n.stage == OrderStage::Done && fails(a, Seq::empty(), unexpected_message()),
    }
}

fn no_lines() -> (v: Vec<String>)
    ensures
        v@.len() == 0,
        texts(v@) == Seq::<Seq<char>>::empty(),
{
    let v: Vec<String> = Vec::new();
    assert(texts(v@) =~= Seq::<Seq<char>>::empty());
    v
}

fn zero() -> (d: DecimalValue)
    ensures
        d == dec(0, 0),
        d.wf(),
{
    DecimalValue { negative: false, magnitude: 0, scale: 0 }
}

/// Starts an order run on `pair` for the sub-account `subaccount`: it reads
/// the account and the market first.
pub fn ftx_order_start(pair: String, subaccount: String) -> (r: (FtxOrderRun, FtxOrderAction))
    ensures
        r.0.stage == OrderStage::AwaitMarket,
        r.0.pair == pair,
        r.0.inputs.subaccount == subaccount,
        run_fits(r.0),
        r.1.print@.len() == 0,
        r.1.next matches FtxOrderNext::FetchMarket(p) && p == pair,
{
    let z = zero();
    let inputs = FtxOrderInputs {
        subaccount,
        quote: String::new(),
        isfuture: false,
        leverage: z,
        taker_fee: z,
        maker_fee: z,
        total_liquid: z,
        risk: z,
        stoploss: z,
        takeprofit: z,
        entry: z,
        ismarket: false,
        isorderbook: false,
        book_pos: z,
    };
    let p = pair.clone();
    (
        FtxOrderRun {
            stage: OrderStage::AwaitMarket,
            pair,
            price: z,
            bid: String::new(),
            ask: String::new(),
            inputs,
            islong: false,
            quantity: z,
            ratio: z,
            real_quantity: z,
        },
        FtxOrderAction { print: no_lines(), next: FtxOrderNext::FetchMarket(p) },
    )
}

fn done(o: FtxOrderRun) -> (n: FtxOrderRun)
    requires
        run_fits(o),
    ensures
        n.stage == OrderStage::Done,
        keeps_run(n, o),
        run_fits(n),
{
    FtxOrderRun { stage: OrderStage::Done, ..o }
}

fn fail_with(print: Vec<String>, message: String) -> (a: FtxOrderAction)
    ensures
        a.print == print,
        texts(a.print@) == texts(print@),
        a.next matches FtxOrderNext::Fail(e) && e.message == message,
{
    FtxOrderAction { print, next: FtxOrderNext::Fail(TermError { message }) }
}

fn ask_with(print: Vec<String>, prompt: &str) -> (a: FtxOrderAction)
    ensures
        a.print == print,
        a.next matches FtxOrderNext::Ask(p) && p@ == prompt@,
{
    FtxOrderAction { print, next: FtxOrderNext::Ask(String::from_str(prompt)) }
}

fn value_fits(d: DecimalValue) -> (r: bool)
    ensures
        r == d.wf(),
{
    d.magnitude <= MAX_MAGNITUDE && d.scale <= MAX_SCALE
}

/// The last balance of the coin.
fn find_balance(bs: &Vec<FtxBalance>, coin: &str) -> (r: Option<usize>)
    ensures
        match last_match(bs@, coin@) {
            None => r is None,
            Some(b) => r matches Some(k) && k < bs@.len() && bs@[k as int] == b,
        },
{
    let mut i: usize = bs.len();
    assert(bs@.take(bs@.len() as int) =~= bs@);
    while i > 0
        invariant
            i <= bs@.len(),
            last_match(bs@, coin@) == last_match(bs@.take(i as int), coin@),
        decreases i,
    {
        let k = i - 1;
        assert(bs@.take(i as int).drop_last() =~= bs@.take(k as int));
        assert(bs@.take(i as int).last() == bs@[k as int]);
        if str_equal(bs[k].coin.as_str(), coin) {
            return Some(k);
        }
        i = k;
    }
    None
}

fn plan(o: FtxOrderRun, entry: DecimalValue, ismarket: bool, isorderbook: bool, pos: DecimalValue) -> (r: (FtxOrderRun, FtxOrderAction))
    requires
        run_fits(o),
        entry.wf(),
        pos.wf(),
    ensures
        plan_step(o, with_entry(o.inputs, entry, ismarket, isorderbook, pos), r.0, r.1),
        run_fits(r.0),
{
    let ghost old_o = o;
    let FtxOrderRun { stage: _, pair, price, bid, ask, inputs, islong, quantity, ratio, real_quantity } = o;
    let i = FtxOrderInputs { entry, ismarket, isorderbook, book_pos: pos, ..inputs };
    assert(i == with_entry(old_o.inputs, entry, ismarket, isorderbook, pos));
    match ftx_order_plan(&i) {
        Err(e) => (
            FtxOrderRun { stage: OrderStage::Done, pair, price, bid, ask, inputs: i, islong, quantity, ratio, real_quantity },
            FtxOrderAction { print: no_lines(), next: FtxOrderNext::Fail(e) },
        ),
        Ok(p) => {
            let n = FtxOrderRun {
                stage: OrderStage::Confirm,
                pair,
                price,
                bid,
                ask,
                inputs: i,
                islong: p.islong,
                quantity: p.quantity,
                ratio: p.ratio,
                real_quantity,
            };
            (n, ask_with(p.lines, "(y/n)"))
        },
    }
}

fn place_entry(o: FtxOrderRun, before: Vec<String>) -> (r: (FtxOrderRun, FtxOrderAction))
    requires
        run_fits(o),
    ensures
        entry_step(o, texts(before@), r.0, r.1),
        run_fits(r.0),
{
    match decimal_try_div(o.quantity, o.price) {
        None => (done(o), fail_with(before, String::from_str("Decimal arithmetic overflowed"))),
        Some(rq) => {
            let order = NowOrder {
                pair: o.pair.clone(),
                islong: o.islong,
                real_quantity: rq,
                ismarket: o.inputs.ismarket,
                entry: Some(o.inputs.entry),
                price: o.price,
                isorderbook: o.inputs.isorderbook,
                orderbookpos: if o.inputs.isorderbook { Some(o.inputs.book_pos) } else { None },
            };
            let n = FtxOrderRun { stage: OrderStage::AwaitMain, real_quantity: rq, ..o };
            (n, FtxOrderAction { print: before, next: FtxOrderNext::PlaceEntry(order) })
        },
    }
}

fn share_text(label: &str, fee: DecimalValue, quote: &str, share: DecimalValue) -> (r: String)
    requires
        fee.wf(),
        share.wf(),
    ensures
        r@ == label@ + decimal_text(fee) + " "@ + quote@ + " ("@ + decimal_text(round_half_even(share, 6)) + "% of sub)"@,
{
    let mut r = String::from_str(label);
    let f = decimal_to_string(fee);
    r.append(f.as_str());
    r.append(" ");
    r.append(quote);
    r.append(" (");
    let s = decimal_to_string(round_dp(share, 6));
    r.append(s.as_str());
    r.append("% of sub)");
    r
}

fn closing(o: FtxOrderRun, id: String) -> (r: (FtxOrderRun, FtxOrderAction))
    requires
        run_fits(o),
    ensures
        r.0.stage == OrderStage::Done,
        run_fits(r.0),
        exits_pay_taker_fee(o),
        exit_share_of_liquidity(o),
        match closing_fees(o.inputs, o.quantity) {
            None => fails(r.1, Seq::empty(), overflow_message()),
            Some((fee, share, split, split_share, _half)) => texts(r.1.print@) == closing_lines(
                o.inputs,
                id@,
                fee,
                fee,
                split,
                share,
                share,
                split_share,
            ) && r.1.next is Finished,
        },
{
    let overflow = String::from_str("Decimal arithmetic overflowed");
    let p = match decimal_try_mul(o.quantity, o.inputs.taker_fee) {
        Some(p) => p,
        None => return (done(o), fail_with(no_lines(), overflow)),
    };
    let fee = round_dp(p, 3);
    let two = DecimalValue { negative: false, magnitude: 2, scale: 0 };
    let half = decimal_try_div(fee, two);
    let share = decimal_try_div(fee, o.inputs.total_liquid);
    let (half, share) = match (half, share) {
        (Some(h), Some(s)) => (h, s),
        _ => return (done(o), fail_with(no_lines(), overflow)),
    };
    proof {
        assert forall|x: DecimalValue| x.wf() && #[trigger] quotient_is(x, fee, o.inputs.total_liquid) implies same_number(
            share,
            x,
        ) by {
            lemma_quotients_agree(share, x, fee, o.inputs.total_liquid);
        }
    }
    let split = match decimal_try_add(half, half) {
        Some(s) => s,
        None => return (done(o), fail_with(no_lines(), overflow)),
    };
    let split_share = match decimal_try_div(split, o.inputs.total_liquid) {
        Some(s) => s,
        None => return (done(o), fail_with(no_lines(), overflow)),
    };
    let mut l1 = String::from_str("  Take-profit order id: ");
    l1.append(id.as_str());
    let l2 = share_text("  SL Fees: ", fee, o.inputs.quote.as_str(), share);
    let l3 = share_text("  TP Fees: ", fee, o.inputs.quote.as_str(), share);
    let l4 = share_text("  Split TPSL Fees: ", split, o.inputs.quote.as_str(), split_share);
    let lines = vec![
        String::from_str(""),
        l1,
        String::from_str(""),
        l2,
        l3,
        l4,
        String::from_str(""),
        boldt("  ORDER COMPLETE!"),
    ];
    assert(texts(lines@) =~= closing_lines(o.inputs, id@, fee, fee, split, share, share, split_share));
    (done(o), FtxOrderAction { print: lines, next: FtxOrderNext::Finished })
}

fn labelled(label: &str, value: &str) -> (r: String)
    ensures
        r@ == label@ + value@,
{
    let mut r = String::from_str(label);
    r.append(value);
    r
}

fn step_market(o: FtxOrderRun, e: FtxOrderEvent) -> (r: (FtxOrderRun, FtxOrderAction))
    requires
        run_fits(o),
        o.stage == OrderStage::AwaitMarket || o.stage == OrderStage::AwaitBalances,
    ensures
        order_step(o, e, r.0, r.1),
        run_fits(r.0),
{
    let unexpected = String::from_str("Unexpected reply");
    let overflow = String::from_str("Decimal arithmetic overflowed");
    match (o.stage, e) {
        (OrderStage::AwaitMarket, FtxOrderEvent::Market { leverage, taker_fee, maker_fee, price, bid, ask, quote }) => {
            if !(value_fits(leverage) && value_fits(taker_fee) && value_fits(maker_fee) && value_fits(price)) {
                return (done(o), fail_with(no_lines(), overflow));
            }
            let future = str_ends_with(o.pair.as_str(), "PERP") || str_ends_with(o.pair.as_str(), "1231");
            let q = if future {
                String::from_str("USD")
            } else {
                match quote {
                    Some(q) => q,
                    None => return (done(o), fail_with(no_lines(), String::from_str("The market has no quote currency"))),
                }
            };
            let sub = o.inputs.subaccount.clone();
            let inputs = FtxOrderInputs { quote: q, isfuture: future, leverage, taker_fee, maker_fee, ..o.inputs };
            let n = FtxOrderRun { stage: OrderStage::AwaitBalances, price, bid, ask, inputs, ..o };
            (n, FtxOrderAction { print: no_lines(), next: FtxOrderNext::FetchBalances(sub) })
        },
        (OrderStage::AwaitBalances, FtxOrderEvent::Balances(bs)) => match find_balance(&bs, o.inputs.quote.as_str()) {
            None => (done(o), fail_with(no_lines(), String::from_str("You have no base currency matching the current pair"))),
            Some(k) => {
                let free = bs[k].free;
                let total = bs[k].total;
                if !(value_fits(free) && value_fits(total)) {
                    return (done(o), fail_with(no_lines(), overflow));
                }
                let z = zero();
                if !decimal_gt(free, z) && !decimal_gt(z, free) {
                    return (
                        done(o),
                        fail_with(no_lines(), String::from_str("Your base currency for the current pair has no free liquidity")),
                    );
                }
                let inputs = FtxOrderInputs { total_liquid: total, ..o.inputs };
                (FtxOrderRun { stage: OrderStage::AskRisk, inputs, ..o }, ask_with(no_lines(), "[Risk % of sub]"))
            },
        },
        _ => (done(o), fail_with(no_lines(), unexpected)),
    }
}

fn step_inputs(o: FtxOrderRun, e: FtxOrderEvent) -> (r: (FtxOrderRun, FtxOrderAction))
    requires
        run_fits(o),
        o.stage == OrderStage::AskRisk || o.stage == OrderStage::AskStop || o.stage == OrderStage::AskTake,
    ensures
        order_step(o, e, r.0, r.1),
        run_fits(r.0),
{
    let unexpected = String::from_str("Unexpected reply");
    let overflow = String::from_str("Decimal arithmetic overflowed");
    match (o.stage, e) {
        (OrderStage::AskRisk, FtxOrderEvent::Answer(t)) => match decimal_from_str(t.as_str()) {
            Err(m) => (done(o), fail_with(no_lines(), m)),
            Ok(v) => {
                let inputs = FtxOrderInputs { risk: v, ..o.inputs };
                (FtxOrderRun { stage: OrderStage::AskStop, inputs, ..o }, ask_with(no_lines(), "[Stop-Loss]"))
            },
        },
        (OrderStage::AskStop, FtxOrderEvent::Answer(t)) => match decimal_from_str(t.as_str()) {
            Err(m) => (done(o), fail_with(no_lines(), m)),
            Ok(v) => {
                let inputs = FtxOrderInputs { stoploss: v, ..o.inputs };
                (FtxOrderRun { stage: OrderStage::AskTake, inputs, ..o }, ask_with(no_lines(), "[Take-Profit]"))
            },
        },
        (OrderStage::AskTake, FtxOrderEvent::Answer(t)) => match decimal_from_str(t.as_str()) {
            Err(m) => (done(o), fail_with(no_lines(), m)),
            Ok(v) => {
                let l1 = labelled("    Bid: ", o.bid.as_str());
                let l2 = labelled("    Ask: ", o.ask.as_str());
                let lines = vec![l1, l2];
                assert(texts(lines@) =~= seq!["    Bid: "@ + o.bid@, "    Ask: "@ + o.ask@]);
                let inputs = FtxOrderInputs { takeprofit: v, ..o.inputs };
                (FtxOrderRun { stage: OrderStage::AskEntry, inputs, ..o }, ask_with(lines, "[Entry | m | ob]"))
            },
        },
        _ => (done(o), fail_with(no_lines(), unexpected)),
    }
}

fn step_entry(o: FtxOrderRun, e: FtxOrderEvent) -> (r: (FtxOrderRun, FtxOrderAction))
    requires
        run_fits(o),
        o.stage == OrderStage::AskEntry || o.stage == OrderStage::AskBookPos,
    ensures
        order_step(o, e, r.0, r.1),
        run_fits(r.0),
{
    let unexpected = String::from_str("Unexpected reply");
    let overflow = String::from_str("Decimal arithmetic overflowed");
    match (o.stage, e) {
        (OrderStage::AskEntry, FtxOrderEvent::Answer(t)) => match ftx_entry_choice(t.as_str()) {
            FtxEntryChoice::Market => {
                let price = o.price;
                let pos = o.inputs.book_pos;
                plan(o, price, true, false, pos)
            },
            FtxEntryChoice::OrderBook => (
                FtxOrderRun { stage: OrderStage::AskBookPos, ..o },
                ask_with(no_lines(), "[OrderBook Pos (0-9)]"),
            ),
            FtxEntryChoice::Price => match decimal_from_str(t.as_str()) {
                Err(m) => (done(o), fail_with(no_lines(), m)),
                Ok(v) => {
                    let pos = o.inputs.book_pos;
                    plan(o, v, false, false, pos)
                },
            },
        },
        (OrderStage::AskBookPos, FtxOrderEvent::Answer(t)) => match decimal_from_str(t.as_str()) {
            Err(m) => (done(o), fail_with(no_lines(), m)),
            Ok(v) => {
                let price = o.price;
                plan(o, price, false, true, v)
            },
        },
        _ => (done(o), fail_with(no_lines(), unexpected)),
    }
}

fn step_confirm(o: FtxOrderRun, e: FtxOrderEvent) -> (r: (FtxOrderRun, FtxOrderAction))
    requires
        run_fits(o),
        o.stage == OrderStage::Confirm || o.stage == OrderStage::ConfirmRatio,
    ensures
        order_step(o, e, r.0, r.1),
        run_fits(r.0),
{
    let unexpected = String::from_str("Unexpected reply");
    let overflow = String::from_str("Decimal arithmetic overflowed");
    match (o.stage, e) {
        (OrderStage::Confirm, FtxOrderEvent::Answer(t)) => match yn(t) {
            Err(err) => (done(o), FtxOrderAction { print: no_lines(), next: FtxOrderNext::Fail(err) }),
            Ok(y) => {
                let line = yn_report(y);
                let one = DecimalValue { negative: false, magnitude: 1, scale: 0 };
                if decimal_gt(one, o.ratio) {
                    let lines = vec![line, String::from_str(""), boldt("The SLTP ratio is not favourable. Proceed?")];
                    assert(texts(lines@) =~= seq![yn_line(y), ""@, bold("The SLTP ratio is not favourable. Proceed?"@)]);
                    (FtxOrderRun { stage: OrderStage::ConfirmRatio, ..o }, ask_with(lines, "(y/n)"))
                } else {
                    let lines = vec![line];
                    assert(texts(lines@) =~= seq![yn_line(y)]);
                    place_entry(o, lines)
                }
            },
        },
        (OrderStage::ConfirmRatio, FtxOrderEvent::Answer(t)) => match yn(t) {
            Err(err) => (done(o), FtxOrderAction { print: no_lines(), next: FtxOrderNext::Fail(err) }),
            Ok(y) => {
                let lines = vec![yn_report(y)];
                assert(texts(lines@) =~= seq![yn_line(y)]);
                place_entry(o, lines)
            },
        },
        _ => (done(o), fail_with(no_lines(), unexpected)),
    }
}

fn step_main(o: FtxOrderRun, e: FtxOrderEvent) -> (r: (FtxOrderRun, FtxOrderAction))
    requires
        run_fits(o),
        o.stage == OrderStage::AwaitMain || o.stage == OrderStage::AskSl,
    ensures
        order_step(o, e, r.0, r.1),
        run_fits(r.0),
{
    let unexpected = String::from_str("Unexpected reply");
    let overflow = String::from_str("Decimal arithmetic overflowed");
    match (o.stage, e) {
        (OrderStage::AwaitMain, FtxOrderEvent::Placed { id, kind }) => {
            let l1 = labelled("  main order id: ", id.as_str());
            let l2 = labelled("  main order type: ", kind.as_str());
            let lines = vec![l1, l2, String::from_str(""), boldt("Stoploss options")];
            assert(texts(lines@) =~= seq![
                "  main order id: "@ + id@,
                "  main order type: "@ + kind@,
                ""@,
                bold("Stoploss options"@)
            ]);
            (FtxOrderRun { stage: OrderStage::AskSl, ..o }, ask_with(lines, "SL [m]"))
        },
        (OrderStage::AskSl, FtxOrderEvent::Answer(t)) => {
            if ftx_exit_is_market(t.as_str()) {
                let order = SLOrder {
                    pair: o.pair.clone(),
                    islong: o.islong,
                    real_quantity: o.real_quantity,
                    stop_price: o.inputs.stoploss,
                    sl_type: SLType::M,
                };
                (FtxOrderRun { stage: OrderStage::AwaitSl, ..o }, FtxOrderAction { print: no_lines(), next: FtxOrderNext::PlaceStop(order) })
            } else {
                let lines = vec![String::from_str("You must choose a stoploss type")];
                assert(texts(lines@) =~= seq!["You must choose a stoploss type"@]);
                (FtxOrderRun { stage: OrderStage::AskSl, ..o }, ask_with(lines, "SL [m]"))
            }
        },
        _ => (done(o), fail_with(no_lines(), unexpected)),
    }
}

fn step_close(o: FtxOrderRun, e: FtxOrderEvent) -> (r: (FtxOrderRun, FtxOrderAction))
    requires
        run_fits(o),
        o.stage == OrderStage::AwaitSl || o.stage == OrderStage::AskTp || o.stage == OrderStage::AwaitTp,
    ensures
        order_step(o, e, r.0, r.1),
        run_fits(r.0),
        o.stage == OrderStage::AwaitTp && e is Placed ==> exits_pay_taker_fee(o) && exit_share_of_liquidity(o),
{
    let unexpected = String::from_str("Unexpected reply");
    let overflow = String::from_str("Decimal arithmetic overflowed");
    match (o.stage, e) {
        (OrderStage::AwaitSl, FtxOrderEvent::Placed { id, kind: _ }) => {
            let l1 = labelled("  Stop order id: ", id.as_str());
            let lines = vec![String::from_str(""), l1, String::from_str(""), boldt("Take-profit options")];
            assert(texts(lines@) =~= seq![""@, "  Stop order id: "@ + id@, ""@, bold("Take-profit options"@)]);
            (FtxOrderRun { stage: OrderStage::AskTp, ..o }, ask_with(lines, "TP [m]"))
        },
        (OrderStage::AskTp, FtxOrderEvent::Answer(t)) => {
            if ftx_exit_is_market(t.as_str()) {
                let order = TPOrder {
                    pair: o.pair.clone(),
                    islong: o.islong,
                    real_quantity: o.real_quantity,
                    tp_price: o.inputs.takeprofit,
                    tp_type: TPType::M,
                };
                (
                    FtxOrderRun { stage: OrderStage::AwaitTp, ..o },
                    FtxOrderAction { print: no_lines(), next: FtxOrderNext::PlaceTakeProfit(order) },
                )
            } else {
                let lines = vec![String::from_str("Err: You must choose a take-profit type!")];
                assert(texts(lines@) =~= seq!["Err: You must choose a take-profit type!"@]);
                (FtxOrderRun { stage: OrderStage::AskTp, ..o }, ask_with(lines, "TP [m]"))
            }
        },
        (OrderStage::AwaitTp, FtxOrderEvent::Placed { id, kind: _ }) => closing(o, id),
        _ => (done(o), fail_with(no_lines(), unexpected)),
    }
}

/// One step of an order run, as `order_step` says.
pub fn ftx_order_step(o: FtxOrderRun, e: FtxOrderEvent) -> (r: (FtxOrderRun, FtxOrderAction))
    requires
        run_fits(o),
    ensures
        order_step(o, e, r.0, r.1),
        run_fits(r.0),
        o.stage == OrderStage::AwaitTp && e is Placed ==> exits_pay_taker_fee(o) && exit_share_of_liquidity(o),
{
    match o.stage {
        OrderStage::AwaitMarket | OrderStage::AwaitBalances => step_market(o, e),
        OrderStage::AskRisk | OrderStage::AskStop | OrderStage::AskTake => step_inputs(o, e),
        OrderStage::AskEntry | OrderStage::AskBookPos => step_entry(o, e),
        OrderStage::Confirm | OrderStage::ConfirmRatio => step_confirm(o, e),
        OrderStage::AwaitMain | OrderStage::AskSl => step_main(o, e),
        OrderStage::AwaitSl | OrderStage::AskTp | OrderStage::AwaitTp => step_close(o, e),
        OrderStage::Done => (done(o), fail_with(no_lines(), String::from_str("Unexpected reply"))),
    }
}

} // verus!
