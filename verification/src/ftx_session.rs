//! The FTX command handler as a state machine: from the session and what
//! happened (a command, an answer, a reply of the exchange) to the next
//! session and what to do (print, ask, call the exchange).

use vstd::prelude::*;
use vstd::string::*;

use crate::decimal::{
    decimal_checked_product, decimal_checked_quotient, decimal_gt, decimal_text, decimal_to_string, decimal_try_div,
    decimal_try_mul, greater, lemma_decimal_text_short, DecimalValue, MAX_MAGNITUDE, MAX_SCALE,
};
use crate::ftx_core::ftx_utils::{_formatted_pair, _get_suffix_symbol, market_name, suffix_symbol};
use crate::text::{
    decimal, parse_u32, remove_all, repeat_char, seq_contains, seq_starts_with, split_collect, str_contains, str_equal,
    str_starts_with, to_uppercase, u32_parse, u64_to_decimal, unicode_upper,
};
use crate::userspace::texts;
use crate::utils::boldt;
use crate::TermError;

verus! {

/// Text as `boldt` renders it.
pub open spec fn bold(t: Seq<char>) -> Seq<char> {
    "\u{1b}[1m"@ + t + "\u{1b}[0m"@
}

/// The FTX commands, in the order the handler tries them.
#[derive(Copy, Clone, Debug, PartialEq, Eq, Structural)]
pub enum FtxCommandKind {
    Help,
    /// `sub` or `search` without parameters.
    NeedsParameters,
    /// `pair <name>` (not handled yet).
    PairShortcut,
    /// `sub def`: back to the default account.
    SubDefault,
    /// `sub <nickname>`.
    SubNamed,
    /// `lev <number>`.
    LevSet,
    /// `search <query>`.
    Search,
    Orderbook,
    Order,
    Stop,
    LevShow,
    Subs,
    Pair,
    Price,
    Balance,
    AllMarkets,
    AllFutures,
    Account,
    RawMarkets,
    Unknown,
}

/// The command an input names.
pub open spec fn ftx_command_kind(c: Seq<char>) -> FtxCommandKind {
    if c == "h"@ || c == "help"@ {
        FtxCommandKind::Help
    } else if c == "sub"@ || c == "search"@ {
        FtxCommandKind::NeedsParameters
    } else if seq_starts_with(c, "pair "@) {
        FtxCommandKind::PairShortcut
    } else if seq_starts_with(c, "sub "@) {
        if remove_all(c, "sub "@) == "def"@ {
            FtxCommandKind::SubDefault
        } else {
            FtxCommandKind::SubNamed
        }
    } else if seq_starts_with(c, "lev "@) {
        FtxCommandKind::LevSet
    } else if seq_starts_with(c, "search "@) {
        FtxCommandKind::Search
    } else if c == "ob"@ || c == "orderbook"@ {
        FtxCommandKind::Orderbook
    } else if c == "o"@ || c == "order"@ {
        FtxCommandKind::Order
    } else if c == "stop"@ {
        FtxCommandKind::Stop
    } else if c == "lev"@ {
        FtxCommandKind::LevShow
    } else if c == "subs"@ {
        FtxCommandKind::Subs
    } else if c == "pair"@ {
        FtxCommandKind::Pair
    } else if c == "p"@ || c == "price"@ {
        FtxCommandKind::Price
    } else if c == "bal"@ || c == "balance"@ {
        FtxCommandKind::Balance
    } else if c == "allmarkets"@ {
        FtxCommandKind::AllMarkets
    } else if c == "allfutures"@ {
        FtxCommandKind::AllFutures
    } else if c == "account"@ {
        FtxCommandKind::Account
    } else if c == "rawmarkets"@ {
        FtxCommandKind::RawMarkets
    } else {
        FtxCommandKind::Unknown
    }
}

/// Finds the command an input names.
pub fn ftx_command_kind_of(c: &str) -> (r: FtxCommandKind)
    ensures
        r == ftx_command_kind(c@),
{
    if str_equal(c, "h") || str_equal(c, "help") {
        FtxCommandKind::Help
    } else if str_equal(c, "sub") || str_equal(c, "search") {
        FtxCommandKind::NeedsParameters
    } else if str_starts_with(c, "pair ") {
        FtxCommandKind::PairShortcut
    } else if str_starts_with(c, "sub ") {
        let name = split_collect(c, "sub ");
        if str_equal(name.as_str(), "def") {
            FtxCommandKind::SubDefault
        } else {
            FtxCommandKind::SubNamed
        }
    } else if str_starts_with(c, "lev ") {
        FtxCommandKind::LevSet
    } else if str_starts_with(c, "search ") {
        FtxCommandKind::Search
    } else if str_equal(c, "ob") || str_equal(c, "orderbook") {
        FtxCommandKind::Orderbook
    } else if str_equal(c, "o") || str_equal(c, "order") {
        FtxCommandKind::Order
    } else if str_equal(c, "stop") {
        FtxCommandKind::Stop
    } else if str_equal(c, "lev") {
        FtxCommandKind::LevShow
    } else if str_equal(c, "subs") {
        FtxCommandKind::Subs
    } else if str_equal(c, "pair") {
        FtxCommandKind::Pair
    } else if str_equal(c, "p") || str_equal(c, "price") {
        FtxCommandKind::Price
    } else if str_equal(c, "bal") || str_equal(c, "balance") {
        FtxCommandKind::Balance
    } else if str_equal(c, "allmarkets") {
        FtxCommandKind::AllMarkets
    } else if str_equal(c, "allfutures") {
        FtxCommandKind::AllFutures
    } else if str_equal(c, "account") {
        FtxCommandKind::Account
    } else if str_equal(c, "rawmarkets") {
        FtxCommandKind::RawMarkets
    } else {
        FtxCommandKind::Unknown
    }
}

/// Where the handler stands: ready for a command, or waiting for an answer or
/// for a reply of the exchange.
pub enum FtxStage {
    Ready,
    /// Waiting for the sub-account nicknames, to switch to this one.
    SubLookup(String),
    /// Waiting for the sub-account nicknames, to list them.
    SubList,
    /// Waiting for the account's leverage, to show it.
    LevShow,
    /// Waiting for the account's leverage, before changing it to this one.
    LevRead(u32),
    /// Waiting for the leverage change (from the first to the second).
    LevChange(String, u32),
    /// Waiting for the market names, to search them for this query.
    Search(String),
    /// Waiting for the market names, to list them.
    MarketList,
    /// Waiting for the future names, to list them.
    FutureList,
    /// Waiting for the first part of a new pair.
    PairPrefix,
    /// Waiting for the second part of a new pair, after this first part.
    PairSuffix(String),
    /// Waiting for the market names, to look this pair up.
    PairLookup(String),
    /// Waiting for the price of this pair, which becomes the current one.
    PairPrice(String),
    /// Waiting for the current pair's price, ask and bid.
    Prices,
    /// Waiting for the order book of this pair.
    Orderbook(String),
    /// Waiting for the balances.
    Balances,
}

/// A balance: a coin, how much of it is free and how much there is.
pub struct FtxBalance {
    pub coin: String,
    pub free: DecimalValue,
    pub total: DecimalValue,
}

/// The FTX session: the sub-account (`def` for the default account), the
/// current pair and the stage.
pub struct FtxSession {
    pub subaccount: String,
    pub pair: String,
    pub stage: FtxStage,
}

/// What happened.
pub enum FtxEvent {
    /// A command was submitted.
    Command(String),
    /// An answer to a prompt.
    Answer(String),
    /// Names from the exchange: sub-account nicknames, market or future names.
    Names(Vec<String>),
    /// Values from the exchange, as text: a leverage, or a price, ask and bid.
    Texts(Vec<String>),
    /// A call with nothing to report returned.
    Done,
    /// The order book: price and size of each bid and ask level.
    Book { bids: Vec<(DecimalValue, DecimalValue)>, asks: Vec<(DecimalValue, DecimalValue)> },
    /// The balances of the account.
    Balances(Vec<FtxBalance>),
}

/// What to do after printing.
pub enum FtxNext {
    /// Nothing more: ready for the next command.
    Idle,
    /// Ask the user, with this prompt.
    Ask(String),
    /// `get_subaccounts`: reply with their nicknames.
    FetchSubaccounts,
    /// Use a client for the default account (none) or this sub-account.
    UseAccount(Option<String>),
    /// `get_account`: reply with its leverage.
    FetchAccount,
    /// `change_account_leverage(n)`: reply when done.
    ChangeLeverage(u32),
    /// `get_markets`: reply with the market names.
    FetchMarketNames,
    /// `get_futures`: reply with the future names.
    FetchFutureNames,
    /// `get_market(name)`: reply with its price, ask and bid.
    FetchMarket(String),
    /// `get_orderbook(pair, Some(10))`: reply with the book.
    FetchOrderbook(String),
    /// `get_wallet_balances` for the default account (`def`), else
    /// `get_subaccount_balances(sub)`: reply with the balances.
    FetchBalances(String),
    /// Show the account object.
    ShowAccount,
    /// Show the raw market objects.
    ShowRawMarkets,
    /// Start an order on the current pair.
    StartOrder,
    /// The command fails with this error.
    Fail(TermError),
}

/// Lines to print, then what to do.
pub struct FtxAction {
    pub print: Vec<String>,
    pub next: FtxNext,
}

/// The FTX command list, in printing order.
pub open spec fn ftx_help_lines() -> Seq<Seq<char>> {
    seq![
        bold("UTILITY"@),
        "  clr | clear - clear the terminal"@,
        "  h | help - get information about commands"@,
        "  qq - quits function (when inside function input)"@,
        bold("SUBACCOUNTS"@),
        "  subs - list all subaccounts"@,
        "  sub [nickname] - change subaccount (case sensitive)"@,
        "  bal | balance - get balances of subaccount"@,
        bold("MARKETS"@),
        "  search [query] - return all pairs containing query"@,
        "  p | price - return the mark, ask and bid price for current pair"@,
        "  pair - gives you an input to change the pair"@,
        bold("ORDERS"@),
        "  lev - get current account leverage"@,
        "  lev [number] - change leverage to chosen number"@,
        "  o | order - start an order"@,
        "  ob | orderbook - get display of orderbook"@,
        bold("KEYBINDS"@),
        "  [UP ARROW] - Replaces input with previous command"@,
        "  [DOWN ARROW] - Replaces input with the latter command"@,
        ""@,
        "  More information is in our documentation."@
    ]
}

/// The lines naming the markets among `names` that contain `query`, in order.
pub open spec fn ftx_hit_lines(names: Seq<Seq<char>>, query: Seq<char>) -> Seq<Seq<char>>
    decreases names.len(),
{
    if names.len() == 0 {
        Seq::empty()
    } else {
        let rest = ftx_hit_lines(names.drop_last(), query);
        if seq_contains(names.last(), query) {
            rest.push("HIT: "@ + names.last())
        } else {
            rest
        }
    }
}

/// The output of a search for `query` (upper-cased) among `names`.
pub open spec fn ftx_search_lines(names: Seq<Seq<char>>, query: Seq<char>) -> Seq<Seq<char>> {
    let hits = ftx_hit_lines(names, unicode_upper(query));
    seq![""@] + hits + seq!["  "@ + decimal(hits.len()) + " "@ + bold("Pairs Found"@)]
}

/// The numbered list of sub-account nicknames.
pub open spec fn numbered_lines(names: Seq<Seq<char>>) -> Seq<Seq<char>> {
    Seq::new(names.len(), |i: int| decimal((i + 1) as nat) + ". "@ + bold(names[i]))
}

/// Names written one after another, each followed by ` | `.
pub open spec fn joined_names(names: Seq<Seq<char>>) -> Seq<char>
    decreases names.len(),
{
    if names.len() == 0 {
        Seq::empty()
    } else {
        joined_names(names.drop_last()) + names.last() + " | "@
    }
}

/// The message for an order book with fewer bids than asks (or a level that
/// does not fit a `Decimal`).
pub open spec fn short_book_message() -> Seq<char> {
    "The order book has fewer bids than asks"@
}

/// `n` spaces.
pub open spec fn spaces(n: nat) -> Seq<char> {
    Seq::new(n, |_i: int| ' ')
}

/// A book level as shown: `price [size]`.
pub open spec fn level_text(l: (DecimalValue, DecimalValue)) -> Seq<char> {
    decimal_text(l.0) + " ["@ + decimal_text(l.1) + "]"@
}

/// The width of a level: the lengths of its price and size texts.
pub open spec fn level_width(l: (DecimalValue, DecimalValue)) -> nat {
    decimal_text(l.0).len() + decimal_text(l.1).len()
}

/// The widest level (zero for no levels).
pub open spec fn max_width(ls: Seq<(DecimalValue, DecimalValue)>) -> nat
    decreases ls.len(),
{
    if ls.len() == 0 {
        0
    } else {
        let m = max_width(ls.drop_last());
        if level_width(ls.last()) > m {
            level_width(ls.last())
        } else {
            m
        }
    }
}

/// Every level fits a `Decimal`.
pub open spec fn levels_fit(ls: Seq<(DecimalValue, DecimalValue)>) -> bool {
    forall|i: int| 0 <= i < ls.len() ==> (#[trigger] ls[i]).0.wf() && ls[i].1.wf()
}

/// A bid level padded to the bid column's width (`bw` plus three).
pub open spec fn padded_bid(l: (DecimalValue, DecimalValue), bw: nat) -> Seq<char> {
    let t = level_text(l);
    if t.len() < bw + 3 {
        t + spaces((bw + 3 - t.len()) as nat)
    } else {
        t
    }
}

/// The order-book display of `pair`: a title and a header centred on the
/// widest levels, then one row per ask level beside the bid of the same
/// level; none where there are fewer bids than asks.
pub open spec fn orderbook_output(
    pair: Seq<char>,
    bids: Seq<(DecimalValue, DecimalValue)>,
    asks: Seq<(DecimalValue, DecimalValue)>,
) -> Option<Seq<Seq<char>>> {
    if bids.len() < asks.len() || !levels_fit(bids) || !levels_fit(asks) {
        None
    } else {
        let bw = max_width(bids);
        let aw = max_width(asks);
        Some(
            seq![
                spaces(bw / 2) + bold("ORDERBOOK FOR "@ + pair),
                spaces(bw / 2) + " BID "@ + spaces(bw / 2) + " "@ + spaces(aw / 2) + " ASK "@ + spaces(aw / 2)
            ] + Seq::new(asks.len(), |i: int| " "@ + padded_bid(bids[i], bw) + " | "@ + level_text(asks[i])),
        )
    }
}

/// The free share of a balance in percent: `free / total * 100` when the
/// total is above zero, else zero; none where the arithmetic overflows.
pub open spec fn free_percent(free: DecimalValue, total: DecimalValue) -> Option<DecimalValue> {
    if greater(total, DecimalValue { negative: false, magnitude: 0, scale: 0 }) {
        match decimal_checked_quotient(free, total) {
            Some(q) => decimal_checked_product(q, DecimalValue { negative: false, magnitude: 100, scale: 0 }),
            None => None,
        }
    } else {
        Some(DecimalValue { negative: false, magnitude: 0, scale: 0 })
    }
}

/// The lines of one balance.
pub open spec fn balance_lines(b: FtxBalance, pct: DecimalValue) -> Seq<Seq<char>> {
    seq![
        "  "@ + bold(b.coin@),
        "     Free:  "@ + decimal_text(b.free) + " ("@ + decimal_text(pct) + "%)"@,
        "     Total: "@ + decimal_text(b.total),
        ""@
    ]
}

/// The lines of all balances; none where one does not fit a `Decimal` or its
/// share overflows.
pub open spec fn balances_body(bs: Seq<FtxBalance>) -> Option<Seq<Seq<char>>>
    decreases bs.len(),
{
    if bs.len() == 0 {
        Some(Seq::empty())
    } else {
        match balances_body(bs.drop_last()) {
            None => None,
            Some(prev) => {
                let b = bs.last();
                if b.free.wf() && b.total.wf() {
                    match free_percent(b.free, b.total) {
                        Some(p) => Some(prev + balance_lines(b, p)),
                        None => None,
                    }
                } else {
                    None
                }
            },
        }
    }
}

/// The balance display: the number of balances, then each balance.
pub open spec fn balances_output(bs: Seq<FtxBalance>) -> Option<Seq<Seq<char>>> {
    match balances_body(bs) {
        Some(body) => Some(seq!["["@ + decimal(bs.len()) + " Balance types]"@] + body),
        None => None,
    }
}

/// The stage is `Ready`.
pub open spec fn is_ready(s: FtxSession) -> bool {
    s.stage is Ready
}

/// The sub-account and pair did not change.
pub open spec fn keeps_account(n: FtxSession, o: FtxSession) -> bool {
    n.subaccount == o.subaccount && n.pair == o.pair
}

/// The action prints `lines`.
pub open spec fn prints(a: FtxAction, lines: Seq<Seq<char>>) -> bool {
    texts(a.print@) == lines
}

/// The action prints nothing.
pub open spec fn silent(a: FtxAction) -> bool {
    a.print@.len() == 0
}

/// What a command does in a ready session.
pub open spec fn command_step(o: FtxSession, c: Seq<char>, n: FtxSession, a: FtxAction) -> bool {
    match ftx_command_kind(c) {
        FtxCommandKind::Help => keeps_account(n, o) && is_ready(n) && prints(a, ftx_help_lines()) && a.next is Idle,
        FtxCommandKind::NeedsParameters => keeps_account(n, o) && is_ready(n) && prints(
            a,
            seq!["  !For this function, please use this format: "@ + c + " [parameters]"@],
        ) && a.next is Idle,
        FtxCommandKind::PairShortcut | FtxCommandKind::Stop | FtxCommandKind::Unknown => keeps_account(n, o)
            && is_ready(n) && silent(a) && a.next is Idle,
        FtxCommandKind::SubDefault => n.subaccount@ == "def"@ && n.pair == o.pair && is_ready(n) && prints(
            a,
            seq!["    "@ + bold("Returning to default account"@)],
        ) && a.next == FtxNext::UseAccount(None),
        FtxCommandKind::SubNamed => keeps_account(n, o) && (n.stage matches FtxStage::SubLookup(x) && x@ == remove_all(
            c,
            "sub "@,
        )) && silent(a) && a.next is FetchSubaccounts,
        FtxCommandKind::LevSet => keeps_account(n, o) && match u32_parse(remove_all(c, "lev "@)) {
            Some(v) => n.stage == FtxStage::LevRead(v) && silent(a) && a.next is FetchAccount,
            None => is_ready(n) && silent(a) && a.next is Fail,
        },
        FtxCommandKind::Search => keeps_account(n, o) && (n.stage matches FtxStage::Search(q) && q@ == remove_all(
            c,
            "search "@,
        )) && silent(a) && a.next is FetchMarketNames,
        FtxCommandKind::Orderbook => keeps_account(n, o) && (n.stage matches FtxStage::Orderbook(p) && p == o.pair)
            && silent(a) && (a.next matches FtxNext::FetchOrderbook(p) && p == o.pair),
        FtxCommandKind::Order => keeps_account(n, o) && is_ready(n) && silent(a) && a.next is StartOrder,
        FtxCommandKind::LevShow => keeps_account(n, o) && n.stage is LevShow && silent(a) && a.next is FetchAccount,
        FtxCommandKind::Subs => keeps_account(n, o) && n.stage is SubList && silent(a) && a.next is FetchSubaccounts,
        FtxCommandKind::Pair => keeps_account(n, o) && n.stage is PairPrefix && prints(a, seq!["  Change pair:"@])
            && (a.next matches FtxNext::Ask(p) && p@ == "[Prefix]"@),
        FtxCommandKind::Price => keeps_account(n, o) && n.stage is Prices && silent(a) && (
        a.next matches FtxNext::FetchMarket(p) && p == o.pair),
        FtxCommandKind::Balance => keeps_account(n, o) && n.stage is Balances && silent(a) && (
        a.next matches FtxNext::FetchBalances(s) && s == o.subaccount),
        FtxCommandKind::AllMarkets => keeps_account(n, o) && n.stage is MarketList && silent(a)
            && a.next is FetchMarketNames,
        FtxCommandKind::AllFutures => keeps_account(n, o) && n.stage is FutureList && silent(a)
            && a.next is FetchFutureNames,
        FtxCommandKind::Account => keeps_account(n, o) && is_ready(n) && silent(a) && a.next is ShowAccount,
        FtxCommandKind::RawMarkets => keeps_account(n, o) && is_ready(n) && silent(a) && a.next is ShowRawMarkets,
    }
}

/// What a reply does in a waiting session; a reply the stage does not wait
/// for leaves the session ready, doing nothing.
pub open spec fn reply_step(o: FtxSession, e: FtxEvent, n: FtxSession, a: FtxAction) -> bool {
    match (o.stage, e) {
        (FtxStage::SubLookup(x), FtxEvent::Names(ns)) => if texts(ns@).contains(x@) {
            n.subaccount == x && n.pair == o.pair && is_ready(n) && prints(
                a,
                seq!["    "@ + bold("Success (switched to subaccount)"@)],
            ) && (a.next matches FtxNext::UseAccount(Some(y)) && y == x)
        } else {
            keeps_account(n, o) && is_ready(n) && prints(a, seq!["  No subaccount found called - "@ + x@])
                && a.next is Idle
        },
        (FtxStage::SubList, FtxEvent::Names(ns)) => keeps_account(n, o) && is_ready(n) && prints(
            a,
            numbered_lines(texts(ns@)),
        ) && a.next is Idle,
        (FtxStage::LevShow, FtxEvent::Texts(v)) if v@.len() >= 1 => keeps_account(n, o) && is_ready(n) && prints(
            a,
            seq!["  Current Leverage: "@ + v@[0]@],
        ) && a.next is Idle,
        (FtxStage::LevRead(l), FtxEvent::Texts(v)) if v@.len() >= 1 => keeps_account(n, o) && (
        n.stage matches FtxStage::LevChange(old, l2) && old == v@[0] && l2 == l) && silent(a) && a.next
            == FtxNext::ChangeLeverage(l),
        (FtxStage::LevChange(old, l), FtxEvent::Done) => keeps_account(n, o) && is_ready(n) && prints(
            a,
            seq!["CHANGE: "@ + old@ + " -> "@ + decimal(l as nat), "  "@ + bold("Success (changed leverage)"@)],
        ) && a.next is Idle,
        (FtxStage::Search(q), FtxEvent::Names(ns)) => keeps_account(n, o) && is_ready(n) && prints(
            a,
            ftx_search_lines(texts(ns@), q@),
        ) && a.next is Idle,
        (FtxStage::MarketList, FtxEvent::Names(ns)) => keeps_account(n, o) && is_ready(n) && prints(
            a,
            seq![joined_names(texts(ns@))],
        ) && a.next is Idle,
        (FtxStage::FutureList, FtxEvent::Names(ns)) => keeps_account(n, o) && is_ready(n) && prints(
            a,
            seq![joined_names(texts(ns@))],
        ) && a.next is Idle,
        (FtxStage::PairPrefix, FtxEvent::Answer(p)) => keeps_account(n, o) && (n.stage matches FtxStage::PairSuffix(
            x,
        ) && x == p) && silent(a) && (a.next matches FtxNext::Ask(q) && q@ == "[Suffix]"@),
        (FtxStage::PairSuffix(p), FtxEvent::Answer(s)) => keeps_account(n, o) && (n.stage matches FtxStage::PairLookup(
            t,
        ) && t@ == market_name(unicode_upper(p@), unicode_upper(s@))) && silent(a) && a.next is FetchMarketNames,
        (FtxStage::PairLookup(t), FtxEvent::Names(ns)) => if texts(ns@).contains(t@) {
            keeps_account(n, o) && (n.stage matches FtxStage::PairPrice(u) && u == t) && prints(
                a,
                seq!["    "@ + bold("Success (pair found)"@)],
            ) && (a.next matches FtxNext::FetchMarket(u) && u == t)
        } else {
            keeps_account(n, o) && is_ready(n) && prints(a, seq!["    "@ + bold("Error (pair not found)"@)])
                && a.next is Idle
        },
        (FtxStage::PairPrice(t), FtxEvent::Texts(v)) if v@.len() >= 1 => n.pair == t && n.subaccount
            == o.subaccount && is_ready(n) && prints(
            a,
            seq!["    Price ("@ + t@ + "): "@ + v@[0]@ + suffix_symbol(t@)],
        ) && a.next is Idle,
        (FtxStage::Prices, FtxEvent::Texts(v)) if v@.len() >= 3 => keeps_account(n, o) && is_ready(n) && prints(
            a,
            seq!["  Mid: "@ + v@[0]@, "  Ask: "@ + v@[1]@, "  Bid: "@ + v@[2]@],
        ) && a.next is Idle,
        (FtxStage::Orderbook(p), FtxEvent::Book { bids, asks }) => keeps_account(n, o) && is_ready(n) && match orderbook_output(
            p@,
            bids@,
            asks@,
        ) {
            Some(lines) => prints(a, lines) && a.next is Idle,
            None => silent(a) && (a.next matches FtxNext::Fail(e) && e.message@ == short_book_message()),
        },
        (FtxStage::Balances, FtxEvent::Balances(bs)) => keeps_account(n, o) && is_ready(n) && match balances_output(
            bs@,
        ) {
            Some(lines) => prints(a, lines) && a.next is Idle,
            None => silent(a) && (a.next matches FtxNext::Fail(e) && e.message@ == "Decimal arithmetic overflowed"@),
        },
        _ => keeps_account(n, o) && is_ready(n) && silent(a) && a.next is Idle,
    }
}

fn action(print: Vec<String>, next: FtxNext) -> (a: FtxAction)
    ensures
        a.print == print,
        a.next == next,
{
    FtxAction { print, next }
}

fn idle() -> (a: FtxAction)
    ensures
        silent(a),
        a.next is Idle,
{
    FtxAction { print: Vec::new(), next: FtxNext::Idle }
}

fn one_line(line: String) -> (v: Vec<String>)
    ensures
        texts(v@) == seq![line@],
{
    let v = vec![line];
    assert(texts(v@) =~= seq![line@]);
    v
}

fn bold_line(indent: &str, text: &str) -> (r: String)
    ensures
        r@ == indent@ + bold(text@),
{
    let mut r = String::from_str(indent);
    let b = boldt(text);
    r.append(b.as_str());
    r
}

fn ftx_help() -> (v: Vec<String>)
    ensures
        texts(v@) == ftx_help_lines(),
{
    let v = vec![
        boldt("UTILITY"),
        String::from_str("  clr | clear - clear the terminal"),
        String::from_str("  h | help - get information about commands"),
        String::from_str("  qq - quits function (when inside function input)"),
        boldt("SUBACCOUNTS"),
        String::from_str("  subs - list all subaccounts"),
        String::from_str("  sub [nickname] - change subaccount (case sensitive)"),
        String::from_str("  bal | balance - get balances of subaccount"),
        boldt("MARKETS"),
        String::from_str("  search [query] - return all pairs containing query"),
        String::from_str("  p | price - return the mark, ask and bid price for current pair"),
        String::from_str("  pair - gives you an input to change the pair"),
        boldt("ORDERS"),
        String::from_str("  lev - get current account leverage"),
        String::from_str("  lev [number] - change leverage to chosen number"),
        String::from_str("  o | order - start an order"),
        String::from_str("  ob | orderbook - get display of orderbook"),
        boldt("KEYBINDS"),
        String::from_str("  [UP ARROW] - Replaces input with previous command"),
        String::from_str("  [DOWN ARROW] - Replaces input with the latter command"),
        String::from_str(""),
        String::from_str("  More information is in our documentation."),
    ];
    assert(texts(v@) =~= ftx_help_lines());
    v
}

/// The search output for `query` among `names`.
fn search_lines(names: &Vec<String>, query: &str) -> (v: Vec<String>)
    ensures
        texts(v@) == ftx_search_lines(texts(names@), query@),
{
    let ghost a = texts(names@);
    let upper = to_uppercase(query);
    let mut hits: Vec<String> = Vec::new();
    let mut i: usize = 0;
    while i < names.len()
        invariant
            a == texts(names@),
            upper@ == unicode_upper(query@),
            i <= names@.len(),
            texts(hits@) == ftx_hit_lines(a.take(i as int), upper@),
            hits@.len() <= i,
        decreases names@.len() - i,
    {
        let name = &names[i];
        assert(a.take(i + 1).drop_last() =~= a.take(i as int));
        assert(a.take(i + 1).last() == name@);
        if str_contains(name.as_str(), upper.as_str()) {
            let mut line = String::from_str("HIT: ");
            line.append(name.as_str());
            hits.push(line);
        }
        assert(texts(hits@) =~= ftx_hit_lines(a.take(i + 1), upper@));
        i = i + 1;
    }
    assert(a.take(names@.len() as int) =~= a);
    let count = hits.len();
    let mut last = String::from_str("  ");
    let n = u64_to_decimal(count as u64);
    last.append(n.as_str());
    last.append(" ");
    let b = boldt("Pairs Found");
    last.append(b.as_str());
    let mut v: Vec<String> = vec![String::from_str("")];
    let ghost hit_texts = texts(hits@);
    v.append(&mut hits);
    v.push(last);
    assert(texts(v@) =~= ftx_search_lines(a, query@));
    v
}

/// The numbered nickname list.
fn numbered(names: &Vec<String>) -> (v: Vec<String>)
    ensures
        texts(v@) == numbered_lines(texts(names@)),
{
    let mut v: Vec<String> = Vec::new();
    let mut i: usize = 0;
    while i < names.len()
        invariant
            i <= names@.len(),
            v@.len() == i,
            texts(v@) == numbered_lines(texts(names@)).take(i as int),
        decreases names@.len() - i,
    {
        let ghost expect = numbered_lines(texts(names@));
        let k: usize = i + 1;
        let mut line = u64_to_decimal(k as u64);
        line.append(". ");
        let b = boldt(names[i].as_str());
        line.append(b.as_str());
        assert(texts(names@)[i as int] == names@[i as int]@);
        assert(line@ == expect[i as int]);
        let ghost before = v@;
        v.push(line);
        assert forall|j: int| 0 <= j < i + 1 implies #[trigger] texts(v@)[j] == expect[j] by {
            if j < i {
                assert(v@[j] == before[j]);
                assert(texts(before)[j] == expect.take(i as int)[j]);
            }
        }
        assert(texts(v@) =~= numbered_lines(texts(names@)).take(i + 1));
        i = i + 1;
    }
    assert(numbered_lines(texts(names@)).take(names@.len() as int) =~= numbered_lines(texts(names@)));
    v
}

/// The names on one line.
fn joined(names: &Vec<String>) -> (r: String)
    ensures
        r@ == joined_names(texts(names@)),
{
    let ghost a = texts(names@);
    let mut r = String::new();
    let mut i: usize = 0;
    while i < names.len()
        invariant
            a == texts(names@),
            i <= names@.len(),
            r@ == joined_names(a.take(i as int)),
        decreases names@.len() - i,
    {
        assert(a.take(i + 1).drop_last() =~= a.take(i as int));
        assert(a.take(i + 1).last() == names@[i as int]@);
        r.append(names[i].as_str());
        r.append(" | ");
        i = i + 1;
    }
    assert(a.take(names@.len() as int) =~= a);
    r
}

/// Whether `name` is one of `names`.
fn listed(names: &Vec<String>, name: &str) -> (r: bool)
    ensures
        r == texts(names@).contains(name@),
{
    let mut i: usize = 0;
    while i < names.len()
        invariant
            i <= names@.len(),
            forall|j: int| 0 <= j < i ==> names@[j]@ != name@,
        decreases names@.len() - i,
    {
        if str_equal(names[i].as_str(), name) {
            assert(texts(names@)[i as int] == name@);
            return true;
        }
        i = i + 1;
    }
    assert forall|j: int| 0 <= j < texts(names@).len() implies texts(names@)[j] != name@ by {
        assert(texts(names@)[j] == names@[j]@);
    }
    false
}

fn value_fits(d: DecimalValue) -> (r: bool)
    ensures
        r == d.wf(),
{
    d.magnitude <= MAX_MAGNITUDE && d.scale <= MAX_SCALE
}

fn all_levels_fit(ls: &Vec<(DecimalValue, DecimalValue)>) -> (r: bool)
    ensures
        r == levels_fit(ls@),
{
    let mut i: usize = 0;
    while i < ls.len()
        invariant
            i <= ls@.len(),
            forall|j: int| 0 <= j < i ==> (#[trigger] ls@[j]).0.wf() && ls@[j].1.wf(),
        decreases ls@.len() - i,
    {
        if !value_fits(ls[i].0) || !value_fits(ls[i].1) {
            return false;
        }
        i = i + 1;
    }
    true
}

/// A level's text and width.
fn level(l: (DecimalValue, DecimalValue)) -> (r: (String, usize))
    requires
        l.0.wf(),
        l.1.wf(),
    ensures
        r.0@ == level_text(l),
        r.1 == level_width(l),
        r.1 <= 64,
        r.0@.len() <= 67,
{
    proof {
        lemma_decimal_text_short(l.0);
        lemma_decimal_text_short(l.1);
    }
    let p = decimal_to_string(l.0);
    let q = decimal_to_string(l.1);
    let w = p.unicode_len() + q.unicode_len();
    let mut t = String::from_str(p.as_str());
    t.append(" [");
    t.append(q.as_str());
    t.append("]");
    proof {
        reveal_strlit(" [");
        reveal_strlit("]");
    }
    (t, w)
}

/// The widest of the levels.
fn widest(ls: &Vec<(DecimalValue, DecimalValue)>) -> (r: usize)
    requires
        levels_fit(ls@),
    ensures
        r == max_width(ls@),
        r <= 64,
{
    let mut m: usize = 0;
    let mut i: usize = 0;
    while i < ls.len()
        invariant
            i <= ls@.len(),
            levels_fit(ls@),
            m == max_width(ls@.take(i as int)),
            m <= 64,
        decreases ls@.len() - i,
    {
        assert(ls@.take(i + 1).drop_last() =~= ls@.take(i as int));
        assert(ls@.take(i + 1).last() == ls@[i as int]);
        let (_, w) = level(ls[i]);
        if w > m {
            m = w;
        }
        i = i + 1;
    }
    assert(ls@.take(ls@.len() as int) =~= ls@);
    m
}

/// The order-book display, as `orderbook_output` says.
fn orderbook_lines(
    pair: &str,
    bids: &Vec<(DecimalValue, DecimalValue)>,
    asks: &Vec<(DecimalValue, DecimalValue)>,
) -> (r: Option<Vec<String>>)
    ensures
        match orderbook_output(pair@, bids@, asks@) {
            Some(lines) => r matches Some(v) && texts(v@) == lines,
            None => r is None,
        },
{
    if bids.len() < asks.len() || !all_levels_fit(bids) || !all_levels_fit(asks) {
        return None;
    }
    let bw = widest(bids);
    let aw = widest(asks);
    let half_b = repeat_char(' ', bw / 2);
    let half_a = repeat_char(' ', aw / 2);
    let mut title = String::from_str(half_b.as_str());
    let mut name = String::from_str("ORDERBOOK FOR ");
    name.append(pair);
    let b = boldt(name.as_str());
    title.append(b.as_str());
    let mut header = String::from_str(half_b.as_str());
    header.append(" BID ");
    header.append(half_b.as_str());
    header.append(" ");
    header.append(half_a.as_str());
    header.append(" ASK ");
    header.append(half_a.as_str());
    let ghost rows = Seq::new(asks@.len(), |i: int| " "@ + padded_bid(bids@[i], bw as nat) + " | "@ + level_text(asks@[i]));
    let mut v: Vec<String> = vec![title, header];
    let ghost first = texts(v@);
    assert(first.len() == 2);
    let mut i: usize = 0;
    while i < asks.len()
        invariant
            i <= asks@.len(),
            asks@.len() <= bids@.len(),
            levels_fit(bids@),
            levels_fit(asks@),
            bw == max_width(bids@),
            bw <= 64,
            rows == Seq::new(asks@.len(), |j: int| " "@ + padded_bid(bids@[j], bw as nat) + " | "@ + level_text(asks@[j])),
            v@.len() == 2 + i,
            first.len() == 2,
            texts(v@) == first + rows.take(i as int),
        decreases asks@.len() - i,
    {
        let (bt, _) = level(bids[i]);
        let (at, _) = level(asks[i]);
        let tl = bt.unicode_len();
        let mut row = String::from_str(" ");
        row.append(bt.as_str());
        if tl < bw + 3 {
            let pad = repeat_char(' ', bw + 3 - tl);
            row.append(pad.as_str());
        }
        row.append(" | ");
        row.append(at.as_str());
        assert(row@ == rows[i as int]);
        let ghost before = v@;
        v.push(row);
        assert forall|j: int| 0 <= j < v@.len() implies #[trigger] texts(v@)[j] == (first + rows.take(i + 1))[j] by {
            assert(texts(v@)[j] == v@[j]@);
            if j < v@.len() - 1 {
                assert(v@[j] == before[j]);
                assert(texts(before)[j] == (first + rows.take(i as int))[j]);
            }
        }
        assert(texts(v@) =~= first + rows.take(i + 1));
        i = i + 1;
    }
    assert(rows.take(asks@.len() as int) =~= rows);
    assert(texts(v@) =~= orderbook_output(pair@, bids@, asks@)->0);
    Some(v)
}

/// The free share of a balance, as `free_percent` says.
fn percent_free(free: DecimalValue, total: DecimalValue) -> (r: Option<DecimalValue>)
    requires
        free.wf(),
        total.wf(),
    ensures
        r == free_percent(free, total),
        r matches Some(p) ==> p.wf(),
{
    let zero = DecimalValue { negative: false, magnitude: 0, scale: 0 };
    if decimal_gt(total, zero) {
        match decimal_try_div(free, total) {
            Some(q) => decimal_try_mul(q, DecimalValue { negative: false, magnitude: 100, scale: 0 }),
            None => None,
        }
    } else {
        Some(zero)
    }
}

/// The balance display, as `balances_output` says.
fn balances_lines(bs: &Vec<FtxBalance>) -> (r: Option<Vec<String>>)
    ensures
        match balances_output(bs@) {
            Some(lines) => r matches Some(v) && texts(v@) == lines,
            None => r is None,
        },
{
    let mut first = String::from_str("[");
    let n = u64_to_decimal(bs.len() as u64);
    first.append(n.as_str());
    first.append(" Balance types]");
    let mut v: Vec<String> = vec![first];
    let ghost head = texts(v@);
    let mut i: usize = 0;
    while i < bs.len()
        invariant
            i <= bs@.len(),
            head == seq!["["@ + decimal(bs@.len()) + " Balance types]"@],
            balances_body(bs@.take(i as int)) matches Some(body) && texts(v@) == head + body,
        decreases bs@.len() - i,
    {
        let ghost prev = balances_body(bs@.take(i as int))->0;
        assert(bs@.take(i + 1).drop_last() =~= bs@.take(i as int));
        assert(bs@.take(i + 1).last() == bs@[i as int]);
        let b = &bs[i];
        if !value_fits(b.free) || !value_fits(b.total) {
            proof {
                lemma_balances_stay_none(bs@, i as nat + 1);
            }
            return None;
        }
        let pct = match percent_free(b.free, b.total) {
            Some(p) => p,
            None => {
                proof {
                    lemma_balances_stay_none(bs@, i as nat + 1);
                }
                return None;
            },
        };
        let l1 = bold_line("  ", b.coin.as_str());
        let mut l2 = String::from_str("     Free:  ");
        let f = decimal_to_string(b.free);
        l2.append(f.as_str());
        l2.append(" (");
        let ps = decimal_to_string(pct);
        l2.append(ps.as_str());
        l2.append("%)");
        let mut l3 = String::from_str("     Total: ");
        let t = decimal_to_string(b.total);
        l3.append(t.as_str());
        let ghost before = texts(v@);
        v.push(l1);
        v.push(l2);
        v.push(l3);
        v.push(String::from_str(""));
        assert(texts(v@) =~= before + balance_lines(*b, pct));
        assert(texts(v@) =~= head + (prev + balance_lines(*b, pct)));
        i = i + 1;
    }
    assert(bs@.take(bs@.len() as int) =~= bs@);
    Some(v)
}

/// Once the balance lines cannot be made for the first `k` balances, they
/// cannot be made for all of them.
proof fn lemma_balances_stay_none(bs: Seq<FtxBalance>, k: nat)
    requires
        k <= bs.len(),
        balances_body(bs.take(k as int)) is None,
    ensures
        balances_body(bs) is None,
    decreases bs.len() - k,
{
    if k < bs.len() {
        assert(bs.take(k as int + 1).drop_last() =~= bs.take(k as int));
        lemma_balances_stay_none(bs, k + 1);
    } else {
        assert(bs.take(k as int) =~= bs);
    }
}

/// A command in a ready session.
fn ftx_command(o: FtxSession, c: String) -> (r: (FtxSession, FtxAction))
    ensures
        command_step(o, c@, r.0, r.1),
{
    let FtxSession { subaccount, pair, stage: _ } = o;
    let ready = FtxStage::Ready;
    match ftx_command_kind_of(c.as_str()) {
        FtxCommandKind::Help => (FtxSession { subaccount, pair, stage: ready }, action(ftx_help(), FtxNext::Idle)),
        FtxCommandKind::NeedsParameters => {
            let mut line = String::from_str("  !For this function, please use this format: ");
            line.append(c.as_str());
            line.append(" [parameters]");
            (FtxSession { subaccount, pair, stage: ready }, action(one_line(line), FtxNext::Idle))
        },
        FtxCommandKind::PairShortcut | FtxCommandKind::Stop | FtxCommandKind::Unknown => (
            FtxSession { subaccount, pair, stage: ready },
            idle(),
        ),
        FtxCommandKind::SubDefault => {
            let line = bold_line("    ", "Returning to default account");
            (
                FtxSession { subaccount: String::from_str("def"), pair, stage: ready },
                action(one_line(line), FtxNext::UseAccount(None)),
            )
        },
        FtxCommandKind::SubNamed => {
            let name = split_collect(c.as_str(), "sub ");
            (
                FtxSession { subaccount, pair, stage: FtxStage::SubLookup(name) },
                action(Vec::new(), FtxNext::FetchSubaccounts),
            )
        },
        FtxCommandKind::LevSet => {
            let raw = split_collect(c.as_str(), "lev ");
            match parse_u32(raw.as_str()) {
                Ok(v) => (FtxSession { subaccount, pair, stage: FtxStage::LevRead(v) }, action(Vec::new(), FtxNext::FetchAccount)),
                Err(message) => (
                    FtxSession { subaccount, pair, stage: ready },
                    action(Vec::new(), FtxNext::Fail(TermError { message })),
                ),
            }
        },
        FtxCommandKind::Search => {
            let q = split_collect(c.as_str(), "search ");
            (
                FtxSession { subaccount, pair, stage: FtxStage::Search(q) },
                action(Vec::new(), FtxNext::FetchMarketNames),
            )
        },
        FtxCommandKind::Orderbook => {
            let p = pair.clone();
            let q = pair.clone();
            (FtxSession { subaccount, pair, stage: FtxStage::Orderbook(q) }, action(Vec::new(), FtxNext::FetchOrderbook(p)))
        },
        FtxCommandKind::Order => (FtxSession { subaccount, pair, stage: ready }, action(Vec::new(), FtxNext::StartOrder)),
        FtxCommandKind::LevShow => (
            FtxSession { subaccount, pair, stage: FtxStage::LevShow },
            action(Vec::new(), FtxNext::FetchAccount),
        ),
        FtxCommandKind::Subs => (
            FtxSession { subaccount, pair, stage: FtxStage::SubList },
            action(Vec::new(), FtxNext::FetchSubaccounts),
        ),
        FtxCommandKind::Pair => (
            FtxSession { subaccount, pair, stage: FtxStage::PairPrefix },
            action(one_line(String::from_str("  Change pair:")), FtxNext::Ask(String::from_str("[Prefix]"))),
        ),
        FtxCommandKind::Price => {
            let p = pair.clone();
            (FtxSession { subaccount, pair, stage: FtxStage::Prices }, action(Vec::new(), FtxNext::FetchMarket(p)))
        },
        FtxCommandKind::Balance => {
            let s = subaccount.clone();
            (FtxSession { subaccount, pair, stage: FtxStage::Balances }, action(Vec::new(), FtxNext::FetchBalances(s)))
        },
        FtxCommandKind::AllMarkets => (
            FtxSession { subaccount, pair, stage: FtxStage::MarketList },
            action(Vec::new(), FtxNext::FetchMarketNames),
        ),
        FtxCommandKind::AllFutures => (
            FtxSession { subaccount, pair, stage: FtxStage::FutureList },
            action(Vec::new(), FtxNext::FetchFutureNames),
        ),
        FtxCommandKind::Account => (FtxSession { subaccount, pair, stage: ready }, action(Vec::new(), FtxNext::ShowAccount)),
        FtxCommandKind::RawMarkets => (
            FtxSession { subaccount, pair, stage: ready },
            action(Vec::new(), FtxNext::ShowRawMarkets),
        ),
    }
}

/// A reply in a waiting session.
fn ftx_reply(o: FtxSession, e: FtxEvent) -> (r: (FtxSession, FtxAction))
    ensures
        reply_step(o, e, r.0, r.1),
{
    let FtxSession { subaccount, pair, stage } = o;
    let ready = FtxStage::Ready;
    match (stage, e) {
        (FtxStage::SubLookup(x), FtxEvent::Names(ns)) => {
            if listed(&ns, x.as_str()) {
                let line = bold_line("    ", "Success (switched to subaccount)");
                let y = x.clone();
                (FtxSession { subaccount: x, pair, stage: ready }, action(one_line(line), FtxNext::UseAccount(Some(y))))
            } else {
                let mut line = String::from_str("  No subaccount found called - ");
                line.append(x.as_str());
                (FtxSession { subaccount, pair, stage: ready }, action(one_line(line), FtxNext::Idle))
            }
        },
        (FtxStage::SubList, FtxEvent::Names(ns)) => {
            (FtxSession { subaccount, pair, stage: ready }, action(numbered(&ns), FtxNext::Idle))
        },
        (FtxStage::LevShow, FtxEvent::Texts(v)) if v.len() >= 1 => {
            let mut line = String::from_str("  Current Leverage: ");
            line.append(v[0].as_str());
            (FtxSession { subaccount, pair, stage: ready }, action(one_line(line), FtxNext::Idle))
        },
        (FtxStage::LevRead(l), FtxEvent::Texts(v)) if v.len() >= 1 => {
            let old = v[0].clone();
            (
                FtxSession { subaccount, pair, stage: FtxStage::LevChange(old, l) },
                action(Vec::new(), FtxNext::ChangeLeverage(l)),
            )
        },
        (FtxStage::LevChange(old, l), FtxEvent::Done) => {
            let mut first = String::from_str("CHANGE: ");
            first.append(old.as_str());
            first.append(" -> ");
            let n = u64_to_decimal(l as u64);
            first.append(n.as_str());
            let second = bold_line("  ", "Success (changed leverage)");
            let lines = vec![first, second];
            assert(texts(lines@) =~= seq![
                "CHANGE: "@ + old@ + " -> "@ + decimal(l as nat),
                "  "@ + bold("Success (changed leverage)"@)
            ]);
            (FtxSession { subaccount, pair, stage: ready }, action(lines, FtxNext::Idle))
        },
        (FtxStage::Search(q), FtxEvent::Names(ns)) => {
            (FtxSession { subaccount, pair, stage: ready }, action(search_lines(&ns, q.as_str()), FtxNext::Idle))
        },
        (FtxStage::MarketList, FtxEvent::Names(ns)) => (
            FtxSession { subaccount, pair, stage: ready },
            action(one_line(joined(&ns)), FtxNext::Idle),
        ),
        (FtxStage::FutureList, FtxEvent::Names(ns)) => (
            FtxSession { subaccount, pair, stage: ready },
            action(one_line(joined(&ns)), FtxNext::Idle),
        ),
        (FtxStage::PairPrefix, FtxEvent::Answer(p)) => (
            FtxSession { subaccount, pair, stage: FtxStage::PairSuffix(p) },
            action(Vec::new(), FtxNext::Ask(String::from_str("[Suffix]"))),
        ),
        (FtxStage::PairSuffix(p), FtxEvent::Answer(s)) => {
            let t = _formatted_pair([p.as_str(), s.as_str()]);
            (
                FtxSession { subaccount, pair, stage: FtxStage::PairLookup(t) },
                action(Vec::new(), FtxNext::FetchMarketNames),
            )
        },
        (FtxStage::PairLookup(t), FtxEvent::Names(ns)) => {
            if listed(&ns, t.as_str()) {
                let line = bold_line("    ", "Success (pair found)");
                let u = t.clone();
                (
                    FtxSession { subaccount, pair, stage: FtxStage::PairPrice(t) },
                    action(one_line(line), FtxNext::FetchMarket(u)),
                )
            } else {
                let line = bold_line("    ", "Error (pair not found)");
                (FtxSession { subaccount, pair, stage: ready }, action(one_line(line), FtxNext::Idle))
            }
        },
        (FtxStage::PairPrice(t), FtxEvent::Texts(v)) if v.len() >= 1 => {
            let mut line = String::from_str("    Price (");
            line.append(t.as_str());
            line.append("): ");
            line.append(v[0].as_str());
            let sym = _get_suffix_symbol(t.as_str());
            line.append(sym);
            (FtxSession { subaccount, pair: t, stage: ready }, action(one_line(line), FtxNext::Idle))
        },
        (FtxStage::Prices, FtxEvent::Texts(v)) if v.len() >= 3 => {
            let mut a = String::from_str("  Mid: ");
            a.append(v[0].as_str());
            let mut b = String::from_str("  Ask: ");
            b.append(v[1].as_str());
            let mut c = String::from_str("  Bid: ");
            c.append(v[2].as_str());
            let lines = vec![a, b, c];
            assert(texts(lines@) =~= seq!["  Mid: "@ + v@[0]@, "  Ask: "@ + v@[1]@, "  Bid: "@ + v@[2]@]);
            (FtxSession { subaccount, pair, stage: ready }, action(lines, FtxNext::Idle))
        },
        (FtxStage::Orderbook(p), FtxEvent::Book { bids, asks }) => match orderbook_lines(p.as_str(), &bids, &asks) {
            Some(lines) => (FtxSession { subaccount, pair, stage: ready }, action(lines, FtxNext::Idle)),
            None => (
                FtxSession { subaccount, pair, stage: ready },
                action(Vec::new(), FtxNext::Fail(TermError { message: String::from_str("The order book has fewer bids than asks") })),
            ),
        },
        (FtxStage::Balances, FtxEvent::Balances(bs)) => match balances_lines(&bs) {
            Some(lines) => (FtxSession { subaccount, pair, stage: ready }, action(lines, FtxNext::Idle)),
            None => (
                FtxSession { subaccount, pair, stage: ready },
                action(Vec::new(), FtxNext::Fail(TermError { message: String::from_str("Decimal arithmetic overflowed") })),
            ),
        },
        _ => (FtxSession { subaccount, pair, stage: ready }, idle()),
    }
}

/// One step of the FTX command handler: a command in a ready session runs as
/// `command_step` says; anything else is a reply to what the session waits
/// for, handled as `reply_step` says.
pub fn ftx_command_step(state: FtxSession, event: FtxEvent) -> (r: (FtxSession, FtxAction))
    ensures
        (state.stage is Ready && event is Command) ==> command_step(state, event->Command_0@, r.0, r.1),
        !(state.stage is Ready && event is Command) ==> reply_step(state, event, r.0, r.1),
{
    let is_command = match (&state.stage, &event) {
        (FtxStage::Ready, FtxEvent::Command(_)) => true,
        _ => false,
    };
    if is_command {
        match event {
            FtxEvent::Command(c) => ftx_command(state, c),
            _ => ftx_reply(state, event),
        }
    } else {
        ftx_reply(state, event)
    }
}

} // verus!
