//! How trades and settings are written to and read from the store.

use vstd::prelude::*;
use vstd::string::*;

use crate::orders::{EntryType, ExchangeContext, OrderDirection, OrderEntryType};
use crate::text::str_equal;
use crate::{Config, Exchange, TermError};

verus! {

/// What `format!("{:?}", s)` writes for a string: the quoted, escaped text.
pub uninterp spec fn debug_quoted(s: Seq<char>) -> Seq<char>;

/// Calls `format!("{:?}", s)` on a string slice. The result is named by
/// `debug_quoted`.
#[verifier::external_body]
pub(crate) fn debug_string(s: &str) -> (r: String)
    ensures
        r@ == debug_quoted(s@),
{
    format!("{:?}", s)
}

/// The stored name of an exchange.
pub open spec fn exchange_code(e: Exchange) -> Seq<char> {
    match e {
        Exchange::Ftx => "ftx"@,
        Exchange::Bybit => "bybit"@,
    }
}

/// The exchange a stored name stands for.
pub open spec fn exchange_from_code(s: Seq<char>) -> Option<Exchange> {
    if s == "ftx"@ {
        Some(Exchange::Ftx)
    } else if s == "bybit"@ {
        Some(Exchange::Bybit)
    } else {
        None
    }
}

/// Writes an exchange.
pub fn encode_exchange(e: Exchange) -> (r: &'static str)
    ensures
        r@ == exchange_code(e),
{
    match e {
        Exchange::Ftx => "ftx",
        Exchange::Bybit => "bybit",
    }
}

/// Reads an exchange.
pub fn decode_exchange(s: &str) -> (r: Result<Exchange, TermError>)
    ensures
        match r {
            Ok(e) => exchange_from_code(s@) == Some(e),
            Err(err) => exchange_from_code(s@) is None
                && err.message@ == "Exchange: <"@ + debug_quoted(s@) + "> is not available (yet)."@,
        },
{
    if str_equal(s, "ftx") {
        Ok(Exchange::Ftx)
    } else if str_equal(s, "bybit") {
        Ok(Exchange::Bybit)
    } else {
        let mut m = String::from_str("Exchange: <");
        let d = debug_string(s);
        m.append(d.as_str());
        m.append("> is not available (yet).");
        Err(TermError { message: m })
    }
}

/// The stored name of a market type, for the types that can be stored.
pub open spec fn exchange_context_code(c: ExchangeContext) -> Option<Seq<char>> {
    match c {
        ExchangeContext::BybitInverse => Some("bybit_inverse"@),
        ExchangeContext::BybitLinear => Some("bybit_linear"@),
        _ => None,
    }
}

/// The debug name of a market type.
pub open spec fn exchange_context_debug(c: ExchangeContext) -> Seq<char> {
    match c {
        ExchangeContext::BybitInverse => "BybitInverse"@,
        ExchangeContext::BybitLinear => "BybitLinear"@,
        ExchangeContext::_BybitSpot => "_BybitSpot"@,
        ExchangeContext::_BybitFutures => "_BybitFutures"@,
    }
}

/// The market type a stored name stands for.
pub open spec fn exchange_context_from_code(s: Seq<char>) -> Option<ExchangeContext> {
    if s == "bybit_inverse"@ {
        Some(ExchangeContext::BybitInverse)
    } else if s == "bybit_linear"@ {
        Some(ExchangeContext::BybitLinear)
    } else {
        None
    }
}

/// Writes a market type; spot and futures types cannot be stored yet.
pub fn encode_exchange_context(c: ExchangeContext) -> (r: Result<&'static str, TermError>)
    ensures
        match r {
            Ok(s) => exchange_context_code(c) == Some(s@),
            Err(err) => exchange_context_code(c) is None
                && err.message@ == "Exchange context: <"@ + exchange_context_debug(c) + "> is not a available (yet)."@,
        },
{
    match c {
        ExchangeContext::BybitInverse => Ok("bybit_inverse"),
        ExchangeContext::BybitLinear => Ok("bybit_linear"),
        _ => {
            let mut m = String::from_str("Exchange context: <");
            match c {
                ExchangeContext::_BybitSpot => m.append("_BybitSpot"),
                _ => m.append("_BybitFutures"),
            }
            m.append("> is not a available (yet).");
            Err(TermError { message: m })
        },
    }
}

/// Reads a market type.
pub fn decode_exchange_context(s: &str) -> (r: Result<ExchangeContext, TermError>)
    ensures
        match r {
            Ok(c) => exchange_context_from_code(s@) == Some(c),
            Err(err) => exchange_context_from_code(s@) is None
                && err.message@ == "Exchange context: <"@ + debug_quoted(s@) + "> is not available (yet)."@,
        },
{
    if str_equal(s, "bybit_inverse") {
        Ok(ExchangeContext::BybitInverse)
    } else if str_equal(s, "bybit_linear") {
        Ok(ExchangeContext::BybitLinear)
    } else {
        let mut m = String::from_str("Exchange context: <");
        let d = debug_string(s);
        m.append(d.as_str());
        m.append("> is not available (yet).");
        Err(TermError { message: m })
    }
}

/// The stored name of an entry type.
pub open spec fn entry_type_code(t: EntryType) -> Seq<char> {
    match t {
        EntryType::Market => "market"@,
        EntryType::Limit => "limit"@,
    }
}

/// The entry type a stored name stands for.
pub open spec fn entry_type_from_code(s: Seq<char>) -> Option<EntryType> {
    if s == "market"@ {
        Some(EntryType::Market)
    } else if s == "limit"@ {
        Some(EntryType::Limit)
    } else {
        None
    }
}

/// Writes an entry type.
pub fn encode_entry_type(t: EntryType) -> (r: &'static str)
    ensures
        r@ == entry_type_code(t),
{
    match t {
        EntryType::Market => "market",
        EntryType::Limit => "limit",
    }
}

/// Reads an entry type.
pub fn decode_entry_type(s: &str) -> (r: Result<EntryType, TermError>)
    ensures
        match r {
            Ok(t) => entry_type_from_code(s@) == Some(t),
            Err(err) => entry_type_from_code(s@) is None
                && err.message@ == "Entry type: <"@ + debug_quoted(s@) + "> is not available (yet)."@,
        },
{
    if str_equal(s, "market") {
        Ok(EntryType::Market)
    } else if str_equal(s, "limit") {
        Ok(EntryType::Limit)
    } else {
        let mut m = String::from_str("Entry type: <");
        let d = debug_string(s);
        m.append(d.as_str());
        m.append("> is not available (yet).");
        Err(TermError { message: m })
    }
}

/// The stored name of an application order type.
pub open spec fn order_entry_type_code(t: OrderEntryType) -> Seq<char> {
    match t {
        OrderEntryType::Market => "market"@,
        OrderEntryType::Limit => "limit"@,
        OrderEntryType::Conditional => "conditional"@,
        OrderEntryType::OrderBook => "orderbook"@,
    }
}

/// The application order type a stored name stands for.
pub open spec fn order_entry_type_from_code(s: Seq<char>) -> Option<OrderEntryType> {
    if s == "market"@ {
        Some(OrderEntryType::Market)
    } else if s == "limit"@ {
        Some(OrderEntryType::Limit)
    } else if s == "conditional"@ {
        Some(OrderEntryType::Conditional)
    } else if s == "orderbook"@ {
        Some(OrderEntryType::OrderBook)
    } else {
        None
    }
}

/// Writes an application order type.
pub fn encode_order_entry_type(t: OrderEntryType) -> (r: &'static str)
    ensures
        r@ == order_entry_type_code(t),
{
    match t {
        OrderEntryType::Market => "market",
        OrderEntryType::Limit => "limit",
        OrderEntryType::Conditional => "conditional",
        OrderEntryType::OrderBook => "orderbook",
    }
}

/// Reads an application order type.
pub fn decode_order_entry_type(s: &str) -> (r: Result<OrderEntryType, TermError>)
    ensures
        match r {
            Ok(t) => order_entry_type_from_code(s@) == Some(t),
            Err(err) => order_entry_type_from_code(s@) is None
                && err.message@ == "Client order type: <"@ + debug_quoted(s@) + "> is not available (yet)."@,
        },
{
    if str_equal(s, "market") {
        Ok(OrderEntryType::Market)
    } else if str_equal(s, "limit") {
        Ok(OrderEntryType::Limit)
    } else if str_equal(s, "conditional") {
        Ok(OrderEntryType::Conditional)
    } else if str_equal(s, "orderbook") {
        Ok(OrderEntryType::OrderBook)
    } else {
        let mut m = String::from_str("Client order type: <");
        let d = debug_string(s);
        m.append(d.as_str());
        m.append("> is not available (yet).");
        Err(TermError { message: m })
    }
}

/// The stored name of a direction.
pub open spec fn direction_code(d: OrderDirection) -> Seq<char> {
    match d {
        OrderDirection::Long => "long"@,
        OrderDirection::Short => "short"@,
    }
}

/// Writes a direction.
pub fn encode_direction(d: OrderDirection) -> (r: &'static str)
    ensures
        r@ == direction_code(d),
{
    if d == OrderDirection::Long {
        "long"
    } else {
        "short"
    }
}

/// Reads a direction: `long` is long, anything else short.
pub fn decode_direction(s: &str) -> (r: OrderDirection)
    ensures
        r == (if s@ == "long"@ { OrderDirection::Long } else { OrderDirection::Short }),
{
    if str_equal(s, "long") {
        OrderDirection::Long
    } else {
        OrderDirection::Short
    }
}

/// The stored form of a flag.
pub open spec fn flag_code(b: bool) -> Seq<char> {
    if b {
        "true"@
    } else {
        "false"@
    }
}

/// Writes the filled flag.
pub fn encode_filled(filled: bool) -> (r: &'static str)
    ensures
        r@ == flag_code(filled),
{
    if filled {
        "true"
    } else {
        "false"
    }
}

/// Reads the filled flag: only `true` is true.
pub fn decode_filled(s: &str) -> (r: bool)
    ensures
        r == (s@ == "true"@),
{
    str_equal(s, "true")
}

/// How an optional text field is written: absent is the empty text.
pub open spec fn optional_code(v: Option<Seq<char>>) -> Seq<char> {
    match v {
        Some(s) => s,
        None => Seq::empty(),
    }
}

/// How an optional text field is read: the empty text is absent.
pub open spec fn optional_from_code(s: Seq<char>) -> Option<Seq<char>> {
    if s.len() == 0 {
        None
    } else {
        Some(s)
    }
}

/// Writes an optional text field: absent is the empty text.
pub fn encode_optional(v: &Option<String>) -> (r: String)
    ensures
        r@ == optional_code(match v {
            Some(s) => Some(s@),
            None => None,
        }),
{
    match v {
        Some(s) => s.clone(),
        None => String::new(),
    }
}

/// Reads an optional text field: the empty text is absent.
pub fn decode_optional(s: &str) -> (r: Option<String>)
    ensures
        optional_from_code(s@) == (match r {
            Some(v) => Some(v@),
            None => None,
        }),
{
    if s.unicode_len() == 0 {
        None
    } else {
        Some(String::from_str(s))
    }
}


/// Calls `rand::Rng::gen_range` on the thread's generator: a value drawn from
/// `lo..hi`. Nothing more is known of which value comes.
#[verifier::external_body]
fn random_in_range(lo: i64, hi: i64) -> (r: i64)
    requires
        lo < hi,
    ensures
        lo <= r < hi,
{
    rand::Rng::gen_range(&mut rand::thread_rng(), lo..hi)
}

/// Whether `id` is already the id of a stored trade.
pub fn id_in_use(id: i64, existing: &Vec<i64>) -> (r: bool)
    ensures
        r == existing@.contains(id),
{
    let mut i: usize = 0;
    while i < existing.len()
        invariant
            i <= existing@.len(),
            forall|j: int| 0 <= j < i ==> existing@[j] != id,
        decreases existing@.len() - i,
    {
        if existing[i] == id {
            assert(existing@[i as int] == id);
            return true;
        }
        i = i + 1;
    }
    false
}

/// A candidate trade id is taken only if no stored trade has it.
pub fn checked_trade_id(candidate: i64, existing: &Vec<i64>) -> (r: Option<i64>)
    ensures
        r == (if existing@.contains(candidate) { None } else { Some(candidate) }),
{
    if id_in_use(candidate, existing) {
        None
    } else {
        Some(candidate)
    }
}

/// Draws a random trade id in `10..999999`; it is returned only if no stored
/// trade has it (the caller draws again otherwise). A draw fails only on an
/// id that is taken, so it always succeeds while no id of the range is taken.
pub fn draw_trade_id(existing: &Vec<i64>) -> (r: Option<i64>)
    ensures
        r matches Some(id) ==> 10 <= id < 999999 && !existing@.contains(id),
        r is None ==> exists|id: i64| 10 <= id < 999999 && #[trigger] existing@.contains(id),
{
    let candidate = random_in_range(10, 999999);
    let r = checked_trade_id(candidate, existing);
    if r.is_none() {
        assert(existing@.contains(candidate));
    }
    r
}

/// The value of a setting: the stored value if there is one, else the default.
pub fn entry_or_default(found: Option<String>, default_value: Option<&str>) -> (r: Option<String>)
    ensures
        found matches Some(v) ==> r == Some(v),
        found is None ==> (match default_value {
            Some(d) => r matches Some(v) && v@ == d@,
            None => r is None,
        }),
{
    match found {
        Some(v) => Some(v),
        None => match default_value {
            Some(d) => Some(String::from_str(d)),
            None => None,
        },
    }
}

/// The configuration from the stored settings, with the defaults `BTCUSDT`
/// and `main` for Bybit and `BTC/PERP` and `main` for FTX where none is stored.
pub fn config_from_entries(
    bybit_default_pair: Option<String>,
    bybit_default_sub: Option<String>,
    ftx_default_pair: Option<String>,
    ftx_default_sub: Option<String>,
) -> (r: Config)
    ensures
        r.bybit_default_pair@ == (match bybit_default_pair {
            Some(v) => v@,
            None => "BTCUSDT"@,
        }),
        r.bybit_default_sub@ == (match bybit_default_sub {
            Some(v) => v@,
            None => "main"@,
        }),
        r.ftx_default_pair@ == (match ftx_default_pair {
            Some(v) => v@,
            None => "BTC/PERP"@,
        }),
        r.ftx_default_sub@ == (match ftx_default_sub {
            Some(v) => v@,
            None => "main"@,
        }),
{
    let a = match bybit_default_pair {
        Some(v) => v,
        None => String::from_str("BTCUSDT"),
    };
    let b = match bybit_default_sub {
        Some(v) => v,
        None => String::from_str("main"),
    };
    let c = match ftx_default_pair {
        Some(v) => v,
        None => String::from_str("BTC/PERP"),
    };
    let d = match ftx_default_sub {
        Some(v) => v,
        None => String::from_str("main"),
    };
    Config { bybit_default_pair: a, bybit_default_sub: b, ftx_default_pair: c, ftx_default_sub: d }
}

/// Reading back what was written gives the same value, for every stored
/// field kind: exchange, market type (where it can be written), entry type,
/// application order type, direction, filled flag and optional text (other
/// than a present empty text, which reads back as absent).
pub proof fn law_trade_fields_roundtrip(
    e: Exchange,
    c: ExchangeContext,
    t: EntryType,
    o: OrderEntryType,
    d: OrderDirection,
    filled: bool,
    text: Option<Seq<char>>,
)
    ensures
        exchange_from_code(exchange_code(e)) == Some(e),
        exchange_context_code(c) matches Some(code) ==> exchange_context_from_code(code) == Some(c),
        entry_type_from_code(entry_type_code(t)) == Some(t),
        order_entry_type_from_code(order_entry_type_code(o)) == Some(o),
        (if direction_code(d) == "long"@ { OrderDirection::Long } else { OrderDirection::Short }) == d,
        (flag_code(filled) == "true"@) == filled,
        text != Some(Seq::<char>::empty()) ==> optional_from_code(optional_code(text)) == text,
{
    reveal_strlit("ftx");
    reveal_strlit("bybit");
    reveal_strlit("bybit_inverse");
    reveal_strlit("bybit_linear");
    reveal_strlit("market");
    reveal_strlit("limit");
    reveal_strlit("conditional");
    reveal_strlit("orderbook");
    reveal_strlit("long");
    reveal_strlit("short");
    reveal_strlit("true");
    reveal_strlit("false");
    assert("bybit"@.len() == 5 && "ftx"@.len() == 3);
    assert("bybit"@ != "ftx"@);
    assert("false"@.len() == 5 && "true"@.len() == 4);
    assert("false"@ != "true"@);
    assert("short"@[0] != "long"@[0]);
    assert("short"@ != "long"@);
    assert("limit"@.len() != "market"@.len());
    assert("limit"@ != "market"@);
    assert("conditional"@.len() != "market"@.len() && "conditional"@.len() != "limit"@.len());
    assert("orderbook"@.len() != "market"@.len() && "orderbook"@.len() != "limit"@.len()
        && "orderbook"@.len() != "conditional"@.len());
    assert("bybit_linear"@.len() != "bybit_inverse"@.len());
    if let Some(t) = text {
        if t.len() == 0 {
            assert(t =~= Seq::<char>::empty());
        }
    }
}

} // verus!
