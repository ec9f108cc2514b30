//! The decisions of the Bybit commands: order types, pair shapes, searches,
//! pair changes and the reports they print.

use vstd::prelude::*;
use vstd::string::*;

use vstd::utf8::is_ascii_chars;

use crate::bybit_core::bybit_utils::pair_base;
use crate::orders::{EntryType, ExchangeContext, OrderEntryType};
use crate::text::{
    ascii_upper,
    decimal, remove_all, seq_contains, seq_ends_with, seq_starts_with, split_collect, str_contains,
    str_ends_with, str_equal, str_starts_with, to_uppercase, u64_to_decimal, unicode_upper,
};
use crate::userspace::{printed, same_session, texts};
use crate::utils::{plural, s_or_not};
use crate::{TermError, UserSpace};

verus! {

/// Whenever a pair's base currency is found, the pair has a shape with that
/// base: it starts or ends with it, so the order command always finds the
/// pair's other coin.
pub proof fn law_base_gives_shape(pair: Seq<char>)
    ensures
        pair_base(pair) matches Some(b) ==> pair_shape_of(pair, b) is Some,
{
    reveal_strlit("USDT");
    reveal_strlit("BTC");
    reveal_strlit("USDC");
    reveal_strlit("USD");
    reveal_strlit("USD0325");
    reveal_strlit("USD0624");
    if let Some(b) = pair_base(pair) {
        if seq_ends_with(pair, "USDT"@) || seq_ends_with(pair, "BTC"@) || seq_ends_with(pair, "USDC"@) {
            assert(seq_ends_with(pair, b));
        } else {
            assert(seq_starts_with(pair, b)) by {
                assert(pair.subrange(0, b.len() as int) =~= b);
            }
        }
    }
}

/// The order type a short answer names: `m`, `l` or `ob`.
pub open spec fn order_type_named(choice: Seq<char>) -> Option<OrderEntryType> {
    if choice == "m"@ {
        Some(OrderEntryType::Market)
    } else if choice == "l"@ {
        Some(OrderEntryType::Limit)
    } else if choice == "ob"@ {
        Some(OrderEntryType::OrderBook)
    } else {
        None
    }
}

/// The order type named by the command or by an answer (`m`, `l`, `ob`); none
/// means the user is asked.
pub fn order_type_choice(choice: &str) -> (r: Option<OrderEntryType>)
    ensures
        r == order_type_named(choice@),
{
    if str_equal(choice, "m") {
        Some(OrderEntryType::Market)
    } else if str_equal(choice, "l") {
        Some(OrderEntryType::Limit)
    } else if str_equal(choice, "ob") {
        Some(OrderEntryType::OrderBook)
    } else {
        None
    }
}

/// How a pair stands to its base currency.
pub struct PairShape {
    /// The other coin of the pair.
    pub alt_base: String,
    /// Whether sizes in the base currency need many decimals.
    pub long_dec_needed: bool,
    /// Whether the pair is margined in the quote coin.
    pub is_linear: bool,
}

/// The shape of `pair` with base currency `base`: an inverse pair starts with
/// its base, a linear pair ends with it; a pair that does neither has none.
pub open spec fn pair_shape_of(pair: Seq<char>, base: Seq<char>) -> Option<(Seq<char>, bool, bool)> {
    if seq_starts_with(pair, base) {
        Some((pair.subrange(base.len() as int, pair.len() as int), true, false))
    } else if seq_ends_with(pair, base) {
        Some((pair.subrange(0, pair.len() - base.len()), false, true))
    } else {
        None
    }
}

/// The shape of `pair` with base currency `base`.
pub fn pair_shape(pair: &str, base: &str) -> (r: Option<PairShape>)
    ensures
        match r {
            Some(s) => pair_shape_of(pair@, base@) == Some((s.alt_base@, s.long_dec_needed, s.is_linear)),
            None => pair_shape_of(pair@, base@) is None,
        },
{
    let lp = pair.unicode_len();
    let lb = base.unicode_len();
    if str_starts_with(pair, base) {
        Some(PairShape { alt_base: String::from_str(pair.substring_char(lb, lp)), long_dec_needed: true, is_linear: false })
    } else if str_ends_with(pair, base) {
        Some(PairShape { alt_base: String::from_str(pair.substring_char(0, lp - lb)), long_dec_needed: false, is_linear: true })
    } else {
        None
    }
}

/// How an order size in the quote coin becomes a quantity to buy.
#[derive(Copy, Clone, Debug, PartialEq, Eq, Structural)]
pub enum QuantityRule {
    /// USDT pairs: the size is divided by the entry price.
    DivideByEntry,
    /// USD pairs (perpetual or dated): the size is multiplied by the entry price.
    MultiplyByEntry,
}

/// The quantity rule of a pair, if the pair is supported.
pub open spec fn quantity_rule_of(pair: Seq<char>) -> Option<QuantityRule> {
    if seq_ends_with(pair, "USDT"@) {
        Some(QuantityRule::DivideByEntry)
    } else if seq_ends_with(pair, "USD"@) || seq_ends_with(pair, "USD0325"@) || seq_ends_with(pair, "USD0624"@) {
        Some(QuantityRule::MultiplyByEntry)
    } else {
        None
    }
}

/// The message given for a pair whose quantities cannot be computed.
pub open spec fn unsupported_quantity_message() -> Seq<char> {
    "Your current pair is not supported for quantity calculation (devs probably lazy) notify us on our repository."@
}

/// The quantity rule of a pair.
pub fn quantity_rule(pair: &str) -> (r: Result<QuantityRule, TermError>)
    ensures
        match r {
            Ok(q) => quantity_rule_of(pair@) == Some(q),
            Err(e) => quantity_rule_of(pair@) is None && e.message@ == unsupported_quantity_message(),
        },
{
    if str_ends_with(pair, "USDT") {
        Ok(QuantityRule::DivideByEntry)
    } else if str_ends_with(pair, "USD") || str_ends_with(pair, "USD0325") || str_ends_with(pair, "USD0624") {
        Ok(QuantityRule::MultiplyByEntry)
    } else {
        Err(TermError {
            message: String::from_str(
                "Your current pair is not supported for quantity calculation (devs probably lazy) notify us on our repository.",
            ),
        })
    }
}

/// The message given for an order type that cannot be placed yet.
pub open spec fn unsupported_order_type_message() -> Seq<char> {
    "Big Panik! order_type not supported at order_type match"@
}

/// The trigger type shown for an order type.
pub open spec fn trigger_label(t: OrderEntryType, conditional_is_market: bool) -> Option<Seq<char>> {
    match t {
        OrderEntryType::Market => Some("Market"@),
        OrderEntryType::Limit => Some("Limit"@),
        OrderEntryType::Conditional => Some(
            if conditional_is_market {
                "Conditional Market"@
            } else {
                "Conditional Limit"@
            },
        ),
        OrderEntryType::OrderBook => None,
    }
}

/// The trigger type shown for an order; order-book orders cannot be placed yet.
pub fn trigger_type_label(t: OrderEntryType, conditional_is_market: bool) -> (r: Result<&'static str, TermError>)
    ensures
        match r {
            Ok(s) => trigger_label(t, conditional_is_market) == Some(s@),
            Err(e) => trigger_label(t, conditional_is_market) is None && e.message@ == unsupported_order_type_message(),
        },
{
    match t {
        OrderEntryType::Market => Ok("Market"),
        OrderEntryType::Limit => Ok("Limit"),
        OrderEntryType::Conditional => {
            if conditional_is_market {
                Ok("Conditional Market")
            } else {
                Ok("Conditional Limit")
            }
        },
        OrderEntryType::OrderBook => Err(
            TermError { message: String::from_str("Big Panik! order_type not supported at order_type match") },
        ),
    }
}

/// The technical entry type of a placed order: market orders and market
/// conditionals take the offer, the rest make one.
pub fn entry_type_for(t: OrderEntryType, conditional_is_market: bool) -> (r: EntryType)
    ensures
        r == (if (t == OrderEntryType::Conditional && conditional_is_market) || t == OrderEntryType::Market {
            EntryType::Market
        } else {
            EntryType::Limit
        }),
{
    if (t == OrderEntryType::Conditional && conditional_is_market) || t == OrderEntryType::Market {
        EntryType::Market
    } else {
        EntryType::Limit
    }
}

/// The market type of a Bybit pair.
pub fn context_for(is_linear: bool) -> (r: ExchangeContext)
    ensures
        r == (if is_linear { ExchangeContext::BybitLinear } else { ExchangeContext::BybitInverse }),
{
    if is_linear {
        ExchangeContext::BybitLinear
    } else {
        ExchangeContext::BybitInverse
    }
}

/// The query of a `search <query>` command; none means the user is asked.
pub fn search_query(command: &str) -> (r: Option<String>)
    ensures
        seq_starts_with(command@, "search "@) ==> (r matches Some(q) && q@ == remove_all(command@, "search "@)),
        !seq_starts_with(command@, "search "@) ==> r is None,
{
    if str_starts_with(command, "search ") {
        Some(split_collect(command, "search "))
    } else {
        None
    }
}

/// The pair of a `pair <name>` command; none means the user is asked.
pub fn pair_request(command: &str) -> (r: Option<String>)
    ensures
        seq_starts_with(command@, "pair "@) ==> (r matches Some(q) && q@ == remove_all(command@, "pair "@)),
        !seq_starts_with(command@, "pair "@) ==> r is None,
{
    if str_starts_with(command, "pair ") {
        Some(split_collect(command, "pair "))
    } else {
        None
    }
}

/// The lines listing the pairs among `aliases` that contain `query`, in order.
pub open spec fn search_hit_lines(aliases: Seq<Seq<char>>, query: Seq<char>) -> Seq<Seq<char>>
    decreases aliases.len(),
{
    if aliases.len() == 0 {
        Seq::empty()
    } else {
        let rest = search_hit_lines(aliases.drop_last(), query);
        if seq_contains(aliases.last(), query) {
            rest.push("  HIT: "@ + aliases.last())
        } else {
            rest
        }
    }
}

/// The line summing up a search with `n` hits.
pub open spec fn found_line(n: nat) -> Seq<char> {
    "    "@ + decimal(n) + " Pair"@ + plural(n as int) + " Found"@
}

/// The output of a search for `query` among `aliases`.
pub open spec fn search_report(aliases: Seq<Seq<char>>, query: Seq<char>) -> Seq<Seq<char>> {
    search_hit_lines(aliases, query).push(found_line(search_hit_lines(aliases, query).len()))
}

/// Prints the pairs among `aliases` containing the upper-cased `query`, then
/// how many were found.
pub fn report_search(us: &mut UserSpace, aliases: &Vec<String>, query: &str) -> (r: Result<(), TermError>)
    requires
        aliases@.len() < u32::MAX,
        old(us).stream_differ + aliases@.len() + 1 <= u16::MAX,
    ensures
        r is Ok,
        printed(final(us).command_history@, old(us).command_history@,
            search_report(texts(aliases@), unicode_upper(query@))),
        final(us).stream_differ == old(us).stream_differ + search_report(texts(aliases@), unicode_upper(query@)).len(),
        final(us).command_history_scroll_overflow == old(us).command_history_scroll_overflow,
        same_session(*final(us), *old(us)),
{
    let ghost a = texts(aliases@);
    let upper = to_uppercase(query);
    let mut lines: Vec<String> = Vec::new();
    let mut matched_count: u32 = 0;
    let mut i: usize = 0;
    while i < aliases.len()
        invariant
            a == texts(aliases@),
            aliases@.len() < u32::MAX,
            i <= aliases@.len(),
            upper@ == unicode_upper(query@),
            texts(lines@) == search_hit_lines(a.take(i as int), upper@),
            matched_count as nat == lines@.len(),
            lines@.len() <= i,
        decreases aliases@.len() - i,
    {
        let alias = &aliases[i];
        assert(a.take(i + 1).drop_last() =~= a.take(i as int));
        assert(a.take(i + 1).last() == alias@);
        if str_contains(alias.as_str(), upper.as_str()) {
            let mut line = String::from_str("  HIT: ");
            line.append(alias.as_str());
            lines.push(line);
            matched_count = matched_count + 1;
        }
        assert(texts(lines@) =~= search_hit_lines(a.take(i + 1), upper@));
        i = i + 1;
    }
    assert(a.take(aliases@.len() as int) =~= a);
    let mut last = String::from_str("    ");
    let n = u64_to_decimal(matched_count as u64);
    last.append(n.as_str());
    last.append(" Pair");
    let s = s_or_not(matched_count as usize);
    last.append(s.as_str());
    last.append(" Found");
    lines.push(last);
    assert(texts(lines@) =~= search_report(a, upper@));
    us.print_lines(lines);
    Ok(())
}

/// Whether `pair` is one of the listed pair names.
pub fn pair_is_listed(aliases: &Vec<String>, pair: &str) -> (r: bool)
    ensures
        r == texts(aliases@).contains(pair@),
{
    let mut i: usize = 0;
    while i < aliases.len()
        invariant
            i <= aliases@.len(),
            forall|j: int| 0 <= j < i ==> aliases@[j]@ != pair@,
        decreases aliases@.len() - i,
    {
        if str_equal(aliases[i].as_str(), pair) {
            assert(texts(aliases@)[i as int] == pair@);
            return true;
        }
        i = i + 1;
    }
    assert forall|j: int| 0 <= j < texts(aliases@).len() implies texts(aliases@)[j] != pair@ by {
        assert(texts(aliases@)[j] == aliases@[j]@);
    }
    false
}

/// The requested pair, upper-cased, where it is one of the listed pair names.
pub fn listed_pair(aliases: &Vec<String>, requested: &str) -> (r: Option<String>)
    ensures
        match r {
            Some(p) => p@ == unicode_upper(requested@) && texts(aliases@).contains(p@),
            None => !texts(aliases@).contains(unicode_upper(requested@)),
        },
        is_ascii_chars(requested@) ==> match r {
            Some(p) => p@ == ascii_upper(requested@),
            None => !texts(aliases@).contains(ascii_upper(requested@)),
        },
{
    let upper = to_uppercase(requested);
    if pair_is_listed(aliases, upper.as_str()) {
        Some(upper)
    } else {
        None
    }
}

/// The lines showing a pair's prices.
pub open spec fn price_lines(last: Seq<char>, ask: Seq<char>, bid: Seq<char>) -> Seq<Seq<char>> {
    seq!["  Mid: "@ + last, "  Ask: "@ + ask, "  Bid: "@ + bid]
}

/// Prints the last, ask and bid prices of the current pair.
pub fn report_prices(us: &mut UserSpace, last_price: &str, ask_price: &str, bid_price: &str) -> (r: Result<(), TermError>)
    requires
        old(us).stream_differ + 3 <= u16::MAX,
    ensures
        r is Ok,
        printed(final(us).command_history@, old(us).command_history@,
            price_lines(last_price@, ask_price@, bid_price@)),
        final(us).stream_differ == old(us).stream_differ + 3,
        final(us).command_history_scroll_overflow == old(us).command_history_scroll_overflow,
        same_session(*final(us), *old(us)),
{
    let mut a = String::from_str("  Mid: ");
    a.append(last_price);
    let mut b = String::from_str("  Ask: ");
    b.append(ask_price);
    let mut c = String::from_str("  Bid: ");
    c.append(bid_price);
    let lines = vec![a, b, c];
    assert(texts(lines@) =~= price_lines(last_price@, ask_price@, bid_price@));
    us.print_lines(lines);
    Ok(())
}

/// The line printed when a pair change finds the pair.
pub open spec fn pair_found_line() -> Seq<char> {
    "    Switched (pair found)"@
}

/// The line printed when a pair change does not find the pair.
pub open spec fn pair_missing_line() -> Seq<char> {
    "    Switch failed (pair not found)"@
}

/// Reports whether the requested pair was found.
pub fn report_pair_lookup(us: &mut UserSpace, found: bool) -> (r: Result<(), TermError>)
    requires
        old(us).stream_differ < u16::MAX,
    ensures
        r is Ok,
        printed(final(us).command_history@, old(us).command_history@,
            seq![if found { pair_found_line() } else { pair_missing_line() }]),
        final(us).stream_differ == old(us).stream_differ + 1,
        final(us).command_history_scroll_overflow == old(us).command_history_scroll_overflow,
        same_session(*final(us), *old(us)),
{
    let line = if found {
        String::from_str("    Switched (pair found)")
    } else {
        String::from_str("    Switch failed (pair not found)")
    };
    let lines = vec![line];
    assert(texts(lines@) =~= seq![if found { pair_found_line() } else { pair_missing_line() }]);
    us.print_lines(lines);
    Ok(())
}

/// Makes `pair` the current pair and prints its price and ticker.
pub fn apply_pair_change(us: &mut UserSpace, pair: String, last_price: &str, ticker_debug: &str) -> (r: Result<(), TermError>)
    requires
        old(us).stream_differ + 2 <= u16::MAX,
    ensures
        r is Ok,
        final(us).pair == pair,
        printed(final(us).command_history@, old(us).command_history@,
            seq!["    Price ("@ + pair@ + "): "@ + last_price@, ticker_debug@]),
        final(us).stream_differ == old(us).stream_differ + 2,
        final(us).command_history_scroll_overflow == old(us).command_history_scroll_overflow,
        final(us).sub_account == old(us).sub_account,
        final(us).active_exchange == old(us).active_exchange,
        final(us).input == old(us).input,
        final(us).command_count == old(us).command_count,
{
    let mut line = String::from_str("    Price (");
    line.append(pair.as_str());
    line.append("): ");
    line.append(last_price);
    us.pair = pair;
    let lines = vec![line, String::from_str(ticker_debug)];
    assert(texts(lines@) =~= seq!["    Price ("@ + us.pair@ + "): "@ + last_price@, ticker_debug@]);
    us.print_lines(lines);
    Ok(())
}

/// A numbered choice in a menu of two options.
#[derive(Copy, Clone, Debug, PartialEq, Eq, Structural)]
pub enum MenuChoice {
    /// `1`.
    First,
    /// `2`.
    Second,
    /// Anything else: the menu is shown again.
    Invalid,
}

/// The option an answer picks in a two-option menu.
pub fn menu_choice(choice: &str) -> (r: MenuChoice)
    ensures
        r == (if choice@ == "1"@ {
            MenuChoice::First
        } else if choice@ == "2"@ {
            MenuChoice::Second
        } else {
            MenuChoice::Invalid
        }),
{
    if str_equal(choice, "1") {
        MenuChoice::First
    } else if str_equal(choice, "2") {
        MenuChoice::Second
    } else {
        MenuChoice::Invalid
    }
}

/// Where the `defaults` command stands.
#[derive(Copy, Clone, Debug, PartialEq, Eq, Structural)]
pub enum DefaultsStage {
    /// Waiting for the choice between Bybit and universal defaults.
    Context,
    /// Waiting for the Bybit default to change.
    Option,
    /// Waiting for the current pair to be stored as the default pair.
    StoredPair,
    /// Waiting for the current sub-account to be stored as the default.
    StoredSub,
    /// The command is over.
    Done,
}

/// What happened in the `defaults` command.
pub enum DefaultsEvent {
    /// An answer to the prompt.
    Answer(String),
    /// The setting was stored; the store hands back the value it wrote.
    Stored(String),
}

/// What to do after printing.
pub enum DefaultsNext {
    /// Ask the user, with this prompt.
    Ask(String),
    /// Store this setting.
    Store { key: String, value: String },
    /// The command is over.
    Finished,
}

/// Lines to print, then what to do.
pub struct DefaultsAction {
    pub print: Vec<String>,
    pub next: DefaultsNext,
}

/// The menu of default kinds.
pub open spec fn context_menu() -> Seq<Seq<char>> {
    seq![" 1. Bybit defaults"@, " 2. Universal defaults"@]
}

/// The action prints `lines` and asks with `prompt`.
pub open spec fn defaults_asks(a: DefaultsAction, lines: Seq<Seq<char>>, prompt: Seq<char>) -> bool {
    texts(a.print@) == lines && (a.next matches DefaultsNext::Ask(p) && p@ == prompt)
}

/// The action stores `value` under `key`, printing nothing first.
pub open spec fn defaults_stores(a: DefaultsAction, key: Seq<char>, value: Seq<char>) -> bool {
    a.print@.len() == 0 && (a.next matches DefaultsNext::Store { key: k, value: v } && k@ == key && v@ == value)
}

/// One step of the `defaults` command for the current pair `pair` and
/// sub-account `sub`.
pub open spec fn defaults_step_of(stage: DefaultsStage, pair: Seq<char>, sub: Seq<char>, e: DefaultsEvent, n: DefaultsStage, a: DefaultsAction) -> bool {
    match (stage, e) {
        (DefaultsStage::Context, DefaultsEvent::Answer(c)) => if c@ == "1"@ {
            n == DefaultsStage::Option && defaults_asks(
                a,
                seq![
                    ""@,
                    " Bybit defaults"@,
                    ""@,
                    "  1. Change default pair to current pair"@,
                    "  2. Change default subaccount to current subaccount"@,
                    ""@
                ],
                "Option Number"@,
            )
        } else if c@ == "2"@ {
            n == DefaultsStage::Done && texts(a.print@) == seq![""@, " Universal defaults"@, ""@, " Not Available yet!"@, ""@]
                && a.next is Finished
        } else {
            n == DefaultsStage::Context && defaults_asks(
                a,
                seq![""@, "NOT AN OPTION, CHOOSE AGAIN"@, ""@] + context_menu(),
                "Choose an option number"@,
            )
        },
        (DefaultsStage::Option, DefaultsEvent::Answer(c)) => if c@ == "1"@ {
            n == DefaultsStage::StoredPair && defaults_stores(a, "bybit_default_pair"@, pair)
        } else if c@ == "2"@ {
            n == DefaultsStage::StoredSub && defaults_stores(a, "bybit_default_sub"@, sub)
        } else {
            n == DefaultsStage::Option && defaults_asks(a, seq![" !! Not a choice !!"@, ""@], "Option Number"@)
        },
        (DefaultsStage::StoredPair, DefaultsEvent::Stored(v)) => n == DefaultsStage::Done && texts(a.print@) == seq![
            v@,
            " Changed default pair successfully"@
        ] && a.next is Finished,
        (DefaultsStage::StoredSub, DefaultsEvent::Stored(_)) => n == DefaultsStage::Done && texts(a.print@) == seq![
            " Changed default subaccount successfully"@
        ] && a.next is Finished,
        _ => n == DefaultsStage::Done && a.print@.len() == 0 && a.next is Finished,
    }
}

fn lines_of(v: Vec<&str>) -> (r: Vec<String>)
    ensures
        r@.len() == v@.len(),
        forall|i: int| 0 <= i < v@.len() ==> (#[trigger] r@[i])@ == v@[i]@,
{
    let mut r: Vec<String> = Vec::new();
    let mut i: usize = 0;
    while i < v.len()
        invariant
            i <= v@.len(),
            r@.len() == i,
            forall|j: int| 0 <= j < i ==> (#[trigger] r@[j])@ == v@[j]@,
        decreases v@.len() - i,
    {
        r.push(String::from_str(v[i]));
        i = i + 1;
    }
    r
}

/// Starts the `defaults` command: shows the menu of default kinds.
pub fn defaults_start() -> (r: (DefaultsStage, DefaultsAction))
    ensures
        r.0 == DefaultsStage::Context,
        defaults_asks(r.1, context_menu(), "Choose an option number"@),
{
    let print = lines_of(vec![" 1. Bybit defaults", " 2. Universal defaults"]);
    assert(texts(print@) =~= context_menu());
    (DefaultsStage::Context, DefaultsAction { print, next: DefaultsNext::Ask(String::from_str("Choose an option number")) })
}

/// One step of the `defaults` command, as `defaults_step_of` says.
pub fn defaults_step(stage: DefaultsStage, pair: &str, sub: &str, e: DefaultsEvent) -> (r: (DefaultsStage, DefaultsAction))
    ensures
        defaults_step_of(stage, pair@, sub@, e, r.0, r.1),
{
    match (stage, e) {
        (DefaultsStage::Context, DefaultsEvent::Answer(c)) => match menu_choice(c.as_str()) {
            MenuChoice::First => {
                let print = lines_of(vec![
                    "",
                    " Bybit defaults",
                    "",
                    "  1. Change default pair to current pair",
                    "  2. Change default subaccount to current subaccount",
                    "",
                ]);
                assert(texts(print@) =~= seq![
                    ""@,
                    " Bybit defaults"@,
                    ""@,
                    "  1. Change default pair to current pair"@,
                    "  2. Change default subaccount to current subaccount"@,
                    ""@
                ]);
                (DefaultsStage::Option, DefaultsAction { print, next: DefaultsNext::Ask(String::from_str("Option Number")) })
            },
            MenuChoice::Second => {
                let print = lines_of(vec!["", " Universal defaults", "", " Not Available yet!", ""]);
                assert(texts(print@) =~= seq![""@, " Universal defaults"@, ""@, " Not Available yet!"@, ""@]);
                (DefaultsStage::Done, DefaultsAction { print, next: DefaultsNext::Finished })
            },
            MenuChoice::Invalid => {
                let print = lines_of(vec!["", "NOT AN OPTION, CHOOSE AGAIN", "", " 1. Bybit defaults", " 2. Universal defaults"]);
                assert(texts(print@) =~= seq![""@, "NOT AN OPTION, CHOOSE AGAIN"@, ""@] + context_menu());
                (
                    DefaultsStage::Context,
                    DefaultsAction { print, next: DefaultsNext::Ask(String::from_str("Choose an option number")) },
                )
            },
        },
        (DefaultsStage::Option, DefaultsEvent::Answer(c)) => match menu_choice(c.as_str()) {
            MenuChoice::First => (
                DefaultsStage::StoredPair,
                DefaultsAction {
                    print: Vec::new(),
                    next: DefaultsNext::Store { key: String::from_str("bybit_default_pair"), value: String::from_str(pair) },
                },
            ),
            MenuChoice::Second => (
                DefaultsStage::StoredSub,
                DefaultsAction {
                    print: Vec::new(),
                    next: DefaultsNext::Store { key: String::from_str("bybit_default_sub"), value: String::from_str(sub) },
                },
            ),
            MenuChoice::Invalid => {
                let print = lines_of(vec![" !! Not a choice !!", ""]);
                assert(texts(print@) =~= seq![" !! Not a choice !!"@, ""@]);
                (DefaultsStage::Option, DefaultsAction { print, next: DefaultsNext::Ask(String::from_str("Option Number")) })
            },
        },
        (DefaultsStage::StoredPair, DefaultsEvent::Stored(v)) => {
            let ghost stored = v@;
            let print = vec![v, String::from_str(" Changed default pair successfully")];
            assert(texts(print@) =~= seq![stored, " Changed default pair successfully"@]);
            (DefaultsStage::Done, DefaultsAction { print, next: DefaultsNext::Finished })
        },
        (DefaultsStage::StoredSub, DefaultsEvent::Stored(_)) => {
            let print = vec![String::from_str(" Changed default subaccount successfully")];
            assert(texts(print@) =~= seq![" Changed default subaccount successfully"@]);
            (DefaultsStage::Done, DefaultsAction { print, next: DefaultsNext::Finished })
        },
        _ => (DefaultsStage::Done, DefaultsAction { print: Vec::new(), next: DefaultsNext::Finished }),
    }
}

} // verus!
