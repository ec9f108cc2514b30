//! FTX pair names and price symbols.

use vstd::prelude::*;
use vstd::string::*;

use vstd::utf8::is_ascii_chars;

use crate::text::{ascii_upper, seq_ends_with, str_ends_with, str_equal, to_uppercase, unicode_upper};

verus! {

/// The FTX market name of an upper-cased base and quote: futures (`PERP`,
/// `1231`) are joined with `-`, spot pairs with `/`.
pub open spec fn market_name(base: Seq<char>, quote: Seq<char>) -> Seq<char> {
    base + (if quote == "PERP"@ || quote == "1231"@ { "-"@ } else { "/"@ }) + quote
}

/// The price symbol of a pair: `$` for dollar quotes, `₿` for BTC and ETH
/// quotes, nothing otherwise.
pub open spec fn suffix_symbol(pair: Seq<char>) -> Seq<char> {
    if seq_ends_with(pair, "USD"@) || seq_ends_with(pair, "PERP"@) || seq_ends_with(pair, "USDT"@) {
        "$"@
    } else if seq_ends_with(pair, "BTC"@) || seq_ends_with(pair, "ETH"@) {
        "₿"@
    } else {
        ""@
    }
}

/// Joins an upper-cased base and quote into an FTX market name.
pub fn join_market_name(base: &str, quote: &str) -> (r: String)
    ensures
        r@ == market_name(base@, quote@),
{
    let divider = if str_equal(quote, "PERP") || str_equal(quote, "1231") {
        "-"
    } else {
        "/"
    };
    let mut r = String::from_str(base);
    r.append(divider);
    r.append(quote);
    r
}

/// The FTX market name of a `[base, quote]` pair, upper-cased.
pub fn _formatted_pair(pairr: [&str; 2]) -> (r: String)
    ensures
        r@ == market_name(unicode_upper(pairr@[0]@), unicode_upper(pairr@[1]@)),
        is_ascii_chars(pairr@[0]@) && is_ascii_chars(pairr@[1]@) ==> r@ == market_name(
            ascii_upper(pairr@[0]@),
            ascii_upper(pairr@[1]@),
        ),
{
    let base = to_uppercase(pairr[0]);
    let quote = to_uppercase(pairr[1]);
    join_market_name(base.as_str(), quote.as_str())
}

/// The price symbol shown after prices of `pair`.
pub fn _get_suffix_symbol(pair: &str) -> (r: &str)
    ensures
        r@ == suffix_symbol(pair@),
{
    if str_ends_with(pair, "USD") || str_ends_with(pair, "PERP") || str_ends_with(pair, "USDT") {
        return "$";
    }
    if str_ends_with(pair, "BTC") || str_ends_with(pair, "ETH") {
        "₿"
    } else {
        ""
    }
}

} // verus!
