//! FTX pair names and price symbols, for the earlier command interface.

use vstd::prelude::*;

use crate::ftx_core::ftx_utils::{market_name, suffix_symbol};
use vstd::utf8::is_ascii_chars;

use crate::text::{ascii_upper, unicode_upper};

verus! {

/// The FTX market name of a `[base, quote]` pair, upper-cased.
pub fn ftx_formattedpair(pairr: [&str; 2]) -> (r: String)
    ensures
        r@ == market_name(unicode_upper(pairr@[0]@), unicode_upper(pairr@[1]@)),
        is_ascii_chars(pairr@[0]@) && is_ascii_chars(pairr@[1]@) ==> r@ == market_name(
            ascii_upper(pairr@[0]@),
            ascii_upper(pairr@[1]@),
        ),
{
    crate::ftx_core::ftx_utils::_formatted_pair(pairr)
}

/// The price symbol shown after prices of `pair`.
pub fn ftx_getsuffixsymbol(pair: &str) -> (r: &str)
    ensures
        r@ == suffix_symbol(pair@),
{
    crate::ftx_core::ftx_utils::_get_suffix_symbol(pair)
}

} // verus!
