//! Base currency of a Bybit pair.

use vstd::prelude::*;
use vstd::string::*;

use vstd::utf8::is_ascii_chars;

use crate::text::{ascii_upper, seq_ends_with, str_ends_with, to_uppercase, unicode_upper};
use crate::TermError;

verus! {

/// The base currency of an upper-cased Bybit pair name: the quote coin for
/// linear pairs (`USDT`, `BTC`, `USDC` suffixes), the coin before `USD` for
/// inverse pairs (`USD`, `USD0325`, `USD0624` suffixes), none otherwise.
pub open spec fn pair_base(fp: Seq<char>) -> Option<Seq<char>> {
    if seq_ends_with(fp, "USDT"@) {
        Some("USDT"@)
    } else if seq_ends_with(fp, "BTC"@) {
        Some("BTC"@)
    } else if seq_ends_with(fp, "USDC"@) {
        Some("USDC"@)
    } else if seq_ends_with(fp, "USD"@) {
        Some(fp.subrange(0, fp.len() - "USD"@.len()))
    } else if seq_ends_with(fp, "USD0325"@) {
        Some(fp.subrange(0, fp.len() - "USD0325"@.len()))
    } else if seq_ends_with(fp, "USD0624"@) {
        Some(fp.subrange(0, fp.len() - "USD0624"@.len()))
    } else {
        None
    }
}

/// The message given for a pair whose base currency is unknown.
pub open spec fn unknown_base_message() -> Seq<char> {
    "Could not find base currency for pair."@
}

/// The base currency of an already upper-cased pair name.
pub fn base_of_upper_pair(fp: &str) -> (r: Result<String, TermError>)
    ensures
        match r {
            Ok(b) => pair_base(fp@) == Some(b@),
            Err(e) => pair_base(fp@) is None && e.message@ == unknown_base_message(),
        },
{
    let len = fp.unicode_len();
    if str_ends_with(fp, "USDT") {
        Ok(String::from_str("USDT"))
    } else if str_ends_with(fp, "BTC") {
        Ok(String::from_str("BTC"))
    } else if str_ends_with(fp, "USDC") {
        Ok(String::from_str("USDC"))
    } else if str_ends_with(fp, "USD") {
        let k = "USD".unicode_len();
        Ok(String::from_str(fp.substring_char(0, len - k)))
    } else if str_ends_with(fp, "USD0325") {
        let k = "USD0325".unicode_len();
        Ok(String::from_str(fp.substring_char(0, len - k)))
    } else if str_ends_with(fp, "USD0624") {
        let k = "USD0624".unicode_len();
        Ok(String::from_str(fp.substring_char(0, len - k)))
    } else {
        Err(TermError { message: String::from_str("Could not find base currency for pair.") })
    }
}

/// The base currency of a Bybit pair (`fp` is the full pair name, in any case).
pub fn bybit_get_base(fp: String) -> (r: Result<String, TermError>)
    ensures
        match r {
            Ok(b) => pair_base(unicode_upper(fp@)) == Some(b@),
            Err(e) => pair_base(unicode_upper(fp@)) is None && e.message@ == unknown_base_message(),
        },
        is_ascii_chars(fp@) ==> match r {
            Ok(b) => pair_base(ascii_upper(fp@)) == Some(b@),
            Err(_) => pair_base(ascii_upper(fp@)) is None,
        },
{
    let up = to_uppercase(fp.as_str());
    base_of_upper_pair(up.as_str())
}

} // verus!
