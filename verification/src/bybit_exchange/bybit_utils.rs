//! Base currency of a Bybit pair, for the earlier command interface.

use vstd::prelude::*;

use crate::bybit_core::bybit_utils::{pair_base, unknown_base_message};
use crate::text::unicode_upper;
use crate::TermError;

verus! {

/// The base currency of a Bybit pair (`fp` is the full pair name, in any case).
pub fn bybit_get_base(fp: String) -> (r: Result<String, TermError>)
    ensures
        match r {
            Ok(b) => pair_base(unicode_upper(fp@)) == Some(b@),
            Err(e) => pair_base(unicode_upper(fp@)) is None && e.message@ == unknown_base_message(),
        },
{
    crate::bybit_core::bybit_utils::bybit_get_base(fp)
}

} // verus!
