//! The FTX command set, which implements no exchange commands yet.

use vstd::prelude::*;

verus! {

/// The FTX exchange handle; FTX answers none of the exchange commands.
pub struct FtxStruct {}

} // verus!
