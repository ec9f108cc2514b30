//! Order classifications shared by the exchanges and the trade store.

use vstd::prelude::*;

verus! {

/// User trade entry type (technical order type).
#[derive(Copy, Clone, Debug, PartialEq, Eq, Structural)]
pub enum EntryType {
    /// Market order (accepting an offer).
    Market,
    /// Limit order (creating an offer).
    Limit,
}

/// Exchange coin market type (exchange specific).
#[derive(Copy, Clone, Debug, PartialEq, Eq, Structural)]
pub enum ExchangeContext {
    /// Margined in the coin itself (such as BTC); supports leverage.
    BybitInverse,
    /// Margined in the quote coin (such as USDT); supports leverage.
    BybitLinear,
    /// No leverage.
    _BybitSpot,
    /// Derivatives that expire at specific dates; supports leverage.
    _BybitFutures,
}

/// Application order entry types (not the technical order type).
#[derive(Copy, Clone, Debug, PartialEq, Eq, Structural)]
pub enum OrderEntryType {
    /// Immediate order.
    Market,
    /// Order at a chosen price.
    Limit,
    /// Order triggered at a certain level.
    Conditional,
    /// Limit order at a chosen depth of the order book.
    OrderBook,
}

/// Direction of a trade.
#[derive(Copy, Clone, Debug, PartialEq, Eq, Structural)]
pub enum OrderDirection {
    /// Profits when the price goes up.
    Long,
    /// Profits when the price goes down.
    Short,
}

} // verus!
