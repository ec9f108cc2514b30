//! The line shown when an order of the FTX account fills.

use vstd::prelude::*;
use vstd::string::*;

use crate::db::{debug_quoted, debug_string};
use crate::decimal::{decimal_checked_product, decimal_text, decimal_to_string, decimal_try_mul, DecimalValue};
use crate::ftx_advanced_orders::OrderSide;
use crate::ftx_core::ftx_utils::{_get_suffix_symbol, suffix_symbol};
use crate::text::str_equal;
use crate::userspace::texts;
use crate::TermError;

verus! {

/// How a side is written in debug form.
pub open spec fn side_debug(side: OrderSide) -> Seq<char> {
    match side {
        OrderSide::Buy => "Buy"@,
        OrderSide::Sell => "Sell"@,
    }
}

/// The fill line for a fill of `size` at `price` on `market`, whose value
/// `price * size` is `value`.
pub open spec fn fill_line_of(market: Seq<char>, side: OrderSide, price: DecimalValue, value: DecimalValue) -> Seq<char> {
    debug_quoted(market) + " - Fill ("@ + side_debug(side) + ") at: "@ + decimal_text(price) + " with size: "@
        + decimal_text(value) + " "@ + suffix_symbol(market)
}

/// The line shown for a fill: the market, the side, the price and the value
/// filled (price times size) with the market's price symbol. A value that
/// overflows is an error.
pub fn ftx_fill_line(market: &str, side: OrderSide, price: DecimalValue, size: DecimalValue) -> (r: Result<String, TermError>)
    requires
        price.wf(),
        size.wf(),
    ensures
        match decimal_checked_product(price, size) {
            Some(value) => r matches Ok(line) && line@ == fill_line_of(market@, side, price, value),
            None => r matches Err(e) && e.message@ == "Decimal arithmetic overflowed"@,
        },
{
    let value = match decimal_try_mul(price, size) {
        Some(v) => v,
        None => return Err(TermError { message: String::from_str("Decimal arithmetic overflowed") }),
    };
    let mut line = debug_string(market);
    line.append(" - Fill (");
    match side {
        OrderSide::Buy => line.append("Buy"),
        OrderSide::Sell => line.append("Sell"),
    }
    line.append(") at: ");
    let p = decimal_to_string(price);
    line.append(p.as_str());
    line.append(" with size: ");
    let v = decimal_to_string(value);
    line.append(v.as_str());
    line.append(" ");
    line.append(_get_suffix_symbol(market));
    Ok(line)
}

/// Which stored trades a fill marks as filled: those whose exchange order id
/// is the fill's id; the others stay as they are.
pub open spec fn filled_marks(order_ids: Seq<Seq<char>>, fill_id: Seq<char>) -> Seq<bool> {
    Seq::new(order_ids.len(), |i: int| order_ids[i] == fill_id)
}

/// For each stored trade (given by its exchange order id), whether the fill
/// with id `fill_id` marks it as filled.
pub fn ftx_filled_trades(order_ids: &Vec<String>, fill_id: &str) -> (r: Vec<bool>)
    ensures
        r@ == filled_marks(texts(order_ids@), fill_id@),
{
    let mut r: Vec<bool> = Vec::new();
    let mut i: usize = 0;
    while i < order_ids.len()
        invariant
            i <= order_ids@.len(),
            r@ == filled_marks(texts(order_ids@), fill_id@).take(i as int),
        decreases order_ids@.len() - i,
    {
        let hit = str_equal(order_ids[i].as_str(), fill_id);
        assert(texts(order_ids@)[i as int] == order_ids@[i as int]@);
        r.push(hit);
        assert(r@ =~= filled_marks(texts(order_ids@), fill_id@).take(i + 1));
        i = i + 1;
    }
    assert(filled_marks(texts(order_ids@), fill_id@).take(order_ids@.len() as int) =~= filled_marks(texts(order_ids@), fill_id@));
    r
}

} // verus!
