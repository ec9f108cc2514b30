//! FTX order sizing, checks and fee estimates.

use vstd::prelude::*;
use vstd::string::*;

use crate::decimal::{
    decimal_checked_difference, decimal_checked_product, decimal_checked_quotient, decimal_gt, decimal_mul,
    decimal_product, decimal_try_div, decimal_try_mul, decimal_try_sub, greater, pow10, round_dp, round_half_even,
    at_least, at_most, at_scale, difference_fits, lemma_pow10_add, lemma_pow10_bounds, max_scale, product_at_least, quotient_at_least,
    quotient_at_most, quotient_is, exact_product, product_fits, product_at_most, product_is, same_number, lemma_quotients_agree, DecimalValue,
    MAX_MAGNITUDE,
};
use crate::decimal::decimal_text;
use crate::decimal::decimal_to_string;
use crate::ftx_session::bold;
use crate::text::{seq_ends_with, str_ends_with, str_equal, to_uppercase, unicode_upper};
use crate::userspace::texts;
use crate::utils::boldt;
use crate::TermError;

verus! {

/// The fee for an order of size `quantity`: the taker fee for market orders,
/// the maker fee otherwise, rounded to three decimal places (halves to even).
pub fn calculate_fees(ismarket: bool, quantity: DecimalValue, taker_fee: DecimalValue, maker_fee: DecimalValue) -> (r: DecimalValue)
    requires
        quantity.wf(),
        taker_fee.wf(),
        maker_fee.wf(),
        ({
            let fee = if ismarket { taker_fee } else { maker_fee };
            quantity.magnitude * fee.magnitude <= MAX_MAGNITUDE * pow10((quantity.scale + fee.scale) as nat)
        }),
    ensures
        r == round_half_even(decimal_product(quantity, if ismarket { taker_fee } else { maker_fee }), 3),
{
    if ismarket {
        round_dp(decimal_mul(quantity, taker_fee), 3)
    } else {
        round_dp(decimal_mul(quantity, maker_fee), 3)
    }
}

/// A decimal `magnitude / 10^scale`, not negative.
pub open spec fn dec(magnitude: u128, scale: u32) -> DecimalValue {
    DecimalValue { negative: false, magnitude, scale }
}

/// `a` and `b` are the same number.
pub open spec fn same_value(a: DecimalValue, b: DecimalValue) -> bool {
    !greater(a, b) && !greater(b, a)
}

/// The order's parameters cannot make an order: a risk above 100% or below
/// 0.1%, or two of stop-loss, take-profit and entry at the same price.
pub open spec fn invalid_parameters(risk: DecimalValue, entry: DecimalValue, stoploss: DecimalValue, takeprofit: DecimalValue) -> bool {
    greater(risk, dec(100, 0)) || same_value(stoploss, takeprofit) || same_value(stoploss, entry) || same_value(
        takeprofit,
        entry,
    ) || greater(dec(1, 1), risk)
}

/// A long: stop-loss below the entry, take-profit above it.
pub open spec fn long_setup(entry: DecimalValue, stoploss: DecimalValue, takeprofit: DecimalValue) -> bool {
    greater(takeprofit, stoploss) && greater(entry, stoploss) && greater(takeprofit, entry)
}

/// A short: stop-loss above the entry, take-profit below it.
pub open spec fn short_setup(entry: DecimalValue, stoploss: DecimalValue, takeprofit: DecimalValue) -> bool {
    greater(stoploss, takeprofit) && greater(stoploss, entry) && greater(entry, takeprofit)
}

/// The message for order parameters that cannot make an order.
pub open spec fn invalid_parameters_message() -> Seq<char> {
    "Invalid parameters (error in calculating order size) - Check your inputs"@
}

/// The message for prices that make neither a long nor a short.
pub open spec fn no_direction_message() -> Seq<char> {
    "Something bad happened in calculate_order!"@
}

/// The message where the crate reports an overflow in the order arithmetic.
pub open spec fn overflow_message() -> Seq<char> {
    "Decimal arithmetic overflowed"@
}

fn dec_value(magnitude: u128, scale: u32) -> (r: DecimalValue)
    ensures
        r == dec(magnitude, scale),
{
    DecimalValue { negative: false, magnitude, scale }
}

fn same(a: DecimalValue, b: DecimalValue) -> (r: bool)
    requires
        a.wf(),
        b.wf(),
    ensures
        r == same_value(a, b),
{
    !decimal_gt(a, b) && !decimal_gt(b, a)
}

/// Checks the order's parameters and finds its direction: `true` for a long.
pub fn ftx_order_direction(risk: DecimalValue, entry: DecimalValue, stoploss: DecimalValue, takeprofit: DecimalValue) -> (r: Result<bool, TermError>)
    requires
        risk.wf(),
        entry.wf(),
        stoploss.wf(),
        takeprofit.wf(),
    ensures
        match r {
            Ok(islong) => !invalid_parameters(risk, entry, stoploss, takeprofit) && (if islong {
                long_setup(entry, stoploss, takeprofit)
            } else {
                !long_setup(entry, stoploss, takeprofit) && short_setup(entry, stoploss, takeprofit)
            }),
            Err(e) => (invalid_parameters(risk, entry, stoploss, takeprofit) && e.message@ == invalid_parameters_message())
                || (!invalid_parameters(risk, entry, stoploss, takeprofit) && !long_setup(entry, stoploss, takeprofit)
                && !short_setup(entry, stoploss, takeprofit) && e.message@ == no_direction_message()),
        },
{
    let hundred = dec_value(100, 0);
    let tenth = dec_value(1, 1);
    assert(hundred.wf() && tenth.wf());
    if decimal_gt(risk, hundred) || same(stoploss, takeprofit) || same(stoploss, entry) || same(takeprofit, entry)
        || decimal_gt(tenth, risk) {
        return Err(TermError {
            message: String::from_str("Invalid parameters (error in calculating order size) - Check your inputs"),
        });
    }
    if decimal_gt(takeprofit, stoploss) && decimal_gt(entry, stoploss) && decimal_gt(takeprofit, entry) {
        Ok(true)
    } else if decimal_gt(stoploss, takeprofit) && decimal_gt(stoploss, entry) && decimal_gt(entry, takeprofit) {
        Ok(false)
    } else {
        Err(TermError { message: String::from_str("Something bad happened in calculate_order!") })
    }
}

/// The order size for the risk taken, as the crate computes it:
/// `liquid * (risk / ((1 - stoploss / entry) * 100))` for a long and
/// `liquid * (risk / ((1 - entry / stoploss) * 100))` for a short; none where
/// a step divides by zero or overflows.
pub open spec fn ftx_quantity_of(risk: DecimalValue, liquid: DecimalValue, entry: DecimalValue, stoploss: DecimalValue, islong: bool) -> Option<DecimalValue> {
    let ratio = if islong {
        decimal_checked_quotient(stoploss, entry)
    } else {
        decimal_checked_quotient(entry, stoploss)
    };
    match ratio {
        None => None,
        Some(x) => match decimal_checked_difference(dec(1, 0), x) {
            None => None,
            Some(y) => match decimal_checked_product(y, dec(100, 0)) {
                None => None,
                Some(z) => match decimal_checked_quotient(risk, z) {
                    None => None,
                    Some(w) => decimal_checked_product(liquid, w),
                },
            },
        },
    }
}

/// For `0 < num < den` (as numbers) the exact quotient `num / den` lies
/// between zero and one.
proof fn lemma_fraction_lost_in_range(num: DecimalValue, den: DecimalValue)
    requires
        num.signed() > 0,
        den.signed() > 0,
        greater(den, num),
    ensures
        quotient_at_most(num, den, 1),
        quotient_at_least(num, den, 0),
{
    lemma_pow10_bounds(den.scale as nat);
    assert(num.signed() * pow10(den.scale as nat) >= 0) by (nonlinear_arith)
        requires
            num.signed() > 0,
            pow10(den.scale as nat) >= 1,
    ;
    assert(0 * den.signed() * pow10(num.scale as nat) == 0) by (nonlinear_arith);
}

/// One less a fraction between zero and one is exact and not negative.
proof fn lemma_one_less_fraction(x: DecimalValue, y: DecimalValue)
    requires
        x.wf(),
        at_most(x, 1),
        at_least(x, 0),
        x.magnitude == 0 ==> y == dec(1, 0),
        x.magnitude != 0 && difference_fits(dec(1, 0), x) ==> y.scale == max_scale(dec(1, 0), x) && y.signed()
            == at_scale(dec(1, 0), max_scale(dec(1, 0), x)) - at_scale(x, max_scale(dec(1, 0), x)),
    ensures
        y.signed() >= 0,
        y.signed() <= pow10(y.scale as nat),
        y.signed() * pow10(x.scale as nat) == (pow10(x.scale as nat) - x.signed()) * pow10(y.scale as nat),
{
    let one = dec(1, 0);
    let s = x.scale;
    lemma_pow10_bounds(s as nat);
    assert(max_scale(one, x) == s);
    assert(pow10(0) == 1) by {
        reveal_with_fuel(pow10, 1);
    }
    assert(((s - one.scale) as nat) == s as nat);
    assert(at_scale(one, s) == pow10(s as nat));
    assert(((s - x.scale) as nat) == 0nat);
    assert(at_scale(x, s) == x.signed() * pow10(0));
    assert(at_scale(x, s) == x.signed());
    assert(0 <= x.signed() <= pow10(s as nat)) by (nonlinear_arith)
        requires
            x.signed() <= 1 * pow10(s as nat),
            x.signed() >= 0 * pow10(s as nat),
    ;
    if x.magnitude != 0 {
        assert(difference_fits(one, x));
        assert(y.scale == s);
        assert(y.signed() == pow10(s as nat) - x.signed());
        assert(y.signed() * pow10(s as nat) == (pow10(s as nat) - x.signed()) * pow10(s as nat));
    } else {
        assert(x.signed() == 0);
        assert(y == one);
        assert(y.signed() == 1);
        assert(pow10(y.scale as nat) == 1);
    }
}

/// A number `y` between zero and one times a hundred is held exactly by some
/// `Decimal`.
proof fn lemma_hundred_times(y: DecimalValue)
    requires
        y.wf(),
        0 <= y.signed() <= pow10(y.scale as nat),
    ensures
        exists|z: DecimalValue| z.wf() && #[trigger] product_is(z, y, dec(100, 0)),
{
    let h = dec(100, 0);
    let ys = y.scale as nat;
    assert(pow10(2) == 100) by {
        reveal_with_fuel(pow10, 3);
    }
    assert(y.signed() == y.magnitude as int);
    if y.scale >= 2 {
        let z = DecimalValue { negative: false, magnitude: y.magnitude, scale: (y.scale - 2) as u32 };
        lemma_pow10_add(2, (ys - 2) as nat);
        assert(2 + ((ys - 2) as nat) == ys);
        assert(((y.scale + h.scale) as nat) == ys);
        assert(z.signed() * pow10(ys) == y.signed() * 100 * pow10((ys - 2) as nat)) by (nonlinear_arith)
            requires
                z.signed() == y.signed(),
                pow10(ys) == 100 * pow10((ys - 2) as nat),
        ;
        assert(product_is(z, y, h));
    } else {
        let k = (2 - ys) as nat;
        lemma_pow10_add(k, ys);
        assert(k + ys == 2);
        lemma_pow10_bounds(k);
        lemma_pow10_bounds(ys);
        let m = y.magnitude as int * pow10(k);
        assert(0 <= m <= 100) by (nonlinear_arith)
            requires
                m == y.magnitude as int * pow10(k),
                0 <= y.magnitude as int <= pow10(ys),
                pow10(k) * pow10(ys) == 100,
                pow10(k) >= 1,
        ;
        let z = DecimalValue { negative: false, magnitude: m as u128, scale: 0 };
        assert(z.signed() == m);
        assert(((y.scale + h.scale) as nat) == ys);
        assert(pow10(0) == 1);
        assert(z.signed() * pow10(ys) == y.signed() * 100 * pow10(0)) by (nonlinear_arith)
            requires
                z.signed() == y.signed() * pow10(k),
                pow10(k) * pow10(ys) == 100,
                pow10(0) == 1,
        ;
        assert(product_is(z, y, h));
    }
}

/// The exact sizing of an order in decimals `x`, `w` and `v`: `x` is the
/// fraction of the entry left at the stop-loss (`stoploss / entry` for a
/// long, `entry / stoploss` for a short), `w` is `risk / ((1 - x) * 100)`
/// and `v` is `liquid * w`, the size that loses `risk` percent of `liquid`
/// when the price moves from the entry to the stop-loss.
pub open spec fn exact_sizing(risk: DecimalValue, liquid: DecimalValue, entry: DecimalValue, stoploss: DecimalValue, islong: bool, x: DecimalValue, w: DecimalValue, v: DecimalValue) -> bool {
    let num = if islong { stoploss } else { entry };
    let den = if islong { entry } else { stoploss };
    &&& x.wf()
    &&& w.wf()
    &&& v.wf()
    &&& quotient_is(x, num, den)
    &&& w.signed() * ((pow10(x.scale as nat) - x.signed()) * 100) * pow10(risk.scale as nat) == risk.signed() * pow10(
        (w.scale + x.scale) as nat,
    )
    &&& product_is(v, liquid, w)
}

/// Where each step of the sizing is held exactly by a `Decimal`, the size
/// the steps give is the exact size.
proof fn lemma_sizing_chain(
    risk: DecimalValue,
    liquid: DecimalValue,
    num: DecimalValue,
    den: DecimalValue,
    x: DecimalValue,
    w: DecimalValue,
    v: DecimalValue,
    x1: DecimalValue,
    y1: DecimalValue,
    z1: DecimalValue,
    w1: DecimalValue,
    q1: DecimalValue,
)
    requires
        den.signed() != 0,
        w.wf(),
        v.wf(),
        quotient_is(x, num, den),
        w.signed() * ((pow10(x.scale as nat) - x.signed()) * 100) * pow10(risk.scale as nat) == risk.signed() * pow10(
            (w.scale + x.scale) as nat,
        ),
        product_is(v, liquid, w),
        quotient_is(x1, num, den),
        y1.signed() * pow10(x1.scale as nat) == (pow10(x1.scale as nat) - x1.signed()) * pow10(y1.scale as nat),
        product_is(z1, y1, dec(100, 0)),
        z1.signed() != 0,
        (exists|c: DecimalValue| c.wf() && #[trigger] quotient_is(c, risk, z1)) ==> quotient_is(w1, risk, z1),
        (exists|c: DecimalValue| c.wf() && #[trigger] product_is(c, liquid, w1)) ==> product_is(q1, liquid, w1),
    ensures
        same_number(q1, v),
{
    lemma_quotients_agree(x1, x, num, den);
    let px = pow10(x.scale as nat);
    let px1 = pow10(x1.scale as nat);
    let pr = pow10(risk.scale as nat);
    let pw = pow10(w.scale as nat);
    let py = pow10(y1.scale as nat);
    let pz = pow10(z1.scale as nat);
    let pl = pow10(liquid.scale as nat);
    let pv = pow10(v.scale as nat);
    let pw1 = pow10(w1.scale as nat);
    let pq = pow10(q1.scale as nat);
    lemma_pow10_bounds(x.scale as nat);
    lemma_pow10_bounds(x1.scale as nat);
    lemma_pow10_bounds(y1.scale as nat);
    lemma_pow10_bounds(w.scale as nat);
    lemma_pow10_bounds(liquid.scale as nat);
    lemma_pow10_bounds(w1.scale as nat);
    lemma_pow10_add(w.scale as nat, x.scale as nat);
    lemma_pow10_add(w.scale as nat, z1.scale as nat);
    lemma_pow10_add(liquid.scale as nat, w.scale as nat);
    lemma_pow10_add(liquid.scale as nat, w1.scale as nat);
    assert(((y1.scale + 0u32) as nat) == y1.scale as nat);
    let xi = x.signed();
    let x1i = x1.signed();
    let wi = w.signed();
    let ri = risk.signed();
    let yi = y1.signed();
    let zi = z1.signed();
    let li = liquid.signed();
    let vi = v.signed();
    let w1i = w1.signed();
    let qi = q1.signed();
    // The risk equation, rewritten with the fraction as the crate holds it.
    assert(x1i * px == xi * px1);
    assert((px - xi) * px1 == (px1 - x1i) * px) by (nonlinear_arith)
        requires
            x1i * px == xi * px1,
    ;
    assert(wi * ((px1 - x1i) * 100) * pr == ri * (pw * px1)) by (nonlinear_arith)
        requires
            wi * ((px - xi) * 100) * pr == ri * (pw * px),
            (px - xi) * px1 == (px1 - x1i) * px,
            px >= 1,
    ;
    // `w` is the exact quotient of the risk by the crate's `(1 - x) * 100`.
    assert(zi * py == yi * 100 * pz);
    let a = px1 - x1i;
    let c1 = wi * pr * px1;
    assert(wi * zi * pr * (py * px1) == c1 * (zi * py)) by (nonlinear_arith)
        requires
            c1 == wi * pr * px1,
    ;
    assert(c1 * (zi * py) == c1 * (yi * 100 * pz)) by (nonlinear_arith)
        requires
            zi * py == yi * 100 * pz,
    ;
    let c2 = wi * 100 * pr * pz;
    assert(c1 * (yi * 100 * pz) == c2 * (yi * px1)) by (nonlinear_arith)
        requires
            c1 == wi * pr * px1,
            c2 == wi * 100 * pr * pz,
    ;
    assert(c2 * (yi * px1) == c2 * (a * py)) by (nonlinear_arith)
        requires
            yi * px1 == a * py,
    ;
    assert(c2 * (a * py) == (wi * (a * 100) * pr) * (pz * py)) by (nonlinear_arith)
        requires
            c2 == wi * 100 * pr * pz,
    ;
    assert((wi * (a * 100) * pr) * (pz * py) == (ri * (pw * px1)) * (pz * py)) by (nonlinear_arith)
        requires
            wi * (a * 100) * pr == ri * (pw * px1),
    ;
    assert((ri * (pw * px1)) * (pz * py) == ri * (pw * pz) * (py * px1)) by (nonlinear_arith);
    assert(py * px1 >= 1) by (nonlinear_arith)
        requires
            py >= 1,
            px1 >= 1,
    ;
    assert(wi * zi * pr == ri * (pw * pz)) by (nonlinear_arith)
        requires
            wi * zi * pr * (py * px1) == ri * (pw * pz) * (py * px1),
            py * px1 >= 1,
    ;
    assert(quotient_is(w, risk, z1));
    assert(quotient_is(w1, risk, z1));
    lemma_quotients_agree(w1, w, risk, z1);
    assert(w1i * pw == wi * pw1);
    // `v` is the exact product of the liquidity and the crate's `w`.
    assert(vi * (pl * pw1) * pw == li * w1i * pv * pw) by (nonlinear_arith)
        requires
            vi * (pl * pw) == li * wi * pv,
            w1i * pw == wi * pw1,
    ;
    assert(vi * (pl * pw1) == li * w1i * pv) by (nonlinear_arith)
        requires
            vi * (pl * pw1) * pw == li * w1i * pv * pw,
            pw >= 1,
    ;
    assert(product_is(v, liquid, w1));
    assert(product_is(q1, liquid, w1));
    assert(pl * pw1 >= 1) by (nonlinear_arith)
        requires
            pl >= 1,
            pw1 >= 1,
    ;
    assert(qi * pv * (pl * pw1) == vi * pq * (pl * pw1)) by (nonlinear_arith)
        requires
            qi * (pl * pw1) == li * w1i * pq,
            vi * (pl * pw1) == li * w1i * pv,
    ;
    assert(qi * pv == vi * pq) by (nonlinear_arith)
        requires
            qi * pv * (pl * pw1) == vi * pq * (pl * pw1),
            pl * pw1 >= 1,
    ;
}


fn overflow() -> (e: TermError)
    ensures
        e.message@ == overflow_message(),
{
    TermError { message: String::from_str("Decimal arithmetic overflowed") }
}

/// The prices move the right way for the direction: the stop-loss is below
/// the entry for a long and above it for a short, and both are above zero.
pub open spec fn stop_on_losing_side(entry: DecimalValue, stoploss: DecimalValue, islong: bool) -> bool {
    &&& entry.signed() > 0
    &&& stoploss.signed() > 0
    &&& if islong { greater(entry, stoploss) } else { greater(stoploss, entry) }
}

/// The order size of a risk-based order: `risk` percent of `liquid` lost at
/// the stop-loss. An overflow is an error. For a long or a short whose
/// stop-loss lies on the losing side of the entry, with no negative risk or
/// liquidity, the size is never negative: the fraction lost at the stop-loss
/// is between zero and one.
pub fn ftx_order_quantity(risk: DecimalValue, liquid: DecimalValue, entry: DecimalValue, stoploss: DecimalValue, islong: bool) -> (r: Result<DecimalValue, TermError>)
    requires
        risk.wf(),
        liquid.wf(),
        entry.wf(),
        stoploss.wf(),
    ensures
        match ftx_quantity_of(risk, liquid, entry, stoploss, islong) {
            Some(q) => r == Ok::<DecimalValue, TermError>(q),
            None => r matches Err(e) && e.message@ == overflow_message(),
        },
        r matches Ok(v) ==> v.wf(),
        stop_on_losing_side(entry, stoploss, islong) && risk.signed() >= 0 && liquid.signed() >= 0 ==> (r matches Ok(
            q,
        ) ==> q.signed() >= 0),
        stop_on_losing_side(entry, stoploss, islong) ==> forall|x: DecimalValue, w: DecimalValue, v: DecimalValue|
            r is Ok && #[trigger] exact_sizing(risk, liquid, entry, stoploss, islong, x, w, v) ==> same_number(r->Ok_0, v),
{
    let one = dec_value(1, 0);
    let hundred = dec_value(100, 0);
    let ratio = if islong { decimal_try_div(stoploss, entry) } else { decimal_try_div(entry, stoploss) };
    let x = match ratio {
        Some(x) => x,
        None => return Err(overflow()),
    };
    let ghost sides = stop_on_losing_side(entry, stoploss, islong);
    let ghost sane = sides && risk.signed() >= 0 && liquid.signed() >= 0;
    proof {
        if sides {
            let num = if islong { stoploss } else { entry };
            let den = if islong { entry } else { stoploss };
            lemma_fraction_lost_in_range(num, den);
            assert(quotient_at_most(num, den, 1));
            assert(quotient_at_least(num, den, 0));
        }
    }
    let y = match decimal_try_sub(one, x) {
        Some(y) => y,
        None => return Err(overflow()),
    };
    proof {
        if sides {
            lemma_one_less_fraction(x, y);
        }
    }
    let z = match decimal_try_mul(y, hundred) {
        Some(z) => z,
        None => return Err(overflow()),
    };
    proof {
        if sane {
            assert(y.signed() * hundred.signed() >= 0) by (nonlinear_arith)
                requires
                    y.signed() >= 0,
                    hundred.signed() == 100,
            ;
            lemma_pow10_bounds((y.scale + hundred.scale) as nat);
            assert(product_at_least(y, hundred, 0));
        }
    }
    let w = match decimal_try_div(risk, z) {
        Some(w) => w,
        None => return Err(overflow()),
    };
    proof {
        if sane {
            lemma_pow10_bounds(z.scale as nat);
            lemma_pow10_bounds(risk.scale as nat);
            assert(z.signed() > 0);
            assert(risk.signed() * pow10(z.scale as nat) >= 0) by (nonlinear_arith)
                requires
                    risk.signed() >= 0,
                    pow10(z.scale as nat) >= 1,
            ;
            assert(quotient_at_least(risk, z, 0));
        }
    }
    let q = match decimal_try_mul(liquid, w) {
        Some(q) => q,
        None => return Err(overflow()),
    };
    proof {
        if sane {
            lemma_pow10_bounds(w.scale as nat);
            lemma_pow10_bounds(q.scale as nat);
            assert(w.signed() >= 0) by (nonlinear_arith)
                requires
                    w.signed() >= 0 * pow10(w.scale as nat),
            ;
            assert(liquid.signed() * w.signed() >= 0) by (nonlinear_arith)
                requires
                    liquid.signed() >= 0,
                    w.signed() >= 0,
            ;
            assert(product_at_least(liquid, w, 0));
            assert(q.signed() >= 0) by (nonlinear_arith)
                requires
                    q.signed() >= 0 * pow10(q.scale as nat),
            ;
        }
        if sides {
            let num = if islong { stoploss } else { entry };
            let den = if islong { entry } else { stoploss };
            assert(den.signed() != 0);
            assert(z.signed() != 0);
            lemma_hundred_times(y);
            assert forall|xe: DecimalValue, we: DecimalValue, ve: DecimalValue|
                #[trigger] exact_sizing(risk, liquid, entry, stoploss, islong, xe, we, ve) implies same_number(q, ve) by {
                assert(xe.wf() && quotient_is(xe, num, den));
                assert(quotient_is(x, num, den));
                lemma_sizing_chain(risk, liquid, num, den, xe, we, ve, x, y, z, w, q);
            }
        }
    }
    Ok(q)
}

/// The take-profit to stop-loss ratio (R): `(takeprofit - entry) / (entry -
/// stoploss)` for a long, `(entry - takeprofit) / (stoploss - entry)` for a
/// short; none where a step divides by zero or overflows.
pub open spec fn ftx_ratio_of(entry: DecimalValue, stoploss: DecimalValue, takeprofit: DecimalValue, islong: bool) -> Option<DecimalValue> {
    let gain = if islong {
        decimal_checked_difference(takeprofit, entry)
    } else {
        decimal_checked_difference(entry, takeprofit)
    };
    let loss = if islong {
        decimal_checked_difference(entry, stoploss)
    } else {
        decimal_checked_difference(stoploss, entry)
    };
    match (gain, loss) {
        (Some(g), Some(l)) => decimal_checked_quotient(g, l),
        _ => None,
    }
}

/// The largest scale among three prices, at which all three are whole.
pub open spec fn price_scale(entry: DecimalValue, stoploss: DecimalValue, takeprofit: DecimalValue) -> u32 {
    let m = if entry.scale >= stoploss.scale { entry.scale } else { stoploss.scale };
    if m >= takeprofit.scale {
        m
    } else {
        takeprofit.scale
    }
}

/// What the order gains at the take-profit, written at `price_scale`.
pub open spec fn reward_gap(entry: DecimalValue, stoploss: DecimalValue, takeprofit: DecimalValue, islong: bool) -> int {
    let s = price_scale(entry, stoploss, takeprofit);
    if islong {
        at_scale(takeprofit, s) - at_scale(entry, s)
    } else {
        at_scale(entry, s) - at_scale(takeprofit, s)
    }
}

/// What the order loses at the stop-loss, written at `price_scale`.
pub open spec fn risk_gap(entry: DecimalValue, stoploss: DecimalValue, takeprofit: DecimalValue, islong: bool) -> int {
    let s = price_scale(entry, stoploss, takeprofit);
    if islong {
        at_scale(entry, s) - at_scale(stoploss, s)
    } else {
        at_scale(stoploss, s) - at_scale(entry, s)
    }
}

/// The reward is at least `n` times the risk.
pub open spec fn reward_at_least(entry: DecimalValue, stoploss: DecimalValue, takeprofit: DecimalValue, islong: bool, n: int) -> bool {
    reward_gap(entry, stoploss, takeprofit, islong) >= n * risk_gap(entry, stoploss, takeprofit, islong)
}

/// The reward is at most `n` times the risk.
pub open spec fn reward_at_most(entry: DecimalValue, stoploss: DecimalValue, takeprofit: DecimalValue, islong: bool, n: int) -> bool {
    reward_gap(entry, stoploss, takeprofit, islong) <= n * risk_gap(entry, stoploss, takeprofit, islong)
}

/// `x` is exactly the reward over the risk.
pub open spec fn ratio_is(entry: DecimalValue, stoploss: DecimalValue, takeprofit: DecimalValue, islong: bool, x: DecimalValue) -> bool {
    x.signed() * risk_gap(entry, stoploss, takeprofit, islong) == reward_gap(entry, stoploss, takeprofit, islong) * pow10(
        x.scale as nat,
    )
}

/// A number that times the risk at a common scale gives the reward is their
/// exact quotient.
proof fn lemma_ratio_at(g: DecimalValue, l: DecimalValue, s: u32, x: DecimalValue)
    requires
        s >= g.scale,
        s >= l.scale,
        x.signed() * at_scale(l, s) == at_scale(g, s) * pow10(x.scale as nat),
    ensures
        quotient_is(x, g, l),
{
    let pg = pow10(g.scale as nat);
    let pl = pow10(l.scale as nat);
    let px = pow10(x.scale as nat);
    let ag = pow10((s - g.scale) as nat);
    let al = pow10((s - l.scale) as nat);
    lemma_pow10_add((s - g.scale) as nat, g.scale as nat);
    lemma_pow10_add((s - l.scale) as nat, l.scale as nat);
    lemma_pow10_add(x.scale as nat, l.scale as nat);
    assert(((s - g.scale) as nat) + (g.scale as nat) == s as nat);
    assert(((s - l.scale) as nat) + (l.scale as nat) == s as nat);
    let ps = pow10(s as nat);
    lemma_pow10_bounds(s as nat);
    let xi = x.signed();
    let gi = g.signed();
    let li = l.signed();
    assert(at_scale(g, s) == gi * ag);
    assert(at_scale(l, s) == li * al);
    assert((xi * li * pg) * ps == (gi * (px * pl)) * ps) by (nonlinear_arith)
        requires
            xi * (li * al) == (gi * ag) * px,
            ag * pg == ps,
            al * pl == ps,
    ;
    assert(xi * li * pg == gi * (px * pl)) by (nonlinear_arith)
        requires
            (xi * li * pg) * ps == (gi * (px * pl)) * ps,
            ps >= 1,
    ;
}

/// Both price gaps fit a `Decimal` at the larger scale of their two prices.
pub open spec fn gaps_fit(entry: DecimalValue, stoploss: DecimalValue, takeprofit: DecimalValue) -> bool {
    &&& difference_fits(entry, takeprofit)
    &&& difference_fits(takeprofit, entry)
    &&& difference_fits(entry, stoploss)
    &&& difference_fits(stoploss, entry)
}

/// A difference `g` of `x1 - x2`, as the crate's subtraction gives it,
/// written at a scale `s` no smaller than any of theirs, is the difference of
/// the two written at `s`.
proof fn lemma_difference_at(x1: DecimalValue, x2: DecimalValue, g: DecimalValue, s: u32)
    requires
        s >= x1.scale,
        s >= x2.scale,
        s >= g.scale,
        x1.magnitude == 0 ==> g == (if x2.magnitude == 0 {
            x2
        } else {
            DecimalValue { negative: !x2.negative, magnitude: x2.magnitude, scale: x2.scale }
        }),
        x1.magnitude != 0 && x2.magnitude == 0 ==> g == x1,
        x1.magnitude != 0 && x2.magnitude != 0 && difference_fits(x1, x2) ==> g.scale == max_scale(x1, x2)
            && g.signed() == at_scale(x1, max_scale(x1, x2)) - at_scale(x2, max_scale(x1, x2)),
        difference_fits(x1, x2),
    ensures
        at_scale(g, s) == at_scale(x1, s) - at_scale(x2, s),
{
    if x1.magnitude == 0 {
        let p = pow10((s - x2.scale) as nat);
        assert(x1.signed() == 0);
        assert(at_scale(x1, s) == 0) by (nonlinear_arith)
            requires
                at_scale(x1, s) == x1.signed() * pow10((s - x1.scale) as nat),
                x1.signed() == 0,
        ;
        assert(g.signed() == -x2.signed());
        assert(g.scale == x2.scale);
        assert(g.signed() * p == -(x2.signed() * p)) by (nonlinear_arith)
            requires
                g.signed() == -x2.signed(),
        ;
    } else if x2.magnitude == 0 {
        assert(x2.signed() == 0);
        assert(at_scale(x2, s) == 0) by (nonlinear_arith)
            requires
                at_scale(x2, s) == x2.signed() * pow10((s - x2.scale) as nat),
                x2.signed() == 0,
        ;
    } else {
        let m = max_scale(x1, x2);
        let k = (s - m) as nat;
        lemma_pow10_add((m - x1.scale) as nat, k);
        lemma_pow10_add((m - x2.scale) as nat, k);
        assert(((m - x1.scale) as nat) + k == ((s - x1.scale) as nat));
        assert(((m - x2.scale) as nat) + k == ((s - x2.scale) as nat));
        let p1 = pow10((m - x1.scale) as nat);
        let p2 = pow10((m - x2.scale) as nat);
        let pk = pow10(k);
        assert(at_scale(g, s) == (x1.signed() * p1 - x2.signed() * p2) * pk);
        assert((x1.signed() * p1 - x2.signed() * p2) * pk == x1.signed() * (p1 * pk) - x2.signed() * (p2 * pk))
            by (nonlinear_arith);
    }
}

/// From a bound at a common scale `s` on two numbers to the same bound on
/// their exact quotient.
proof fn lemma_quotient_bounds_at(g: DecimalValue, l: DecimalValue, s: u32, n: int)
    requires
        s >= g.scale,
        s >= l.scale,
    ensures
        at_scale(g, s) >= n * at_scale(l, s) ==> quotient_at_least(g, l, n),
        at_scale(g, s) <= n * at_scale(l, s) ==> quotient_at_most(g, l, n),
{
    let pg = pow10(g.scale as nat);
    let pl = pow10(l.scale as nat);
    let ag = pow10((s - g.scale) as nat);
    let al = pow10((s - l.scale) as nat);
    lemma_pow10_add((s - g.scale) as nat, g.scale as nat);
    lemma_pow10_add((s - l.scale) as nat, l.scale as nat);
    assert(((s - g.scale) as nat) + (g.scale as nat) == s as nat);
    assert(((s - l.scale) as nat) + (l.scale as nat) == s as nat);
    let ps = pow10(s as nat);
    assert(ag * pg == ps && al * pl == ps);
    lemma_pow10_bounds(g.scale as nat);
    lemma_pow10_bounds(l.scale as nat);
    lemma_pow10_bounds(s as nat);
    let gi = g.signed();
    let li = l.signed();
    // Multiplying the bound at scale `s` by `10^g.scale * 10^l.scale` gives
    // the cross-multiplied bound times `10^s`.
    assert(gi * ag * (pg * pl) == (gi * pl) * ps) by (nonlinear_arith)
        requires
            ag * pg == ps,
    ;
    assert(n * (li * al) * (pg * pl) == (n * li * pg) * ps) by (nonlinear_arith)
        requires
            al * pl == ps,
    ;
    assert(pg * pl > 0) by (nonlinear_arith)
        requires
            pg >= 1,
            pl >= 1,
    ;
    if gi * ag >= n * (li * al) {
        assert(gi * ag * (pg * pl) >= n * (li * al) * (pg * pl)) by (nonlinear_arith)
            requires
                gi * ag >= n * (li * al),
                pg * pl > 0,
        ;
        assert((gi * pl) >= (n * li * pg)) by (nonlinear_arith)
            requires
                (gi * pl) * ps >= (n * li * pg) * ps,
                ps >= 1,
        ;
    }
    if gi * ag <= n * (li * al) {
        assert(gi * ag * (pg * pl) <= n * (li * al) * (pg * pl)) by (nonlinear_arith)
            requires
                gi * ag <= n * (li * al),
                pg * pl > 0,
        ;
        assert((gi * pl) <= (n * li * pg)) by (nonlinear_arith)
            requires
                (gi * pl) * ps <= (n * li * pg) * ps,
                ps >= 1,
        ;
    }
    assert(at_scale(g, s) == gi * ag);
    assert(at_scale(l, s) == li * al);
}

/// The take-profit to stop-loss ratio of an order. An overflow is an error.
/// Where both price gaps are exact and the stop-loss lies on the losing side,
/// the ratio keeps every whole-number bound of reward over risk: a reward of
/// at least (at most) `n` times the risk gives a ratio of at least (at most)
/// `n`.
pub fn ftx_tpsl_ratio(entry: DecimalValue, stoploss: DecimalValue, takeprofit: DecimalValue, islong: bool) -> (r: Result<DecimalValue, TermError>)
    requires
        entry.wf(),
        stoploss.wf(),
        takeprofit.wf(),
    ensures
        match ftx_ratio_of(entry, stoploss, takeprofit, islong) {
            Some(q) => r == Ok::<DecimalValue, TermError>(q),
            None => r matches Err(e) && e.message@ == overflow_message(),
        },
        r matches Ok(v) ==> v.wf(),
        gaps_fit(entry, stoploss, takeprofit) && risk_gap(entry, stoploss, takeprofit, islong) > 0 ==> forall|n: int|
            r is Ok && #[trigger] reward_at_least(entry, stoploss, takeprofit, islong, n) ==> at_least(r->Ok_0, n),
        gaps_fit(entry, stoploss, takeprofit) && risk_gap(entry, stoploss, takeprofit, islong) > 0 ==> forall|n: int|
            r is Ok && #[trigger] reward_at_most(entry, stoploss, takeprofit, islong, n) ==> at_most(r->Ok_0, n),
        gaps_fit(entry, stoploss, takeprofit) && risk_gap(entry, stoploss, takeprofit, islong) > 0 ==> forall|x: DecimalValue|
            x.wf() && #[trigger] ratio_is(entry, stoploss, takeprofit, islong, x) ==> r is Ok && same_number(r->Ok_0, x),
{
    let gain = if islong { decimal_try_sub(takeprofit, entry) } else { decimal_try_sub(entry, takeprofit) };
    let loss = if islong { decimal_try_sub(entry, stoploss) } else { decimal_try_sub(stoploss, entry) };
    match (gain, loss) {
        (Some(g), Some(l)) => {
            let ghost s = price_scale(entry, stoploss, takeprofit);
            let ghost exact = gaps_fit(entry, stoploss, takeprofit) && risk_gap(entry, stoploss, takeprofit, islong) > 0;
            proof {
                if exact {
                    if islong {
                        lemma_difference_at(takeprofit, entry, g, s);
                        lemma_difference_at(entry, stoploss, l, s);
                    } else {
                        lemma_difference_at(entry, takeprofit, g, s);
                        lemma_difference_at(stoploss, entry, l, s);
                    }
                    lemma_pow10_bounds((s - l.scale) as nat);
                    assert(l.signed() > 0) by (nonlinear_arith)
                        requires
                            l.signed() * pow10((s - l.scale) as nat) > 0,
                            pow10((s - l.scale) as nat) >= 1,
                    ;
                    assert forall|n: int| #[trigger] reward_at_least(entry, stoploss, takeprofit, islong, n) implies quotient_at_least(g, l, n) by {
                        lemma_quotient_bounds_at(g, l, s, n);
                    }
                    assert forall|n: int| #[trigger] reward_at_most(entry, stoploss, takeprofit, islong, n) implies quotient_at_most(g, l, n) by {
                        lemma_quotient_bounds_at(g, l, s, n);
                    }
                    assert forall|x: DecimalValue| x.wf() && #[trigger] ratio_is(entry, stoploss, takeprofit, islong, x) implies quotient_is(x, g, l) by {
                        lemma_ratio_at(g, l, s, x);
                    }
                }
            }
            let d = decimal_try_div(g, l);
            proof {
                if exact {
                    assert forall|x: DecimalValue| x.wf() && #[trigger] ratio_is(entry, stoploss, takeprofit, islong, x) implies d is Some
                        && same_number(d->Some_0, x) by {
                        assert(quotient_is(x, g, l));
                        lemma_quotients_agree(d->Some_0, x, g, l);
                    }
                }
            }
            match d {
                Some(q) => Ok(q),
                None => Err(overflow()),
            }
        },
        _ => {
            proof {
                if gaps_fit(entry, stoploss, takeprofit) {
                    assert(gain is Some && loss is Some);
                }
            }
            Err(overflow())
        },
    }
}

/// The share of the liquidity an order takes, in percent, rounded to two
/// places: `quantity / (liquid * leverage) * 100` for a future (leverage 1
/// for spot); none where a step divides by zero or overflows.
pub open spec fn ftx_liquidity_share_of(quantity: DecimalValue, liquid: DecimalValue, leverage: DecimalValue, isfuture: bool) -> Option<DecimalValue> {
    match decimal_checked_product(liquid, if isfuture { leverage } else { dec(1, 0) }) {
        None => None,
        Some(base) => match decimal_checked_quotient(quantity, base) {
            None => None,
            Some(part) => match decimal_checked_product(part, dec(100, 0)) {
                None => None,
                Some(pct) => Some(round_half_even(pct, 2)),
            },
        },
    }
}

/// `quantity` is exactly `n` percent of `liquid` times the leverage of a
/// future (1 for spot): `quantity * 100 == n * liquid * leverage`.
pub open spec fn whole_percent(quantity: DecimalValue, liquid: DecimalValue, leverage: DecimalValue, isfuture: bool, n: int) -> bool {
    let f = if isfuture { leverage } else { dec(1, 0) };
    quantity.signed() * 100 * pow10((liquid.scale + f.scale) as nat) == n * (liquid.signed() * f.signed()) * pow10(
        quantity.scale as nat,
    )
}

/// A decimal that is the whole number `n` (not negative) stays `n` when
/// rounded to any number of places.
proof fn lemma_round_whole(d: DecimalValue, places: u32, n: int)
    requires
        d.wf(),
        n >= 0,
        d.signed() == n * pow10(d.scale as nat),
    ensures
        round_half_even(d, places).signed() == n * pow10(round_half_even(d, places).scale as nat),
{
    if d.scale > places {
        let k = (d.scale - places) as nat;
        lemma_pow10_add(places as nat, k);
        assert((places as nat) + k == d.scale as nat);
        let pp = pow10(places as nat);
        let pk = pow10(k);
        lemma_pow10_bounds(places as nat);
        lemma_pow10_bounds(k);
        lemma_pow10_bounds(d.scale as nat);
        assert(n * pow10(d.scale as nat) >= 0) by (nonlinear_arith)
            requires
                n >= 0,
                pow10(d.scale as nat) >= 1,
        ;
        assert(d.magnitude as int == n * (pp * pk));
        assert(n * (pp * pk) == (n * pp) * pk) by (nonlinear_arith);
        let m = d.magnitude as nat;
        assert(m / pk == n * pp && m % pk == 0) by (nonlinear_arith)
            requires
                m == (n * pp) * pk,
                pk >= 1,
                n * pp >= 0,
        ;
        assert(n * pp >= 0) by (nonlinear_arith)
            requires
                n >= 0,
                pp >= 1,
        ;
        if d.magnitude != 0 {
            assert(!d.negative);
        }
    }
}

/// The steps of a whole-percent share: the quantity over the exact base is
/// exactly `n / 100`, and that times 100 is `n`.
proof fn lemma_whole_share(quantity: DecimalValue, base: DecimalValue, part: DecimalValue, pct: DecimalValue, n: int)
    requires
        0 <= n <= MAX_MAGNITUDE,
        base.signed() > 0,
        quantity.signed() * 100 * pow10(base.scale as nat) == n * base.signed() * pow10(quantity.scale as nat),
        (exists|x: DecimalValue| x.wf() && #[trigger] quotient_is(x, quantity, base)) ==> quotient_is(part, quantity, base),
        forall|k: int| #[trigger] product_at_most(part, dec(100, 0), k) ==> at_most(pct, k),
        forall|k: int| #[trigger] product_at_least(part, dec(100, 0), k) ==> at_least(pct, k),
    ensures
        pct.signed() == n * pow10(pct.scale as nat),
{
    let x = dec(n as u128, 2);
    let bs = base.scale as nat;
    let qs = quantity.scale as nat;
    lemma_pow10_add(2, bs);
    assert(pow10(2) == 100) by {
        reveal_with_fuel(pow10, 3);
    }
    assert(x.signed() == n);
    assert(quotient_is(x, quantity, base)) by (nonlinear_arith)
        requires
            x.signed() == n,
            x.scale == 2,
            pow10((2 + bs) as nat) == 100 * pow10(bs),
            quantity.signed() * 100 * pow10(bs) == n * base.signed() * pow10(qs),
            quotient_is(x, quantity, base) == (x.signed() * base.signed() * pow10(qs) == quantity.signed() * pow10(
                (x.scale + base.scale) as nat,
            )),
            ((x.scale + base.scale) as nat) == (2 + bs) as nat,
    ;
    assert(quotient_is(part, quantity, base));
    let ps = part.scale as nat;
    lemma_pow10_add(ps, bs);
    lemma_pow10_bounds(bs);
    lemma_pow10_bounds(qs);
    let pi = part.signed();
    let bi = base.signed();
    let qi = quantity.signed();
    assert(pi * 100 == n * pow10(ps)) by (nonlinear_arith)
        requires
            pi * bi * pow10(qs) == qi * (pow10(ps) * pow10(bs)),
            qi * 100 * pow10(bs) == n * bi * pow10(qs),
            bi > 0,
            pow10(qs) >= 1,
    ;
    assert(dec(100, 0).signed() == 100);
    assert(((part.scale + 0u32) as nat) == ps);
    assert(product_at_most(part, dec(100, 0), n));
    assert(product_at_least(part, dec(100, 0), n));
}

/// The share of the liquidity an order takes, in percent. An overflow is an
/// error. Where the order is a whole number `n` percent of the liquidity
/// times the leverage (for a future; the liquidity alone for spot), and that
/// product is exact, the share is `n`.
pub fn ftx_liquidity_share(quantity: DecimalValue, liquid: DecimalValue, leverage: DecimalValue, isfuture: bool) -> (r: Result<DecimalValue, TermError>)
    requires
        quantity.wf(),
        liquid.wf(),
        leverage.wf(),
    ensures
        match ftx_liquidity_share_of(quantity, liquid, leverage, isfuture) {
            Some(p) => r == Ok::<DecimalValue, TermError>(p),
            None => r matches Err(e) && e.message@ == overflow_message(),
        },
        r matches Ok(v) ==> v.wf(),
        liquid.signed() > 0 && (if isfuture { leverage } else { dec(1, 0) }).signed() > 0 && product_fits(
            liquid,
            if isfuture { leverage } else { dec(1, 0) },
        ) ==> forall|n: int|
            0 <= n <= MAX_MAGNITUDE && r is Ok && #[trigger] whole_percent(quantity, liquid, leverage, isfuture, n)
                ==> r->Ok_0.signed() == n * pow10(r->Ok_0.scale as nat),
{
    let factor = if isfuture { leverage } else { dec_value(1, 0) };
    let base = match decimal_try_mul(liquid, factor) {
        Some(b) => b,
        None => return Err(overflow()),
    };
    let ghost f = if isfuture { leverage } else { dec(1, 0) };
    let ghost sane = liquid.signed() > 0 && f.signed() > 0 && product_fits(liquid, f);
    proof {
        if sane {
            assert(base == exact_product(liquid, f));
            assert(base.signed() == liquid.signed() * f.signed()) by (nonlinear_arith)
                requires
                    base.negative == (liquid.negative != f.negative),
                    base.magnitude as int == liquid.magnitude * f.magnitude,
                    liquid.signed() > 0,
                    f.signed() > 0,
                    liquid.signed() == liquid.magnitude as int,
                    f.signed() == f.magnitude as int,
            ;
        }
    }
    let part = match decimal_try_div(quantity, base) {
        Some(p) => p,
        None => return Err(overflow()),
    };
    let hundred = dec_value(100, 0);
    let pct = match decimal_try_mul(part, hundred) {
        Some(pct) => pct,
        None => return Err(overflow()),
    };
    let share = round_dp(pct, 2);
    proof {
        if sane {
            assert forall|n: int| 0 <= n <= MAX_MAGNITUDE && #[trigger] whole_percent(quantity, liquid, leverage, isfuture, n)
                implies share.signed() == n * pow10(share.scale as nat) by {
                lemma_whole_share(quantity, base, part, pct, n);
                lemma_round_whole(pct, 2, n);
            }
        }
    }
    Ok(share)
}

/// The message when leverage and risk together exceed 100%.
pub open spec fn liquidation_message() -> Seq<char> {
    "You are at risk of liquidation so the trade cannot take place. Check leverage and risk."@
}

/// The message for a short on a spot pair.
pub open spec fn spot_short_message() -> Seq<char> {
    "You cannot short while not being in a future pair"@
}

/// The message for an order larger than the liquidity.
pub open spec fn liquidity_message() -> Seq<char> {
    "You do not have enough liquidity in your account for this trade."@
}

/// What an order is planned from: the market and account (read from the
/// exchange) and the user's answers.
pub struct FtxOrderInputs {
    pub subaccount: String,
    pub quote: String,
    pub isfuture: bool,
    pub leverage: DecimalValue,
    pub taker_fee: DecimalValue,
    pub maker_fee: DecimalValue,
    pub total_liquid: DecimalValue,
    pub risk: DecimalValue,
    pub stoploss: DecimalValue,
    pub takeprofit: DecimalValue,
    pub entry: DecimalValue,
    pub ismarket: bool,
    pub isorderbook: bool,
    pub book_pos: DecimalValue,
}

/// Every number of the inputs fits a `Decimal`.
pub open spec fn inputs_fit(i: FtxOrderInputs) -> bool {
    &&& i.leverage.wf() && i.taker_fee.wf() && i.maker_fee.wf() && i.total_liquid.wf()
    &&& i.risk.wf() && i.stoploss.wf() && i.takeprofit.wf() && i.entry.wf() && i.book_pos.wf()
}

/// The numbers of an order in the order the checks go: leverage times risk
/// at most 100, valid parameters with a direction, the size and the R ratio,
/// no short on a spot pair, a liquidity share of at most 100%, then the entry
/// fee (rounded to three places) and its share of the liquidity. Gives the
/// direction, size, ratio, share, fee and fee share, or the message of the
/// first check that fails (an overflow included).
pub open spec fn plan_numbers(i: FtxOrderInputs) -> Result<(bool, DecimalValue, DecimalValue, DecimalValue, DecimalValue, DecimalValue), Seq<char>> {
    match decimal_checked_product(i.leverage, i.risk) {
        None => Err(overflow_message()),
        Some(x) => if greater(x, dec(100, 0)) {
            Err(liquidation_message())
        } else if invalid_parameters(i.risk, i.entry, i.stoploss, i.takeprofit) {
            Err(invalid_parameters_message())
        } else if !long_setup(i.entry, i.stoploss, i.takeprofit) && !short_setup(i.entry, i.stoploss, i.takeprofit) {
            Err(no_direction_message())
        } else {
            let islong = long_setup(i.entry, i.stoploss, i.takeprofit);
            match ftx_quantity_of(i.risk, i.total_liquid, i.entry, i.stoploss, islong) {
                None => Err(overflow_message()),
                Some(q) => match ftx_ratio_of(i.entry, i.stoploss, i.takeprofit, islong) {
                    None => Err(overflow_message()),
                    Some(r) => if !islong && !i.isfuture {
                        Err(spot_short_message())
                    } else {
                        match ftx_liquidity_share_of(q, i.total_liquid, i.leverage, i.isfuture) {
                            None => Err(overflow_message()),
                            Some(share) => if greater(share, dec(100, 0)) {
                                Err(liquidity_message())
                            } else {
                                match decimal_checked_product(q, if i.ismarket { i.taker_fee } else { i.maker_fee }) {
                                    None => Err(overflow_message()),
                                    Some(p) => {
                                        let fees = round_half_even(p, 3);
                                        match decimal_checked_quotient(fees, i.total_liquid) {
                                            None => Err(overflow_message()),
                                            Some(fs) => Ok((islong, q, r, share, fees, fs)),
                                        }
                                    },
                                }
                            },
                        }
                    },
                },
            }
        },
    }
}

/// The lines shown for confirmation.
pub open spec fn plan_lines(
    i: FtxOrderInputs,
    islong: bool,
    q: DecimalValue,
    r: DecimalValue,
    share: DecimalValue,
    fees: DecimalValue,
    fees_of_sub: DecimalValue,
) -> Seq<Seq<char>> {
    seq![""@, "  "@ + bold("Valid Parameters"@)] + (if i.isfuture {
        seq!["    Leverage: "@ + decimal_text(i.leverage)]
    } else {
        Seq::empty()
    }) + seq![
        "    Direction Type: "@ + (if islong { "Long"@ } else { "Short"@ }),
        "    Market Type: "@ + (if i.isfuture { "Future"@ } else { "Spot"@ }),
        "    Trigger Type: "@ + (if i.ismarket { "Market"@ } else { "Limit"@ })
    ] + (if i.isorderbook {
        seq!["    OrderBook Position: "@ + decimal_text(i.book_pos)]
    } else {
        Seq::empty()
    }) + seq![
        ""@,
        "    Order Size: "@ + decimal_text(round_half_even(q, 6)) + " "@ + i.quote@,
        "    SL-TP Ratio : "@ + decimal_text(round_half_even(r, 2)) + "R"@,
        "    % Of ("@ + i.subaccount@ + ") "@ + i.quote@ + " Liquidity: "@ + decimal_text(share),
        "    Entry Fees: "@ + decimal_text(fees) + " "@ + i.quote@ + " ("@ + decimal_text(round_half_even(fees_of_sub, 6))
            + "% of sub)"@,
        ""@,
        bold("Confirm Values?"@)
    ]
}

/// A planned order: direction, size, R ratio and the lines shown for
/// confirmation.
pub struct FtxOrderPlan {
    pub islong: bool,
    pub quantity: DecimalValue,
    pub ratio: DecimalValue,
    pub lines: Vec<String>,
}

fn plan_error(message: &str) -> (e: TermError)
    ensures
        e.message@ == message@,
{
    TermError { message: String::from_str(message) }
}

/// Computes an order's numbers, as `plan_numbers` says.
fn ftx_order_numbers(i: &FtxOrderInputs) -> (r: Result<(bool, DecimalValue, DecimalValue, DecimalValue, DecimalValue, DecimalValue), TermError>)
    requires
        inputs_fit(*i),
    ensures
        match plan_numbers(*i) {
            Ok(t) => r == Ok::<(bool, DecimalValue, DecimalValue, DecimalValue, DecimalValue, DecimalValue), TermError>(t),
            Err(m) => r matches Err(e) && e.message@ == m,
        },
        r matches Ok(t) ==> t.1.wf() && t.2.wf() && t.3.wf() && t.4.wf() && t.5.wf(),
{
    let hundred = dec_value(100, 0);
    let x = match decimal_try_mul(i.leverage, i.risk) {
        Some(x) => x,
        None => return Err(overflow()),
    };
    if decimal_gt(x, hundred) {
        return Err(plan_error("You are at risk of liquidation so the trade cannot take place. Check leverage and risk."));
    }
    let islong = match ftx_order_direction(i.risk, i.entry, i.stoploss, i.takeprofit) {
        Ok(b) => b,
        Err(e) => return Err(e),
    };
    let q = match ftx_order_quantity(i.risk, i.total_liquid, i.entry, i.stoploss, islong) {
        Ok(q) => q,
        Err(e) => return Err(e),
    };
    let ratio = match ftx_tpsl_ratio(i.entry, i.stoploss, i.takeprofit, islong) {
        Ok(r) => r,
        Err(e) => return Err(e),
    };
    if !islong && !i.isfuture {
        return Err(plan_error("You cannot short while not being in a future pair"));
    }
    let share = match ftx_liquidity_share(q, i.total_liquid, i.leverage, i.isfuture) {
        Ok(s) => s,
        Err(e) => return Err(e),
    };
    if decimal_gt(share, hundred) {
        return Err(plan_error("You do not have enough liquidity in your account for this trade."));
    }
    let fee_rate = if i.ismarket { i.taker_fee } else { i.maker_fee };
    let p = match decimal_try_mul(q, fee_rate) {
        Some(p) => p,
        None => return Err(overflow()),
    };
    let fees = round_dp(p, 3);
    let fs = match decimal_try_div(fees, i.total_liquid) {
        Some(f) => f,
        None => return Err(overflow()),
    };
    Ok((islong, q, ratio, share, fees, fs))
}

fn labelled(label: &str, value: &str) -> (r: String)
    ensures
        r@ == label@ + value@,
{
    let mut r = String::from_str(label);
    r.append(value);
    r
}

/// The lines shown for confirmation, as `plan_lines` says.
fn ftx_plan_lines(
    i: &FtxOrderInputs,
    islong: bool,
    q: DecimalValue,
    ratio: DecimalValue,
    share: DecimalValue,
    fees: DecimalValue,
    fs: DecimalValue,
) -> (v: Vec<String>)
    requires
        inputs_fit(*i),
        q.wf(),
        ratio.wf(),
        share.wf(),
        fees.wf(),
        fs.wf(),
    ensures
        texts(v@) == plan_lines(*i, islong, q, ratio, share, fees, fs),
{
    let mut head: Vec<String> = vec![String::from_str(""), bold_text("  ", "Valid Parameters")];
    if i.isfuture {
        let lev = decimal_to_string(i.leverage);
        head.push(labelled("    Leverage: ", lev.as_str()));
    }
    let ghost h = texts(head@);
    assert(h =~= seq![""@, "  "@ + bold("Valid Parameters"@)] + (if i.isfuture {
        seq!["    Leverage: "@ + decimal_text(i.leverage)]
    } else {
        Seq::<Seq<char>>::empty()
    }));
    let mut mid: Vec<String> = vec![
        labelled("    Direction Type: ", if islong { "Long" } else { "Short" }),
        labelled("    Market Type: ", if i.isfuture { "Future" } else { "Spot" }),
        labelled("    Trigger Type: ", if i.ismarket { "Market" } else { "Limit" }),
    ];
    if i.isorderbook {
        let pos = decimal_to_string(i.book_pos);
        mid.push(labelled("    OrderBook Position: ", pos.as_str()));
    }
    let ghost m = texts(mid@);
    assert(m =~= seq![
        "    Direction Type: "@ + (if islong { "Long"@ } else { "Short"@ }),
        "    Market Type: "@ + (if i.isfuture { "Future"@ } else { "Spot"@ }),
        "    Trigger Type: "@ + (if i.ismarket { "Market"@ } else { "Limit"@ })
    ] + (if i.isorderbook {
        seq!["    OrderBook Position: "@ + decimal_text(i.book_pos)]
    } else {
        Seq::<Seq<char>>::empty()
    }));
    let size = decimal_to_string(round_dp(q, 6));
    let mut l1 = labelled("    Order Size: ", size.as_str());
    l1.append(" ");
    l1.append(i.quote.as_str());
    let rr = decimal_to_string(round_dp(ratio, 2));
    let mut l2 = labelled("    SL-TP Ratio : ", rr.as_str());
    l2.append("R");
    let mut l3 = labelled("    % Of (", i.subaccount.as_str());
    l3.append(") ");
    l3.append(i.quote.as_str());
    l3.append(" Liquidity: ");
    let sh = decimal_to_string(share);
    l3.append(sh.as_str());
    let ft = decimal_to_string(fees);
    let mut l4 = labelled("    Entry Fees: ", ft.as_str());
    l4.append(" ");
    l4.append(i.quote.as_str());
    l4.append(" (");
    let fst = decimal_to_string(round_dp(fs, 6));
    l4.append(fst.as_str());
    l4.append("% of sub)");
    let tail: Vec<String> = vec![String::from_str(""), l1, l2, l3, l4, String::from_str(""), boldt("Confirm Values?")];
    let ghost t = texts(tail@);
    assert(t =~= seq![
        ""@,
        "    Order Size: "@ + decimal_text(round_half_even(q, 6)) + " "@ + i.quote@,
        "    SL-TP Ratio : "@ + decimal_text(round_half_even(ratio, 2)) + "R"@,
        "    % Of ("@ + i.subaccount@ + ") "@ + i.quote@ + " Liquidity: "@ + decimal_text(share),
        "    Entry Fees: "@ + decimal_text(fees) + " "@ + i.quote@ + " ("@ + decimal_text(round_half_even(fs, 6))
            + "% of sub)"@,
        ""@,
        bold("Confirm Values?"@)
    ]);
    let mut v = head;
    let mut mid2 = mid;
    let mut tail2 = tail;
    v.append(&mut mid2);
    v.append(&mut tail2);
    assert(texts(v@) =~= h + m + t);
    v
}

/// Plans an order: runs its checks in order and computes its numbers, as
/// `plan_numbers` says, and the lines shown for confirmation.
pub fn ftx_order_plan(i: &FtxOrderInputs) -> (r: Result<FtxOrderPlan, TermError>)
    requires
        inputs_fit(*i),
    ensures
        match plan_numbers(*i) {
            Ok((islong, q, ratio, share, fees, fs)) => r matches Ok(p) && p.islong == islong && p.quantity == q
                && p.ratio == ratio && texts(p.lines@) == plan_lines(*i, islong, q, ratio, share, fees, fs),
            Err(m) => r matches Err(e) && e.message@ == m,
        },
        r matches Ok(p) ==> p.quantity.wf() && p.ratio.wf(),
{
    match ftx_order_numbers(i) {
        Ok((islong, q, ratio, share, fees, fs)) => {
            let lines = ftx_plan_lines(i, islong, q, ratio, share, fees, fs);
            Ok(FtxOrderPlan { islong, quantity: q, ratio, lines })
        },
        Err(e) => Err(e),
    }
}

fn bold_text(indent: &str, text: &str) -> (r: String)
    ensures
        r@ == indent@ + bold(text@),
{
    let mut r = String::from_str(indent);
    let b = boldt(text);
    r.append(b.as_str());
    r
}

/// How an entry answer places the order.
#[derive(Copy, Clone, Debug, PartialEq, Eq, Structural)]
pub enum FtxEntryChoice {
    /// `m`: at the market price.
    Market,
    /// `ob`: at a level of the order book.
    OrderBook,
    /// Anything else: read as an entry price.
    Price,
}

/// How an entry answer (`m`, `ob` in any case, or a price) places the order.
pub fn ftx_entry_choice(text: &str) -> (r: FtxEntryChoice)
    ensures
        r == (if unicode_upper(text@) == "M"@ {
            FtxEntryChoice::Market
        } else if unicode_upper(text@) == "OB"@ {
            FtxEntryChoice::OrderBook
        } else {
            FtxEntryChoice::Price
        }),
{
    let up = to_uppercase(text);
    if str_equal(up.as_str(), "M") {
        FtxEntryChoice::Market
    } else if str_equal(up.as_str(), "OB") {
        FtxEntryChoice::OrderBook
    } else {
        FtxEntryChoice::Price
    }
}

/// Whether an answer to the stop-loss or take-profit type prompt picks the
/// market type (`m` in any case); anything else asks again.
pub fn ftx_exit_is_market(text: &str) -> (r: bool)
    ensures
        r == (unicode_upper(text@) == "M"@),
{
    let up = to_uppercase(text);
    str_equal(up.as_str(), "M")
}

/// The currency an order on `pair` is paid in, and whether the pair is a
/// future: futures (`PERP`, `1231`) are paid in USD, other pairs in the
/// market's quote currency.
pub fn ftx_quote_currency(pair: &str, market_quote: Option<String>) -> (r: (String, bool))
    requires
        !(seq_ends_with(pair@, "PERP"@) || seq_ends_with(pair@, "1231"@)) ==> market_quote is Some,
    ensures
        (seq_ends_with(pair@, "PERP"@) || seq_ends_with(pair@, "1231"@)) ==> r.0@ == "USD"@ && r.1,
        !(seq_ends_with(pair@, "PERP"@) || seq_ends_with(pair@, "1231"@)) ==> r.0 == market_quote->0 && !r.1,
{
    if str_ends_with(pair, "PERP") || str_ends_with(pair, "1231") {
        (String::from_str("USD"), true)
    } else {
        match market_quote {
            Some(q) => (q, false),
            None => (String::from_str("USD"), true),
        }
    }
}

} // verus!
