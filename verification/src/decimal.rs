//! Decimal numbers as the `rust_decimal` crate holds them, and the operations
//! of that crate the commands use.

use vstd::prelude::*;

use crate::text::decimal;

verus! {

/// The largest mantissa magnitude a `rust_decimal::Decimal` holds (2^96 - 1).
pub const MAX_MAGNITUDE: u128 = 79228162514264337593543950335u128;

/// The largest scale a `rust_decimal::Decimal` holds.
pub const MAX_SCALE: u32 = 28u32;

/// A decimal number: `(-1)^negative * magnitude / 10^scale`, with its sign
/// kept even for zero, as `rust_decimal::Decimal` keeps it.
#[derive(Copy, Clone, Debug, PartialEq, Eq, Structural)]
pub struct DecimalValue {
    pub negative: bool,
    pub magnitude: u128,
    pub scale: u32,
}

/// `10^n`.
pub open spec fn pow10(n: nat) -> nat
    decreases n,
{
    if n == 0 {
        1
    } else {
        10 * pow10((n - 1) as nat)
    }
}

impl DecimalValue {
    /// The value fits a `rust_decimal::Decimal`.
    pub open spec fn wf(self) -> bool {
        self.magnitude <= MAX_MAGNITUDE && self.scale <= MAX_SCALE
    }

    /// The signed mantissa.
    pub open spec fn signed(self) -> int {
        if self.negative {
            -(self.magnitude as int)
        } else {
            self.magnitude as int
        }
    }
}

/// `a` is larger than `b` as numbers.
pub open spec fn greater(a: DecimalValue, b: DecimalValue) -> bool {
    a.signed() * pow10(b.scale as nat) > b.signed() * pow10(a.scale as nat)
}

/// The result of rounding `d` to `places` places with magnitude `m`: the crate
/// keeps the sign of a zero it was given, and gives a non-zero input that
/// rounds to zero a positive sign.
pub open spec fn rounded(d: DecimalValue, places: u32, m: nat) -> DecimalValue {
    DecimalValue {
        negative: if d.magnitude == 0 { d.negative } else { d.negative && m != 0 },
        magnitude: m as u128,
        scale: places,
    }
}

/// `d` rounded to `places` decimal places towards zero.
pub open spec fn round_toward_zero(d: DecimalValue, places: u32) -> DecimalValue {
    if d.scale <= places {
        d
    } else {
        let k = (d.scale - places) as nat;
        rounded(d, places, (d.magnitude as nat) / pow10(k))
    }
}

/// `d` rounded to `places` decimal places away from zero: any dropped
/// non-zero digit raises the kept magnitude by one.
pub open spec fn round_away_from_zero(d: DecimalValue, places: u32) -> DecimalValue {
    if d.scale <= places {
        d
    } else {
        let k = (d.scale - places) as nat;
        let q = (d.magnitude as nat) / pow10(k);
        let rem = (d.magnitude as nat) % pow10(k);
        rounded(d, places, if rem > 0 { q + 1 } else { q })
    }
}

/// `d` rounded to `places` decimal places, halves to the even neighbour.
pub open spec fn round_half_even(d: DecimalValue, places: u32) -> DecimalValue {
    if d.scale <= places {
        d
    } else {
        let k = (d.scale - places) as nat;
        let q = (d.magnitude as nat) / pow10(k);
        let rem = (d.magnitude as nat) % pow10(k);
        rounded(d, places, if 2 * rem > pow10(k) || (2 * rem == pow10(k) && q % 2 == 1) { q + 1 } else { q })
    }
}

/// The digits of a magnitude as the crate writes them: none for zero.
pub open spec fn magnitude_digits(m: nat) -> Seq<char> {
    if m == 0 {
        Seq::empty()
    } else {
        decimal(m)
    }
}

/// `n` zero characters.
pub open spec fn zeros(n: nat) -> Seq<char> {
    Seq::new(n, |_i: int| '0')
}

/// How `format!("{}", d)` writes a decimal: a minus sign when negative (zero
/// included), the whole part (`0` when empty), and for a positive scale a point
/// followed by exactly `scale` fraction digits.
pub open spec fn decimal_text(d: DecimalValue) -> Seq<char> {
    let digits = magnitude_digits(d.magnitude as nat);
    let s = d.scale as nat;
    let padded = if s > digits.len() { zeros((s - digits.len()) as nat) + digits } else { digits };
    let whole = padded.subrange(0, padded.len() - s);
    let frac = padded.subrange(padded.len() - s, padded.len() as int);
    let sign = if d.negative { "-"@ } else { ""@ };
    if s == 0 {
        sign + (if padded.len() == 0 { "0"@ } else { padded })
    } else {
        sign + (if whole.len() == 0 { "0"@ } else { whole }) + "."@ + frac
    }
}

/// A number below `10^k` (with `k` at least one) has at most `k` digits.
pub proof fn lemma_decimal_len(n: nat, k: nat)
    requires
        k >= 1,
        n < pow10(k),
    ensures
        decimal(n).len() <= k,
    decreases n,
{
    if n >= 10 {
        if k == 1 {
            assert(pow10(1) == 10) by {
                reveal_with_fuel(pow10, 2);
            }
        }
        assert(k >= 2);
        let p = pow10((k - 1) as nat);
        assert(pow10(k) == 10 * p);
        assert(n / 10 < p) by (nonlinear_arith)
            requires
                n < 10 * p,
        ;
        lemma_decimal_len(n / 10, (k - 1) as nat);
    }
}

/// The text of a decimal that fits a `Decimal` has at most 32 characters.
pub proof fn lemma_decimal_text_short(d: DecimalValue)
    requires
        d.wf(),
    ensures
        decimal_text(d).len() <= 32,
{
    assert(pow10(29) == 100000000000000000000000000000nat) by {
        reveal_with_fuel(pow10, 30);
    }
    let m = d.magnitude as nat;
    if m > 0 {
        lemma_decimal_len(m, 29);
    }
    let digits = magnitude_digits(m);
    assert(digits.len() <= 29);
    let sc = d.scale as nat;
    let padded = if sc > digits.len() { zeros((sc - digits.len()) as nat) + digits } else { digits };
    assert(padded.len() <= 29);
    assert(padded.len() >= sc);
    let whole = padded.subrange(0, padded.len() - sc);
    let frac = padded.subrange(padded.len() - sc, padded.len() as int);
    assert(whole.len() + frac.len() == padded.len());
    let sign = if d.negative { "-"@ } else { ""@ };
    reveal_strlit("-");
    reveal_strlit("");
    reveal_strlit("0");
    reveal_strlit(".");
    assert(sign.len() <= 1);
}

/// Zero as the crate writes it: positive, at scale 0.
pub open spec fn decimal_zero() -> DecimalValue {
    DecimalValue { negative: false, magnitude: 0, scale: 0 }
}

/// The exact product of two decimals fits a `Decimal` as it stands: its
/// magnitude within 96 bits and the sum of the scales within 28.
pub open spec fn product_fits(a: DecimalValue, b: DecimalValue) -> bool {
    a.magnitude * b.magnitude <= MAX_MAGNITUDE && a.scale + b.scale <= MAX_SCALE
}

/// The exact product of two decimals, at the sum of their scales.
pub open spec fn exact_product(a: DecimalValue, b: DecimalValue) -> DecimalValue {
    DecimalValue {
        negative: a.negative != b.negative,
        magnitude: (a.magnitude * b.magnitude) as u128,
        scale: (a.scale + b.scale) as u32,
    }
}

/// `b` divides `a` with no remainder in the mantissas, and `a` has at least
/// the scale of `b`.
pub open spec fn divides_exactly(a: DecimalValue, b: DecimalValue) -> bool {
    b.magnitude != 0 && a.magnitude % b.magnitude == 0 && a.scale >= b.scale
}

/// The quotient of the mantissas, at the difference of the scales.
pub open spec fn exact_quotient(a: DecimalValue, b: DecimalValue) -> DecimalValue {
    DecimalValue {
        negative: a.negative != b.negative,
        magnitude: a.magnitude / b.magnitude,
        scale: (a.scale - b.scale) as u32,
    }
}

/// `d` is at most the whole number `n`.
pub open spec fn at_most(d: DecimalValue, n: int) -> bool {
    d.signed() <= n * pow10(d.scale as nat)
}

/// `d` is at least the whole number `n`.
pub open spec fn at_least(d: DecimalValue, n: int) -> bool {
    d.signed() >= n * pow10(d.scale as nat)
}

/// The exact quotient `a / b`, for `b` above zero, is at most `n`.
pub open spec fn quotient_at_most(a: DecimalValue, b: DecimalValue, n: int) -> bool {
    a.signed() * pow10(b.scale as nat) <= n * b.signed() * pow10(a.scale as nat)
}

/// The exact quotient `a / b`, for `b` above zero, is at least `n`.
pub open spec fn quotient_at_least(a: DecimalValue, b: DecimalValue, n: int) -> bool {
    a.signed() * pow10(b.scale as nat) >= n * b.signed() * pow10(a.scale as nat)
}

/// The exact product `a * b` is at most `n`.
pub open spec fn product_at_most(a: DecimalValue, b: DecimalValue, n: int) -> bool {
    a.signed() * b.signed() <= n * pow10((a.scale + b.scale) as nat)
}

/// The exact product `a * b` is at least `n`.
pub open spec fn product_at_least(a: DecimalValue, b: DecimalValue, n: int) -> bool {
    a.signed() * b.signed() >= n * pow10((a.scale + b.scale) as nat)
}

/// `q` is exactly the quotient `a / b`: `q * b == a` as numbers.
pub open spec fn quotient_is(q: DecimalValue, a: DecimalValue, b: DecimalValue) -> bool {
    q.signed() * b.signed() * pow10(a.scale as nat) == a.signed() * pow10((q.scale + b.scale) as nat)
}

/// `p` is exactly the product `a * b` as numbers.
pub open spec fn product_is(p: DecimalValue, a: DecimalValue, b: DecimalValue) -> bool {
    p.signed() * pow10((a.scale + b.scale) as nat) == a.signed() * b.signed() * pow10(p.scale as nat)
}

/// `a` and `b` are the same number, whatever their scales.
pub open spec fn same_number(a: DecimalValue, b: DecimalValue) -> bool {
    a.signed() * pow10(b.scale as nat) == b.signed() * pow10(a.scale as nat)
}

/// What `a * b` gives for two decimals (the crate rounds products that need
/// more than 28 decimal places or 96 bits).
pub uninterp spec fn decimal_product(a: DecimalValue, b: DecimalValue) -> DecimalValue;

/// What `a / b` gives for two decimals (the crate rounds the quotient).
pub uninterp spec fn decimal_quotient(a: DecimalValue, b: DecimalValue) -> DecimalValue;

/// What `a - b` gives for two decimals (the crate rounds where the exact
/// difference needs more than 96 bits).
pub uninterp spec fn decimal_difference(a: DecimalValue, b: DecimalValue) -> DecimalValue;

/// What `Decimal::from_str` reads from a text: the number, or none where the
/// crate refuses the text.
pub uninterp spec fn decimal_parse(s: Seq<char>) -> Option<DecimalValue>;

/// Calls `s.parse::<Decimal>()`. The result is named by `decimal_parse`; a
/// number it gives fits a `Decimal`. On a refusal it hands back the crate's
/// error text, which nothing here states.
#[verifier::external_body]
pub(crate) fn decimal_from_str(s: &str) -> (r: Result<DecimalValue, String>)
    ensures
        match r {
            Ok(d) => decimal_parse(s@) == Some(d) && d.wf(),
            Err(_) => decimal_parse(s@) is None,
        },
{
    match s.parse::<rust_decimal::Decimal>() {
        Ok(d) => Ok(DecimalValue { negative: d.is_sign_negative(), magnitude: d.mantissa().unsigned_abs(), scale: d.scale() }),
        Err(e) => Err(e.to_string()),
    }
}

/// Calls `Decimal::from(n)` for a `u64`: the integer `n` at scale 0.
#[verifier::external_body]
pub(crate) fn decimal_from_u64(n: u64) -> (r: DecimalValue)
    ensures
        r == (DecimalValue { negative: false, magnitude: n as u128, scale: 0 }),
{
    let d = rust_decimal::Decimal::from(n);
    DecimalValue { negative: d.is_sign_negative(), magnitude: d.mantissa().unsigned_abs(), scale: d.scale() }
}

/// Calls `Decimal::round_dp_with_strategy(places, RoundingStrategy::ToZero)`;
/// the crate's source drops the digits beyond `places` (a result of zero from
/// a non-zero input is positive).
#[verifier::external_body]
pub fn round_dp_tz(num: DecimalValue, places: u32) -> (r: DecimalValue)
    requires
        num.wf(),
    ensures
        r == round_toward_zero(num, places),
        r.wf(),
{
    let mut d = rust_decimal::Decimal::from_i128_with_scale(num.magnitude as i128, num.scale);
    d.set_sign_negative(num.negative);
    let x = d.round_dp_with_strategy(places, rust_decimal::RoundingStrategy::ToZero);
    DecimalValue { negative: x.is_sign_negative(), magnitude: x.mantissa().unsigned_abs(), scale: x.scale() }
}

/// Rounds up, away from zero: calls `Decimal::round_dp_with_strategy(places,
/// RoundingStrategy::AwayFromZero)`, which the crate's source rounds up
/// whenever a dropped digit is not zero.
#[verifier::external_body]
pub fn _round_dp_up(num: DecimalValue, places: u32) -> (r: DecimalValue)
    requires
        num.wf(),
    ensures
        r == round_away_from_zero(num, places),
        r.wf(),
{
    let mut d = rust_decimal::Decimal::from_i128_with_scale(num.magnitude as i128, num.scale);
    d.set_sign_negative(num.negative);
    let x = d.round_dp_with_strategy(places, rust_decimal::RoundingStrategy::AwayFromZero);
    DecimalValue { negative: x.is_sign_negative(), magnitude: x.mantissa().unsigned_abs(), scale: x.scale() }
}

/// Calls `Decimal::round_dp`, which rounds halves to the even neighbour
/// (`MidpointNearestEven`; a result of zero from a non-zero input is positive).
#[verifier::external_body]
pub(crate) fn round_dp(num: DecimalValue, places: u32) -> (r: DecimalValue)
    requires
        num.wf(),
    ensures
        r == round_half_even(num, places),
        r.wf(),
{
    let mut d = rust_decimal::Decimal::from_i128_with_scale(num.magnitude as i128, num.scale);
    d.set_sign_negative(num.negative);
    let x = d.round_dp(places);
    DecimalValue { negative: x.is_sign_negative(), magnitude: x.mantissa().unsigned_abs(), scale: x.scale() }
}

/// Calls `>` on two decimals; the crate compares their values (so `-0 == 0`).
#[verifier::external_body]
pub(crate) fn decimal_gt(a: DecimalValue, b: DecimalValue) -> (r: bool)
    requires
        a.wf(),
        b.wf(),
    ensures
        r == greater(a, b),
{
    let mut x = rust_decimal::Decimal::from_i128_with_scale(a.magnitude as i128, a.scale);
    x.set_sign_negative(a.negative);
    let mut y = rust_decimal::Decimal::from_i128_with_scale(b.magnitude as i128, b.scale);
    y.set_sign_negative(b.negative);
    x > y
}

/// Calls `format!("{}", d)` on a decimal; the crate's `to_str_internal`
/// writes it as `decimal_text` says.
#[verifier::external_body]
pub(crate) fn decimal_to_string(d: DecimalValue) -> (r: String)
    requires
        d.wf(),
    ensures
        r@ == decimal_text(d),
{
    let mut x = rust_decimal::Decimal::from_i128_with_scale(d.magnitude as i128, d.scale);
    x.set_sign_negative(d.negative);
    format!("{}", x)
}

/// Calls `*` on two decimals. The result is named by `decimal_product`; the
/// crate panics only when the product's size exceeds the largest magnitude,
/// which `requires` leaves out. Its `mul_impl` gives zero (positive, scale 0)
/// when either operand is zero, and the exact product where it fits as it
/// stands; the rounding of other products is left unsaid.
#[verifier::external_body]
pub(crate) fn decimal_mul(a: DecimalValue, b: DecimalValue) -> (r: DecimalValue)
    requires
        a.wf(),
        b.wf(),
        a.magnitude * b.magnitude <= MAX_MAGNITUDE * pow10((a.scale + b.scale) as nat),
    ensures
        r == decimal_product(a, b),
        r.wf(),
        a.magnitude == 0 || b.magnitude == 0 ==> r == decimal_zero(),
        a.magnitude != 0 && b.magnitude != 0 && product_fits(a, b) ==> r == exact_product(a, b),
{
    let mut x = rust_decimal::Decimal::from_i128_with_scale(a.magnitude as i128, a.scale);
    x.set_sign_negative(a.negative);
    let mut y = rust_decimal::Decimal::from_i128_with_scale(b.magnitude as i128, b.scale);
    y.set_sign_negative(b.negative);
    let p = x * y;
    DecimalValue { negative: p.is_sign_negative(), magnitude: p.mantissa().unsigned_abs(), scale: p.scale() }
}

/// Calls `/` on two decimals, for a divisor that is a whole number other than
/// zero (so the quotient is no larger than the dividend and cannot overflow).
/// The result is named by `decimal_quotient`. The crate's `div_impl` gives
/// zero (positive, scale 0) for a zero dividend, and the quotient of the
/// mantissas where it leaves no remainder; other quotients, which it extends
/// and rounds to fit, are left unsaid.
#[verifier::external_body]
pub(crate) fn decimal_div(a: DecimalValue, b: DecimalValue) -> (r: DecimalValue)
    requires
        a.wf(),
        b.wf(),
        b.scale == 0,
        b.magnitude >= 1,
    ensures
        r == decimal_quotient(a, b),
        r.wf(),
        a.magnitude == 0 ==> r == decimal_zero(),
        a.magnitude != 0 && divides_exactly(a, b) ==> r == exact_quotient(a, b),
{
    let mut x = rust_decimal::Decimal::from_i128_with_scale(a.magnitude as i128, a.scale);
    x.set_sign_negative(a.negative);
    let mut y = rust_decimal::Decimal::from_i128_with_scale(b.magnitude as i128, b.scale);
    y.set_sign_negative(b.negative);
    let q = x / y;
    DecimalValue { negative: q.is_sign_negative(), magnitude: q.mantissa().unsigned_abs(), scale: q.scale() }
}

/// The larger of two scales.
pub open spec fn max_scale(a: DecimalValue, b: DecimalValue) -> u32 {
    if a.scale >= b.scale {
        a.scale
    } else {
        b.scale
    }
}

/// The signed mantissa of `d` written at scale `s` (no smaller than `d.scale`).
pub open spec fn at_scale(d: DecimalValue, s: u32) -> int {
    d.signed() * pow10((s - d.scale) as nat)
}

/// The size of an integer.
pub open spec fn int_size(x: int) -> int {
    if x < 0 {
        -x
    } else {
        x
    }
}

/// Both operands, written at the larger scale, fit a `Decimal`, and so does
/// their exact difference.
pub open spec fn difference_fits(a: DecimalValue, b: DecimalValue) -> bool {
    let s = max_scale(a, b);
    &&& int_size(at_scale(a, s)) <= MAX_MAGNITUDE
    &&& int_size(at_scale(b, s)) <= MAX_MAGNITUDE
    &&& int_size(at_scale(a, s) - at_scale(b, s)) <= MAX_MAGNITUDE
}

/// Calls `-` on two decimals of the same sign or with a zero among them (whose
/// difference is then no larger than the larger one and cannot overflow). The
/// result is named by `decimal_difference`. The crate's `add_sub_internal`
/// hands back `b` (negated unless zero) when `a` is zero, and `a` when only
/// `b` is; otherwise, where the operands and their difference fit at the
/// larger scale, the difference is exact at that scale (the sign of a zero
/// difference is left unsaid).
#[verifier::external_body]
pub(crate) fn decimal_sub(a: DecimalValue, b: DecimalValue) -> (r: DecimalValue)
    requires
        a.wf(),
        b.wf(),
        a.negative == b.negative || a.magnitude == 0 || b.magnitude == 0,
    ensures
        r == decimal_difference(a, b),
        r.wf(),
        a.magnitude == 0 ==> r == (if b.magnitude == 0 {
            b
        } else {
            DecimalValue { negative: !b.negative, magnitude: b.magnitude, scale: b.scale }
        }),
        a.magnitude != 0 && b.magnitude == 0 ==> r == a,
        a.magnitude != 0 && b.magnitude != 0 && difference_fits(a, b) ==> r.scale == max_scale(a, b)
            && r.signed() == at_scale(a, max_scale(a, b)) - at_scale(b, max_scale(a, b)),
{
    let mut x = rust_decimal::Decimal::from_i128_with_scale(a.magnitude as i128, a.scale);
    x.set_sign_negative(a.negative);
    let mut y = rust_decimal::Decimal::from_i128_with_scale(b.magnitude as i128, b.scale);
    y.set_sign_negative(b.negative);
    let s = x - y;
    DecimalValue { negative: s.is_sign_negative(), magnitude: s.mantissa().unsigned_abs(), scale: s.scale() }
}

/// What `Decimal::checked_div` gives: the quotient `a / b` gives, or none
/// where the crate reports a zero divisor or an overflow.
pub uninterp spec fn decimal_checked_quotient(a: DecimalValue, b: DecimalValue) -> Option<DecimalValue>;

/// What `Decimal::checked_mul` gives: the product `a * b` gives, or none
/// where the crate reports an overflow.
pub uninterp spec fn decimal_checked_product(a: DecimalValue, b: DecimalValue) -> Option<DecimalValue>;

/// What `Decimal::checked_sub` gives: the difference `a - b` gives, or none
/// where the crate reports an overflow.
pub uninterp spec fn decimal_checked_difference(a: DecimalValue, b: DecimalValue) -> Option<DecimalValue>;

/// Calls `Decimal::checked_div`. The result is named by
/// `decimal_checked_quotient`; the crate's source gives the same quotient as
/// `/` where it gives one, and none for a zero divisor; for a zero dividend
/// it gives zero, and where the mantissas divide with no remainder, their
/// quotient. Otherwise `div_impl` extends the quotient digit by digit until
/// the remainder is zero, and rounds to the nearest (halves to even) only
/// where it runs out of digits: so a quotient that some `Decimal` holds
/// exactly is given exactly, and a whole number that bounds the exact
/// quotient bounds the quotient given.
#[verifier::external_body]
pub(crate) fn decimal_try_div(a: DecimalValue, b: DecimalValue) -> (r: Option<DecimalValue>)
    requires
        a.wf(),
        b.wf(),
    ensures
        r == decimal_checked_quotient(a, b),
        r matches Some(q) ==> q == decimal_quotient(a, b) && q.wf(),
        b.magnitude == 0 ==> r is None,
        b.magnitude != 0 && a.magnitude == 0 ==> r == Some(decimal_zero()),
        a.magnitude != 0 && divides_exactly(a, b) ==> r == Some(exact_quotient(a, b)),
        b.magnitude != 0 && (exists|x: DecimalValue| x.wf() && #[trigger] quotient_is(x, a, b)) ==> r is Some
            && quotient_is(r.unwrap(), a, b),
        forall|n: int| b.signed() > 0 && r is Some && #[trigger] quotient_at_most(a, b, n) ==> at_most(r.unwrap(), n),
        forall|n: int| b.signed() > 0 && r is Some && #[trigger] quotient_at_least(a, b, n) ==> at_least(r.unwrap(), n),
{
    let mut x = rust_decimal::Decimal::from_i128_with_scale(a.magnitude as i128, a.scale);
    x.set_sign_negative(a.negative);
    let mut y = rust_decimal::Decimal::from_i128_with_scale(b.magnitude as i128, b.scale);
    y.set_sign_negative(b.negative);
    match x.checked_div(y) {
        Some(q) => Some(DecimalValue { negative: q.is_sign_negative(), magnitude: q.mantissa().unsigned_abs(), scale: q.scale() }),
        None => None,
    }
}

/// Calls `Decimal::checked_mul`. The result is named by
/// `decimal_checked_product`; the crate's source gives the same product as
/// `*` where it gives one; zero when an operand is zero, and the exact
/// product where it fits as it stands. A product that does not fit is cut to
/// fewer places and rounded to the nearest (halves to even), so a whole
/// number that bounds the exact product bounds the product given; it drops
/// no more places than it must, so a product that some `Decimal` holds
/// exactly is given exactly.
#[verifier::external_body]
pub(crate) fn decimal_try_mul(a: DecimalValue, b: DecimalValue) -> (r: Option<DecimalValue>)
    requires
        a.wf(),
        b.wf(),
    ensures
        r == decimal_checked_product(a, b),
        r matches Some(p) ==> p == decimal_product(a, b) && p.wf(),
        a.magnitude == 0 || b.magnitude == 0 ==> r == Some(decimal_zero()),
        a.magnitude != 0 && b.magnitude != 0 && product_fits(a, b) ==> r == Some(exact_product(a, b)),
        (exists|x: DecimalValue| x.wf() && #[trigger] product_is(x, a, b)) ==> r is Some && product_is(r.unwrap(), a, b),
        forall|n: int| r is Some && #[trigger] product_at_most(a, b, n) ==> at_most(r.unwrap(), n),
        forall|n: int| r is Some && #[trigger] product_at_least(a, b, n) ==> at_least(r.unwrap(), n),
{
    let mut x = rust_decimal::Decimal::from_i128_with_scale(a.magnitude as i128, a.scale);
    x.set_sign_negative(a.negative);
    let mut y = rust_decimal::Decimal::from_i128_with_scale(b.magnitude as i128, b.scale);
    y.set_sign_negative(b.negative);
    match x.checked_mul(y) {
        Some(p) => Some(DecimalValue { negative: p.is_sign_negative(), magnitude: p.mantissa().unsigned_abs(), scale: p.scale() }),
        None => None,
    }
}

/// Calls `Decimal::checked_sub`. The result is named by
/// `decimal_checked_difference`; the crate's source gives the same difference
/// as `-` where it gives one: `b` (negated unless zero) when `a` is zero,
/// `a` when only `b` is, and otherwise the exact difference at the larger
/// scale where that fits (the sign of a zero difference is left unsaid).
#[verifier::external_body]
pub(crate) fn decimal_try_sub(a: DecimalValue, b: DecimalValue) -> (r: Option<DecimalValue>)
    requires
        a.wf(),
        b.wf(),
    ensures
        r == decimal_checked_difference(a, b),
        r matches Some(d) ==> d == decimal_difference(a, b) && d.wf(),
        a.magnitude == 0 ==> r == Some(if b.magnitude == 0 {
            b
        } else {
            (DecimalValue { negative: !b.negative, magnitude: b.magnitude, scale: b.scale })
        }),
        a.magnitude != 0 && b.magnitude == 0 ==> r == Some(a),
        a.magnitude != 0 && b.magnitude != 0 && difference_fits(a, b) ==> r is Some && r.unwrap().scale == max_scale(a, b)
            && r.unwrap().signed() == at_scale(a, max_scale(a, b)) - at_scale(b, max_scale(a, b)),
{
    let mut x = rust_decimal::Decimal::from_i128_with_scale(a.magnitude as i128, a.scale);
    x.set_sign_negative(a.negative);
    let mut y = rust_decimal::Decimal::from_i128_with_scale(b.magnitude as i128, b.scale);
    y.set_sign_negative(b.negative);
    match x.checked_sub(y) {
        Some(d) => Some(DecimalValue { negative: d.is_sign_negative(), magnitude: d.mantissa().unsigned_abs(), scale: d.scale() }),
        None => None,
    }
}

/// What `Decimal::checked_add` gives: the sum `a + b` gives, or none where
/// the crate reports an overflow.
pub uninterp spec fn decimal_checked_sum(a: DecimalValue, b: DecimalValue) -> Option<DecimalValue>;

/// Both operands, written at the larger scale, fit a `Decimal`, and so does
/// their exact sum.
pub open spec fn sum_fits(a: DecimalValue, b: DecimalValue) -> bool {
    let s = max_scale(a, b);
    &&& int_size(at_scale(a, s)) <= MAX_MAGNITUDE
    &&& int_size(at_scale(b, s)) <= MAX_MAGNITUDE
    &&& int_size(at_scale(a, s) + at_scale(b, s)) <= MAX_MAGNITUDE
}

/// Calls `Decimal::checked_add`. The result is named by `decimal_checked_sum`.
/// The crate's `add_sub_internal` hands back `b` when `a` is zero and `a`
/// when only `b` is; otherwise, where the operands and their sum fit at the
/// larger scale, the sum is exact at that scale (the sign of a zero sum is
/// left unsaid).
#[verifier::external_body]
pub(crate) fn decimal_try_add(a: DecimalValue, b: DecimalValue) -> (r: Option<DecimalValue>)
    requires
        a.wf(),
        b.wf(),
    ensures
        r == decimal_checked_sum(a, b),
        r matches Some(d) ==> d.wf(),
        a.magnitude == 0 ==> r == Some(b),
        a.magnitude != 0 && b.magnitude == 0 ==> r == Some(a),
        a.magnitude != 0 && b.magnitude != 0 && sum_fits(a, b) ==> r is Some && r.unwrap().scale == max_scale(a, b)
            && r.unwrap().signed() == at_scale(a, max_scale(a, b)) + at_scale(b, max_scale(a, b)),
{
    let mut x = rust_decimal::Decimal::from_i128_with_scale(a.magnitude as i128, a.scale);
    x.set_sign_negative(a.negative);
    let mut y = rust_decimal::Decimal::from_i128_with_scale(b.magnitude as i128, b.scale);
    y.set_sign_negative(b.negative);
    match x.checked_add(y) {
        Some(d) => Some(DecimalValue { negative: d.is_sign_negative(), magnitude: d.mantissa().unsigned_abs(), scale: d.scale() }),
        None => None,
    }
}

/// `10^n` is at least one, and for `n` up to the largest scale it fits a
/// mantissa.
pub proof fn lemma_pow10_bounds(n: nat)
    ensures
        pow10(n) >= 1,
        n <= 28 ==> pow10(n) <= MAX_MAGNITUDE,
    decreases n,
{
    if n > 0 {
        lemma_pow10_bounds((n - 1) as nat);
    }
    if n <= 28 {
        lemma_pow10_monotone(n, 28);
        assert(pow10(28) == 10000000000000000000000000000nat) by {
            reveal_with_fuel(pow10, 29);
        }
    }
}

/// `10^n` grows with `n`.
pub proof fn lemma_pow10_monotone(m: nat, n: nat)
    requires
        m <= n,
    ensures
        pow10(m) <= pow10(n),
    decreases n,
{
    if m < n {
        lemma_pow10_monotone(m, (n - 1) as nat);
        lemma_pow10_nonnegative((n - 1) as nat);
    }
}

proof fn lemma_pow10_nonnegative(n: nat)
    ensures
        pow10(n) >= 1,
    decreases n,
{
    if n > 0 {
        lemma_pow10_nonnegative((n - 1) as nat);
    }
}

/// `10^(m + n) == 10^m * 10^n`.
pub proof fn lemma_pow10_add(m: nat, n: nat)
    ensures
        pow10(m + n) == pow10(m) * pow10(n),
    decreases m,
{
    if m > 0 {
        let k = (m - 1) as nat;
        lemma_pow10_add(k, n);
        assert(pow10(m + n) == 10 * pow10(k + n));
        assert(pow10(m) == 10 * pow10(k));
        assert(10 * (pow10(k) * pow10(n)) == (10 * pow10(k)) * pow10(n)) by (nonlinear_arith);
    } else {
        assert(pow10(0) == 1);
        assert(m + n == n);
    }
}

/// Two exact quotients of the same numbers are the same number.
pub proof fn lemma_quotients_agree(q1: DecimalValue, q2: DecimalValue, a: DecimalValue, b: DecimalValue)
    requires
        b.signed() != 0,
        quotient_is(q1, a, b),
        quotient_is(q2, a, b),
    ensures
        same_number(q1, q2),
{
    let pa = pow10(a.scale as nat);
    let pb = pow10(b.scale as nat);
    let p1 = pow10(q1.scale as nat);
    let p2 = pow10(q2.scale as nat);
    lemma_pow10_add(q1.scale as nat, b.scale as nat);
    lemma_pow10_add(q2.scale as nat, b.scale as nat);
    lemma_pow10_bounds(a.scale as nat);
    let bi = b.signed();
    assert(bi * pa != 0) by (nonlinear_arith)
        requires
            bi != 0,
            pa >= 1,
    ;
    let q1i = q1.signed();
    let q2i = q2.signed();
    let ai = a.signed();
    assert(q1i * bi * pa == ai * (p1 * pb));
    assert(q2i * bi * pa == ai * (p2 * pb));
    assert(q1i * p2 * (bi * pa) == p2 * (q1i * bi * pa)) by (nonlinear_arith);
    assert(q2i * p1 * (bi * pa) == p1 * (q2i * bi * pa)) by (nonlinear_arith);
    assert(p2 * (ai * (p1 * pb)) == p1 * (ai * (p2 * pb))) by (nonlinear_arith);
    assert(q1i * p2 * (bi * pa) == q2i * p1 * (bi * pa));
    assert(q1i * p2 == q2i * p1) by (nonlinear_arith)
        requires
            q1i * p2 * (bi * pa) == q2i * p1 * (bi * pa),
            bi * pa != 0,
    ;
}

/// A whole number at scale 0 is written as its decimal digits (`0` for zero).
pub proof fn lemma_whole_number_text(n: nat)
    requires
        n <= MAX_MAGNITUDE,
    ensures
        decimal_text(DecimalValue { negative: false, magnitude: n as u128, scale: 0 }) == decimal(n),
        decimal(0) == "0"@,
{
    reveal_strlit("0");
    reveal_strlit("");
    assert(decimal(0) =~= "0"@);
    let d = DecimalValue { negative: false, magnitude: n as u128, scale: 0 };
    let digits = magnitude_digits(n);
    if n == 0 {
        assert(digits.len() == 0);
    } else {
        assert(digits == decimal(n));
    }
    assert(""@ + decimal(n) =~= decimal(n));
}

/// Truncating to some number of places twice is the same as truncating once.
pub proof fn law_truncation_idempotent(d: DecimalValue, places: u32)
    requires
        d.wf(),
    ensures
        round_toward_zero(round_toward_zero(d, places), places) == round_toward_zero(d, places),
{
}

} // verus!
