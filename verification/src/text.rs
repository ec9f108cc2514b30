//! Character-level string operations used by the command logic.

use vstd::prelude::*;
use vstd::string::*;
use vstd::utf8::is_ascii_chars;

verus! {

/// `s` ends with `suffix`.
pub open spec fn seq_ends_with(s: Seq<char>, suffix: Seq<char>) -> bool {
    suffix.len() <= s.len() && s.subrange(s.len() - suffix.len(), s.len() as int) == suffix
}

/// `s` starts with `prefix`.
pub open spec fn seq_starts_with(s: Seq<char>, prefix: Seq<char>) -> bool {
    prefix.len() <= s.len() && s.subrange(0, prefix.len() as int) == prefix
}

/// `pat` occurs in `s` at position `i`.
pub open spec fn occurs_at(s: Seq<char>, pat: Seq<char>, i: int) -> bool {
    0 <= i && i + pat.len() <= s.len() && s.subrange(i, i + pat.len()) == pat
}

/// `pat` occurs somewhere in `s`.
pub open spec fn seq_contains(s: Seq<char>, pat: Seq<char>) -> bool {
    exists|i: int| occurs_at(s, pat, i)
}

/// Character equality of two string slices.
pub fn str_equal(a: &str, b: &str) -> (r: bool)
    ensures
        r == (a@ == b@),
{
    let la = a.unicode_len();
    let lb = b.unicode_len();
    if la != lb {
        return false;
    }
    let mut i: usize = 0;
    while i < la
        invariant
            la == a@.len(),
            lb == b@.len(),
            la == lb,
            i <= la,
            forall|j: int| 0 <= j < i ==> a@[j] == b@[j],
        decreases la - i,
    {
        if a.get_char(i) != b.get_char(i) {
            return false;
        }
        i = i + 1;
    }
    assert(a@ =~= b@);
    true
}


/// Character test of `s` ending with `suffix`.
pub fn str_ends_with(s: &str, suffix: &str) -> (r: bool)
    ensures
        r == seq_ends_with(s@, suffix@),
{
    let ls = s.unicode_len();
    let lp = suffix.unicode_len();
    if lp > ls {
        return false;
    }
    let off = ls - lp;
    let mut i: usize = 0;
    while i < lp
        invariant
            ls == s@.len(),
            lp == suffix@.len(),
            off == ls - lp,
            i <= lp,
            forall|j: int| 0 <= j < i ==> s@[off + j] == suffix@[j],
        decreases lp - i,
    {
        if s.get_char(off + i) != suffix.get_char(i) {
            assert(s@.subrange(off as int, ls as int)[i as int] != suffix@[i as int]);
            return false;
        }
        i = i + 1;
    }
    assert(s@.subrange(off as int, ls as int) =~= suffix@);
    true
}

/// Character test of `s` starting with `prefix`.
pub fn str_starts_with(s: &str, prefix: &str) -> (r: bool)
    ensures
        r == seq_starts_with(s@, prefix@),
{
    let ls = s.unicode_len();
    let lp = prefix.unicode_len();
    if lp > ls {
        return false;
    }
    let mut i: usize = 0;
    while i < lp
        invariant
            ls == s@.len(),
            lp == prefix@.len(),
            lp <= ls,
            i <= lp,
            forall|j: int| 0 <= j < i ==> s@[j] == prefix@[j],
        decreases lp - i,
    {
        if s.get_char(i) != prefix.get_char(i) {
            assert(s@.subrange(0, lp as int)[i as int] != prefix@[i as int]);
            return false;
        }
        i = i + 1;
    }
    assert(s@.subrange(0, lp as int) =~= prefix@);
    true
}

/// Whether `pat` occurs in `s` at character position `at`.
fn str_occurs_at(s: &str, pat: &str, at: usize) -> (r: bool)
    requires
        at <= s@.len(),
    ensures
        r == occurs_at(s@, pat@, at as int),
{
    let ls = s.unicode_len();
    let lp = pat.unicode_len();
    if lp > ls - at {
        return false;
    }
    let mut i: usize = 0;
    while i < lp
        invariant
            ls == s@.len(),
            lp == pat@.len(),
            at + lp <= ls,
            i <= lp,
            forall|j: int| 0 <= j < i ==> s@[at + j] == pat@[j],
        decreases lp - i,
    {
        if s.get_char(at + i) != pat.get_char(i) {
            assert(s@.subrange(at as int, at + lp)[i as int] != pat@[i as int]);
            return false;
        }
        i = i + 1;
    }
    assert(s@.subrange(at as int, at + lp) =~= pat@);
    true
}

/// Whether `pat` occurs anywhere in `s`.
pub fn str_contains(s: &str, pat: &str) -> (r: bool)
    ensures
        r == seq_contains(s@, pat@),
{
    let ls = s.unicode_len();
    let mut i: usize = 0;
    while i < ls
        invariant
            ls == s@.len(),
            i <= ls,
            forall|j: int| 0 <= j < i ==> !occurs_at(s@, pat@, j),
        decreases ls - i,
    {
        if str_occurs_at(s, pat, i) {
            return true;
        }
        i = i + 1;
    }
    if str_occurs_at(s, pat, ls) {
        return true;
    }
    assert forall|j: int| !occurs_at(s@, pat@, j) by {
        if 0 <= j && j < i {
        }
    }
    false
}


/// ASCII upper-casing of one character: `a`..=`z` become `A`..=`Z`.
pub open spec fn ascii_upper_char(c: char) -> char {
    if 'a' <= c && c <= 'z' {
        ((c as int) - 32) as char
    } else {
        c
    }
}

/// ASCII lower-casing of one character: `A`..=`Z` become `a`..=`z`.
pub open spec fn ascii_lower_char(c: char) -> char {
    if 'A' <= c && c <= 'Z' {
        ((c as int) + 32) as char
    } else {
        c
    }
}

/// Character-wise ASCII upper-casing.
pub open spec fn ascii_upper(s: Seq<char>) -> Seq<char> {
    Seq::new(s.len(), |i: int| ascii_upper_char(s[i]))
}

/// Character-wise ASCII lower-casing.
pub open spec fn ascii_lower(s: Seq<char>) -> Seq<char> {
    Seq::new(s.len(), |i: int| ascii_lower_char(s[i]))
}

/// What `str::to_uppercase` returns for a string (Unicode upper-casing).
pub uninterp spec fn unicode_upper(s: Seq<char>) -> Seq<char>;

/// What `str::to_lowercase` returns for a string (Unicode lower-casing).
pub uninterp spec fn unicode_lower(s: Seq<char>) -> Seq<char>;

/// Calls `str::to_uppercase`. The result is named by `unicode_upper`; on an
/// ASCII string the documented mapping is plain ASCII upper-casing.
#[verifier::external_body]
pub(crate) fn to_uppercase(s: &str) -> (r: String)
    ensures
        r@ == unicode_upper(s@),
        is_ascii_chars(s@) ==> r@ == ascii_upper(s@),
{
    s.to_uppercase()
}

/// Calls `str::to_lowercase`. The result is named by `unicode_lower`; on an
/// ASCII string the documented mapping is plain ASCII lower-casing.
#[verifier::external_body]
pub(crate) fn to_lowercase(s: &str) -> (r: String)
    ensures
        r@ == unicode_lower(s@),
        is_ascii_chars(s@) ==> r@ == ascii_lower(s@),
{
    s.to_lowercase()
}

/// Calls `String::push`: appends one character.
#[verifier::external_body]
pub(crate) fn string_push(s: &mut String, c: char)
    ensures
        final(s)@ == old(s)@.push(c),
{
    s.push(c)
}

/// Calls `String::pop`: removes and returns the last character, if any.
#[verifier::external_body]
pub(crate) fn string_pop(s: &mut String) -> (r: Option<char>)
    ensures
        old(s)@.len() == 0 ==> r is None && final(s)@ == old(s)@,
        old(s)@.len() > 0 ==> r == Some(old(s)@.last()) && final(s)@ == old(s)@.drop_last(),
{
    s.pop()
}

/// What `UnicodeWidthStr::width` (crate unicode-width) returns for a string:
/// its displayed width in terminal columns.
pub uninterp spec fn display_width(s: Seq<char>) -> usize;

/// Calls `unicode_width::UnicodeWidthStr::width`. The result is named by
/// `display_width`; the crate's source folds over the characters, each adding
/// a width that may depend on the character after it (for emoji and other
/// sequences), so the empty string has width 0 and a string of printable ASCII
/// characters (space to `~`) has one column per character.
#[verifier::external_body]
pub(crate) fn str_width(s: &str) -> (w: usize)
    ensures
        w == display_width(s@),
        s@.len() == 0 ==> w == 0,
        (forall|i: int| 0 <= i < s@.len() ==> ' ' <= #[trigger] s@[i] <= '~') ==> w == s@.len(),
{
    unicode_width::UnicodeWidthStr::width(s)
}

/// What `s.split(pat).collect::<String>()` gives, scanning from position `i`:
/// every non-overlapping occurrence of `pat`, leftmost first, is removed.
pub open spec fn remove_all_from(s: Seq<char>, pat: Seq<char>, i: int) -> Seq<char>
    decreases s.len() - i,
{
    if i >= s.len() || pat.len() == 0 {
        s.subrange(i, s.len() as int)
    } else if occurs_at(s, pat, i) {
        remove_all_from(s, pat, i + pat.len())
    } else {
        seq![s[i]] + remove_all_from(s, pat, i + 1)
    }
}

/// `s` with every non-overlapping occurrence of `pat` (leftmost first) removed.
pub open spec fn remove_all(s: Seq<char>, pat: Seq<char>) -> Seq<char> {
    remove_all_from(s, pat, 0)
}

/// `s.split(pat).collect::<String>()`: `s` with each occurrence of `pat` removed.
pub fn split_collect(s: &str, pat: &str) -> (r: String)
    ensures
        r@ == remove_all(s@, pat@),
{
    let ls = s.unicode_len();
    let lp = pat.unicode_len();
    if lp == 0 {
        let r = String::from_str(s);
        assert(s@.subrange(0, s@.len() as int) =~= s@);
        return r;
    }
    let mut r = String::new();
    let mut i: usize = 0;
    while i < ls
        invariant
            ls == s@.len(),
            lp == pat@.len(),
            lp > 0,
            i <= ls,
            remove_all(s@, pat@) == r@ + remove_all_from(s@, pat@, i as int),
        decreases ls - i,
    {
        if lp <= ls - i && str_occurs_at(s, pat, i) {
            i = i + lp;
        } else {
            let c = s.get_char(i);
            let ghost before = r@;
            string_push(&mut r, c);
            assert(r@ + remove_all_from(s@, pat@, i + 1) =~= before + (seq![c] + remove_all_from(s@, pat@, i + 1)));
            i = i + 1;
        }
    }
    assert(remove_all_from(s@, pat@, i as int) =~= Seq::<char>::empty());
    assert(r@ + Seq::<char>::empty() =~= r@);
    r
}

/// `n` copies of the character `c`.
pub fn repeat_char(c: char, n: usize) -> (r: String)
    ensures
        r@ == Seq::new(n as nat, |_i: int| c),
{
    let mut r = String::new();
    let mut i: usize = 0;
    while i < n
        invariant
            i <= n,
            r@ == Seq::new(i as nat, |_i: int| c),
        decreases n - i,
    {
        string_push(&mut r, c);
        i = i + 1;
        assert(r@ =~= Seq::new(i as nat, |_i: int| c));
    }
    r
}


/// The decimal digit character for `d` in `0..10`.
pub open spec fn digit_char(d: int) -> char {
    (48 + d) as char
}

/// The decimal representation of `n`, as `format!("{}", n)` writes it.
pub open spec fn decimal(n: nat) -> Seq<char>
    decreases n,
{
    if n < 10 {
        seq![digit_char(n as int)]
    } else {
        decimal(n / 10).push(digit_char((n % 10) as int))
    }
}

fn digit(d: u64) -> (c: char)
    requires
        d < 10,
    ensures
        c == digit_char(d as int),
{
    let b: u8 = 48u8 + d as u8;
    b as char
}

/// `format!("{}", n)` for an unsigned integer.
pub fn u64_to_decimal(n: u64) -> (r: String)
    ensures
        r@ == decimal(n as nat),
{
    let mut m: u64 = n;
    let mut low: Vec<char> = Vec::new();
    let ghost mut tail: Seq<char> = Seq::empty();
    while m >= 10
        invariant
            decimal(n as nat) == decimal(m as nat) + tail,
            tail.len() == low@.len(),
            forall|k: int| 0 <= k < low@.len() ==> tail[k] == low@[low@.len() - 1 - k],
        decreases m,
    {
        let d = m % 10;
        let c = digit(d);
        proof {
            assert(decimal(m as nat) == decimal((m / 10) as nat).push(c));
            let nt = seq![c] + tail;
            assert(decimal(m as nat) + tail =~= decimal((m / 10) as nat) + nt);
            tail = nt;
        }
        low.push(c);
        m = m / 10;
    }
    let mut r = String::new();
    let first = digit(m);
    string_push(&mut r, first);
    let k = low.len();
    let mut j: usize = 0;
    while j < k
        invariant
            k == low@.len(),
            k == tail.len(),
            j <= k,
            forall|q: int| 0 <= q < low@.len() ==> tail[q] == low@[low@.len() - 1 - q],
            r@ == seq![first] + tail.subrange(0, j as int),
        decreases k - j,
    {
        let c = low[k - 1 - j];
        string_push(&mut r, c);
        assert(tail.subrange(0, j + 1) =~= tail.subrange(0, j as int).push(c));
        assert(r@ =~= seq![first] + tail.subrange(0, j + 1));
        j = j + 1;
    }
    assert(tail.subrange(0, k as int) =~= tail);
    assert(decimal(m as nat) == seq![first]);
    r
}

/// Whether `c` is one of the ASCII digits `0` to `9`.
pub open spec fn is_ascii_digit(c: char) -> bool {
    48 <= (c as int) <= 57
}

/// The number that a run of ASCII digits writes in base ten.
pub open spec fn digits_value(s: Seq<char>) -> nat
    decreases s.len(),
{
    if s.len() == 0 {
        0
    } else {
        digits_value(s.drop_last()) * 10 + ((s.last() as int) - 48) as nat
    }
}

/// The `u32` that a run of ASCII digits writes, where it is one or more
/// digits and its value fits.
pub open spec fn digits_u32(d: Seq<char>) -> Option<u32> {
    if d.len() > 0 && (forall|i: int| 0 <= i < d.len() ==> is_ascii_digit(#[trigger] d[i]))
        && digits_value(d) <= u32::MAX {
        Some(digits_value(d) as u32)
    } else {
        None
    }
}

/// What `str::parse::<u32>` reads from a text: an optional `+`, then one or
/// more ASCII digits whose value fits in a `u32`. Anything else (an empty
/// text, a sign alone, a `-`, white space, an underscore, an overflow) is
/// refused.
pub open spec fn u32_parse(s: Seq<char>) -> Option<u32> {
    if s.len() > 0 && s[0] == '+' {
        digits_u32(s.drop_first())
    } else {
        digits_u32(s)
    }
}

/// Calls `s.parse::<u32>()`, which std documents as accepting an optional `+`
/// followed by digits only, and failing on an empty text, on any other
/// character and on overflow. On a refusal it hands back std's error text,
/// which nothing here states.
#[verifier::external_body]
pub(crate) fn parse_u32(s: &str) -> (r: Result<u32, String>)
    ensures
        match r {
            Ok(n) => u32_parse(s@) == Some(n),
            Err(_) => u32_parse(s@) is None,
        },
{
    match s.parse::<u32>() {
        Ok(n) => Ok(n),
        Err(e) => Err(e.to_string()),
    }
}

} // verus!
