//! Small output helpers: plural suffixes, confirmation answers, the logo and
//! blank lines.

pub mod termbug;

pub use crate::decimal::{_round_dp_up, round_dp_tz};

use vstd::prelude::*;
use vstd::string::*;

use vstd::utf8::is_ascii_chars;

use crate::text::{ascii_upper, str_equal, to_uppercase, unicode_upper};
use crate::userspace::{printed, prepended, same_session, texts};
use crate::{TermError, UserSpace};

verus! {

/// The version of termcrypt.
pub const VERSION: &'static str = "0.1.0";

/// Where termcrypt's source and issue tracker live.
pub const REPO: &'static str = "https://github.com/termcrypt/termcrypt";

/// `"s"` when `num` is more than one, else nothing.
pub open spec fn plural(num: int) -> Seq<char> {
    if num > 1 {
        "s"@
    } else {
        ""@
    }
}

/// Calls `ansi_term::Style::new().bold().paint(text)` and renders it: the
/// crate writes the bold code `ESC[1m`, the text, then the reset code `ESC[0m`.
#[verifier::external_body]
pub fn boldt(text: &str) -> (r: String)
    ensures
        r@ == "\u{1b}[1m"@ + text@ + "\u{1b}[0m"@,
{
    ansi_term::Style::new().bold().paint(text).to_string()
}

/// Returns "s" if the number is bigger than 1 (for plural words in output).
pub fn s_or_not(num: usize) -> (r: String)
    ensures
        r@ == plural(num as int),
{
    if num > 1 {
        return String::from_str("s");
    }
    String::from_str("")
}

/// An understood answer to a yes/no question.
#[derive(Copy, Clone, Debug, PartialEq, Eq, Structural)]
pub enum YnAnswer {
    /// `y` or `yes`, in any case.
    Confirmed,
    /// `n` or `no`, in any case.
    Denied,
}

/// The answer that an upper-cased reply gives, if it is one.
pub open spec fn yn_answer(upper: Seq<char>) -> Option<YnAnswer> {
    if upper == "Y"@ || upper == "YES"@ {
        Some(YnAnswer::Confirmed)
    } else if upper == "N"@ || upper == "NO"@ {
        Some(YnAnswer::Denied)
    } else {
        None
    }
}

/// The message given for a reply that is neither yes nor no.
pub open spec fn yn_error_message() -> Seq<char> {
    "Did not understand input"@
}

/// The line shown for an answer.
pub open spec fn yn_line(a: YnAnswer) -> Seq<char> {
    match a {
        YnAnswer::Confirmed => "  HIT: Confirmed"@,
        YnAnswer::Denied => "  HIT: User denied function"@,
    }
}

/// Reads a yes/no reply that is already upper-cased.
pub fn yn_upper(upper: &str) -> (r: Result<YnAnswer, TermError>)
    ensures
        match r {
            Ok(a) => yn_answer(upper@) == Some(a),
            Err(e) => yn_answer(upper@) is None && e.message@ == yn_error_message(),
        },
{
    if str_equal(upper, "Y") || str_equal(upper, "YES") {
        Ok(YnAnswer::Confirmed)
    } else if str_equal(upper, "N") || str_equal(upper, "NO") {
        Ok(YnAnswer::Denied)
    } else {
        Err(TermError { message: String::from_str("Did not understand input") })
    }
}

/// Yes/No prompt: reads the reply `text` in any case. A denial is an answer,
/// not an error.
pub fn yn(text: String) -> (r: Result<YnAnswer, TermError>)
    ensures
        match r {
            Ok(a) => yn_answer(unicode_upper(text@)) == Some(a),
            Err(e) => yn_answer(unicode_upper(text@)) is None && e.message@ == yn_error_message(),
        },
        is_ascii_chars(text@) ==> match r {
            Ok(a) => yn_answer(ascii_upper(text@)) == Some(a),
            Err(_) => yn_answer(ascii_upper(text@)) is None,
        },
{
    let upper = to_uppercase(text.as_str());
    yn_upper(upper.as_str())
}

/// The line shown for an answer to a yes/no prompt.
pub fn yn_report(a: YnAnswer) -> (r: String)
    ensures
        r@ == yn_line(a),
{
    match a {
        YnAnswer::Confirmed => String::from_str("  HIT: Confirmed"),
        YnAnswer::Denied => String::from_str("  HIT: User denied function"),
    }
}

/// The logo and version lines, in printing order.
pub open spec fn ascii_lines() -> Seq<Seq<char>> {
    seq![""@, " <termcrypt>"@, ""@, "  v"@ + VERSION@ + " License: 🟢 AGPL3+"@, ""@]
}

/// Outputs the logo and version to the user.
pub fn output_ascii(us: &mut UserSpace)
    requires
        old(us).stream_differ + 5 <= u16::MAX,
    ensures
        printed(final(us).command_history@, old(us).command_history@, ascii_lines()),
        final(us).stream_differ == old(us).stream_differ + 5,
        final(us).command_history_scroll_overflow == old(us).command_history_scroll_overflow,
        same_session(*final(us), *old(us)),
{
    let mut version_line = String::from_str("  v");
    version_line.append(VERSION);
    version_line.append(" License: 🟢 AGPL3+");
    let lines = vec![
        String::from_str(""),
        String::from_str(" <termcrypt>"),
        String::from_str(""),
        version_line,
        String::from_str(""),
    ];
    assert(texts(lines@) =~= ascii_lines());
    us.print_lines(lines);
}

/// Prints a blank line.
pub fn bl(us: &mut UserSpace)
    requires
        old(us).stream_differ < u16::MAX,
    ensures
        prepended(final(us).command_history@, old(us).command_history@, Seq::empty()),
        final(us).stream_differ == old(us).stream_differ + 1,
        final(us).command_history_scroll_overflow == old(us).command_history_scroll_overflow,
        same_session(*final(us), *old(us)),
{
    us.bl();
}

} // verus!
