//! How errors are shown to the user.

use vstd::prelude::*;
use vstd::string::*;

use crate::text::{seq_contains, str_contains, to_lowercase, unicode_lower};
use crate::userspace::{printed, same_session, texts};
use crate::utils::{REPO, VERSION};
use crate::UserSpace;

verus! {

/// The lines shown for an error whose debug rendering is `msg` and whose
/// lower-cased rendering is `lower`: a user quitting a prompt gets one short
/// line, anything else the error and where to report it.
pub open spec fn error_lines(msg: Seq<char>, lower: Seq<char>) -> Seq<Seq<char>> {
    if seq_contains(lower, "user quit"@) {
        seq!["-- You quit the current command --"@]
    } else {
        seq![
            ""@,
            "!-- Error: "@ + msg + " --!"@,
            "!-- If needed, report this error to "@ + REPO@ + ". For reference, you are using version "@ + VERSION@ + " --!"@
        ]
    }
}

/// Shows an error given its debug rendering `err_msg` and the lower-cased
/// rendering `lower`.
pub fn error_with_lowered(err_msg: &str, lower: &str, us: &mut UserSpace)
    requires
        old(us).stream_differ + 3 <= u16::MAX,
    ensures
        printed(final(us).command_history@, old(us).command_history@, error_lines(err_msg@, lower@)),
        final(us).stream_differ == old(us).stream_differ + error_lines(err_msg@, lower@).len(),
        final(us).command_history_scroll_overflow == old(us).command_history_scroll_overflow,
        same_session(*final(us), *old(us)),
{
    if str_contains(lower, "user quit") {
        let lines = vec![String::from_str("-- You quit the current command --")];
        assert(texts(lines@) =~= error_lines(err_msg@, lower@));
        us.print_lines(lines);
    } else {
        let mut second = String::from_str("!-- Error: ");
        second.append(err_msg);
        second.append(" --!");
        let mut third = String::from_str("!-- If needed, report this error to ");
        third.append(REPO);
        third.append(". For reference, you are using version ");
        third.append(VERSION);
        third.append(" --!");
        let lines = vec![String::from_str(""), second, third];
        assert(texts(lines@) =~= error_lines(err_msg@, lower@));
        us.print_lines(lines);
    }
}

/// Shows an error to the user, given its debug rendering `err_msg`.
pub fn error(err_msg: &str, us: &mut UserSpace)
    requires
        old(us).stream_differ + 3 <= u16::MAX,
    ensures
        printed(final(us).command_history@, old(us).command_history@,
            error_lines(err_msg@, unicode_lower(err_msg@))),
        final(us).stream_differ == old(us).stream_differ + error_lines(err_msg@, unicode_lower(err_msg@)).len(),
        final(us).command_history_scroll_overflow == old(us).command_history_scroll_overflow,
        same_session(*final(us), *old(us)),
{
    let lower = to_lowercase(err_msg);
    error_with_lowered(err_msg, lower.as_str(), us);
}

} // verus!
