//! Commands that do not talk to an exchange.

use vstd::prelude::*;
use vstd::string::*;

use crate::text::{
    decimal, display_width, remove_all, repeat_char, split_collect, str_equal, str_width,
    to_lowercase, u64_to_decimal, unicode_lower,
};
use crate::decimal::{
    at_scale, decimal_difference, decimal_div, decimal_from_str, decimal_from_u64, decimal_mul, decimal_parse,
    decimal_product, decimal_quotient, decimal_sub, decimal_text, decimal_to_string, difference_fits, max_scale, pow10,
    round_dp_tz, round_toward_zero, decimal_zero, lemma_whole_number_text, DecimalValue, MAX_MAGNITUDE,
};
use crate::userspace::{printed, same_session, texts};
use crate::utils::{ascii_lines, output_ascii, plural, s_or_not, VERSION};
use crate::{exchange_name, Config, Exchange, TermError, UserSpace};

verus! {

/// The text stored as the new ratio warning level for the reply `reply`: the
/// number it reads as, written back in the crate's form.
pub fn ratio_setting(reply: &str) -> (r: Result<String, TermError>)
    ensures
        match decimal_parse(reply@) {
            Some(d) => r matches Ok(t) && t@ == decimal_text(d),
            None => r is Err,
        },
{
    match decimal_from_str(reply) {
        Ok(d) => Ok(decimal_to_string(d)),
        Err(message) => Err(TermError { message }),
    }
}

/// The command list, in printing order.
pub open spec fn help_text() -> Seq<Seq<char>> {
    seq![
        "UTILITY"@,
        "  help -> Get information about commands"@,
        "  about / info -> Information about the project"@,
        "  afetch / aclear -> Ascii art with info"@,
        "  clear / clr -> Clear the terminal"@,
        "  date -> Get current local and UTC date"@,
        "  time -> Get current local and UTC time"@,
        "  sessions / ses -> Get trading session times"@,
        ""@,
        "MARKETS"@,
        "  balance / bal -> Get balances of subaccount"@,
        "  search / search [query] -> Query pairs"@,
        "  pair / pair [query] -> Lets you change the current pair"@,
        "  price / p -> Return mark, ask and bid price for pair"@,
        ""@,
        "ORDERS"@,
        "  order / o -> Start an order"@,
        "  m -> Start a market order"@,
        "  l -> Start a limit order"@,
        "  ob -> Start an OB-based order"@,
        ""@,
        "SETTINGS"@,
        "  defaults / def -> Change startup defaults (exchange specific)"@,
        "  config / conf -> Change configuration settings"@,
        ""@,
        "KEYBINDS"@,
        "  [UP ARROW] -> Replaces input with previous command"@,
        "  [DOWN ARROW] -> Replaces input with the latter command"@,
        "  [CTRL+C] -> Quits typing when in command or quits app"@,
        "  [CTRL+BACKSPACE] -> Clears input"@,
        ""@,
        "More information is available in our documentation."@
    ]
}

/// Lists all available commands.
pub fn help(us: &mut UserSpace) -> (r: Result<(), TermError>)
    requires
        old(us).stream_differ + 32 <= u16::MAX,
    ensures
        r is Ok,
        printed(final(us).command_history@, old(us).command_history@, help_text()),
        final(us).stream_differ == old(us).stream_differ + 32,
        final(us).command_history_scroll_overflow == old(us).command_history_scroll_overflow,
        same_session(*final(us), *old(us)),
{
    let help_msg = vec![
        String::from_str("UTILITY"),
        String::from_str("  help -> Get information about commands"),
        String::from_str("  about / info -> Information about the project"),
        String::from_str("  afetch / aclear -> Ascii art with info"),
        String::from_str("  clear / clr -> Clear the terminal"),
        String::from_str("  date -> Get current local and UTC date"),
        String::from_str("  time -> Get current local and UTC time"),
        String::from_str("  sessions / ses -> Get trading session times"),
        String::from_str(""),
        String::from_str("MARKETS"),
        String::from_str("  balance / bal -> Get balances of subaccount"),
        String::from_str("  search / search [query] -> Query pairs"),
        String::from_str("  pair / pair [query] -> Lets you change the current pair"),
        String::from_str("  price / p -> Return mark, ask and bid price for pair"),
        String::from_str(""),
        String::from_str("ORDERS"),
        String::from_str("  order / o -> Start an order"),
        String::from_str("  m -> Start a market order"),
        String::from_str("  l -> Start a limit order"),
        String::from_str("  ob -> Start an OB-based order"),
        String::from_str(""),
        String::from_str("SETTINGS"),
        String::from_str("  defaults / def -> Change startup defaults (exchange specific)"),
        String::from_str("  config / conf -> Change configuration settings"),
        String::from_str(""),
        String::from_str("KEYBINDS"),
        String::from_str("  [UP ARROW] -> Replaces input with previous command"),
        String::from_str("  [DOWN ARROW] -> Replaces input with the latter command"),
        String::from_str("  [CTRL+C] -> Quits typing when in command or quits app"),
        String::from_str("  [CTRL+BACKSPACE] -> Clears input"),
        String::from_str(""),
        String::from_str("More information is available in our documentation.")
    ];
    assert(texts(help_msg@) =~= help_text());
    us.print_lines(help_msg);
    Ok(())
}


/// The lines about the project, in printing order.
pub open spec fn about_text() -> Seq<Seq<char>> {
    seq![
        ""@,
        "About termcrypt"@,
        "  termcrypt is a project created for managing efficient trading."@,
        "  It is a free, open sourced app licensed under AGPL3+ (a copyleft license)."@,
        "  You can visit our project repository at https://github.com/termcrypt/termcrypt"@,
        ""@,
        " You are running termcrypt version: "@ + VERSION@
    ]
}

/// Gives information about the project.
pub fn about(us: &mut UserSpace) -> (r: Result<(), TermError>)
    requires
        old(us).stream_differ + 7 <= u16::MAX,
    ensures
        r is Ok,
        printed(final(us).command_history@, old(us).command_history@, about_text()),
        final(us).stream_differ == old(us).stream_differ + 7,
        final(us).command_history_scroll_overflow == old(us).command_history_scroll_overflow,
        same_session(*final(us), *old(us)),
{
    let mut version_line = String::from_str(" You are running termcrypt version: ");
    version_line.append(VERSION);
    let about = vec![
        String::from_str(""),
        String::from_str("About termcrypt"),
        String::from_str("  termcrypt is a project created for managing efficient trading."),
        String::from_str("  It is a free, open sourced app licensed under AGPL3+ (a copyleft license)."),
        String::from_str("  You can visit our project repository at https://github.com/termcrypt/termcrypt"),
        String::from_str(""),
        version_line,
    ];
    assert(texts(about@) =~= about_text());
    us.print_lines(about);
    Ok(())
}

/// Outputs the logo and version; `aclear` clears the output first.
pub fn afetch(us: &mut UserSpace, command: &str) -> (r: Result<(), TermError>)
    requires
        old(us).stream_differ + 5 <= u16::MAX,
    ensures
        r is Ok,
        printed(
            final(us).command_history@,
            if command@ == "aclear"@ { Seq::empty() } else { old(us).command_history@ },
            ascii_lines(),
        ),
        command@ == "aclear"@ ==> final(us).command_history_scroll_overflow@ == Seq::<String>::empty(),
        command@ != "aclear"@ ==> final(us).command_history_scroll_overflow == old(us).command_history_scroll_overflow,
        final(us).stream_differ == old(us).stream_differ + 5,
        same_session(*final(us), *old(us)),
{
    if str_equal(command, "aclear") {
        us.clear_commands();
    }
    output_ascii(us);
    Ok(())
}

/// Ping: answers with a pong (checks that commands work).
pub fn ping_pong(us: &mut UserSpace) -> (r: Result<(), TermError>)
    requires
        old(us).stream_differ < u16::MAX,
    ensures
        r is Ok,
        printed(final(us).command_history@, old(us).command_history@, seq!["🏓 Pong!"@]),
        final(us).stream_differ == old(us).stream_differ + 1,
        final(us).command_history_scroll_overflow == old(us).command_history_scroll_overflow,
        same_session(*final(us), *old(us)),
{
    let lines = vec![String::from_str("🏓 Pong!")];
    assert(texts(lines@) =~= seq!["🏓 Pong!"@]);
    us.print_lines(lines);
    Ok(())
}

/// The line reporting how many commands were run this session.
pub open spec fn count_line(count: nat) -> Seq<char> {
    decimal(count) + " Command"@ + plural(count as int) + " this session"@
}

/// Reports how many commands were run this session.
pub fn command_count(us: &mut UserSpace) -> (r: Result<(), TermError>)
    requires
        old(us).stream_differ < u16::MAX,
    ensures
        r is Ok,
        printed(final(us).command_history@, old(us).command_history@,
            seq![count_line(old(us).command_count as nat)]),
        final(us).stream_differ == old(us).stream_differ + 1,
        final(us).command_history_scroll_overflow == old(us).command_history_scroll_overflow,
        same_session(*final(us), *old(us)),
{
    let mut line = u64_to_decimal(us.command_count as u64);
    line.append(" Command");
    let s = s_or_not(us.command_count as usize);
    line.append(s.as_str());
    line.append(" this session");
    let lines = vec![line];
    assert(texts(lines@) =~= seq![count_line(old(us).command_count as nat)]);
    us.print_lines(lines);
    Ok(())
}

/// The cow's speech for `message` whose display width is `width`.
pub open spec fn cow_lines(message: Seq<char>, width: nat) -> Seq<Seq<char>> {
    seq![
        " __"@ + Seq::new(width, |_i: int| '_'),
        "< "@ + message + " >"@,
        " --"@ + Seq::new(width, |_i: int| '-'),
        "        \\   ^__^"@,
        "         \\  (oo)\\_______"@,
        "            (__)\\       )\\/\\"@,
        "                ||----w |"@,
        "                ||     ||"@
    ]
}

/// A cow saying `message`, drawn for a message of display width `width`.
pub fn cowsay_at_width(us: &mut UserSpace, message: &str, width: usize) -> (r: Result<(), TermError>)
    requires
        old(us).stream_differ + 8 <= u16::MAX,
    ensures
        r is Ok,
        printed(final(us).command_history@, old(us).command_history@, cow_lines(message@, width as nat)),
        final(us).stream_differ == old(us).stream_differ + 8,
        final(us).command_history_scroll_overflow == old(us).command_history_scroll_overflow,
        same_session(*final(us), *old(us)),
{
    let top = repeat_char('_', width);
    let bottom = repeat_char('-', width);
    let mut l0 = String::from_str(" __");
    l0.append(top.as_str());
    let mut l1 = String::from_str("< ");
    l1.append(message);
    l1.append(" >");
    let mut l2 = String::from_str(" --");
    l2.append(bottom.as_str());
    let cow = vec![
        l0,
        l1,
        l2,
        String::from_str("        \\   ^__^"),
        String::from_str("         \\  (oo)\\_______"),
        String::from_str("            (__)\\       )\\/\\"),
        String::from_str("                ||----w |"),
        String::from_str("                ||     ||"),
    ];
    assert(texts(cow@) =~= cow_lines(message@, width as nat));
    us.print_lines(cow);
    Ok(())
}

/// A cow saying what follows `cowsay ` in the command.
pub fn cowsay(us: &mut UserSpace, command: &str) -> (r: Result<(), TermError>)
    requires
        old(us).stream_differ + 8 <= u16::MAX,
    ensures
        r is Ok,
        ({
            let message = remove_all(command@, "cowsay "@);
            printed(final(us).command_history@, old(us).command_history@,
                cow_lines(message, display_width(message) as nat))
        }),
        final(us).stream_differ == old(us).stream_differ + 8,
        final(us).command_history_scroll_overflow == old(us).command_history_scroll_overflow,
        same_session(*final(us), *old(us)),
{
    let message = split_collect(command, "cowsay ");
    let width = str_width(message.as_str());
    cowsay_at_width(us, message.as_str(), width)
}

/// The exchange a lower-cased name picks, if any.
pub open spec fn exchange_for_name(name: Seq<char>) -> Option<Exchange> {
    if unicode_lower(exchange_name(Exchange::Ftx)) == name {
        Some(Exchange::Ftx)
    } else if unicode_lower(exchange_name(Exchange::Bybit)) == name {
        Some(Exchange::Bybit)
    } else {
        None
    }
}

/// The requested exchange name of a `switch` command: the lower-cased command
/// without `switch `.
pub open spec fn switch_target(command: Seq<char>) -> Seq<char> {
    remove_all(unicode_lower(command), "switch "@)
}

/// The exchange a `switch <name>` command asks for, and the name asked for.
pub fn exchange_choice(command: &str) -> (r: (Option<Exchange>, String))
    ensures
        r.1@ == switch_target(command@),
        r.0 == exchange_for_name(switch_target(command@)),
{
    let lowered = to_lowercase(command);
    let new_exchange = split_collect(lowered.as_str(), "switch ");
    let mut new_exchange_type: Option<Exchange> = None;
    let values = Exchange::values();
    let mut i: usize = 0;
    while i < 2
        invariant
            values@ == seq![Exchange::Bybit, Exchange::Ftx],
            new_exchange@ == switch_target(command@),
            i <= 2,
            i == 0 ==> new_exchange_type is None,
            i == 1 ==> new_exchange_type == (if unicode_lower(exchange_name(Exchange::Bybit)) == new_exchange@ {
                Some(Exchange::Bybit)
            } else {
                None::<Exchange>
            }),
            i == 2 ==> new_exchange_type == exchange_for_name(new_exchange@),
        decreases 2 - i,
    {
        let enum_item = values[i];
        let name = enum_item.to_string();
        let lower_name = to_lowercase(name.as_str());
        if str_equal(lower_name.as_str(), new_exchange.as_str()) {
            new_exchange_type = Some(enum_item);
        }
        i = i + 1;
    }
    (new_exchange_type, new_exchange)
}

/// The line shown when a `switch` command names no exchange.
pub open spec fn not_an_exchange_line(name: Seq<char>) -> Seq<char> {
    " "@ + name + " is not an exchange!"@
}

/// The line shown after switching exchange.
pub open spec fn switched_line(e: Exchange) -> Seq<char> {
    " Switched to "@ + exchange_name(e) + " exchange"@
}

/// Reports a `switch` command that named no exchange.
pub fn report_not_an_exchange(us: &mut UserSpace, name: &str) -> (r: Result<(), TermError>)
    requires
        old(us).stream_differ < u16::MAX,
    ensures
        r is Ok,
        printed(final(us).command_history@, old(us).command_history@, seq![not_an_exchange_line(name@)]),
        final(us).stream_differ == old(us).stream_differ + 1,
        final(us).command_history_scroll_overflow == old(us).command_history_scroll_overflow,
        same_session(*final(us), *old(us)),
{
    let mut line = String::from_str(" ");
    line.append(name);
    line.append(" is not an exchange!");
    let lines = vec![line];
    assert(texts(lines@) =~= seq![not_an_exchange_line(name@)]);
    us.print_lines(lines);
    Ok(())
}

/// Switches to `new_exchange` with the configuration `db_info` just read from
/// the store, takes its defaults and reports the switch.
pub fn switch_to_exchange(us: &mut UserSpace, db_info: Config, new_exchange: Exchange) -> (r: Result<(), TermError>)
    requires
        old(us).stream_differ < u16::MAX,
    ensures
        r is Ok,
        final(us).active_exchange == new_exchange,
        final(us).db_info == db_info,
        final(us).sub_account == (match new_exchange {
            Exchange::Bybit => db_info.bybit_default_sub,
            Exchange::Ftx => db_info.ftx_default_sub,
        }),
        final(us).pair == (match new_exchange {
            Exchange::Bybit => db_info.bybit_default_pair,
            Exchange::Ftx => db_info.ftx_default_pair,
        }),
        printed(final(us).command_history@, old(us).command_history@, seq![switched_line(new_exchange)]),
        final(us).stream_differ == old(us).stream_differ + 1,
{
    let _ = us.switch_exchange(db_info, new_exchange);
    let mut line = String::from_str(" Switched to ");
    let name = us.active_exchange.to_string();
    line.append(name.as_str());
    line.append(" exchange");
    let lines = vec![line];
    assert(texts(lines@) =~= seq![switched_line(new_exchange)]);
    us.print_lines(lines);
    Ok(())
}


/// The `switch <exchange>` command: switches to the exchange it names (in any
/// case) with the configuration `db_info` read from the store, takes its
/// defaults and reports the switch; a name that is no exchange is reported
/// and changes nothing else.
pub fn switch_exchange(us: &mut UserSpace, command: &str, db_info: Config) -> (r: Result<(), TermError>)
    requires
        old(us).stream_differ < u16::MAX,
    ensures
        r is Ok,
        match exchange_for_name(switch_target(command@)) {
            Some(e) => {
                &&& final(us).active_exchange == e
                &&& final(us).db_info == db_info
                &&& final(us).sub_account == (match e {
                    Exchange::Bybit => db_info.bybit_default_sub,
                    Exchange::Ftx => db_info.ftx_default_sub,
                })
                &&& final(us).pair == (match e {
                    Exchange::Bybit => db_info.bybit_default_pair,
                    Exchange::Ftx => db_info.ftx_default_pair,
                })
                &&& printed(final(us).command_history@, old(us).command_history@, seq![switched_line(e)])
            },
            None => {
                &&& printed(final(us).command_history@, old(us).command_history@,
                    seq![not_an_exchange_line(switch_target(command@))])
                &&& same_session(*final(us), *old(us))
            },
        },
        final(us).stream_differ == old(us).stream_differ + 1,
{
    let (choice, name) = exchange_choice(command);
    match choice {
        Some(e) => switch_to_exchange(us, db_info, e),
        None => report_not_an_exchange(us, name.as_str()),
    }
}

/// Seconds in a day.
pub open spec fn day_secs() -> int {
    86400
}

/// The New York session is open from 12:00 to 20:00 UTC, the window the
/// report prints.
pub open spec fn ny_open(sod: int) -> bool {
    43200 <= sod < 72000
}

/// When the New York session next closes (open) or opens (closed), in seconds
/// from the start of today (UTC).
pub open spec fn ny_event(sod: int) -> int {
    if ny_open(sod) {
        72000
    } else if sod < 43200 {
        43200
    } else {
        day_secs() + 43200
    }
}

/// The Asia session is open from 23:00 to 04:00 UTC.
pub open spec fn asia_open(sod: int) -> bool {
    sod >= 82800 || sod < 14400
}

/// When the Asia session next closes (open) or opens (closed), in seconds from
/// the start of today (UTC): an evening in the session closes at 04:00 of the
/// next day.
pub open spec fn asia_event(sod: int) -> int {
    if asia_open(sod) {
        if sod >= 82800 {
            day_secs() + 14400
        } else {
            14400
        }
    } else {
        82800
    }
}

/// Whole seconds from the time of day `sod` seconds and `nanos` nanoseconds to
/// the event at `event` seconds (the fraction is dropped).
pub open spec fn secs_until(event: int, sod: int, nanos: int) -> int {
    event - sod - (if nanos > 0 { 1int } else { 0int })
}

/// Sixty, at scale 0.
pub open spec fn sixty() -> DecimalValue {
    DecimalValue { negative: false, magnitude: 60, scale: 0 }
}

/// The hours of a countdown of `secs` seconds, as a decimal.
pub open spec fn countdown_hours_exact(secs: nat) -> DecimalValue {
    decimal_quotient(
        decimal_quotient(DecimalValue { negative: false, magnitude: secs as u128, scale: 0 }, sixty()),
        sixty(),
    )
}

/// The whole hours shown for a countdown.
pub open spec fn countdown_hours(secs: nat) -> DecimalValue {
    round_toward_zero(countdown_hours_exact(secs), 0)
}

/// The fraction of an hour left over in a countdown.
pub open spec fn countdown_fraction(secs: nat) -> DecimalValue {
    decimal_difference(countdown_hours_exact(secs), countdown_hours(secs))
}

/// The whole minutes shown for a countdown.
pub open spec fn countdown_minutes(secs: nat) -> DecimalValue {
    round_toward_zero(decimal_product(countdown_fraction(secs), sixty()), 0)
}

/// The leftover fraction is below one in size.
pub open spec fn below_one(d: DecimalValue) -> bool {
    d.magnitude < pow10(d.scale as nat)
}

/// A truncated division splits `m` into whole parts of `p` and a remainder
/// below `p`.
proof fn lemma_truncation_split(m: nat, p: nat)
    requires
        p > 0,
    ensures
        (m / p) * p <= m,
        m - (m / p) * p == m % p,
        m % p < p,
        m / p == 0 ==> m < p,
{
    vstd::arithmetic::div_mod::lemma_fundamental_div_mod(m as int, p as int);
    assert((m / p) * p == p * (m / p)) by (nonlinear_arith);
}

/// `10^n` is at least one.
proof fn lemma_pow10_positive(n: nat)
    ensures
        pow10(n) >= 1,
    decreases n,
{
    if n > 0 {
        lemma_pow10_positive((n - 1) as nat);
    }
}

/// A decimal less its truncation to whole units is below one in size.
proof fn lemma_fraction_below_one(h: DecimalValue, whole: DecimalValue, frac: DecimalValue)
    requires
        h.wf(),
        whole == round_toward_zero(h, 0),
        h.magnitude == 0 ==> frac == (if whole.magnitude == 0 {
            whole
        } else {
            DecimalValue { negative: !whole.negative, magnitude: whole.magnitude, scale: whole.scale }
        }),
        h.magnitude != 0 && whole.magnitude == 0 ==> frac == h,
        h.magnitude != 0 && whole.magnitude != 0 && difference_fits(h, whole) ==> frac.scale == max_scale(h, whole)
            && frac.signed() == at_scale(h, max_scale(h, whole)) - at_scale(whole, max_scale(h, whole)),
    ensures
        below_one(frac),
{
    lemma_pow10_positive(frac.scale as nat);
    lemma_pow10_positive(h.scale as nat);
    assert(pow10(0) == 1) by {
        reveal_with_fuel(pow10, 1);
    }
    let p = pow10(h.scale as nat);
    let m = h.magnitude as nat;
    lemma_truncation_split(m, p);
    if h.magnitude == 0 {
        if h.scale > 0 {
            assert(whole.magnitude == 0);
        }
    } else if whole.magnitude == 0 {
        if h.scale == 0 {
            assert(whole == h);
        }
    } else if h.scale == 0 {
        assert(whole == h);
        assert(max_scale(h, whole) == 0);
        assert(at_scale(h, 0) == h.signed());
        assert(difference_fits(h, whole));
        assert(frac.signed() == 0);
    } else {
        let q = m / p;
        assert(whole.magnitude == q && whole.scale == 0 && whole.negative == h.negative);
        assert(max_scale(h, whole) == h.scale);
        assert(((h.scale - h.scale) as nat) == 0nat);
        assert(at_scale(h, h.scale) == h.signed() * pow10(0));
        assert(at_scale(h, h.scale) == h.signed());
        assert(q * p <= m);
        assert(at_scale(whole, h.scale) == whole.signed() * p);
        if h.negative {
            assert(at_scale(whole, h.scale) == -(q * p)) by (nonlinear_arith)
                requires
                    at_scale(whole, h.scale) == whole.signed() * p,
                    whole.signed() == -(q as int),
            ;
        } else {
            assert(at_scale(whole, h.scale) == q * p) by (nonlinear_arith)
                requires
                    at_scale(whole, h.scale) == whole.signed() * p,
                    whole.signed() == q as int,
            ;
        }
        assert(difference_fits(h, whole));
        assert(frac.magnitude == m % p);
    }
}

/// The hours and minutes shown for a countdown of `secs` seconds, computed
/// with decimals as `hours = secs / 60 / 60`, `minutes = (hours - whole
/// hours) * 60`, both shown truncated.
pub fn countdown(secs: u64) -> (r: (String, String))
    ensures
        r.0@ == decimal_text(countdown_hours(secs as nat)),
        r.1@ == decimal_text(countdown_minutes(secs as nat)),
        below_one(countdown_fraction(secs as nat)),
        secs % 3600 == 0 ==> r.0@ == decimal((secs / 3600) as nat) && r.1@ == "0"@,
{
    let total = decimal_from_u64(secs);
    let sixty = DecimalValue { negative: false, magnitude: 60, scale: 0 };
    let per_minute = decimal_div(total, sixty);
    let hours = decimal_div(per_minute, sixty);
    let whole = round_dp_tz(hours, 0);
    let frac = decimal_sub(hours, whole);
    proof {
        lemma_fraction_below_one(hours, whole, frac);
        let p = pow10(frac.scale as nat);
        assert(frac.magnitude < p);
        assert(frac.magnitude * 60 <= MAX_MAGNITUDE * p) by (nonlinear_arith)
            requires
                frac.magnitude < p,
                60 <= MAX_MAGNITUDE,
        ;
    }
    let minutes = decimal_mul(frac, sixty);
    let whole_minutes = round_dp_tz(minutes, 0);
    proof {
        if secs % 3600 == 0 {
            let k = secs / 3600;
            assert(secs == 3600 * k);
            if secs > 0 {
                assert(secs % 60 == 0 && secs / 60 == 60 * k) by (nonlinear_arith)
                    requires
                        secs == 3600 * k,
                ;
                assert((60 * k) % 60 == 0 && (60 * k) / 60 == k) by (nonlinear_arith);
                assert(per_minute == (DecimalValue { negative: false, magnitude: (60 * k) as u128, scale: 0 }));
                assert(hours == (DecimalValue { negative: false, magnitude: k as u128, scale: 0 }));
                assert(whole == hours);
                assert(pow10(0) == 1) by {
                    reveal_with_fuel(pow10, 1);
                }
                assert(hours.signed() == k as int);
                assert(((0u32 - hours.scale) as nat) == 0nat);
                assert(at_scale(hours, 0) == hours.signed() * pow10(0));
                assert(at_scale(hours, 0) == k);
                assert(difference_fits(hours, whole));
                assert(frac.magnitude == 0);
            }
            assert(whole_minutes == decimal_zero());
            lemma_whole_number_text(k as nat);
            lemma_whole_number_text(0);
        }
    }
    (decimal_to_string(whole), decimal_to_string(whole_minutes))
}

/// The circle shown for an open or closed session.
pub open spec fn circle(open: bool) -> Seq<char> {
    if open {
        "🟢"@
    } else {
        "🔴"@
    }
}

/// The countdown line of a session.
pub open spec fn countdown_line(open: bool, hours: Seq<char>, minutes: Seq<char>) -> Seq<char> {
    "    "@ + (if open { "Closes"@ } else { "Opens"@ }) + " in: "@ + hours + "h "@ + minutes + "m"@
}

/// The trading-session report, in printing order.
pub open spec fn session_lines(
    ny_is_open: bool,
    ny_hours: Seq<char>,
    ny_minutes: Seq<char>,
    asia_is_open: bool,
    asia_hours: Seq<char>,
    asia_minutes: Seq<char>,
) -> Seq<Seq<char>> {
    seq![
        "Trading Sessions"@,
        "  "@ + circle(ny_is_open) + " NY (Optimal)"@,
        countdown_line(ny_is_open, ny_hours, ny_minutes),
        "    (12AM-8PM UTC)"@,
        ""@,
        "  "@ + circle(asia_is_open) + " ASIA (Optimal)"@,
        countdown_line(asia_is_open, asia_hours, asia_minutes),
        "    (11PM-4AM UTC)"@
    ]
}

fn countdown_text(open: bool, hours: &str, minutes: &str) -> (r: String)
    ensures
        r@ == countdown_line(open, hours@, minutes@),
{
    let mut line = String::from_str("    ");
    if open {
        line.append("Closes");
    } else {
        line.append("Opens");
    }
    line.append(" in: ");
    line.append(hours);
    line.append("h ");
    line.append(minutes);
    line.append("m");
    line
}

fn circle_text(open: bool) -> (r: &'static str)
    ensures
        r@ == circle(open),
{
    if open {
        "🟢"
    } else {
        "🔴"
    }
}

/// Prints the trading-session report from each session's state and countdown.
pub fn session_report(
    us: &mut UserSpace,
    ny_is_open: bool,
    ny_hours: &str,
    ny_minutes: &str,
    asia_is_open: bool,
    asia_hours: &str,
    asia_minutes: &str,
) -> (r: Result<(), TermError>)
    requires
        old(us).stream_differ + 8 <= u16::MAX,
    ensures
        r is Ok,
        printed(final(us).command_history@, old(us).command_history@,
            session_lines(ny_is_open, ny_hours@, ny_minutes@, asia_is_open, asia_hours@, asia_minutes@)),
        final(us).stream_differ == old(us).stream_differ + 8,
        final(us).command_history_scroll_overflow == old(us).command_history_scroll_overflow,
        same_session(*final(us), *old(us)),
{
    let mut ny = String::from_str("  ");
    ny.append(circle_text(ny_is_open));
    ny.append(" NY (Optimal)");
    let mut asia = String::from_str("  ");
    asia.append(circle_text(asia_is_open));
    asia.append(" ASIA (Optimal)");
    let lines = vec![
        String::from_str("Trading Sessions"),
        ny,
        countdown_text(ny_is_open, ny_hours, ny_minutes),
        String::from_str("    (12AM-8PM UTC)"),
        String::from_str(""),
        asia,
        countdown_text(asia_is_open, asia_hours, asia_minutes),
        String::from_str("    (11PM-4AM UTC)"),
    ];
    assert(texts(lines@) =~= session_lines(ny_is_open, ny_hours@, ny_minutes@, asia_is_open, asia_hours@, asia_minutes@));
    us.print_lines(lines);
    Ok(())
}

/// Trading session times at the UTC time of day `secs_of_day` seconds and
/// `nanos` nanoseconds: whether the New York and Asia sessions are open and how
/// long until each closes or opens.
pub fn sessions(us: &mut UserSpace, secs_of_day: u32, nanos: u32) -> (r: Result<(), TermError>)
    requires
        secs_of_day < 86400,
        nanos < 1_000_000_000,
        old(us).stream_differ + 8 <= u16::MAX,
    ensures
        r is Ok,
        ({
            let sod = secs_of_day as int;
            let n = nanos as int;
            let ny_secs = secs_until(ny_event(sod), sod, n) as nat;
            let asia_secs = secs_until(asia_event(sod), sod, n) as nat;
            printed(
                final(us).command_history@,
                old(us).command_history@,
                session_lines(
                    ny_open(sod),
                    decimal_text(countdown_hours(ny_secs)),
                    decimal_text(countdown_minutes(ny_secs)),
                    asia_open(sod),
                    decimal_text(countdown_hours(asia_secs)),
                    decimal_text(countdown_minutes(asia_secs)),
                ),
            )
        }),
        final(us).stream_differ == old(us).stream_differ + 8,
        final(us).command_history_scroll_overflow == old(us).command_history_scroll_overflow,
        same_session(*final(us), *old(us)),
{
    let sod = secs_of_day;
    let ny_is_open = 43200 <= sod && sod < 72000;
    let ny_event_at: u32 = if ny_is_open {
        72000
    } else if sod < 43200 {
        43200
    } else {
        86400 + 43200
    };
    let asia_is_open = sod >= 82800 || sod < 14400;
    let asia_event_at: u32 = if asia_is_open {
        if sod >= 82800 {
            86400 + 14400
        } else {
            14400
        }
    } else {
        82800
    };
    let late: u32 = if nanos > 0 { 1 } else { 0 };
    let ny_secs = ny_event_at - sod - late;
    let asia_secs = asia_event_at - sod - late;
    let (ny_h, ny_m) = countdown(ny_secs as u64);
    let (asia_h, asia_m) = countdown(asia_secs as u64);
    session_report(us, ny_is_open, ny_h.as_str(), ny_m.as_str(), asia_is_open, asia_h.as_str(), asia_m.as_str())
}

/// Every countdown the session report shows runs forward, at any time of day:
/// it ends within a day and a half, and an open session closes within the
/// hours its printed window has left (eight for New York, five for Asia).
pub proof fn law_session_events_ahead(sod: int, nanos: int)
    requires
        0 <= sod < day_secs(),
        0 <= nanos < 1_000_000_000,
    ensures
        0 <= secs_until(ny_event(sod), sod, nanos) < day_secs() + 43200,
        0 <= secs_until(asia_event(sod), sod, nanos) < day_secs() + 14400,
        ny_open(sod) ==> secs_until(ny_event(sod), sod, nanos) <= 28800,
        asia_open(sod) ==> secs_until(asia_event(sod), sod, nanos) <= 18000,
{
}

/// Where each session stands at every time of day, as the printed windows
/// say (New York 12:00-20:00 UTC, Asia 23:00-04:00 UTC), and how long its
/// countdown runs: to the close of an open session, to the next opening of a
/// closed one (the current second, once begun, is not counted).
pub proof fn law_session_windows(sod: int, nanos: int)
    requires
        0 <= sod < day_secs(),
        0 <= nanos < 1_000_000_000,
    ensures
        ({
            let late = if nanos > 0 { 1int } else { 0int };
            &&& sod < 14400 ==> asia_open(sod) && secs_until(asia_event(sod), sod, nanos) == 14400 - sod - late
            &&& 14400 <= sod < 82800 ==> !asia_open(sod) && secs_until(asia_event(sod), sod, nanos) == 82800 - sod - late
            &&& 82800 <= sod ==> asia_open(sod) && secs_until(asia_event(sod), sod, nanos) == day_secs() + 14400 - sod - late
            &&& sod < 43200 ==> !ny_open(sod) && secs_until(ny_event(sod), sod, nanos) == 43200 - sod - late
            &&& 43200 <= sod < 72000 ==> ny_open(sod) && secs_until(ny_event(sod), sod, nanos) == 72000 - sod - late
            &&& 72000 <= sod ==> !ny_open(sod) && secs_until(ny_event(sod), sod, nanos) == day_secs() + 43200 - sod - late
        }),
{
}

} // verus!
