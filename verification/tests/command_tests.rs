use termcrypt::command_handling::{is_real_command, Command, CommandAction};
use termcrypt::misc_commands::{
    about, afetch, command_count, countdown, cowsay, cowsay_at_width, exchange_choice, help, ping_pong,
    ratio_setting, report_not_an_exchange, session_report, sessions, switch_to_exchange,
};
use termcrypt::utils::termbug::error;
use termcrypt::utils::{boldt, output_ascii, s_or_not, yn, yn_report, YnAnswer, VERSION};
use termcrypt::{Config, Exchange, UserSpace};

fn config() -> Config {
    Config {
        bybit_default_pair: "BTCUSDT".to_string(),
        bybit_default_sub: "main".to_string(),
        ftx_default_pair: "BTC/PERP".to_string(),
        ftx_default_sub: "main".to_string(),
    }
}

fn session() -> UserSpace {
    UserSpace {
        db_info: config(),
        active_exchange: Exchange::Bybit,
        pair: "BTCUSDT".to_string(),
        sub_account: "main".to_string(),
        desktop_terminal: true,
        input: String::new(),
        input_old: String::new(),
        input_prefix: String::new(),
        command_history: Vec::new(),
        command_history_scroll_overflow: Vec::new(),
        command_count: 0,
        event_history: Vec::new(),
        stream_differ: 0,
    }
}

fn find(c: &str) -> CommandAction {
    Command { command: c.to_string() }.find()
}

/// Printed lines in printing order.
fn printed(us: &UserSpace) -> Vec<String> {
    us.command_history.iter().rev().cloned().collect()
}

#[test]
fn commands_are_found_by_name() {
    assert_eq!(find("p"), CommandAction::Price);
    assert_eq!(find("prices"), CommandAction::Price);
    assert_eq!(find("bal"), CommandAction::Balance);
    assert_eq!(find("ob"), CommandAction::Order);
    assert_eq!(find("m"), CommandAction::Order);
    assert_eq!(find("def"), CommandAction::ConfigDefaults);
    assert_eq!(find("search btc"), CommandAction::Search);
    assert_eq!(find("searchx"), CommandAction::Search);
    assert_eq!(find("pair ethusd"), CommandAction::ChangePair);
    assert_eq!(find("h"), CommandAction::Help);
    assert_eq!(find("info"), CommandAction::About);
    assert_eq!(find("clr"), CommandAction::Clear);
    assert_eq!(find("conf"), CommandAction::Config);
    assert_eq!(find("ses"), CommandAction::Sessions);
    assert_eq!(find("date"), CommandAction::Date);
    assert_eq!(find("time"), CommandAction::Time);
    assert_eq!(find("aclear"), CommandAction::Afetch);
    assert_eq!(find("ping"), CommandAction::Ping);
    assert_eq!(find("count"), CommandAction::Count);
    assert_eq!(find("trade_fetch"), CommandAction::TradeFetch);
    assert_eq!(find("trade_wipe"), CommandAction::TradeWipe);
    assert_eq!(find("Price"), CommandAction::Unknown);
    assert_eq!(find(""), CommandAction::Unknown);
    assert!(is_real_command(find("ping")));
    assert!(!is_real_command(find("pong")));
}

#[test]
fn help_lists_all_sections() {
    let mut us = session();
    assert!(help(&mut us).is_ok());
    let lines = printed(&us);
    assert_eq!(lines.len(), 32);
    assert_eq!(lines[0], "UTILITY");
    assert_eq!(lines[9], "MARKETS");
    assert_eq!(lines[31], "More information is available in our documentation.");
    assert_eq!(us.stream_differ, 32);
}

#[test]
fn about_names_the_version() {
    let mut us = session();
    assert!(about(&mut us).is_ok());
    let lines = printed(&us);
    assert_eq!(lines.len(), 7);
    assert_eq!(lines[1], "About termcrypt");
    assert_eq!(lines[6], format!(" You are running termcrypt version: {}", VERSION));
}

#[test]
fn logo_lines() {
    let mut us = session();
    output_ascii(&mut us);
    assert_eq!(
        printed(&us),
        vec![
            String::new(),
            " <termcrypt>".to_string(),
            String::new(),
            format!("  v{} License: 🟢 AGPL3+", VERSION),
            String::new()
        ]
    );
}

#[test]
fn afetch_clears_only_for_aclear() {
    let mut us = session();
    us.prnt("old".to_string());
    assert!(afetch(&mut us, "afetch").is_ok());
    assert_eq!(us.command_history.len(), 6);
    assert!(afetch(&mut us, "aclear").is_ok());
    assert_eq!(us.command_history.len(), 5);
}

#[test]
fn ping_answers_pong() {
    let mut us = session();
    assert!(ping_pong(&mut us).is_ok());
    assert_eq!(printed(&us), vec!["🏓 Pong!".to_string()]);
}

#[test]
fn count_uses_plural() {
    let mut us = session();
    us.command_count = 1;
    assert!(command_count(&mut us).is_ok());
    us.command_count = 2;
    assert!(command_count(&mut us).is_ok());
    us.command_count = 0;
    assert!(command_count(&mut us).is_ok());
    assert_eq!(
        printed(&us),
        vec![
            "1 Command this session".to_string(),
            "2 Commands this session".to_string(),
            "0 Command this session".to_string()
        ]
    );
    assert_eq!(s_or_not(5), "s");
    assert_eq!(s_or_not(1), "");
}

#[test]
fn cow_says_the_message() {
    let mut us = session();
    assert!(cowsay(&mut us, "cowsay moo").is_ok());
    let lines = printed(&us);
    assert_eq!(lines[0], " _____");
    assert_eq!(lines[1], "< moo >");
    assert_eq!(lines[2], " -----");
    assert_eq!(lines[3], r"        \   ^__^");
    assert_eq!(lines[5], r"            (__)\       )\/\");
    assert_eq!(lines.len(), 8);
    let mut wide = session();
    assert!(cowsay(&mut wide, "cowsay 中").is_ok());
    assert_eq!(printed(&wide)[0], " ____");
    let mut given = session();
    assert!(cowsay_at_width(&mut given, "x", 4).is_ok());
    assert_eq!(printed(&given)[0], " ______");
}

#[test]
fn switch_finds_exchanges_by_name() {
    let (e, name) = exchange_choice("switch Bybit");
    assert_eq!(e, Some(Exchange::Bybit));
    assert_eq!(name, "bybit");
    let (e, _) = exchange_choice("SWITCH FTX");
    assert_eq!(e, Some(Exchange::Ftx));
    let (e, name) = exchange_choice("switch kraken");
    assert_eq!(e, None);
    assert_eq!(name, "kraken");
    let mut us = session();
    assert!(report_not_an_exchange(&mut us, "kraken").is_ok());
    assert!(switch_to_exchange(&mut us, config(), Exchange::Ftx).is_ok());
    assert_eq!(printed(&us), vec![" kraken is not an exchange!".to_string(), " Switched to Ftx exchange".to_string()]);
    assert_eq!(us.pair, "BTC/PERP");
}

#[test]
fn yes_and_no_answers() {
    assert_eq!(yn("y".to_string()).ok(), Some(YnAnswer::Confirmed));
    assert_eq!(yn("Yes".to_string()).ok(), Some(YnAnswer::Confirmed));
    assert_eq!(yn("n".to_string()).ok(), Some(YnAnswer::Denied));
    assert_eq!(yn("NO".to_string()).ok(), Some(YnAnswer::Denied));
    assert_eq!(yn("maybe".to_string()).err().unwrap().message, "Did not understand input");
    assert_eq!(yn_report(YnAnswer::Confirmed), "  HIT: Confirmed");
    assert_eq!(yn_report(YnAnswer::Denied), "  HIT: User denied function");
}

#[test]
fn errors_are_shown_with_report_hint() {
    let mut us = session();
    error("\"Function Exited: boom\"", &mut us);
    let lines = printed(&us);
    assert_eq!(lines.len(), 3);
    assert_eq!(lines[0], "");
    assert_eq!(lines[1], "!-- Error: \"Function Exited: boom\" --!");
    assert!(lines[2].starts_with("!-- If needed, report this error to https://github.com/termcrypt/termcrypt."));
    let mut quit = session();
    error("\"Function Exited: User quit input\"", &mut quit);
    assert_eq!(printed(&quit), vec!["-- You quit the current command --".to_string()]);
}

#[test]
fn bold_text_codes() {
    assert_eq!(boldt("hi"), "\u{1b}[1mhi\u{1b}[0m");
}

#[test]
fn countdown_uses_decimal_arithmetic() {
    // 2 / 60 = 0.0333…3 at 28 places, times 60 falls just below 2.
    let (h, m) = countdown(120);
    assert_eq!((h.as_str(), m.as_str()), ("0", "1"));
    let (h, m) = countdown(3600);
    assert_eq!((h.as_str(), m.as_str()), ("1", "0"));
    let (h, m) = countdown(0);
    assert_eq!((h.as_str(), m.as_str()), ("0", "0"));
}

#[test]
fn sessions_at_noon_utc() {
    let mut us = session();
    // 12:00:00 UTC: New York has just opened (closes at 20:00), Asia opens at 23:00.
    assert!(sessions(&mut us, 43200, 0).is_ok());
    let lines = printed(&us);
    assert_eq!(lines.len(), 8);
    assert_eq!(lines[0], "Trading Sessions");
    assert_eq!(lines[1], "  🟢 NY (Optimal)");
    assert_eq!(lines[2], "    Closes in: 8h 0m");
    assert_eq!(lines[3], "    (12AM-8PM UTC)");
    assert_eq!(lines[4], "");
    assert_eq!(lines[5], "  🔴 ASIA (Optimal)");
    assert_eq!(lines[6], "    Opens in: 11h 0m");
    assert_eq!(lines[7], "    (11PM-4AM UTC)");
}

#[test]
fn sessions_late_evening() {
    let mut us = session();
    // 23:30:00.5 UTC: New York opens tomorrow at 12:00, Asia closes tomorrow at 04:00.
    assert!(sessions(&mut us, 84600, 500_000_000).is_ok());
    let lines = printed(&us);
    assert_eq!(lines[1], "  🔴 NY (Optimal)");
    assert!(lines[2].starts_with("    Opens in: 12h "));
    assert_eq!(lines[5], "  🟢 ASIA (Optimal)");
    assert!(lines[6].starts_with("    Closes in: 4h "));
}

#[test]
fn session_report_lines() {
    let mut us = session();
    assert!(session_report(&mut us, true, "1", "2", false, "3", "4").is_ok());
    let lines = printed(&us);
    assert_eq!(lines[2], "    Closes in: 1h 2m");
    assert_eq!(lines[6], "    Opens in: 3h 4m");
}

#[test]
fn ratio_setting_reads_decimals() {
    assert_eq!(ratio_setting("1.50").unwrap(), "1.50".to_string());
    assert_eq!(ratio_setting("2").unwrap(), "2".to_string());
    assert_eq!(ratio_setting("01.5").unwrap(), "1.5".to_string());
    assert_eq!(ratio_setting("0.005").unwrap(), "0.005".to_string());
    assert_eq!(ratio_setting("123.45").unwrap(), "123.45".to_string());
    assert!(ratio_setting("abc").is_err());
    assert!(ratio_setting("").is_err());
}

#[test]
fn switch_command_picks_or_refuses() {
    let mut us = session();
    assert!(termcrypt::misc_commands::switch_exchange(&mut us, "switch FTX", config()).is_ok());
    assert_eq!(us.active_exchange, Exchange::Ftx);
    assert_eq!(us.pair, "BTC/PERP");
    assert_eq!(printed(&us), vec![" Switched to Ftx exchange".to_string()]);
    let mut other = session();
    assert!(termcrypt::misc_commands::switch_exchange(&mut other, "switch kraken", config()).is_ok());
    assert_eq!(other.active_exchange, Exchange::Bybit);
    assert_eq!(printed(&other), vec![" kraken is not an exchange!".to_string()]);
}

#[test]
fn sessions_in_the_last_minute_of_the_day() {
    let mut us = session();
    // 23:59:00 UTC: Asia closes tomorrow at 04:00.
    assert!(sessions(&mut us, 86340, 0).is_ok());
    let lines = printed(&us);
    assert_eq!(lines[5], "  🟢 ASIA (Optimal)");
    assert_eq!(lines[6], "    Closes in: 4h 1m");
    // 23:59:30.5 UTC: still counting to tomorrow's 04:00.
    let mut late = session();
    assert!(sessions(&mut late, 86370, 500_000_000).is_ok());
    assert_eq!(printed(&late)[6], "    Closes in: 4h 0m");
    let (h, m) = countdown(5430);
    assert_eq!((h.as_str(), m.as_str()), ("1", "30"));
}

#[test]
fn new_york_is_open_until_eight_pm() {
    let mut us = session();
    // 19:00:00 UTC: inside the printed window 12AM-8PM, New York closes at 20:00.
    assert!(sessions(&mut us, 68400, 0).is_ok());
    let lines = printed(&us);
    assert_eq!(lines[1], "  🟢 NY (Optimal)");
    assert_eq!(lines[2], "    Closes in: 1h 0m");
    // 20:00:00 UTC: closed, opens tomorrow at 12:00.
    let mut closed = session();
    assert!(sessions(&mut closed, 72000, 0).is_ok());
    assert_eq!(printed(&closed)[1], "  🔴 NY (Optimal)");
    assert_eq!(printed(&closed)[2], "    Opens in: 16h 0m");
}

#[test]
fn whole_hour_countdowns_are_exact() {
    let (h, m) = countdown(7200);
    assert_eq!((h.as_str(), m.as_str()), ("2", "0"));
    let (h, m) = countdown(86400);
    assert_eq!((h.as_str(), m.as_str()), ("24", "0"));
}
