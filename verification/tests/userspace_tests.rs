use termcrypt::userspace::{AskStep, KeyInput, MainStep, MouseInput};
use termcrypt::{Config, Exchange, UserSpace};

fn config() -> Config {
    Config {
        bybit_default_pair: "BTCUSDT".to_string(),
        bybit_default_sub: "main".to_string(),
        ftx_default_pair: "BTC/PERP".to_string(),
        ftx_default_sub: "trading".to_string(),
    }
}

fn session() -> UserSpace {
    UserSpace {
        db_info: config(),
        active_exchange: Exchange::Bybit,
        pair: String::new(),
        sub_account: "main".to_string(),
        desktop_terminal: true,
        input: String::new(),
        input_old: String::new(),
        input_prefix: String::new(),
        command_history: Vec::new(),
        command_history_scroll_overflow: Vec::new(),
        command_count: 0,
        event_history: Vec::new(),
        stream_differ: 0,
    }
}

fn log_of(us: &UserSpace) -> Vec<String> {
    let mut v: Vec<String> = us.command_history_scroll_overflow.iter().rev().cloned().collect();
    v.extend(us.command_history.iter().cloned());
    v
}

#[test]
fn printing_puts_newest_first() {
    let mut us = session();
    us.prnt("first".to_string());
    us.prnt("second".to_string());
    assert_eq!(us.command_history, vec!["second".to_string(), "first".to_string()]);
    assert_eq!(us.stream_differ, 2);
    us.bl();
    assert_eq!(us.command_history[0], "");
    assert_eq!(us.stream_differ, 3);
}

#[test]
fn many_blank_lines_are_blank_lines() {
    let mut us = session();
    us._mbl(3);
    assert_eq!(us.command_history, vec![String::new(), String::new(), String::new()]);
    assert_eq!(us.stream_differ, 3);
    let mut one_by_one = session();
    for _ in 0..3 {
        one_by_one.bl();
    }
    assert_eq!(one_by_one.command_history, us.command_history);
    assert_eq!(one_by_one.stream_differ, us.stream_differ);
}

#[test]
fn clearing_empties_all_output() {
    let mut us = session();
    for i in 0..12 {
        us.prnt(format!("line {i}"));
    }
    us.scroll_up();
    us.clear_commands();
    assert!(us.command_history.is_empty());
    assert!(us.command_history_scroll_overflow.is_empty());
}

#[test]
fn defaults_follow_active_exchange() {
    let mut us = session();
    assert!(us.use_db_defaults().is_ok());
    assert_eq!(us.pair, "BTCUSDT");
    assert_eq!(us.sub_account, "main");
    let mut other = config();
    other.ftx_default_pair = "ETH/PERP".to_string();
    assert!(us.switch_exchange(other, Exchange::Ftx).is_ok());
    assert_eq!(us.active_exchange, Exchange::Ftx);
    assert_eq!(us.pair, "ETH/PERP");
    assert_eq!(us.sub_account, "trading");
}

#[test]
fn prompt_prefix_shows_sub_and_pair() {
    let mut us = session();
    us.pair = "BTCUSDT".to_string();
    us.refresh_prefix();
    assert_eq!(us.input_prefix, "[main](BTCUSDT)>");
}

#[test]
fn scrolling_up_then_down_restores_output() {
    let mut us = session();
    for i in 0..12 {
        us.prnt(format!("line {i}"));
    }
    let before = us.command_history.clone();
    let log = log_of(&us);
    us.scroll_up();
    assert_eq!(us.command_history.len(), 10);
    assert_eq!(us.command_history_scroll_overflow, vec!["line 10".to_string(), "line 11".to_string()]);
    assert_eq!(log_of(&us), log);
    us.scroll_down();
    assert_eq!(us.command_history, before);
    assert!(us.command_history_scroll_overflow.is_empty());
}

#[test]
fn scrolling_up_needs_ten_lines() {
    let mut us = session();
    for i in 0..9 {
        us.prnt(format!("line {i}"));
    }
    us.handle_mouse(MouseInput::ScrollUp);
    assert_eq!(us.command_history.len(), 9);
    assert!(us.command_history_scroll_overflow.is_empty());
}

#[test]
fn scrolling_down_moves_at_most_two() {
    let mut us = session();
    for i in 0..16 {
        us.prnt(format!("line {i}"));
    }
    us.scroll_up();
    us.scroll_up();
    us.scroll_up();
    assert_eq!(us.command_history_scroll_overflow.len(), 6);
    let log = log_of(&us);
    us.handle_mouse(MouseInput::ScrollDown);
    assert_eq!(us.command_history_scroll_overflow.len(), 4);
    assert_eq!(log_of(&us), log);
    us.scroll_to_bottom();
    assert!(us.command_history_scroll_overflow.is_empty());
    assert_eq!(us.command_history, log);
}

#[test]
fn typing_ignores_leading_space() {
    let mut us = session();
    us.type_char(' ');
    assert_eq!(us.input, "");
    us.type_char('p');
    us.type_char(' ');
    us.type_char('x');
    assert_eq!(us.input, "p x");
    us.backspace();
    assert_eq!(us.input, "p ");
    us.type_char_at_width(' ', 0);
    assert_eq!(us.input, "p ");
    us.clear_input();
    assert_eq!(us.input, "");
    us.backspace();
    assert_eq!(us.input, "");
}

#[test]
fn main_keys_drive_the_prompt() {
    let mut us = session();
    us.input_prefix = "[main](BTCUSDT)>".to_string();
    assert!(matches!(us.handle_main_key(KeyInput::Char('p')), MainStep::Continue));
    assert!(matches!(us.handle_main_key(KeyInput::Other), MainStep::Continue));
    match us.handle_main_key(KeyInput::Enter) {
        MainStep::Submitted(saved) => assert_eq!(saved, "[main](BTCUSDT)>"),
        _ => panic!("expected a submitted command"),
    }
    assert_eq!(us.input_old, "p");
    assert_eq!(us.input, "");
    assert_eq!(us.input_prefix, "...");
    assert_eq!(us.command_count, 1);
    assert_eq!(us.command_history, vec!["[main](BTCUSDT)> p".to_string()]);
    assert!(matches!(us.handle_main_key(KeyInput::CtrlC), MainStep::Quit));
}

#[test]
fn clearing_inputs_are_not_echoed() {
    let mut us = session();
    for i in 0..12 {
        us.prnt(format!("line {i}"));
    }
    us.scroll_up();
    us.input = "clr".to_string();
    us.input_prefix = ">".to_string();
    let saved = us.submit_command();
    assert_eq!(saved, ">");
    assert_eq!(us.command_history.len(), 12);
    assert!(us.command_history_scroll_overflow.is_empty());
    assert_eq!(us.input_old, "clr");
}

#[test]
fn control_h_clears_input() {
    let mut us = session();
    us.input = "abc".to_string();
    assert!(matches!(us.handle_main_key(KeyInput::CtrlH), MainStep::Continue));
    assert_eq!(us.input, "");
    us.input = "abc".to_string();
    assert!(matches!(us.handle_main_key(KeyInput::Backspace), MainStep::Continue));
    assert_eq!(us.input, "ab");
}

#[test]
fn prompts_inside_commands() {
    let mut us = session();
    us.input_prefix = "...".to_string();
    us.input = "leftover".to_string();
    us.stream_differ = 5;
    let old_prefix = us.begin_ask("Risk % of sub");
    assert_eq!(old_prefix, "...");
    assert_eq!(us.input, "");
    assert_eq!(us.input_prefix, " [Risk % of sub]>");
    for c in "2.5".chars() {
        assert!(matches!(us.handle_ask_key(KeyInput::Char(c), old_prefix.clone()), AskStep::Continue));
    }
    match us.handle_ask_key(KeyInput::Enter, old_prefix.clone()) {
        AskStep::Answered(a) => assert_eq!(a, "2.5"),
        _ => panic!("expected an answer"),
    }
    assert_eq!(us.command_history, vec![" [Risk % of sub]> 2.5".to_string()]);
    assert_eq!(us.input_prefix, "...");
    assert_eq!(us.stream_differ, 0);
    assert_eq!(us.command_count, 1);
}

#[test]
fn leaving_a_prompt_is_an_error() {
    let mut us = session();
    let old_prefix = us.begin_ask("x");
    match us.handle_ask_key(KeyInput::CtrlC, old_prefix) {
        AskStep::Quit(e) => assert_eq!(e.message, "User quit input"),
        _ => panic!("expected to quit"),
    }
}

#[test]
fn exchange_names() {
    assert_eq!(Exchange::Bybit.to_string(), "Bybit");
    assert_eq!(Exchange::Ftx.to_string(), "Ftx");
    assert_eq!(Exchange::values(), [Exchange::Bybit, Exchange::Ftx]);
}
