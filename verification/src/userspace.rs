//! Session state transitions: output, scrolling and line editing.

use vstd::prelude::*;
use vstd::string::*;

use crate::text::{display_width, str_equal, str_width, string_pop, string_push};
use crate::{Config, Exchange, TermError, UserSpace};

verus! {

/// Event notification type for the events widget.
#[derive(Copy, Clone, Debug, PartialEq, Eq, Structural)]
pub enum EventLogType {
    /// Entry filled.
    EntryFill,
    /// Take-profit filled.
    TpFill,
    /// Stop-loss filled.
    SlFill,
    /// Significant warning.
    Warning,
    /// Empty message.
    Empty,
}

/// UI display arrangements.
#[derive(Copy, Clone, Debug, PartialEq, Eq, Structural)]
pub enum UIMode {
    /// Events and commands.
    Split,
    /// Order information and commands.
    OrderInfo,
    /// Events section hidden.
    CommandsOnly,
    /// The whole UI shows events.
    EventsOnly,
}

/// The whole output log: lines scrolled out of sight (oldest hidden last)
/// followed by the visible lines, newest visible first.
pub open spec fn output_log(us: UserSpace) -> Seq<String> {
    us.command_history_scroll_overflow@.reverse() + us.command_history@
}

/// Two states agree on everything but the output lines and the count of
/// lines printed since the last prompt.
pub open spec fn same_session(a: UserSpace, b: UserSpace) -> bool {
    &&& a.db_info == b.db_info
    &&& a.active_exchange == b.active_exchange
    &&& a.pair == b.pair
    &&& a.sub_account == b.sub_account
    &&& a.desktop_terminal == b.desktop_terminal
    &&& a.input == b.input
    &&& a.input_old == b.input_old
    &&& a.input_prefix == b.input_prefix
    &&& a.command_count == b.command_count
    &&& a.event_history == b.event_history
}

impl UserSpace {
    /// Prints a line: it becomes the newest output line.
    pub fn prnt(&mut self, text: String)
        requires
            old(self).stream_differ < u16::MAX,
        ensures
            final(self).command_history@ == seq![text] + old(self).command_history@,
            final(self).stream_differ == old(self).stream_differ + 1,
            final(self).command_history_scroll_overflow == old(self).command_history_scroll_overflow,
            same_session(*final(self), *old(self)),
    {
        self.command_history.insert(0, text);
        self.stream_differ = self.stream_differ + 1;
    }
}


/// A key press, as the line editor sees it.
#[derive(Copy, Clone, Debug, PartialEq, Eq, Structural)]
pub enum KeyInput {
    /// A printable character typed without CONTROL.
    Char(char),
    /// The Enter key.
    Enter,
    /// The Backspace key.
    Backspace,
    /// CONTROL+C.
    CtrlC,
    /// CONTROL+H (CONTROL+Backspace).
    CtrlH,
    /// Any other key.
    Other,
}

/// A mouse event, as the output view sees it.
#[derive(Copy, Clone, Debug, PartialEq, Eq, Structural)]
pub enum MouseInput {
    ScrollUp,
    ScrollDown,
    Other,
}

/// What the main loop does after a key press.
pub enum MainStep {
    /// Leave the application.
    Quit,
    /// Keep reading keys.
    Continue,
    /// Run the submitted command (in `input_old`), then restore this prompt prefix.
    Submitted(String),
}

/// What a prompt inside a command does after a key press.
pub enum AskStep {
    /// Keep reading keys.
    Continue,
    /// The user answered.
    Answered(String),
    /// The user left the prompt.
    Quit(TermError),
}

/// The visible and hidden output after scrolling up: two lines move out of
/// sight when at least ten are visible.
pub open spec fn scroll_up_result(h: Seq<String>, o: Seq<String>) -> (Seq<String>, Seq<String>) {
    if h.len() >= 10 {
        (h.skip(2), h.take(2).reverse() + o)
    } else {
        (h, o)
    }
}

/// The visible and hidden output after scrolling down: up to two hidden lines
/// come back into sight.
pub open spec fn scroll_down_result(h: Seq<String>, o: Seq<String>) -> (Seq<String>, Seq<String>) {
    let k = if o.len() < 2 { o.len() as int } else { 2 };
    (o.take(k).reverse() + h, o.skip(k))
}

/// `new` is `old` with one more line in front whose text is `line`.
pub open spec fn prepended(new: Seq<String>, old: Seq<String>, line: Seq<char>) -> bool {
    &&& new.len() == old.len() + 1
    &&& new[0]@ == line
    &&& new.subrange(1, new.len() as int) == old
}

/// Inputs that clear the output and so are not echoed.
pub open spec fn is_clear_input(s: Seq<char>) -> bool {
    s == "clr"@ || s == "clear"@ || s == "aclear"@
}

/// The main prompt prefix: `[sub](pair)>`.
pub open spec fn main_prefix(sub: Seq<char>, pair: Seq<char>) -> Seq<char> {
    "["@ + sub + "]("@ + pair + ")>"@
}

/// The prompt prefix inside a command: ` [prefix]>`.
pub open spec fn ask_prefix(prefix: Seq<char>) -> Seq<char> {
    " ["@ + prefix + "]>"@
}

/// The echoed line of a submitted input.
pub open spec fn echo_line(prefix: Seq<char>, input: Seq<char>) -> Seq<char> {
    prefix + " "@ + input
}

/// The state after typing `c` into an input of display width `width`: a
/// leading space is ignored.
pub open spec fn typed(n: UserSpace, o: UserSpace, c: char, width: usize) -> bool {
    &&& n.input@ == (if width == 0 && c == ' ' { o.input@ } else { o.input@.push(c) })
    &&& same_except_input(n, o)
}

/// Two states agree on everything but the current input.
pub open spec fn same_except_input(a: UserSpace, b: UserSpace) -> bool {
    &&& a.db_info == b.db_info
    &&& a.active_exchange == b.active_exchange
    &&& a.pair == b.pair
    &&& a.sub_account == b.sub_account
    &&& a.desktop_terminal == b.desktop_terminal
    &&& a.input_old == b.input_old
    &&& a.input_prefix == b.input_prefix
    &&& a.command_count == b.command_count
    &&& a.event_history == b.event_history
    &&& a.command_history == b.command_history
    &&& a.command_history_scroll_overflow == b.command_history_scroll_overflow
    &&& a.stream_differ == b.stream_differ
}

/// The state after submitting the input at the main prompt: the output is
/// scrolled back to the bottom, the input is echoed (unless it clears the
/// output), counted, kept in `input_old`, and the prompt shows `...`.
pub open spec fn submitted(n: UserSpace, o: UserSpace) -> bool {
    &&& n.command_history_scroll_overflow@ == Seq::<String>::empty()
    &&& (if is_clear_input(o.input@) {
        n.command_history@ == output_log(o)
    } else {
        prepended(n.command_history@, output_log(o), echo_line(o.input_prefix@, o.input@))
    })
    &&& n.command_count == o.command_count + 1
    &&& n.input_old == o.input
    &&& n.input@ == Seq::<char>::empty()
    &&& n.input_prefix@ == "..."@
    &&& n.db_info == o.db_info
    &&& n.active_exchange == o.active_exchange
    &&& n.pair == o.pair
    &&& n.sub_account == o.sub_account
    &&& n.desktop_terminal == o.desktop_terminal
    &&& n.event_history == o.event_history
    &&& n.stream_differ == o.stream_differ
}

/// The state after answering a prompt inside a command with Enter: the answer
/// is echoed as the newest line, counted, kept in `input_old`, the input is
/// emptied and the earlier prompt prefix comes back.
pub open spec fn answered(n: UserSpace, o: UserSpace, old_prefix: String) -> bool {
    &&& prepended(n.command_history@, o.command_history@, echo_line(o.input_prefix@, o.input@))
    &&& n.command_history_scroll_overflow == o.command_history_scroll_overflow
    &&& n.stream_differ == 0
    &&& n.command_count == o.command_count + 1
    &&& n.input_old == o.input
    &&& n.input@ == Seq::<char>::empty()
    &&& n.input_prefix == old_prefix
    &&& n.db_info == o.db_info
    &&& n.active_exchange == o.active_exchange
    &&& n.pair == o.pair
    &&& n.sub_account == o.sub_account
    &&& n.desktop_terminal == o.desktop_terminal
    &&& n.event_history == o.event_history
}

impl UserSpace {
    /// Prints a blank line.
    pub fn bl(&mut self)
        requires
            old(self).stream_differ < u16::MAX,
        ensures
            prepended(final(self).command_history@, old(self).command_history@, Seq::empty()),
            final(self).stream_differ == old(self).stream_differ + 1,
            final(self).command_history_scroll_overflow == old(self).command_history_scroll_overflow,
            same_session(*final(self), *old(self)),
    {
        let ghost before = self.command_history@;
        self.prnt(String::new());
        assert(self.command_history@.subrange(1, self.command_history@.len() as int) =~= before);
    }

    /// Prints `count` blank lines, as `count` calls of `bl` would.
    pub fn _mbl(&mut self, count: u16)
        requires
            old(self).stream_differ + count <= u16::MAX,
        ensures
            final(self).command_history@.len() == old(self).command_history@.len() + count,
            forall|i: int| 0 <= i < count ==> (#[trigger] final(self).command_history@[i])@ == Seq::<char>::empty(),
            final(self).command_history@.skip(count as int) == old(self).command_history@,
            final(self).stream_differ == old(self).stream_differ + count,
            final(self).command_history_scroll_overflow == old(self).command_history_scroll_overflow,
            same_session(*final(self), *old(self)),
    {
        let mut i: u16 = 0;
        while i < count
            invariant
                i <= count,
                self.stream_differ == old(self).stream_differ + i,
                old(self).stream_differ + count <= u16::MAX,
                self.command_history@.len() == old(self).command_history@.len() + i,
                forall|j: int| 0 <= j < i ==> (#[trigger] self.command_history@[j])@ == Seq::<char>::empty(),
                self.command_history@.skip(i as int) == old(self).command_history@,
                self.command_history_scroll_overflow == old(self).command_history_scroll_overflow,
                same_session(*self, *old(self)),
            decreases count - i,
        {
            let ghost before = self.command_history@;
            self.bl();
            assert forall|j: int| 0 <= j < i + 1 implies (#[trigger] self.command_history@[j])@ == Seq::<char>::empty() by {
                if j > 0 {
                    assert(self.command_history@[j] == self.command_history@.subrange(1, self.command_history@.len() as int)[j - 1]);
                }
            }
            assert(self.command_history@.skip(i + 1) =~= before.skip(i as int));
            i = i + 1;
        }
    }

    /// Clears the output, visible and scrolled out of sight.
    pub fn clear_commands(&mut self)
        ensures
            final(self).command_history@ == Seq::<String>::empty(),
            final(self).command_history_scroll_overflow@ == Seq::<String>::empty(),
            final(self).stream_differ == old(self).stream_differ,
            same_session(*final(self), *old(self)),
    {
        self.command_history.clear();
        self.command_history_scroll_overflow.clear();
    }

    /// Takes the active exchange's default pair and sub-account.
    pub fn use_db_defaults(&mut self) -> (r: Result<(), TermError>)
        ensures
            r is Ok,
            final(self).sub_account == (match old(self).active_exchange {
                Exchange::Bybit => old(self).db_info.bybit_default_sub,
                Exchange::Ftx => old(self).db_info.ftx_default_sub,
            }),
            final(self).pair == (match old(self).active_exchange {
                Exchange::Bybit => old(self).db_info.bybit_default_pair,
                Exchange::Ftx => old(self).db_info.ftx_default_pair,
            }),
            final(self).db_info == old(self).db_info,
            final(self).active_exchange == old(self).active_exchange,
            final(self).input == old(self).input,
            final(self).input_old == old(self).input_old,
            final(self).input_prefix == old(self).input_prefix,
            final(self).command_count == old(self).command_count,
            final(self).command_history == old(self).command_history,
            final(self).command_history_scroll_overflow == old(self).command_history_scroll_overflow,
            final(self).stream_differ == old(self).stream_differ,
            final(self).desktop_terminal == old(self).desktop_terminal,
            final(self).event_history == old(self).event_history,
    {
        let sub_account: String;
        let pair: String;
        match self.active_exchange {
            Exchange::Bybit => {
                sub_account = self.db_info.bybit_default_sub.clone();
                pair = self.db_info.bybit_default_pair.clone();
            },
            Exchange::Ftx => {
                sub_account = self.db_info.ftx_default_sub.clone();
                pair = self.db_info.ftx_default_pair.clone();
            },
        }
        self.sub_account = sub_account;
        self.pair = pair;
        Ok(())
    }

    /// Switches to `new_exchange` with the configuration `db_info` just read
    /// from the store, and takes that exchange's defaults.
    pub fn switch_exchange(&mut self, db_info: Config, new_exchange: Exchange) -> (r: Result<(), TermError>)
        ensures
            r is Ok,
            final(self).db_info == db_info,
            final(self).active_exchange == new_exchange,
            final(self).sub_account == (match new_exchange {
                Exchange::Bybit => db_info.bybit_default_sub,
                Exchange::Ftx => db_info.ftx_default_sub,
            }),
            final(self).pair == (match new_exchange {
                Exchange::Bybit => db_info.bybit_default_pair,
                Exchange::Ftx => db_info.ftx_default_pair,
            }),
            final(self).input == old(self).input,
            final(self).input_old == old(self).input_old,
            final(self).input_prefix == old(self).input_prefix,
            final(self).command_count == old(self).command_count,
            final(self).command_history == old(self).command_history,
            final(self).command_history_scroll_overflow == old(self).command_history_scroll_overflow,
            final(self).stream_differ == old(self).stream_differ,
            final(self).desktop_terminal == old(self).desktop_terminal,
            final(self).event_history == old(self).event_history,
    {
        self.db_info = db_info;
        self.active_exchange = new_exchange;
        self.use_db_defaults()
    }

    /// Sets the main prompt prefix `[sub](pair)>`.
    pub fn refresh_prefix(&mut self)
        ensures
            final(self).input_prefix@ == main_prefix(old(self).sub_account@, old(self).pair@),
            final(self).input == old(self).input,
            final(self).pair == old(self).pair,
            final(self).sub_account == old(self).sub_account,
            final(self).command_history == old(self).command_history,
            final(self).command_history_scroll_overflow == old(self).command_history_scroll_overflow,
            final(self).command_count == old(self).command_count,
            final(self).stream_differ == old(self).stream_differ,
            final(self).input_old == old(self).input_old,
            final(self).db_info == old(self).db_info,
            final(self).active_exchange == old(self).active_exchange,
            final(self).desktop_terminal == old(self).desktop_terminal,
            final(self).event_history == old(self).event_history,
    {
        let mut p = String::from_str("[");
        p.append(self.sub_account.as_str());
        p.append("](");
        p.append(self.pair.as_str());
        p.append(")>");
        self.input_prefix = p;
    }

    /// Scrolls the output up: with at least ten visible lines, the two newest
    /// visible lines move out of sight.
    pub fn scroll_up(&mut self)
        ensures
            (final(self).command_history@, final(self).command_history_scroll_overflow@)
                == scroll_up_result(old(self).command_history@, old(self).command_history_scroll_overflow@),
            output_log(*final(self)) == output_log(*old(self)),
            final(self).stream_differ == old(self).stream_differ,
            same_session(*final(self), *old(self)),
    {
        let ghost h = self.command_history@;
        let ghost o = self.command_history_scroll_overflow@;
        if self.command_history.len() >= 10 {
            let e = self.command_history.remove(0);
            self.command_history_scroll_overflow.insert(0, e);
            let e2 = self.command_history.remove(0);
            self.command_history_scroll_overflow.insert(0, e2);
            assert(self.command_history@ =~= h.skip(2));
            assert(self.command_history_scroll_overflow@ =~= h.take(2).reverse() + o);
        }
        assert(output_log(*self) =~= output_log(*old(self)));
    }

    /// Moves the newest hidden line back into sight, if there is one.
    fn scroll_down_one(&mut self)
        ensures
            old(self).command_history_scroll_overflow@.len() == 0 ==> *final(self) == *old(self),
            old(self).command_history_scroll_overflow@.len() > 0 ==> {
                &&& final(self).command_history@ == seq![old(self).command_history_scroll_overflow@[0]]
                    + old(self).command_history@
                &&& final(self).command_history_scroll_overflow@ == old(self).command_history_scroll_overflow@.skip(1)
            },
            final(self).stream_differ == old(self).stream_differ,
            same_session(*final(self), *old(self)),
    {
        if self.command_history_scroll_overflow.len() > 0 {
            let e = self.command_history_scroll_overflow.remove(0);
            self.command_history.insert(0, e);
            assert(self.command_history_scroll_overflow@ =~= old(self).command_history_scroll_overflow@.skip(1));
        }
    }

    /// Scrolls the output down: up to two hidden lines come back into sight.
    pub fn scroll_down(&mut self)
        ensures
            (final(self).command_history@, final(self).command_history_scroll_overflow@)
                == scroll_down_result(old(self).command_history@, old(self).command_history_scroll_overflow@),
            output_log(*final(self)) == output_log(*old(self)),
            final(self).stream_differ == old(self).stream_differ,
            same_session(*final(self), *old(self)),
    {
        let ghost h = self.command_history@;
        let ghost o = self.command_history_scroll_overflow@;
        self.scroll_down_one();
        self.scroll_down_one();
        let ghost k: int = if o.len() < 2 { o.len() as int } else { 2 };
        assert(self.command_history@ =~= o.take(k).reverse() + h);
        assert(self.command_history_scroll_overflow@ =~= o.skip(k));
        assert(output_log(*self) =~= output_log(*old(self)));
    }

    /// Scrolls back to the bottom: every hidden line comes back into sight.
    pub fn scroll_to_bottom(&mut self)
        ensures
            final(self).command_history@ == output_log(*old(self)),
            final(self).command_history_scroll_overflow@ == Seq::<String>::empty(),
            final(self).stream_differ == old(self).stream_differ,
            same_session(*final(self), *old(self)),
    {
        while self.command_history_scroll_overflow.len() > 0
            invariant
                output_log(*self) == output_log(*old(self)),
                self.stream_differ == old(self).stream_differ,
                same_session(*self, *old(self)),
            decreases self.command_history_scroll_overflow@.len(),
        {
            let ghost before = *self;
            self.scroll_down_one();
            assert(output_log(*self) =~= output_log(before));
        }
        assert(self.command_history_scroll_overflow@.reverse() =~= Seq::<String>::empty());
        assert(output_log(*self) =~= self.command_history@);
    }

    /// Types `c` into an input whose display width is `width`: a space typed
    /// into an input that shows nothing is ignored.
    pub fn type_char_at_width(&mut self, c: char, width: usize)
        ensures
            typed(*final(self), *old(self), c, width),
    {
        if width == 0 && c == ' ' {
            return;
        }
        string_push(&mut self.input, c);
    }

    /// Types `c` into the input: a space typed into an input that shows
    /// nothing is ignored.
    pub fn type_char(&mut self, c: char)
        ensures
            typed(*final(self), *old(self), c, display_width(old(self).input@)),
    {
        let w = str_width(self.input.as_str());
        self.type_char_at_width(c, w);
    }

    /// Deletes the last character of the input, if any.
    pub fn backspace(&mut self)
        ensures
            final(self).input@ == (if old(self).input@.len() == 0 {
                old(self).input@
            } else {
                old(self).input@.drop_last()
            }),
            same_except_input(*final(self), *old(self)),
    {
        let _ = string_pop(&mut self.input);
    }

    /// Empties the input.
    pub fn clear_input(&mut self)
        ensures
            final(self).input@ == Seq::<char>::empty(),
            same_except_input(*final(self), *old(self)),
    {
        self.input = String::new();
    }

    /// Submits the input at the main prompt and returns the prompt prefix to
    /// restore once the command has run.
    pub fn submit_command(&mut self) -> (saved_prefix: String)
        requires
            old(self).command_count < u32::MAX,
        ensures
            submitted(*final(self), *old(self)),
            saved_prefix == old(self).input_prefix,
    {
        self.scroll_to_bottom();
        self.command_count = self.command_count + 1;
        let sustained_input = self.input.clone();
        self.input_old = self.input.clone();
        let mut formatted_input = self.input_prefix.clone();
        formatted_input.append(" ");
        formatted_input.append(sustained_input.as_str());
        if !str_equal(sustained_input.as_str(), "clr") && !str_equal(sustained_input.as_str(), "clear")
            && !str_equal(sustained_input.as_str(), "aclear") {
            let ghost before = self.command_history@;
            self.command_history.insert(0, formatted_input);
            assert(self.command_history@.subrange(1, self.command_history@.len() as int) =~= before);
        }
        let unwiped_prefix = self.input_prefix.clone();
        self.input_prefix = String::from_str("...");
        self.input = String::new();
        unwiped_prefix
    }

    /// Opens a prompt inside a command: empties the input, shows ` [prefix]>`
    /// and returns the prompt prefix to restore once answered.
    pub fn begin_ask(&mut self, prefix: &str) -> (old_prefix: String)
        ensures
            old_prefix == old(self).input_prefix,
            final(self).input@ == Seq::<char>::empty(),
            final(self).input_prefix@ == ask_prefix(prefix@),
            final(self).command_history == old(self).command_history,
            final(self).command_history_scroll_overflow == old(self).command_history_scroll_overflow,
            final(self).command_count == old(self).command_count,
            final(self).stream_differ == old(self).stream_differ,
            final(self).input_old == old(self).input_old,
            final(self).pair == old(self).pair,
            final(self).sub_account == old(self).sub_account,
            final(self).db_info == old(self).db_info,
            final(self).active_exchange == old(self).active_exchange,
            final(self).desktop_terminal == old(self).desktop_terminal,
            final(self).event_history == old(self).event_history,
    {
        self.input = String::new();
        let old_prefix = self.input_prefix.clone();
        let mut p = String::from_str(" [");
        p.append(prefix);
        p.append("]>");
        self.input_prefix = p;
        old_prefix
    }

    /// Answers the open prompt with the current input (the Enter key inside a
    /// command) and returns the answer.
    pub fn answer_ask(&mut self, old_prefix: String) -> (answer: String)
        requires
            old(self).command_count < u32::MAX,
        ensures
            answered(*final(self), *old(self), old_prefix),
            answer == old(self).input,
    {
        self.stream_differ = 0;
        self.command_count = self.command_count + 1;
        let sustained_input = self.input.clone();
        self.input_old = self.input.clone();
        self.input = String::new();
        let mut formatted_input = self.input_prefix.clone();
        formatted_input.append(" ");
        formatted_input.append(sustained_input.as_str());
        let ghost before = self.command_history@;
        self.command_history.insert(0, formatted_input);
        assert(self.command_history@.subrange(1, self.command_history@.len() as int) =~= before);
        self.input_prefix = old_prefix;
        self.input_old.clone()
    }

    /// One key press at the main prompt.
    pub fn handle_main_key(&mut self, key: KeyInput) -> (step: MainStep)
        requires
            key == KeyInput::Enter ==> old(self).command_count < u32::MAX,
        ensures
            key == KeyInput::CtrlC ==> step is Quit && *final(self) == *old(self),
            key == KeyInput::CtrlH ==> step is Continue && final(self).input@ == Seq::<char>::empty()
                && same_except_input(*final(self), *old(self)),
            key == KeyInput::Enter ==> step == MainStep::Submitted(old(self).input_prefix)
                && submitted(*final(self), *old(self)),
            (forall|c: char| key == KeyInput::Char(c) ==> step is Continue
                && typed(*final(self), *old(self), c, display_width(old(self).input@))),
            key == KeyInput::Backspace ==> step is Continue && same_except_input(*final(self), *old(self))
                && final(self).input@ == (if old(self).input@.len() == 0 {
                    old(self).input@
                } else {
                    old(self).input@.drop_last()
                }),
            key == KeyInput::Other ==> step is Continue && *final(self) == *old(self),
    {
        match key {
            KeyInput::CtrlC => MainStep::Quit,
            KeyInput::CtrlH => {
                self.clear_input();
                MainStep::Continue
            },
            KeyInput::Enter => {
                let saved = self.submit_command();
                MainStep::Submitted(saved)
            },
            KeyInput::Char(c) => {
                self.type_char(c);
                MainStep::Continue
            },
            KeyInput::Backspace => {
                self.backspace();
                MainStep::Continue
            },
            KeyInput::Other => MainStep::Continue,
        }
    }

    /// One key press at a prompt inside a command.
    pub fn handle_ask_key(&mut self, key: KeyInput, old_prefix: String) -> (step: AskStep)
        requires
            key == KeyInput::Enter ==> old(self).command_count < u32::MAX,
        ensures
            key == KeyInput::CtrlC ==> (step matches AskStep::Quit(e) && e.message@ == "User quit input"@)
                && *final(self) == *old(self),
            key == KeyInput::CtrlH ==> step is Continue && final(self).input@ == Seq::<char>::empty()
                && same_except_input(*final(self), *old(self)),
            key == KeyInput::Enter ==> step == AskStep::Answered(old(self).input)
                && answered(*final(self), *old(self), old_prefix),
            (forall|c: char| key == KeyInput::Char(c) ==> step is Continue
                && typed(*final(self), *old(self), c, display_width(old(self).input@))),
            key == KeyInput::Backspace ==> step is Continue && same_except_input(*final(self), *old(self))
                && final(self).input@ == (if old(self).input@.len() == 0 {
                    old(self).input@
                } else {
                    old(self).input@.drop_last()
                }),
            key == KeyInput::Other ==> step is Continue && *final(self) == *old(self),
    {
        match key {
            KeyInput::CtrlC => AskStep::Quit(TermError { message: String::from_str("User quit input") }),
            KeyInput::CtrlH => {
                self.clear_input();
                AskStep::Continue
            },
            KeyInput::Enter => {
                let answer = self.answer_ask(old_prefix);
                AskStep::Answered(answer)
            },
            KeyInput::Char(c) => {
                self.type_char(c);
                AskStep::Continue
            },
            KeyInput::Backspace => {
                self.backspace();
                AskStep::Continue
            },
            KeyInput::Other => AskStep::Continue,
        }
    }

    /// One mouse event over the output.
    pub fn handle_mouse(&mut self, event: MouseInput)
        ensures
            event == MouseInput::ScrollUp ==> (final(self).command_history@,
                final(self).command_history_scroll_overflow@) == scroll_up_result(
                old(self).command_history@,
                old(self).command_history_scroll_overflow@,
            ),
            event == MouseInput::ScrollDown ==> (final(self).command_history@,
                final(self).command_history_scroll_overflow@) == scroll_down_result(
                old(self).command_history@,
                old(self).command_history_scroll_overflow@,
            ),
            event == MouseInput::Other ==> *final(self) == *old(self),
            output_log(*final(self)) == output_log(*old(self)),
            same_session(*final(self), *old(self)),
            final(self).stream_differ == old(self).stream_differ,
    {
        match event {
            MouseInput::ScrollUp => self.scroll_up(),
            MouseInput::ScrollDown => self.scroll_down(),
            MouseInput::Other => {},
        }
    }
}

/// `new` is `old` after printing `lines` in order: the last printed line is
/// the newest.
pub open spec fn printed(new: Seq<String>, old: Seq<String>, lines: Seq<Seq<char>>) -> bool {
    &&& new.len() == old.len() + lines.len()
    &&& forall|i: int| 0 <= i < lines.len() ==> (#[trigger] new[i])@ == lines[lines.len() - 1 - i]
    &&& new.skip(lines.len() as int) == old
}

/// The texts of a list of lines.
pub open spec fn texts(lines: Seq<String>) -> Seq<Seq<char>> {
    lines.map_values(|s: String| s@)
}

impl UserSpace {
    /// Prints each of `lines` in order.
    pub fn print_lines(&mut self, lines: Vec<String>)
        requires
            old(self).stream_differ + lines@.len() <= u16::MAX,
        ensures
            printed(final(self).command_history@, old(self).command_history@, texts(lines@)),
            final(self).stream_differ == old(self).stream_differ + lines@.len(),
            final(self).command_history_scroll_overflow == old(self).command_history_scroll_overflow,
            same_session(*final(self), *old(self)),
    {
        let n = lines.len();
        let ghost all = lines@;
        let mut rest = lines;
        let mut i: usize = 0;
        while i < n
            invariant
                n == all.len(),
                i <= n,
                rest@ == all.skip(i as int),
                old(self).stream_differ + n <= u16::MAX,
                self.stream_differ == old(self).stream_differ + i,
                self.command_history@.len() == old(self).command_history@.len() + i,
                forall|j: int| 0 <= j < i ==> (#[trigger] self.command_history@[j])@ == all[i - 1 - j]@,
                self.command_history@.skip(i as int) == old(self).command_history@,
                self.command_history_scroll_overflow == old(self).command_history_scroll_overflow,
                same_session(*self, *old(self)),
            decreases n - i,
        {
            let line = rest.remove(0);
            assert(line == all[i as int]);
            let ghost before = self.command_history@;
            self.prnt(line);
            assert(self.command_history@.skip(i + 1) =~= before.skip(i as int));
            assert(rest@ =~= all.skip(i + 1));
            i = i + 1;
        }
        assert forall|j: int| 0 <= j < n implies (#[trigger] self.command_history@[j])@ == texts(all)[n - 1 - j] by {
        }
    }
}

/// Scrolling up and then down brings back exactly the output one saw, whenever
/// scrolling up moved anything (at least ten visible lines).
pub proof fn law_scroll_up_then_down(h: Seq<String>, o: Seq<String>)
    requires
        h.len() >= 10,
    ensures
        ({
            let up = scroll_up_result(h, o);
            scroll_down_result(up.0, up.1) == (h, o)
        }),
{
    let up = scroll_up_result(h, o);
    assert(up.1.take(2) =~= h.take(2).reverse());
    assert(up.1.take(2).reverse() + up.0 =~= h);
    assert(up.1.skip(2) =~= o);
}

/// Scrolling never changes the output log, whichever way and however often.
pub proof fn law_scroll_keeps_log(h: Seq<String>, o: Seq<String>)
    ensures
        ({
            let up = scroll_up_result(h, o);
            up.1.reverse() + up.0 == o.reverse() + h
        }),
        ({
            let down = scroll_down_result(h, o);
            down.1.reverse() + down.0 == o.reverse() + h
        }),
{
    let up = scroll_up_result(h, o);
    if h.len() >= 10 {
        assert(up.1.reverse() + up.0 =~= o.reverse() + h);
    }
    let down = scroll_down_result(h, o);
    assert(down.1.reverse() + down.0 =~= o.reverse() + h);
}

/// Typing a character that is not ignored and then deleting one character
/// gives back the input one had.
pub proof fn law_type_then_backspace(input: Seq<char>, c: char, width: usize)
    requires
        !(width == 0 && c == ' '),
    ensures
        ({
            let after = if width == 0 && c == ' ' { input } else { input.push(c) };
            after.len() > 0 && after.drop_last() == input
        }),
{
    assert(input.push(c).drop_last() =~= input);
}

} // verus!
