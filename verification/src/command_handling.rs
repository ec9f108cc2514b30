//! Which command a submitted input names.

use vstd::prelude::*;

use crate::text::{seq_starts_with, str_equal, str_starts_with};

verus! {

/// What a submitted input asks for.
#[derive(Copy, Clone, Debug, PartialEq, Eq, Structural)]
pub enum CommandAction {
    /// Prices of the current pair (exchange command).
    Price,
    /// Balances of the current account (exchange command).
    Balance,
    /// Open a trade (exchange command).
    Order,
    /// Change exchange defaults (exchange command).
    ConfigDefaults,
    /// Search pairs; the input holds the query (exchange command).
    Search,
    /// Change the pair; the input holds the pair (exchange command).
    ChangePair,
    /// List the commands.
    Help,
    /// About the project.
    About,
    /// Clear the output.
    Clear,
    /// Change configuration settings.
    Config,
    /// Trading session times.
    Sessions,
    /// Current date.
    Date,
    /// Current time.
    Time,
    /// Logo and version (`aclear` clears first).
    Afetch,
    /// Answer with a pong.
    Ping,
    /// Count of commands this session.
    Count,
    /// Show stored trades (for developers).
    TradeFetch,
    /// Delete stored trades (for developers).
    TradeWipe,
    /// Not a command.
    Unknown,
}

/// The action an input names. Exact names are tried first, in the order of
/// the command table, then the `search` and `pair` prefixes.
pub open spec fn command_action(c: Seq<char>) -> CommandAction {
    if c == "price"@ || c == "prices"@ || c == "p"@ {
        CommandAction::Price
    } else if c == "balance"@ || c == "balances"@ || c == "bal"@ {
        CommandAction::Balance
    } else if c == "order"@ || c == "o"@ || c == "m"@ || c == "l"@ || c == "ob"@ {
        CommandAction::Order
    } else if c == "defaults"@ || c == "default"@ || c == "def"@ {
        CommandAction::ConfigDefaults
    } else if seq_starts_with(c, "search"@) {
        CommandAction::Search
    } else if seq_starts_with(c, "pair"@) {
        CommandAction::ChangePair
    } else if c == "h"@ || c == "help"@ {
        CommandAction::Help
    } else if c == "about"@ || c == "info"@ {
        CommandAction::About
    } else if c == "clear"@ || c == "clr"@ {
        CommandAction::Clear
    } else if c == "config"@ || c == "conf"@ {
        CommandAction::Config
    } else if c == "sessions"@ || c == "ses"@ {
        CommandAction::Sessions
    } else if c == "date"@ {
        CommandAction::Date
    } else if c == "time"@ {
        CommandAction::Time
    } else if c == "afetch"@ || c == "aclear"@ {
        CommandAction::Afetch
    } else if c == "ping"@ {
        CommandAction::Ping
    } else if c == "count"@ {
        CommandAction::Count
    } else if c == "trade_fetch"@ {
        CommandAction::TradeFetch
    } else if c == "trade_wipe"@ {
        CommandAction::TradeWipe
    } else {
        CommandAction::Unknown
    }
}

/// A submitted input to be run as a command.
pub struct Command {
    pub command: String,
}

impl Command {
    /// Finds the action the input names.
    pub fn find(&self) -> (r: CommandAction)
        ensures
            r == command_action(self.command@),
    {
        let c = self.command.as_str();
        if str_equal(c, "price") || str_equal(c, "prices") || str_equal(c, "p") {
            CommandAction::Price
        } else if str_equal(c, "balance") || str_equal(c, "balances") || str_equal(c, "bal") {
            CommandAction::Balance
        } else if str_equal(c, "order") || str_equal(c, "o") || str_equal(c, "m") || str_equal(c, "l")
            || str_equal(c, "ob") {
            CommandAction::Order
        } else if str_equal(c, "defaults") || str_equal(c, "default") || str_equal(c, "def") {
            CommandAction::ConfigDefaults
        } else if str_starts_with(c, "search") {
            CommandAction::Search
        } else if str_starts_with(c, "pair") {
            CommandAction::ChangePair
        } else if str_equal(c, "h") || str_equal(c, "help") {
            CommandAction::Help
        } else if str_equal(c, "about") || str_equal(c, "info") {
            CommandAction::About
        } else if str_equal(c, "clear") || str_equal(c, "clr") {
            CommandAction::Clear
        } else if str_equal(c, "config") || str_equal(c, "conf") {
            CommandAction::Config
        } else if str_equal(c, "sessions") || str_equal(c, "ses") {
            CommandAction::Sessions
        } else if str_equal(c, "date") {
            CommandAction::Date
        } else if str_equal(c, "time") {
            CommandAction::Time
        } else if str_equal(c, "afetch") || str_equal(c, "aclear") {
            CommandAction::Afetch
        } else if str_equal(c, "ping") {
            CommandAction::Ping
        } else if str_equal(c, "count") {
            CommandAction::Count
        } else if str_equal(c, "trade_fetch") {
            CommandAction::TradeFetch
        } else if str_equal(c, "trade_wipe") {
            CommandAction::TradeWipe
        } else {
            CommandAction::Unknown
        }
    }
}

/// Whether an action is a real command (the input named one).
pub fn is_real_command(a: CommandAction) -> (r: bool)
    ensures
        r == (a != CommandAction::Unknown),
{
    !matches!(a, CommandAction::Unknown)
}

} // verus!
