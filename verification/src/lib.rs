//! termcrypt: the command logic of a terminal trading client, with the
//! behaviour of each operation stated as a contract.
//!
//! The terminal, the exchange APIs and the database are driven by the
//! application; this library holds the session state, the command decisions
//! and the text it produces.

pub mod advanced_orders;
pub mod bybit_core;
pub mod bybit_exchange;
pub mod command_handling;
pub mod db;
pub mod decimal;
pub mod ftx_core;
pub mod ftx_advanced_orders;
pub mod ftx_exchange;
pub mod ftx_inter;
pub mod ftx_order_run;
pub mod ftx_session;
pub mod misc_commands;
pub mod orders;
pub mod text;
pub mod userspace;
pub mod utils;

use vstd::prelude::*;

pub use userspace::{EventLogType, UIMode};

verus! {

/// An error with a message, as the application reports it to the user.
#[derive(Debug)]
pub struct TermError {
    pub message: String,
}

/// Exchanges the client can talk to.
#[derive(Copy, Clone, Debug, PartialEq, Eq, Structural)]
pub enum Exchange {
    Bybit,
    Ftx,
}

/// The display name of an exchange.
pub open spec fn exchange_name(e: Exchange) -> Seq<char> {
    match e {
        Exchange::Bybit => "Bybit"@,
        Exchange::Ftx => "Ftx"@,
    }
}

impl Exchange {
    /// All exchanges, in the order they are searched.
    pub fn values() -> (r: [Exchange; 2])
        ensures
            r@ == seq![Exchange::Bybit, Exchange::Ftx],
    {
        let r = [Exchange::Bybit, Exchange::Ftx];
        assert(r@ =~= seq![Exchange::Bybit, Exchange::Ftx]);
        r
    }

    /// The exchange's display name.
    pub fn to_string(&self) -> (r: String)
        ensures
            r@ == exchange_name(*self),
    {
        match self {
            Exchange::Bybit => String::from_str("Bybit"),
            Exchange::Ftx => String::from_str("Ftx"),
        }
    }
}

/// Defaults read from the configuration store.
pub struct Config {
    pub bybit_default_pair: String,
    pub bybit_default_sub: String,
    pub ftx_default_pair: String,
    pub ftx_default_sub: String,
}

/// The session state of the terminal user interface.
pub struct UserSpace {
    /// Defaults read from the configuration store.
    pub db_info: Config,
    /// Currently active exchange.
    pub active_exchange: Exchange,
    /// Current pair name.
    pub pair: String,
    /// Current sub-account name.
    pub sub_account: String,
    /// Whether the terminal is wide enough for the wide layout.
    pub desktop_terminal: bool,
    /// Current user input before submission.
    pub input: String,
    /// The last submitted input.
    pub input_old: String,
    /// Prefix shown before the user input.
    pub input_prefix: String,
    /// Output lines, newest first.
    pub command_history: Vec<String>,
    /// Lines scrolled out of sight, the most recently hidden first.
    pub command_history_scroll_overflow: Vec<String>,
    /// Number of submitted inputs.
    pub command_count: u32,
    /// Event notifications.
    pub event_history: Vec<(String, EventLogType)>,
    /// Lines printed since the last answered prompt.
    pub stream_differ: u16,
}

} // verus!
