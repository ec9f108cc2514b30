//! Bybit: pair analysis and the decisions of the Bybit commands.

pub mod bybit_commands;
pub mod bybit_utils;
