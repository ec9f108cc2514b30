//! FTX: pair naming helpers and the (empty) FTX command set.

pub mod ftx_commands;
pub mod ftx_utils;
