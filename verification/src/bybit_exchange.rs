//! Bybit helpers kept for the earlier command interface.

pub mod bybit_utils;
