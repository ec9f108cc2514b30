//! FTX helpers kept for the earlier command interface.

pub mod ftx_utils;
pub mod ftx_ws;
