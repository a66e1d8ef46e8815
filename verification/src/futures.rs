//! Futures trading: the order guard and the plain data it works on.

pub mod account;
pub mod rest_model;
pub mod utils;
pub mod ws_model;
