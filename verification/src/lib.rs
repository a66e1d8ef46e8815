//! Order-submission guard: a bounded, time-ordered history of the orders sent
//! for each symbol, and the rules every new order is held to before it may
//! reach the exchange. Around it, the plain data of the exchange's interfaces.

pub mod error_with_send;
pub mod errors;
pub mod futures;
pub mod rest_model;
pub mod savings;
