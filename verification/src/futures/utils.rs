//! Building blocks of the order guard.

pub mod amount;
pub mod expected_order_requests;
pub mod order_tracker;
pub mod order_tracking_item;
pub mod ranking;
pub mod slots;
pub mod text;
pub mod top_n;
