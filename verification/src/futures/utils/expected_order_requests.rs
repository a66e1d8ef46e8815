//! The rules that orders are held to.

pub mod rule;
pub mod rule_payload;
pub mod rule_period;
pub mod rule_set;
pub mod rule_size_params;
pub mod rule_type;
pub mod rules_map;
