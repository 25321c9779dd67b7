pub mod form;
pub mod retrieve;
pub mod key;
pub mod create;
pub mod create_flow;
pub mod delete;
pub mod update;
pub mod client_ip;
pub mod parse_create_form;
pub mod controller;
pub mod platform_stats;
pub mod share_atomic;
