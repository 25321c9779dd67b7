pub mod error;
pub mod extension;
pub mod config;
pub mod backend;
pub mod service;
pub mod ratelimit;
