//! TShare: temporary text and file sharing, with its rules verified.

pub mod web;
pub mod features;
pub mod text;
pub mod utility;
pub mod cron;
