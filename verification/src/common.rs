//! Shared utilities: error model, configuration, outcome protocol,
//! validation reports, and the store-connection handle.

pub mod api_result;
pub mod config;
pub mod database;
pub mod mm_result;
pub mod validation;
