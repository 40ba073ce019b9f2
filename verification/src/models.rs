//! Typed entity models and their field-level validation.

pub mod account_model;
pub mod money_map_model;
pub mod money_map_user_model;
pub mod user_model;
