//! Controller orchestration: each operation sequences session resolution,
//! authorization-scoped lookup, body validation, store mutation and outcome
//! assembly, with early exit on the first failure.

pub mod accounts_controller;
pub mod money_map_users_controller;
pub mod money_maps_controller;
pub mod scope;
