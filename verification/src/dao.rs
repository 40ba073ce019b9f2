//! Authorization-scoped data accessors, one per entity collection, all
//! sharing the soft-delete convention, handed out by the manager.

pub mod account_dao;
pub mod account_statement_dao;
pub mod dao_manager;
pub mod money_map_dao;
pub mod money_map_user_dao;
pub mod transaction_dao;
pub mod user_dao;
