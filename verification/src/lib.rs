//! A personal-finance bookkeeping core: authenticated users own shared
//! "money maps" (budgets) holding accounts. The crate provides the
//! three-state outcome protocol every controller operation returns, the
//! field-level validation framework, the tolerant document-to-model mapper,
//! and the authorization-scoped data-access layer with soft-delete
//! semantics, all with verified contracts over a modeled document store.
//! Transport, session decoding and the wire connection to a real store are
//! collaborator concerns kept outside this crate.

pub mod common;
pub mod controllers;
pub mod dao;
pub mod models;
pub mod store;
