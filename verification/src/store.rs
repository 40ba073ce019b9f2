//! The modeled document store: identifiers, schemaless documents, filters,
//! and collections with store-generated identifiers.

pub mod collection;
pub mod document;
pub mod filter;
pub mod object_id;
