//! The store-connection handle.
//!
//! Establishing a real connection is a collaborator concern; the core only
//! distinguishes a handle with an established connection from one without,
//! and every data accessor fails with a `Database`-kind error when no
//! connection is present.

use vstd::prelude::*;
use crate::store::collection::{store_wf, Store};

verus! {

/// A handle that either carries an established store connection or nothing.
pub struct DB {
    pub database: Option<Store>,
}

impl DB {
    /// A handle over an established connection.
    pub fn with_database(store: Store) -> (db: DB)
        ensures
            db.database matches Some(s) && s == store,
    {
        DB { database: Some(store) }
    }

    /// A handle with no connection established.
    pub fn disconnected() -> (db: DB)
        ensures
            db.database is None,
    {
        DB { database: None }
    }

    /// Whether a connection is established.
    pub fn is_connected(&self) -> (r: bool)
        ensures
            r == self.database is Some,
    {
        self.database.is_some()
    }

    /// Borrow the connected store, if any.
    pub fn get_database(&self) -> (r: Option<&Store>)
        ensures
            r is Some <==> self.database is Some,
            r matches Some(s) ==> self.database matches Some(t) && *s == t,
    {
        self.database.as_ref()
    }
}

/// The mathematical value of the connected store, if any.
pub open spec fn db_store_view(db: DB) -> Option<crate::store::collection::StoreV> {
    match db.database {
        Some(s) => Some(s@),
        None => None,
    }
}

/// A connected handle over a well-formed store.
pub open spec fn db_wf(db: DB) -> bool {
    db.database matches Some(s) ==> store_wf(s@)
}

} // verus!
