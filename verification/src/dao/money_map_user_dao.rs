//! Data access for money map membership records.
//!
//! Membership records live embedded in the money map documents, so this
//! accessor is a collaborator handle handed out by the manager; the
//! membership-management operations deliberately do not persist anything in
//! this release (see the membership controller).

use vstd::prelude::*;

verus! {

/// The membership data accessor.
pub struct MoneyMapUserDAO {
    _priv: (),
}

impl MoneyMapUserDAO {
    pub fn new() -> MoneyMapUserDAO {
        MoneyMapUserDAO { _priv: () }
    }
}

} // verus!
