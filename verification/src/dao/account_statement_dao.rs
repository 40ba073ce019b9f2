//! Data access for account statements: a peripheral collaborator declared by
//! the manager, under the same ownership-scoping contract as accounts.

use vstd::prelude::*;

verus! {

/// The account statement data accessor.
pub struct AccountStatementDAO {
    _priv: (),
}

impl AccountStatementDAO {
    pub fn new() -> AccountStatementDAO {
        AccountStatementDAO { _priv: () }
    }
}

} // verus!
