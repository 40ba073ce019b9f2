//! Data access for transactions: a peripheral collaborator declared by the
//! manager, under the same ownership-scoping contract as accounts.

use vstd::prelude::*;

verus! {

/// The transaction data accessor.
pub struct TransactionDAO {
    _priv: (),
}

impl TransactionDAO {
    pub fn new() -> TransactionDAO {
        TransactionDAO { _priv: () }
    }
}

} // verus!
