//! The accessor factory: hands out one data accessor per entity, each bound
//! to the active store connection, and fails with a `Database`-kind error
//! when no connection is established — the only error this manager itself
//! originates.

use vstd::prelude::*;
use crate::common::database::DB;
use crate::common::mm_result::{MMError, MMErrorKind, MMResult};
use crate::dao::account_dao::AccountDAO;
use crate::dao::account_statement_dao::AccountStatementDAO;
use crate::dao::money_map_dao::MoneyMapDAO;
use crate::dao::money_map_user_dao::MoneyMapUserDAO;
use crate::dao::transaction_dao::TransactionDAO;
use crate::dao::user_dao::UserDAO;

verus! {

/// The message every accessor constructor fails with when no connection is
/// established.
pub open spec fn no_connection_msg() -> Seq<char> {
    "Error: database connection not established"@
}

/// Hands out data accessors bound to the shared connection handle.
pub struct DAOManager {
    pub db: DB,
}

impl DAOManager {
    pub fn new(db: DB) -> (m: DAOManager)
        ensures
            m.db == db,
    {
        DAOManager { db }
    }

    pub fn get_user_dao(&self) -> (r: MMResult<UserDAO>)
        ensures
            r is Ok <==> self.db.database is Some,
            r matches Err(e) ==> e.kind_of() == MMErrorKind::Database
                && e.message() == no_connection_msg(),
    {
        if self.db.is_connected() {
            Ok(UserDAO::new())
        } else {
            Err(MMError::new("Error: database connection not established", MMErrorKind::Database))
        }
    }

    pub fn get_money_map_dao(&self) -> (r: MMResult<MoneyMapDAO>)
        ensures
            r is Ok <==> self.db.database is Some,
            r matches Err(e) ==> e.kind_of() == MMErrorKind::Database
                && e.message() == no_connection_msg(),
    {
        if self.db.is_connected() {
            Ok(MoneyMapDAO::new())
        } else {
            Err(MMError::new("Error: database connection not established", MMErrorKind::Database))
        }
    }

    pub fn get_money_map_user_dao(&self) -> (r: MMResult<MoneyMapUserDAO>)
        ensures
            r is Ok <==> self.db.database is Some,
            r matches Err(e) ==> e.kind_of() == MMErrorKind::Database
                && e.message() == no_connection_msg(),
    {
        if self.db.is_connected() {
            Ok(MoneyMapUserDAO::new())
        } else {
            Err(MMError::new("Error: database connection not established", MMErrorKind::Database))
        }
    }

    pub fn get_account_dao(&self) -> (r: MMResult<AccountDAO>)
        ensures
            r is Ok <==> self.db.database is Some,
            r matches Err(e) ==> e.kind_of() == MMErrorKind::Database
                && e.message() == no_connection_msg(),
    {
        if self.db.is_connected() {
            Ok(AccountDAO::new())
        } else {
            Err(MMError::new("Error: database connection not established", MMErrorKind::Database))
        }
    }

    pub fn get_account_statement_dao(&self) -> (r: MMResult<AccountStatementDAO>)
        ensures
            r is Ok <==> self.db.database is Some,
            r matches Err(e) ==> e.kind_of() == MMErrorKind::Database
                && e.message() == no_connection_msg(),
    {
        if self.db.is_connected() {
            Ok(AccountStatementDAO::new())
        } else {
            Err(MMError::new("Error: database connection not established", MMErrorKind::Database))
        }
    }

    pub fn get_transaction_dao(&self) -> (r: MMResult<TransactionDAO>)
        ensures
            r is Ok <==> self.db.database is Some,
            r matches Err(e) ==> e.kind_of() == MMErrorKind::Database
                && e.message() == no_connection_msg(),
    {
        if self.db.is_connected() {
            Ok(TransactionDAO::new())
        } else {
            Err(MMError::new("Error: database connection not established", MMErrorKind::Database))
        }
    }
}

} // verus!
