//! The accounts controller: create an account under a money map the caller
//! is a member of.

use vstd::prelude::*;
use crate::common::api_result::ApiResult;
use crate::common::config::Config;
use crate::common::database::db_wf;
use crate::common::mm_result::MMResult;
use crate::controllers::scope::{mm_scope_filter, mm_visible_to};
use crate::dao::account_dao::account_stored_doc;
use crate::dao::dao_manager::DAOManager;
use crate::models::account_model::{account_payload_valid, AccountModel, AccountModelV};
use crate::store::object_id::{hex_value, valid_object_id_hex, ObjectId};

verus! {

/// The accounts controller.
pub struct AccountsController {
    pub dao_manager: DAOManager,
    pub config: Config,
}

impl AccountsController {
    pub fn new(dao_manager: DAOManager, config: Config) -> (c: AccountsController)
        ensures
            c.dao_manager == dao_manager,
            c.config == config,
    {
        AccountsController { dao_manager, config }
    }

    /// Create an account under a money map. The caller must be a member of
    /// the map; whether the map even exists is not observable otherwise. The
    /// payload is validated before any store mutation, and an invalid
    /// payload echoes back unchanged with the violation report.
    pub fn create(&mut self, session: MMResult<String>, mm_id: String, body: Option<
        AccountModel>) -> (r: ApiResult<AccountModel, AccountModel>)
        requires
            db_wf(old(self).dao_manager.db),
            old(self).dao_manager.db.database matches Some(s)
                ==> s@.accounts.next_id < u64::MAX,
        ensures
            db_wf(final(self).dao_manager.db),
            final(self).config == old(self).config,
            session is Err ==> r.is_failure_with("Unable to retrieve session data."@)
                && *final(self) == *old(self),
            session is Ok && old(self).dao_manager.db.database is None ==> r.is_failure_with(
                "Unable to interact with database"@) && *final(self) == *old(self),
            (session is Ok && old(self).dao_manager.db.database is Some
                && !valid_object_id_hex(mm_id@)) ==> (r.is_failure_with(
                "Failed to find money map. Invalid ID."@) && *final(self) == *old(self)),
            session matches Ok(uid) ==> old(self).dao_manager.db.database is Some
                ==> valid_object_id_hex(mm_id@) ==> !valid_object_id_hex(uid@)
                ==> (r.is_failure_with("Failed to find money map. Invalid user ID."@)
                    && *final(self) == *old(self)),
            session matches Ok(uid) ==> old(self).dao_manager.db.database matches Some(s)
                ==> valid_object_id_hex(mm_id@) ==> valid_object_id_hex(uid@) ==> ({
                let mm_oid = ObjectId { value: hex_value(mm_id@) as u128 };
                let docs = s@.money_maps.docs;
                &&& ((forall|i: int| 0 <= i < docs.len() ==> !mm_visible_to(
                    #[trigger] docs[i], mm_oid, uid@)) ==> (r.is_failure_with(
                    "Unable to find money map."@) && *final(self) == *old(self)))
                &&& (exists|i: int| 0 <= i < docs.len() && mm_visible_to(
                    #[trigger] docs[i], mm_oid, uid@)) ==> ({
                    let new_oid = ObjectId { value: s@.accounts.next_id as u128 };
                    &&& (body is None ==> (r.is_failure_with(
                        "Invalid format. Unable to parse data."@)
                        && *final(self) == *old(self)))
                    &&& (body matches Some(b) ==> !account_payload_valid(b@)
                        ==> (*final(self) == *old(self) && (r matches ApiResult::Invalid {
                            validation, request } && validation@.len() > 0 && request == b)))
                    &&& (body matches Some(b) ==> account_payload_valid(b@) ==> (
                        (final(self).dao_manager.db.database matches Some(s2)
                            && s2@.money_maps == s@.money_maps && s2@.users == s@.users
                            && s2@.accounts.docs == s@.accounts.docs.push(
                                account_stored_doc(b@, mm_oid, new_oid)))
                        && (r matches ApiResult::Success { result }
                            && result@ == (AccountModelV {
                                id: Some(new_oid),
                                money_map_id: Some(mm_oid),
                                name: b@.name,
                                account_type: b@.account_type,
                            }))))
                })
            }),
    {
        let user_id = match session {
            Ok(id) => id,
            Err(_e) => {
                return ApiResult::Failure { msg: "Unable to retrieve session data.".to_owned() };
            },
        };
        let mm_dao = match self.dao_manager.get_money_map_dao() {
            Ok(dao) => dao,
            Err(_e) => {
                return ApiResult::Failure { msg: "Unable to interact with database".to_owned() };
            },
        };
        let account_dao = match self.dao_manager.get_account_dao() {
            Ok(dao) => dao,
            Err(_e) => {
                return ApiResult::Failure { msg: "Unable to interact with database".to_owned() };
            },
        };
        let mm_oid = match ObjectId::with_string(mm_id.as_str()) {
            Some(id) => id,
            None => {
                return ApiResult::Failure {
                    msg: "Failed to find money map. Invalid ID.".to_owned(),
                };
            },
        };
        match ObjectId::with_string(user_id.as_str()) {
            Some(_user_oid) => {},
            None => {
                return ApiResult::Failure {
                    msg: "Failed to find money map. Invalid user ID.".to_owned(),
                };
            },
        }
        let filter = mm_scope_filter(mm_oid, user_id.as_str());
        let visible = match self.dao_manager.db.get_database() {
            Some(store) => mm_dao.find_one(store, &filter).is_some(),
            None => {
                return ApiResult::Failure { msg: "Unable to interact with database".to_owned() };
            },
        };
        if !visible {
            return ApiResult::Failure { msg: "Unable to find money map.".to_owned() };
        }
        let account = match body {
            Some(a) => a,
            None => {
                return ApiResult::Failure {
                    msg: "Invalid format. Unable to parse data.".to_owned(),
                };
            },
        };
        let validation_result = account.validate();
        if validation_result.is_valid() {
            match &mut self.dao_manager.db.database {
                Some(store) => {
                    match account_dao.create(store, mm_oid, &account) {
                        Ok(new_account) => ApiResult::Success { result: new_account },
                        Err(_e) => ApiResult::Failure {
                            msg: "Unable to create account".to_owned(),
                        },
                    }
                },
                None => ApiResult::Failure {
                    msg: "Unable to interact with database".to_owned(),
                },
            }
        } else {
            ApiResult::Invalid { validation: validation_result, request: account }
        }
    }
}

} // verus!
