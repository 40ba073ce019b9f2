//! The money maps controller: list the caller's maps, create a map owned by
//! the caller, and soft-delete a map.

use vstd::prelude::*;
use crate::common::api_result::ApiResult;
use crate::common::config::Config;
use crate::common::database::db_wf;
use crate::common::mm_result::MMResult;
use crate::controllers::money_map_users_controller::{
    join_members, MoneyMapUsersController, the_visible_user, visible_user_with_id,
};
use crate::controllers::scope::{by_id_filter, member_filter};
use crate::dao::dao_manager::DAOManager;
use crate::dao::money_map_dao::{has_id, matching_money_maps, money_maps_view};
use crate::models::money_map_model::{
    money_map_payload_valid, MoneyMapModel, MoneyMapModelV, MoneyMapUserModel, MoneyMapUserModelV,
};
use crate::models::user_model::{out_of_user, OutUserModel};
use crate::store::document::DocV;
use crate::store::filter::not_deleted;
use crate::store::object_id::{hex_value, valid_object_id_hex, ObjectId};

verus! {

/// A mapped money map with its membership records joined against the user
/// collection; an absent membership list stays absent.
pub open spec fn join_map(users_docs: Seq<DocV>, m: MoneyMapModelV) -> MoneyMapModelV {
    MoneyMapModelV {
        id: m.id,
        name: m.name,
        users: match m.users {
            Some(ms) => Some(join_members(users_docs, ms)),
            None => None,
        },
    }
}

/// Every mapped money map joined, in order.
pub open spec fn join_maps(users_docs: Seq<DocV>, maps: Seq<MoneyMapModelV>) -> Seq<
    MoneyMapModelV> {
    Seq::new(maps.len(), |i: int| join_map(users_docs, maps[i]))
}

/// The money maps controller.
pub struct MoneyMapsController {
    pub dao_manager: DAOManager,
    pub config: Config,
}

impl MoneyMapsController {
    pub fn new(dao_manager: DAOManager, config: Config) -> (c: MoneyMapsController)
        ensures
            c.dao_manager == dao_manager,
            c.config == config,
    {
        MoneyMapsController { dao_manager, config }
    }

    /// List every money map the caller is a member of, each with its user
    /// details joined on.
    pub fn find(&self, session: MMResult<String>) -> (r: ApiResult<Vec<MoneyMapModel>, ()>)
        requires
            db_wf(self.dao_manager.db),
        ensures
            session is Err ==> r.is_failure_with("Unable to retrieve session data."@),
            session is Ok && self.dao_manager.db.database is None ==> r.is_failure_with(
                "Unable to interact with database"@),
            session matches Ok(uid) ==> self.dao_manager.db.database matches Some(s) ==> (
                r matches ApiResult::Success { result } && money_maps_view(result@) == join_maps(
                    s@.users.docs,
                    matching_money_maps(s@.money_maps.docs, seq![
                        crate::store::filter::CondV::ArrayFieldEq(
                            "users"@, "user_id"@, crate::store::document::ScalarV::Str(uid@)),
                        crate::store::filter::CondV::FieldNe(
                            "deleted"@, crate::store::document::ScalarV::Bool(true)),
                    ]),
                )),
    {
        let user_id = match session {
            Ok(id) => id,
            Err(_e) => {
                return ApiResult::Failure { msg: "Unable to retrieve session data.".to_owned() };
            },
        };
        let dao = match self.dao_manager.get_money_map_dao() {
            Ok(dao) => dao,
            Err(_e) => {
                return ApiResult::Failure { msg: "Unable to interact with database".to_owned() };
            },
        };
        match self.dao_manager.get_user_dao() {
            Ok(_user_dao) => {},
            Err(_e) => {
                return ApiResult::Failure { msg: "Unable to interact with database".to_owned() };
            },
        }
        let store = match self.dao_manager.db.get_database() {
            Some(s) => s,
            None => {
                return ApiResult::Failure { msg: "Unable to interact with database".to_owned() };
            },
        };
        let filter = member_filter(user_id.as_str());
        let money_maps = dao.find(store, &filter);
        let ghost found = money_maps_view(money_maps@);
        let n = money_maps.len();
        let mut joined: Vec<MoneyMapModel> = Vec::new();
        let mut i: usize = 0;
        while i < n
            invariant
                db_wf(self.dao_manager.db),
                self.dao_manager.db.database matches Some(st) && st == *store,
                n == money_maps.len(),
                i <= n,
                found == money_maps_view(money_maps@),
                found.len() == n,
                joined@.len() == i,
                forall|j: int| 0 <= j < i ==> (#[trigger] joined@[j])@ == join_map(
                    store@.users.docs, found[j]),
            decreases n - i,
        {
            let m = &money_maps[i];
            proof {
                assert(found[i as int] == m@);
            }
            let users = match &m.users {
                Some(_list) => {
                    match MoneyMapUsersController::get_users_for_mm(&self.dao_manager, m) {
                        Ok(users_list) => Some(users_list),
                        Err(_e) => {
                            return ApiResult::Failure {
                                msg: "Unable to interact with database".to_owned(),
                            };
                        },
                    }
                },
                None => None,
            };
            let out = MoneyMapModel {
                id: m.id,
                name: crate::models::user_model::opt_string_clone(&m.name),
                users,
            };
            joined.push(out);
            proof {
                assert(joined@[i as int]@ == join_map(store@.users.docs, found[i as int]));
            }
            i = i + 1;
        }
        proof {
            assert(money_maps_view(joined@) =~= join_maps(store@.users.docs, found));
        }
        ApiResult::Success { result: joined }
    }

    /// Create a money map owned by the caller. An invalid payload is
    /// reported before any store mutation; on success the created map is
    /// returned with its assigned identifier and, when the caller's details
    /// are on file, its membership list joined.
    pub fn create(&mut self, session: MMResult<String>, body: Option<MoneyMapModel>) -> (r:
        ApiResult<MoneyMapModel, MoneyMapModel>)
        requires
            db_wf(old(self).dao_manager.db),
            old(self).dao_manager.db.database matches Some(s)
                ==> s@.money_maps.next_id < u64::MAX,
        ensures
            db_wf(final(self).dao_manager.db),
            final(self).config == old(self).config,
            session is Err ==> r.is_failure_with("Unable to retrieve session data."@)
                && *final(self) == *old(self),
            session is Ok && old(self).dao_manager.db.database is None ==> r.is_failure_with(
                "Unable to interact with database"@) && *final(self) == *old(self),
            (session is Ok && old(self).dao_manager.db.database is Some && body is None)
                ==> r.is_failure_with("Invalid format. Unable to parse data."@)
                    && *final(self) == *old(self),
            body matches Some(b) ==> session is Ok
                ==> old(self).dao_manager.db.database is Some ==> !money_map_payload_valid(b@)
                ==> (*final(self) == *old(self) && (r matches ApiResult::Invalid {
                    validation, request } && validation@ =~= seq![(
                    "name"@, "Name is required."@)] && request == b)),
            session matches Ok(uid) ==> old(self).dao_manager.db.database matches Some(s)
                ==> body matches Some(b) ==> money_map_payload_valid(b@) ==> ({
                let oid = ObjectId { value: s@.money_maps.next_id as u128 };
                let uoid = ObjectId { value: hex_value(uid@) as u128 };
                &&& final(self).dao_manager.db.database matches Some(s2)
                    && s2@.money_maps.docs == s@.money_maps.docs.push(
                        crate::dao::money_map_dao::money_map_stored_doc(b@.name, uid@, oid))
                    && s2@.users == s@.users && s2@.accounts == s@.accounts
                &&& r matches ApiResult::Success { result } && result@.id == Some(oid)
                    && result@.name == b@.name
                    && result@.users == (
                        if valid_object_id_hex(uid@) && visible_user_with_id(
                            s@.users.docs, uoid) {
                            Some(seq![
                                MoneyMapUserModelV {
                                    user: Some(out_of_user(
                                        crate::dao::user_dao::user_of_doc(
                                            the_visible_user(s@.users.docs, uoid)))),
                                    owner: true,
                                },
                            ])
                        } else {
                            b@.users
                        })
            }),
    {
        let user_id = match session {
            Ok(id) => id,
            Err(_e) => {
                return ApiResult::Failure { msg: "Unable to retrieve session data.".to_owned() };
            },
        };
        let dao = match self.dao_manager.get_money_map_dao() {
            Ok(dao) => dao,
            Err(_e) => {
                return ApiResult::Failure { msg: "Unable to interact with database".to_owned() };
            },
        };
        let user_dao = match self.dao_manager.get_user_dao() {
            Ok(dao) => dao,
            Err(_e) => {
                return ApiResult::Failure { msg: "Unable to interact with database".to_owned() };
            },
        };
        let mut money_map = match body {
            Some(m) => m,
            None => {
                return ApiResult::Failure {
                    msg: "Invalid format. Unable to parse data.".to_owned(),
                };
            },
        };
        let validation_result = money_map.validate();
        if validation_result.is_valid() {
            match &mut self.dao_manager.db.database {
                Some(store) => {
                    match dao.create(store, &money_map, user_id.clone()) {
                        Ok(res) => {
                            match res.inserted_id {
                                Some(new_id) => {
                                    money_map.id = Some(new_id);
                                },
                                None => {},
                            }
                            match ObjectId::with_string(user_id.as_str()) {
                                Some(uoid) => {
                                    let ufilter = by_id_filter(uoid);
                                    match user_dao.find_one(store, &ufilter) {
                                        Some(user) => {
                                            proof {
                                                let docs = store@.users.docs;
                                                let w = choose|w: int|
                                                    0 <= w < docs.len()
                                                    && crate::store::filter::scoped_matches(
                                                        crate::store::filter::filter_view(
                                                            ufilter@), docs[w])
                                                    && user@
                                                        == crate::dao::user_dao::user_of_doc(
                                                        docs[w]);
                                                assert(has_id(docs[w], uoid)
                                                    && not_deleted(docs[w]));
                                                assert(visible_user_with_id(docs, uoid));
                                                let c = choose|c: int|
                                                    0 <= c < docs.len() && has_id(
                                                        #[trigger] docs[c], uoid)
                                                    && not_deleted(docs[c]);
                                                assert(crate::store::collection::doc_id(docs[w])
                                                    == Some(uoid));
                                                assert(crate::store::collection::doc_id(docs[c])
                                                    == Some(uoid));
                                                if w != c {
                                                    assert(crate::store::collection::doc_id(
                                                        docs[w])
                                                        != crate::store::collection::doc_id(
                                                        docs[c]));
                                                }
                                                assert(the_visible_user(docs, uoid) == docs[w]);
                                            }
                                            let mut users_list: Vec<MoneyMapUserModel> =
                                                Vec::new();
                                            users_list.push(MoneyMapUserModel::new(
                                                OutUserModel::new(user),
                                                true,
                                            ));
                                            money_map.users = Some(users_list);
                                        },
                                        None => {
                                            proof {
                                                if visible_user_with_id(
                                                    store@.users.docs, uoid) {
                                                    let c = choose|c: int|
                                                        0 <= c < store@.users.docs.len()
                                                        && has_id(
                                                            #[trigger] store@.users.docs[c],
                                                            uoid)
                                                        && not_deleted(store@.users.docs[c]);
                                                    assert(
                                                        crate::store::filter::scoped_matches(
                                                            crate::store::filter::filter_view(
                                                                ufilter@),
                                                            store@.users.docs[c]));
                                                }
                                            }
                                        },
                                    }
                                },
                                None => {},
                            }
                            ApiResult::Success { result: money_map }
                        },
                        Err(_e) => ApiResult::Failure {
                            msg: "Unable to create money map".to_owned(),
                        },
                    }
                },
                None => ApiResult::Failure {
                    msg: "Unable to interact with database".to_owned(),
                },
            }
        } else {
            ApiResult::Invalid { validation: validation_result, request: money_map }
        }
    }

    /// Soft-delete a money map by its textual identifier: the document stays
    /// in the store with its `deleted` flag set, and every scoped read stops
    /// returning it. Deleting an absent or already-deleted map fails.
    pub fn delete(&mut self, id: &str) -> (r: ApiResult<String, ()>)
        requires
            db_wf(old(self).dao_manager.db),
        ensures
            db_wf(final(self).dao_manager.db),
            final(self).config == old(self).config,
            old(self).dao_manager.db.database is None ==> r.is_failure_with(
                "Unable to interact with database"@) && *final(self) == *old(self),
            old(self).dao_manager.db.database matches Some(s)
                ==> !valid_object_id_hex(id@) ==> (
                    final(self).dao_manager.db.database matches Some(s2) && s2@ == s@
                        && r.is_failure_with("Malformed ID"@)),
            old(self).dao_manager.db.database matches Some(s)
                ==> valid_object_id_hex(id@) ==> ({
                let oid = ObjectId { value: hex_value(id@) as u128 };
                let docs = s@.money_maps.docs;
                &&& final(self).dao_manager.db.database matches Some(s2) && s2@.users == s@.users
                    && s2@.accounts == s@.accounts
                    && s2@.money_maps.next_id == s@.money_maps.next_id
                &&& ((forall|i: int| 0 <= i < docs.len() ==> !has_id(#[trigger] docs[i], oid))
                    ==> (final(self).dao_manager.db.database matches Some(s2)
                        && s2@.money_maps.docs == docs
                        && r.is_failure_with("Unable to delete money map"@)))
                &&& ((exists|i: int| 0 <= i < docs.len() && has_id(#[trigger] docs[i], oid))
                    ==> (exists|i: int| 0 <= i < docs.len() && has_id(#[trigger] docs[i], oid)
                        && (final(self).dao_manager.db.database matches Some(s2)
                            && s2@.money_maps.docs == docs.update(i, crate::store::collection::apply_set(
                                docs[i], crate::dao::money_map_dao::delete_set_doc())))
                        && (if crate::store::collection::apply_set(
                            docs[i], crate::dao::money_map_dao::delete_set_doc()) != docs[i] {
                            r matches ApiResult::Success { result }
                                && result@ == "Successfully deleted money map"@
                        } else {
                            r.is_failure_with("Unable to delete money map"@)
                        })))
            }),
    {
        let dao = match self.dao_manager.get_money_map_dao() {
            Ok(dao) => dao,
            Err(_e) => {
                return ApiResult::Failure { msg: "Unable to interact with database".to_owned() };
            },
        };
        match &mut self.dao_manager.db.database {
            Some(store) => {
                match dao.delete(store, id) {
                    Ok(result) => {
                        if result.modified_count > 0 {
                            ApiResult::Success {
                                result: "Successfully deleted money map".to_owned(),
                            }
                        } else {
                            ApiResult::Failure {
                                msg: "Unable to delete money map".to_owned(),
                            }
                        }
                    },
                    Err(_e) => ApiResult::Failure { msg: "Malformed ID".to_owned() },
                }
            },
            None => ApiResult::Failure { msg: "Unable to interact with database".to_owned() },
        }
    }
}

} // verus!
