//! The money map membership controller.
//!
//! Listing members joins each membership record with the referenced user's
//! public fields, constructed on read and never persisted. The
//! membership-mutating operations authorize and validate exactly like every
//! other money-map-scoped operation, but deliberately do not persist
//! anything in this release: they report a stable failure instead of
//! guessing at semantics.

use vstd::prelude::*;
use crate::common::api_result::ApiResult;
use crate::common::config::Config;
use crate::common::database::{db_store_view, db_wf};
use crate::common::mm_result::{MMError, MMErrorKind, MMResult};
use crate::controllers::scope::{mm_scope_filter, mm_visible_to};
use crate::dao::dao_manager::DAOManager;
use crate::dao::money_map_dao::{has_id, mm_users_view, money_map_of_doc};
use crate::dao::user_dao::user_of_doc;
use crate::models::money_map_model::{MoneyMapModel, MoneyMapUserModel, MoneyMapUserModelV};
use crate::models::money_map_user_model::InMoneyMapUserModel;
use crate::models::user_model::{out_of_user, OutUserModel};

use crate::store::document::DocV;
use crate::store::filter::not_deleted;
use crate::store::object_id::{hex_value, valid_object_id_hex, ObjectId};

verus! {

/// Whether a visible user document with this identifier exists.
pub open spec fn visible_user_with_id(docs: Seq<DocV>, oid: ObjectId) -> bool {
    exists|i: int| 0 <= i < docs.len() && has_id(#[trigger] docs[i], oid)
        && not_deleted(docs[i])
}

/// The visible user document with this identifier (meaningful when one
/// exists; identifiers are unique within a collection).
pub open spec fn the_visible_user(docs: Seq<DocV>, oid: ObjectId) -> DocV {
    docs[choose|i: int|
        0 <= i < docs.len() && has_id(#[trigger] docs[i], oid) && not_deleted(docs[i])]
}

/// The joined detail records one membership record contributes: one when the
/// referenced user is found, none otherwise.
pub open spec fn join_one(docs: Seq<DocV>, m: MoneyMapUserModelV) -> Seq<MoneyMapUserModelV> {
    match m.user {
        Some(u) => match u.id {
            Some(oid) => if visible_user_with_id(docs, oid) {
                seq![
                    MoneyMapUserModelV {
                        user: Some(out_of_user(user_of_doc(the_visible_user(docs, oid)))),
                        owner: m.owner,
                    },
                ]
            } else {
                Seq::empty()
            },
            None => Seq::empty(),
        },
        None => Seq::empty(),
    }
}

/// The membership records joined with user details, in order, members whose
/// user is not found skipped.
pub open spec fn join_members(docs: Seq<DocV>, members: Seq<MoneyMapUserModelV>) -> Seq<
    MoneyMapUserModelV>
    decreases members.len(),
{
    if members.len() == 0 {
        Seq::empty()
    } else {
        join_members(docs, members.drop_last()) + join_one(docs, members.last())
    }
}

/// The membership list of a mapped money map, an absent list read as empty.
pub open spec fn members_or_empty(users: Option<Seq<MoneyMapUserModelV>>) -> Seq<
    MoneyMapUserModelV> {
    match users {
        Some(m) => m,
        None => Seq::empty(),
    }
}

/// The money map membership controller.
pub struct MoneyMapUsersController {
    pub dao_manager: DAOManager,
    pub config: Config,
}

impl MoneyMapUsersController {
    pub fn new(dao_manager: DAOManager, config: Config) -> (c: MoneyMapUsersController)
        ensures
            c.dao_manager == dao_manager,
            c.config == config,
    {
        MoneyMapUsersController { dao_manager, config }
    }

    /// List the users of one money map, with their public details joined on.
    /// Only a member of the map may list them; for a non-member the map's
    /// very existence stays unobservable.
    pub fn find(&self, session: MMResult<String>, mm_id: &str) -> (r: ApiResult<
        Vec<MoneyMapUserModel>, ()>)
        requires
            db_wf(self.dao_manager.db),
        ensures
            session is Err ==> r.is_failure_with("Unable to retrieve session data."@),
            session is Ok && self.dao_manager.db.database is None ==> r.is_failure_with(
                "Unable to interact with database"@),
            (session is Ok && self.dao_manager.db.database is Some
                && !valid_object_id_hex(mm_id@)) ==> r.is_failure_with(
                "Failed to find money map. Invalid ID."@),
            session matches Ok(uid) ==> self.dao_manager.db.database matches Some(s)
                ==> valid_object_id_hex(mm_id@) ==> ({
                let oid = ObjectId { value: hex_value(mm_id@) as u128 };
                let docs = s@.money_maps.docs;
                &&& ((forall|i: int| 0 <= i < docs.len() ==> !mm_visible_to(
                    #[trigger] docs[i], oid, uid@)) ==> r.is_failure_with(
                    "Unable to find money map."@))
                &&& ((exists|i: int| 0 <= i < docs.len() && mm_visible_to(
                    #[trigger] docs[i], oid, uid@)) ==> (exists|i: int|
                        0 <= i < docs.len() && mm_visible_to(#[trigger] docs[i], oid, uid@)
                        && (r matches ApiResult::Success { result }
                            && mm_users_view(result@) == join_members(
                                s@.users.docs,
                                members_or_empty(money_map_of_doc(docs[i]).users),
                            ))))
            }),
    {
        let user_id = match session {
            Ok(id) => id,
            Err(_e) => {
                return ApiResult::Failure { msg: "Unable to retrieve session data.".to_owned() };
            },
        };
        let dao = match self.dao_manager.get_money_map_dao() {
            Ok(dao) => dao,
            Err(_e) => {
                return ApiResult::Failure { msg: "Unable to interact with database".to_owned() };
            },
        };
        let id = match ObjectId::with_string(mm_id) {
            Some(id) => id,
            None => {
                return ApiResult::Failure {
                    msg: "Failed to find money map. Invalid ID.".to_owned(),
                };
            },
        };
        let store = match self.dao_manager.db.get_database() {
            Some(s) => s,
            None => {
                return ApiResult::Failure { msg: "Unable to interact with database".to_owned() };
            },
        };
        let filter = mm_scope_filter(id, user_id.as_str());
        let money_map = match dao.find_one(store, &filter) {
            Some(mm) => mm,
            None => {
                return ApiResult::Failure { msg: "Unable to find money map.".to_owned() };
            },
        };
        proof {
            let docs = store@.money_maps.docs;
            let w = choose|w: int|
                0 <= w < docs.len()
                && crate::store::filter::scoped_matches(
                    crate::store::filter::filter_view(filter@), docs[w])
                && money_map@ == money_map_of_doc(docs[w]);
            assert(mm_visible_to(docs[w], id, user_id@));
        }
        match Self::get_users_for_mm(&self.dao_manager, &money_map) {
            Ok(users_list) => ApiResult::Success { result: users_list },
            Err(e) => ApiResult::Failure { msg: e.get_message().to_owned() },
        }
    }

    /// Add a user to a money map. Only a member of the map may attempt it,
    /// and the payload is validated (the referenced user must exist), but
    /// persisting the addition is deliberately not supported in this
    /// release: a valid request reports a stable failure, and the store is
    /// never touched.
    pub fn add(&self, session: MMResult<String>, mm_id: String, body: Option<
        InMoneyMapUserModel>) -> (r: ApiResult<Vec<MoneyMapUserModel>, InMoneyMapUserModel>)
        requires
            db_wf(self.dao_manager.db),
        ensures
            session is Err ==> r.is_failure_with("Unable to retrieve session data."@),
            session is Ok && self.dao_manager.db.database is None ==> r.is_failure_with(
                "Unable to interact with database"@),
            (session is Ok && self.dao_manager.db.database is Some && body is None)
                ==> r.is_failure_with("Invalid format. Unable to parse data."@),
            (session is Ok && self.dao_manager.db.database is Some && body is Some
                && !valid_object_id_hex(mm_id@)) ==> r.is_failure_with(
                "Failed to find money map. Invalid ID."@),
            session matches Ok(uid) ==> self.dao_manager.db.database matches Some(s)
                ==> body matches Some(b) ==> valid_object_id_hex(mm_id@) ==> ({
                let oid = ObjectId { value: hex_value(mm_id@) as u128 };
                let docs = s@.money_maps.docs;
                &&& ((forall|i: int| 0 <= i < docs.len() ==> !mm_visible_to(
                    #[trigger] docs[i], oid, uid@)) ==> r.is_failure_with(
                    "Unable to find money map."@))
                &&& ((exists|i: int| 0 <= i < docs.len() && mm_visible_to(
                    #[trigger] docs[i], oid, uid@)) ==> (
                    if crate::models::money_map_user_model::in_mm_user_payload_valid(
                        b@, Some(s@)) {
                        r.is_failure_with("Money map user updates are not supported"@)
                    } else {
                        r matches ApiResult::Invalid { validation, request }
                            && validation@.len() > 0 && request == b
                    }))
            }),
    {
        let user_id = match session {
            Ok(id) => id,
            Err(_e) => {
                return ApiResult::Failure { msg: "Unable to retrieve session data.".to_owned() };
            },
        };
        let dao = match self.dao_manager.get_money_map_dao() {
            Ok(dao) => dao,
            Err(_e) => {
                return ApiResult::Failure { msg: "Unable to interact with database".to_owned() };
            },
        };
        let money_map_user = match body {
            Some(b) => b,
            None => {
                return ApiResult::Failure {
                    msg: "Invalid format. Unable to parse data.".to_owned(),
                };
            },
        };
        let id = match ObjectId::with_string(mm_id.as_str()) {
            Some(id) => id,
            None => {
                return ApiResult::Failure {
                    msg: "Failed to find money map. Invalid ID.".to_owned(),
                };
            },
        };
        let store = match self.dao_manager.db.get_database() {
            Some(s) => s,
            None => {
                return ApiResult::Failure { msg: "Unable to interact with database".to_owned() };
            },
        };
        let filter = mm_scope_filter(id, user_id.as_str());
        match dao.find_one(store, &filter) {
            Some(_money_map) => {
                let validation_result = money_map_user.validate(&self.dao_manager);
                if validation_result.is_valid() {
                    ApiResult::Failure {
                        msg: "Money map user updates are not supported".to_owned(),
                    }
                } else {
                    ApiResult::Invalid {
                        validation: validation_result,
                        request: money_map_user,
                    }
                }
            },
            None => ApiResult::Failure { msg: "Unable to find money map.".to_owned() },
        }
    }

    /// Remove a user from a money map. Persisting a removal is deliberately
    /// not supported in this release: the operation reports a stable failure
    /// and the store is never touched.
    pub fn delete(&self, mm_id: &str, user_id: &str) -> (r: ApiResult<
        Vec<MoneyMapUserModel>, ()>)
        ensures
            r.is_failure_with("Money map user updates are not supported"@),
    {
        let _ = mm_id;
        let _ = user_id;
        ApiResult::Failure { msg: "Money map user updates are not supported".to_owned() }
    }

    /// The list of user details for a money map's membership records: for
    /// each record whose user is on file and visible, the user's public
    /// fields with the record's owner flag.
    pub fn get_users_for_mm(dao_manager: &DAOManager, money_map: &MoneyMapModel) -> (r: MMResult<
        Vec<MoneyMapUserModel>>)
        requires
            db_wf(dao_manager.db),
        ensures
            (dao_manager.db.database is None && members_or_empty(money_map@.users).len() > 0)
                ==> (r matches Err(e) && e.kind_of() == MMErrorKind::Controller
                    && e.message() == "Unable to interact with database"@),
            (dao_manager.db.database is None && members_or_empty(money_map@.users).len() == 0)
                ==> (r matches Ok(list) && list@.len() == 0),
            dao_manager.db.database matches Some(s) ==> (r matches Ok(list)
                && mm_users_view(list@) == join_members(
                    s@.users.docs,
                    members_or_empty(money_map@.users),
                )),
    {
        let mut users_list: Vec<MoneyMapUserModel> = Vec::new();
        match &money_map.users {
            Some(mm_users) => {
                let ghost members = money_map@.users->0;
                let n = mm_users.len();
                let mut i: usize = 0;
                while i < n
                    invariant
                        db_wf(dao_manager.db),
                        n == mm_users.len(),
                        i <= n,
                        members == Seq::new(mm_users@.len(), |j: int| mm_users@[j]@),
                        members.len() == n,
                        money_map@.users == Some(members),
                        i > 0 ==> dao_manager.db.database is Some,
                        users_list@.len() == 0 || dao_manager.db.database is Some,
                        dao_manager.db.database matches Some(s) ==> mm_users_view(users_list@)
                            =~= join_members(s@.users.docs, members.subrange(0, i as int)),
                    decreases n - i,
                {
                    let user_dao = match dao_manager.get_user_dao() {
                        Ok(dao) => dao,
                        Err(_e) => {
                            return Err(MMError::new(
                                "Unable to interact with database",
                                MMErrorKind::Controller,
                            ));
                        },
                    };
                    let store = match dao_manager.db.get_database() {
                        Some(s) => s,
                        None => {
                            return Err(MMError::new(
                                "Unable to interact with database",
                                MMErrorKind::Controller,
                            ));
                        },
                    };
                    match &mm_users[i].user {
                        Some(out_user) => match out_user.id {
                            Some(oid) => {
                                let filter = crate::controllers::scope::by_id_filter(oid);
                                match user_dao.find_one(store, &filter) {
                                    Some(found) => {
                                        proof {
                                            let docs = store@.users.docs;
                                            let w = choose|w: int|
                                                0 <= w < docs.len()
                                                && crate::store::filter::scoped_matches(
                                                    crate::store::filter::filter_view(filter@),
                                                    docs[w])
                                                && found@ == user_of_doc(docs[w]);
                                            assert(has_id(docs[w], oid) && not_deleted(docs[w]));
                                            assert(visible_user_with_id(docs, oid));
                                            let c = choose|c: int|
                                                0 <= c < docs.len() && has_id(
                                                    #[trigger] docs[c], oid)
                                                && not_deleted(docs[c]);
                                            assert(crate::store::collection::doc_id(docs[w])
                                                == Some(oid));
                                            assert(crate::store::collection::doc_id(docs[c])
                                                == Some(oid));
                                            if w != c {
                                                assert(crate::store::collection::doc_id(docs[w])
                                                    != crate::store::collection::doc_id(docs[c]));
                                            }
                                            assert(the_visible_user(docs, oid) == docs[w]);
                                        }
                                        let detail = MoneyMapUserModel::new(
                                            OutUserModel::new(found),
                                            mm_users[i].owner,
                                        );
                                        users_list.push(detail);
                                        proof {
                                            assert(join_one(store@.users.docs, members[i as int])
                                                =~= seq![users_list@[users_list@.len() - 1]@]);
                                        }
                                    },
                                    None => {
                                        proof {
                                            if visible_user_with_id(store@.users.docs, oid) {
                                                let c = choose|c: int|
                                                    0 <= c < store@.users.docs.len() && has_id(
                                                        #[trigger] store@.users.docs[c], oid)
                                                    && not_deleted(store@.users.docs[c]);
                                                assert(crate::store::filter::scoped_matches(
                                                    crate::store::filter::filter_view(filter@),
                                                    store@.users.docs[c]));
                                            }
                                            assert(join_one(store@.users.docs, members[i as int])
                                                =~= Seq::empty());
                                        }
                                    },
                                }
                            },
                            None => {
                                proof {
                                    assert(join_one(store@.users.docs, members[i as int])
                                        =~= Seq::empty());
                                }
                            },
                        },
                        None => {
                            proof {
                                assert(join_one(store@.users.docs, members[i as int])
                                    =~= Seq::empty());
                            }
                        },
                    }
                    proof {
                        let docs = store@.users.docs;
                        let s1 = members.subrange(0, i as int + 1);
                        assert(s1.drop_last() =~= members.subrange(0, i as int));
                        assert(s1.last() == members[i as int]);
                        assert(mm_users_view(users_list@) =~= join_members(
                            docs, members.subrange(0, i as int)) + join_one(
                            docs, members[i as int]));
                    }
                    i = i + 1;
                }
                proof {
                    assert(members.subrange(0, n as int) =~= members);
                }
            },
            None => {},
        }
        proof {
            if dao_manager.db.database is Some {
                assert(mm_users_view(users_list@) =~= join_members(
                    db_store_view(dao_manager.db)->0.users.docs,
                    members_or_empty(money_map@.users),
                ));
            }
        }
        Ok(users_list)
    }
}

} // verus!
