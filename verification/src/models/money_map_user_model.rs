//! The inbound payload for adding a user to a money map, and its
//! cross-entity validation.

use vstd::prelude::*;
use crate::common::validation::ValidationResult;
use crate::dao::dao_manager::DAOManager;
use crate::models::user_model::opt_str;
use crate::store::collection::StoreV;
use crate::store::document::{doc_get, DocV, Scalar, ScalarV, ValueV};
use crate::store::filter::{filter_view, not_deleted, scoped_matches, Cond, CondV};

verus! {

/// The payload for adding a user to a money map: the user is referenced by
/// email address.
pub struct InMoneyMapUserModel {
    pub email: Option<String>,
}

/// The mathematical value of an [`InMoneyMapUserModel`].
pub struct InMoneyMapUserModelV {
    pub email: Option<Seq<char>>,
}

impl View for InMoneyMapUserModel {
    type V = InMoneyMapUserModelV;

    open spec fn view(&self) -> InMoneyMapUserModelV {
        InMoneyMapUserModelV { email: opt_str(self.email) }
    }
}

/// Whether some visible user document carries this email address.
pub open spec fn user_email_exists(docs: Seq<DocV>, email: Seq<char>) -> bool {
    exists|i: int| 0 <= i < docs.len()
        && doc_get(#[trigger] docs[i], "email"@) == Some(ValueV::Scalar(ScalarV::Str(email)))
        && not_deleted(docs[i])
}

/// The payload is semantically valid against a store when it carries a
/// non-empty email and a visible user holds that email.
pub open spec fn in_mm_user_payload_valid(m: InMoneyMapUserModelV, db: Option<StoreV>) -> bool {
    &&& m.email matches Some(e) && e.len() > 0
    &&& db matches Some(s) && user_email_exists(s.users.docs, m.email->0)
}

impl InMoneyMapUserModel {
    /// Validate the payload: the email is required and must belong to an
    /// existing user. The referenced-user check needs the store; when no
    /// connection is established the report degrades to invalid with an
    /// explanatory message rather than panicking.
    pub fn validate(&self, dao_manager: &DAOManager) -> (r: ValidationResult)
        requires
            crate::common::database::db_wf(dao_manager.db),
        ensures
            r@.len() == 0 <==> in_mm_user_payload_valid(
                self@,
                match dao_manager.db.database {
                    Some(s) => Some(s@),
                    None => None,
                },
            ),
    {
        let mut result = ValidationResult::new();
        let email = match &self.email {
            Some(e) => {
                if e.as_str().unicode_len() == 0 {
                    result.add_error("email", "Email is required.");
                    return result;
                }
                e
            },
            None => {
                result.add_error("email", "Email is required.");
                return result;
            },
        };
        match dao_manager.get_user_dao() {
            Ok(user_dao) => {
                match dao_manager.db.get_database() {
                    Some(store) => {
                        let mut filter: Vec<Cond> = Vec::new();
                        filter.push(Cond::FieldEq("email".to_owned(), Scalar::Str(email.clone())));
                        proof {
                            assert(filter_view(filter@) =~= seq![
                                CondV::FieldEq("email"@, ScalarV::Str(email@)),
                            ]);
                            assert forall|d: DocV| scoped_matches(filter_view(filter@), d)
                                == (doc_get(d, "email"@) == Some(ValueV::Scalar(ScalarV::Str(
                                    email@))) && not_deleted(d)) by {
                                let fv = filter_view(filter@);
                                assert(crate::store::filter::cond_matches(fv[0], d)
                                    == (doc_get(d, "email"@) == Some(ValueV::Scalar(
                                        ScalarV::Str(email@)))));
                                if doc_get(d, "email"@) == Some(ValueV::Scalar(ScalarV::Str(
                                    email@))) && not_deleted(d) {
                                    assert forall|i: int| 0 <= i < fv.len()
                                        implies crate::store::filter::cond_matches(
                                            #[trigger] fv[i], d) by {
                                        assert(i == 0);
                                    }
                                }
                            }
                        }
                        match user_dao.find_one(store, &filter) {
                            Some(_user) => {},
                            None => {
                                result.add_error(
                                    "email",
                                    "Unable to find a user with this email address.",
                                );
                            },
                        }
                    },
                    None => {
                        result.add_error("email", "Unable to validate user.");
                    },
                }
            },
            Err(_e) => {
                result.add_error("email", "Unable to validate user.");
            },
        }
        result
    }
}

} // verus!
