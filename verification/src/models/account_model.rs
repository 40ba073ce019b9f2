//! Account entity model.
//!
//! An account belongs to exactly one money map; its existence is scoped to
//! that parent.

use vstd::prelude::*;
use crate::common::validation::ValidationResult;
use crate::models::user_model::opt_str;
use crate::store::object_id::ObjectId;

verus! {

/// An account under a money map.
pub struct AccountModel {
    pub id: Option<ObjectId>,
    pub money_map_id: Option<ObjectId>,
    pub name: Option<String>,
    pub account_type: Option<String>,
}

/// The mathematical value of an [`AccountModel`].
pub struct AccountModelV {
    pub id: Option<ObjectId>,
    pub money_map_id: Option<ObjectId>,
    pub name: Option<Seq<char>>,
    pub account_type: Option<Seq<char>>,
}

impl View for AccountModel {
    type V = AccountModelV;

    open spec fn view(&self) -> AccountModelV {
        AccountModelV {
            id: self.id,
            money_map_id: self.money_map_id,
            name: opt_str(self.name),
            account_type: opt_str(self.account_type),
        }
    }
}

/// An account payload is semantically valid when it carries a non-empty
/// name and a non-empty account type.
pub open spec fn account_payload_valid(a: AccountModelV) -> bool {
    &&& a.name matches Some(n) && n.len() > 0
    &&& a.account_type matches Some(t) && t.len() > 0
}

impl AccountModel {
    /// Validate the payload: name and account type are required and must be
    /// non-empty.
    pub fn validate(&self) -> (r: ValidationResult)
        ensures
            r@.len() == 0 <==> account_payload_valid(self@),
            (self@.name matches Some(n) && n.len() > 0) || r@.contains(
                ("name"@, "Name is required."@)),
            (self@.account_type matches Some(t) && t.len() > 0) || r@.contains(
                ("account_type"@, "Account type is required."@)),
    {
        let mut result = ValidationResult::new();
        let name_ok = match &self.name {
            Some(n) => n.as_str().unicode_len() > 0,
            None => false,
        };
        if !name_ok {
            result.add_error("name", "Name is required.");
        }
        let type_ok = match &self.account_type {
            Some(t) => t.as_str().unicode_len() > 0,
            None => false,
        };
        if !type_ok {
            result.add_error("account_type", "Account type is required.");
        }
        proof {
            if !name_ok {
                assert(result@[0] == ("name"@, "Name is required."@));
                assert(result@.contains(("name"@, "Name is required."@)));
            }
            if !type_ok {
                assert(result@[result@.len() - 1] == (
                    "account_type"@,
                    "Account type is required."@,
                ));
                assert(result@.contains(("account_type"@, "Account type is required."@)));
            }
        }
        result
    }
}

} // verus!
