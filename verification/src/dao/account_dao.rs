//! Data access for the account collection.
//!
//! An account is created under a money map; its stored document carries the
//! parent's identifier and is never created deleted.

use vstd::prelude::*;
use crate::common::mm_result::MMResult;
use crate::models::account_model::{AccountModel, AccountModelV};
use crate::models::user_model::opt_string_clone;
use crate::store::collection::{store_wf, Store};
use crate::store::document::{
    doc_has_key, doc_key_at, DocV, Document, Scalar, ScalarV, Value, ValueV,
};
use crate::store::object_id::ObjectId;

verus! {

/// The field keys an account document uses are pairwise distinct.
proof fn account_keys_distinct()
    ensures
        "_id"@ != "deleted"@ && "_id"@ != "money_map_id"@ && "_id"@ != "name"@
            && "_id"@ != "account_type"@,
        "deleted"@ != "money_map_id"@ && "deleted"@ != "name"@ && "deleted"@ != "account_type"@,
        "money_map_id"@ != "name"@ && "money_map_id"@ != "account_type"@,
        "name"@ != "account_type"@,
{
    reveal_strlit("_id");
    reveal_strlit("deleted");
    reveal_strlit("money_map_id");
    reveal_strlit("name");
    reveal_strlit("account_type");
    assert("_id"@.len() == 3);
    assert("deleted"@.len() == 7);
    assert("money_map_id"@.len() == 12);
    assert("name"@.len() == 4);
    assert("account_type"@.len() == 12);
    assert("money_map_id"@[0] == 'm' && "account_type"@[0] == 'a');
}

/// The document `create` inserts, before the store assigns `_id`.
pub open spec fn account_create_doc(a: AccountModelV, mm_id: ObjectId) -> DocV {
    seq![
        ("deleted"@, ValueV::Scalar(ScalarV::Bool(false))),
        ("money_map_id"@, ValueV::Scalar(ScalarV::Id(mm_id))),
    ] + crate::dao::user_dao::opt_field("name"@, a.name)
        + crate::dao::user_dao::opt_field("account_type"@, a.account_type)
}

/// The document as stored, with the assigned identifier appended.
pub open spec fn account_stored_doc(a: AccountModelV, mm_id: ObjectId, oid: ObjectId) -> DocV {
    account_create_doc(a, mm_id).push(("_id"@, ValueV::Scalar(ScalarV::Id(oid))))
}

/// The account collection's data accessor.
pub struct AccountDAO {
    _priv: (),
}

impl AccountDAO {
    pub fn new() -> AccountDAO {
        AccountDAO { _priv: () }
    }

    /// Insert a new account under the given money map; returns the created
    /// account with its assigned identifier and parent set.
    pub fn create(&self, store: &mut Store, mm_id: ObjectId, account: &AccountModel) -> (r:
        MMResult<AccountModel>)
        requires
            store_wf(old(store)@),
            old(store)@.accounts.next_id < u64::MAX,
        ensures
            store_wf(final(store)@),
            final(store)@.money_maps == old(store)@.money_maps,
            final(store)@.users == old(store)@.users,
            final(store)@.accounts.next_id == old(store)@.accounts.next_id + 1,
            final(store)@.accounts.docs == old(store)@.accounts.docs.push(
                account_stored_doc(
                    account@, mm_id, ObjectId { value: old(store)@.accounts.next_id as u128 }),
            ),
            r matches Ok(a) && a@ == (AccountModelV {
                id: Some(ObjectId { value: old(store)@.accounts.next_id as u128 }),
                money_map_id: Some(mm_id),
                name: account@.name,
                account_type: account@.account_type,
            }),
    {
        let mut doc = Document::new();
        doc.set("deleted".to_owned(), Value::Scalar(Scalar::Bool(false)));
        proof {
            account_keys_distinct();
        }
        doc.set("money_map_id".to_owned(), Value::Scalar(Scalar::Id(mm_id)));
        if let Some(v) = &account.name {
            doc.set("name".to_owned(), Value::Scalar(Scalar::Str(v.clone())));
        }
        if let Some(v) = &account.account_type {
            doc.set("account_type".to_owned(), Value::Scalar(Scalar::Str(v.clone())));
        }
        proof {
            assert(doc@ =~= account_create_doc(account@, mm_id));
            if doc_has_key(doc@, "_id"@) {
                let j = doc_key_at(doc@, "_id"@);
                assert(doc@[j].0 == "_id"@);
            }
        }
        let oid = ObjectId { value: store.accounts.next_id as u128 };
        let _result = store.accounts.insert_one(doc);
        proof {
            assert(final(store)@.accounts.docs =~= old(store)@.accounts.docs.push(
                account_stored_doc(
                    account@, mm_id, ObjectId { value: old(store)@.accounts.next_id as u128 }),
            ));
        }
        let created = AccountModel {
            id: Some(oid),
            money_map_id: Some(mm_id),
            name: opt_string_clone(&account.name),
            account_type: opt_string_clone(&account.account_type),
        };
        Ok(created)
    }
}

} // verus!
