//! Data access for the user collection.
//!
//! Users are never hard-deleted; reads apply the same implicit soft-delete
//! scope as every other accessor.

use vstd::prelude::*;
use crate::common::mm_result::MMResult;
use crate::models::user_model::{UserModel, UserModelV};
use crate::store::collection::{coll_wf, store_wf, InsertOneResult, Store};
use crate::store::document::{
    doc_get, doc_has_key, doc_key_at, doc_wf, DocV, Document, Scalar, ScalarV, Value, ValueV,
};
use crate::store::filter::{eval_scoped, filter_view, scoped_matches, Cond};
use crate::store::object_id::ObjectId;

verus! {

/// The field keys a user document uses are pairwise distinct.
proof fn user_keys_distinct()
    ensures
        "_id"@ != "deleted"@ && "_id"@ != "first_name"@ && "_id"@ != "last_name"@
            && "_id"@ != "email"@ && "_id"@ != "password"@,
        "deleted"@ != "first_name"@ && "deleted"@ != "last_name"@ && "deleted"@ != "email"@
            && "deleted"@ != "password"@,
        "first_name"@ != "last_name"@ && "first_name"@ != "email"@
            && "first_name"@ != "password"@,
        "last_name"@ != "email"@ && "last_name"@ != "password"@,
        "email"@ != "password"@,
{
    reveal_strlit("_id");
    reveal_strlit("deleted");
    reveal_strlit("first_name");
    reveal_strlit("last_name");
    reveal_strlit("email");
    reveal_strlit("password");
    assert("_id"@.len() == 3);
    assert("deleted"@.len() == 7);
    assert("first_name"@.len() == 10);
    assert("last_name"@.len() == 9);
    assert("email"@.len() == 5);
    assert("password"@.len() == 8);
}

/// The string stored under `k`, if a string is stored there.
pub open spec fn str_field(d: DocV, k: Seq<char>) -> Option<Seq<char>> {
    match doc_get(d, k) {
        Some(ValueV::Scalar(ScalarV::Str(s))) => Some(s),
        _ => None,
    }
}

/// The model a stored user document reads as: absent or mismatched fields
/// map to `None`.
pub open spec fn user_of_doc(d: DocV) -> UserModelV {
    UserModelV {
        id: match doc_get(d, "_id"@) {
            Some(ValueV::Scalar(ScalarV::Id(o))) => Some(o),
            _ => None,
        },
        first_name: str_field(d, "first_name"@),
        last_name: str_field(d, "last_name"@),
        email: str_field(d, "email"@),
        password: str_field(d, "password"@),
    }
}

/// One optional string field of a document under construction.
pub open spec fn opt_field(k: Seq<char>, v: Option<Seq<char>>) -> DocV {
    match v {
        Some(s) => seq![(k, ValueV::Scalar(ScalarV::Str(s)))],
        None => Seq::empty(),
    }
}

/// The document `create` inserts, before the store assigns `_id`.
pub open spec fn user_create_doc(u: UserModelV) -> DocV {
    seq![("deleted"@, ValueV::Scalar(ScalarV::Bool(false)))]
        + opt_field("first_name"@, u.first_name)
        + opt_field("last_name"@, u.last_name)
        + opt_field("email"@, u.email)
        + opt_field("password"@, u.password)
}

/// The document as stored, with the assigned identifier appended.
pub open spec fn user_stored_doc(u: UserModelV, oid: ObjectId) -> DocV {
    user_create_doc(u).push(("_id"@, ValueV::Scalar(ScalarV::Id(oid))))
}

/// Read a stored document as a user model, tolerantly.
pub fn user_document_to_model(doc: &Document) -> (m: UserModel)
    requires
        doc_wf(doc@),
    ensures
        m@ == user_of_doc(doc@),
{
    let id = match doc.get(&"_id".to_owned()) {
        Some(v) => match v {
            Value::Scalar(s) => match s {
                Scalar::Id(o) => Some(*o),
                _ => None,
            },
            _ => None,
        },
        None => None,
    };
    let first_name = read_str_field(doc, "first_name");
    let last_name = read_str_field(doc, "last_name");
    let email = read_str_field(doc, "email");
    let password = read_str_field(doc, "password");
    UserModel { id, first_name, last_name, email, password }
}

/// Read one optional string field of a document.
fn read_str_field(doc: &Document, key: &str) -> (r: Option<String>)
    requires
        doc_wf(doc@),
    ensures
        crate::models::user_model::opt_str(r) == str_field(doc@, key@),
{
    match doc.get(&key.to_owned()) {
        Some(v) => match v {
            Value::Scalar(s) => match s {
                Scalar::Str(n) => Some(n.clone()),
                _ => None,
            },
            _ => None,
        },
        None => None,
    }
}

/// The user collection's data accessor.
pub struct UserDAO {
    _priv: (),
}

impl UserDAO {
    pub fn new() -> UserDAO {
        UserDAO { _priv: () }
    }

    /// The first user matching the filter under the soft-delete scope, if
    /// any matches.
    pub fn find_one(&self, store: &Store, filter: &Vec<Cond>) -> (r: Option<UserModel>)
        requires
            store_wf(store@),
        ensures
            r is Some <==> exists|i: int|
                0 <= i < store@.users.docs.len() && scoped_matches(
                    filter_view(filter@), #[trigger] store@.users.docs[i]),
            r matches Some(m) ==> exists|i: int|
                0 <= i < store@.users.docs.len()
                && scoped_matches(filter_view(filter@), #[trigger] store@.users.docs[i])
                && m@ == user_of_doc(store@.users.docs[i]),
    {
        let coll = &store.users;
        let n = coll.documents.len();
        let ghost docs = store@.users.docs;
        let mut i: usize = 0;
        while i < n
            invariant
                coll_wf(store@.users),
                docs == store@.users.docs,
                n == coll.documents.len(),
                coll == &store.users,
                i <= n,
                docs.len() == n,
                forall|j: int| 0 <= j < i ==> !scoped_matches(
                    filter_view(filter@), #[trigger] docs[j]),
            decreases n - i,
        {
            proof {
                assert(docs[i as int] == coll.documents@[i as int]@);
                assert(doc_wf(docs[i as int]));
            }
            if eval_scoped(filter, &coll.documents[i]) {
                let m = user_document_to_model(&coll.documents[i]);
                return Some(m);
            }
            i = i + 1;
        }
        None
    }

    /// Insert a new user; the stored document is never marked deleted.
    pub fn create(&self, store: &mut Store, user: &UserModel) -> (r: MMResult<InsertOneResult>)
        requires
            store_wf(old(store)@),
            old(store)@.users.next_id < u64::MAX,
        ensures
            store_wf(final(store)@),
            final(store)@.money_maps == old(store)@.money_maps,
            final(store)@.accounts == old(store)@.accounts,
            final(store)@.users.next_id == old(store)@.users.next_id + 1,
            r matches Ok(res) && res.acknowledged && res.inserted_id == Some(
                ObjectId { value: old(store)@.users.next_id as u128 }),
            final(store)@.users.docs == old(store)@.users.docs.push(
                user_stored_doc(user@, ObjectId { value: old(store)@.users.next_id as u128 }),
            ),
    {
        let mut doc = Document::new();
        doc.set("deleted".to_owned(), Value::Scalar(Scalar::Bool(false)));
        proof {
            user_keys_distinct();
        }
        if let Some(v) = &user.first_name {
            doc.set("first_name".to_owned(), Value::Scalar(Scalar::Str(v.clone())));
        }
        if let Some(v) = &user.last_name {
            doc.set("last_name".to_owned(), Value::Scalar(Scalar::Str(v.clone())));
        }
        if let Some(v) = &user.email {
            doc.set("email".to_owned(), Value::Scalar(Scalar::Str(v.clone())));
        }
        if let Some(v) = &user.password {
            doc.set("password".to_owned(), Value::Scalar(Scalar::Str(v.clone())));
        }
        proof {
            assert(doc@ =~= user_create_doc(user@));
            if doc_has_key(doc@, "_id"@) {
                let j = doc_key_at(doc@, "_id"@);
                assert(doc@[j].0 == "_id"@);
            }
        }
        let result = store.users.insert_one(doc);
        proof {
            assert(final(store)@.users.docs =~= old(store)@.users.docs.push(
                user_stored_doc(user@, ObjectId { value: old(store)@.users.next_id as u128 }),
            ));
        }
        Ok(result)
    }
}

} // verus!
