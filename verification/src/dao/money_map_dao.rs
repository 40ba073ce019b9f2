//! Data access for the money map collection.
//!
//! Every read applies the implicit soft-delete scope on top of the filter
//! the caller composed; `create` always seeds the membership list with
//! exactly one owner record and `deleted = false`; `delete` only flips the
//! soft-delete flag and never removes a document.

use vstd::prelude::*;
use crate::common::mm_result::{MMError, MMErrorKind, MMResult};
use crate::models::money_map_model::{
    MoneyMapModel, MoneyMapModelV, MoneyMapUserModel, MoneyMapUserModelV,
};
use crate::models::user_model::{OutUserModel, OutUserModelV};
use crate::store::collection::{
    apply_set, coll_wf, doc_id, lemma_apply_set, store_wf, InsertOneResult, Store, UpdateResult,
};
use crate::store::document::{
    doc_get, doc_has_key, doc_key_at, doc_set, doc_wf, lemma_doc_set_get, sub_get, sub_wf,
    value_wf, DocV, Document, EmbeddedDocument, Scalar, ScalarV, SubDocV, Value, ValueV,
};
use crate::store::filter::{
    eval_scoped, filter_view, not_deleted, scoped_matches, Cond, CondV,
};
use crate::store::object_id::{hex_value, valid_object_id_hex, ObjectId};

verus! {

/// The field keys a money map document uses are pairwise distinct.
proof fn mm_keys_distinct()
    ensures
        "_id"@ != "deleted"@,
        "_id"@ != "name"@,
        "_id"@ != "users"@,
        "deleted"@ != "name"@,
        "deleted"@ != "users"@,
        "name"@ != "users"@,
        "user_id"@ != "owner"@,
{
    reveal_strlit("_id");
    reveal_strlit("deleted");
    reveal_strlit("name");
    reveal_strlit("users");
    reveal_strlit("user_id");
    reveal_strlit("owner");
    assert("_id"@.len() == 3);
    assert("deleted"@.len() == 7);
    assert("name"@.len() == 4);
    assert("users"@.len() == 5);
    assert("user_id"@.len() == 7);
    assert("owner"@.len() == 5);
    assert("user_id"@[0] == 'u' && "deleted"@[0] == 'd');
    assert("users"@[0] == 'u' && "owner"@[0] == 'o');
}

// ---------------------------------------------------------------------------
// The tolerant document-to-model mapping, at the specification level.
// ---------------------------------------------------------------------------

/// The owner flag of a membership record; absent or mismatched means not an
/// owner.
pub open spec fn member_owner(sd: SubDocV) -> bool {
    match sub_get(sd, "owner"@) {
        Some(ScalarV::Bool(b)) => b,
        _ => false,
    }
}

/// The model records a membership element decodes to: one record when it
/// carries a well-formed user identifier, none otherwise (a malformed
/// element is skipped, never fatal).
pub open spec fn member_of(sd: SubDocV) -> Seq<MoneyMapUserModelV> {
    match sub_get(sd, "user_id"@) {
        Some(ScalarV::Str(uid)) => if valid_object_id_hex(uid) {
            seq![
                MoneyMapUserModelV {
                    user: Some(
                        OutUserModelV {
                            id: Some(ObjectId { value: hex_value(uid) as u128 }),
                            first_name: None,
                            last_name: None,
                            email: None,
                        },
                    ),
                    owner: member_owner(sd),
                },
            ]
        } else {
            Seq::empty()
        },
        _ => Seq::empty(),
    }
}

/// All membership records of an array, malformed elements skipped.
pub open spec fn members_of(a: Seq<SubDocV>) -> Seq<MoneyMapUserModelV>
    decreases a.len(),
{
    if a.len() == 0 {
        Seq::empty()
    } else {
        members_of(a.drop_last()) + member_of(a.last())
    }
}

/// The model a stored money map document reads as: absent or mismatched
/// fields map to `None`.
pub open spec fn money_map_of_doc(d: DocV) -> MoneyMapModelV {
    MoneyMapModelV {
        id: match doc_get(d, "_id"@) {
            Some(ValueV::Scalar(ScalarV::Id(o))) => Some(o),
            _ => None,
        },
        name: match doc_get(d, "name"@) {
            Some(ValueV::Scalar(ScalarV::Str(s))) => Some(s),
            _ => None,
        },
        users: match doc_get(d, "users"@) {
            Some(ValueV::Array(a)) => Some(members_of(a)),
            _ => None,
        },
    }
}

/// The view of a list of money map models.
pub open spec fn money_maps_view(s: Seq<MoneyMapModel>) -> Seq<MoneyMapModelV> {
    Seq::new(s.len(), |i: int| s[i]@)
}

/// The view of a list of membership records.
pub open spec fn mm_users_view(s: Seq<MoneyMapUserModel>) -> Seq<MoneyMapUserModelV> {
    Seq::new(s.len(), |i: int| s[i]@)
}

/// The models of all documents that match `f` under the soft-delete scope,
/// in store order.
pub open spec fn matching_money_maps(docs: Seq<DocV>, f: Seq<CondV>) -> Seq<MoneyMapModelV>
    decreases docs.len(),
{
    if docs.len() == 0 {
        Seq::empty()
    } else {
        matching_money_maps(docs.drop_last(), f) + (if scoped_matches(f, docs.last()) {
            seq![money_map_of_doc(docs.last())]
        } else {
            Seq::empty()
        })
    }
}

// ---------------------------------------------------------------------------
// The document a create builds.
// ---------------------------------------------------------------------------

/// The single owner membership record `create` seeds.
pub open spec fn owner_member_sub_doc(uid: Seq<char>) -> SubDocV {
    seq![("user_id"@, ScalarV::Str(uid)), ("owner"@, ScalarV::Bool(true))]
}

/// The document `create` inserts, before the store assigns `_id`: not
/// deleted, the client-settable name if present, and exactly one owner
/// membership record. The `deleted` flag is never client-settable.
pub open spec fn money_map_create_doc(name: Option<Seq<char>>, uid: Seq<char>) -> DocV {
    let base = seq![("deleted"@, ValueV::Scalar(ScalarV::Bool(false)))];
    let named = match name {
        Some(n) => base.push(("name"@, ValueV::Scalar(ScalarV::Str(n)))),
        None => base,
    };
    named.push(("users"@, ValueV::Array(seq![owner_member_sub_doc(uid)])))
}

/// The document as stored, with the assigned identifier appended.
pub open spec fn money_map_stored_doc(name: Option<Seq<char>>, uid: Seq<char>, oid: ObjectId) -> DocV {
    money_map_create_doc(name, uid).push(("_id"@, ValueV::Scalar(ScalarV::Id(oid))))
}

/// Whether a document carries exactly this identifier.
pub open spec fn has_id(d: DocV, id: ObjectId) -> bool {
    doc_get(d, "_id"@) == Some(ValueV::Scalar(ScalarV::Id(id)))
}

/// The documents an `update` may touch: identified and not soft-deleted.
pub open spec fn is_update_target(d: DocV, id: ObjectId) -> bool {
    has_id(d, id) && not_deleted(d)
}

/// The partial set document `update` writes: only the client-settable name,
/// when present on the model.
pub open spec fn name_set_doc(name: Option<Seq<char>>) -> DocV {
    match name {
        Some(n) => seq![("name"@, ValueV::Scalar(ScalarV::Str(n)))],
        None => Seq::empty(),
    }
}

/// The set document `delete` writes: only the soft-delete flag.
pub open spec fn delete_set_doc() -> DocV {
    seq![("deleted"@, ValueV::Scalar(ScalarV::Bool(true)))]
}

// ---------------------------------------------------------------------------
// Laws of the data-access layer.
// ---------------------------------------------------------------------------

/// What each field of a freshly stored money map document reads as, and that
/// the document is well formed.
pub proof fn lemma_stored_doc_fields(name: Option<Seq<char>>, uid: Seq<char>, oid: ObjectId)
    ensures
        ({
            let d = money_map_stored_doc(name, uid, oid);
            &&& doc_wf(d)
            &&& doc_get(d, "_id"@) == Some(ValueV::Scalar(ScalarV::Id(oid)))
            &&& doc_get(d, "deleted"@) == Some(ValueV::Scalar(ScalarV::Bool(false)))
            &&& doc_get(d, "name"@) == (match name {
                Some(n) => Some(ValueV::Scalar(ScalarV::Str(n))),
                None => None::<ValueV>,
            })
            &&& doc_get(d, "users"@) == Some(ValueV::Array(seq![owner_member_sub_doc(uid)]))
        }),
{
    mm_keys_distinct();
    let e = Seq::<(Seq<char>, ValueV)>::empty();
    assert(!doc_has_key(e, "deleted"@));
    let d1 = doc_set(e, "deleted"@, ValueV::Scalar(ScalarV::Bool(false)));
    assert(doc_wf(e));
    assert(value_wf(ValueV::Scalar(ScalarV::Bool(false))));
    lemma_doc_set_get(e, "deleted"@, ValueV::Scalar(ScalarV::Bool(false)));
    let d2 = match name {
        Some(n) => {
            lemma_doc_set_get(d1, "name"@, ValueV::Scalar(ScalarV::Str(n)));
            doc_set(d1, "name"@, ValueV::Scalar(ScalarV::Str(n)))
        },
        None => d1,
    };
    let users_val = ValueV::Array(seq![owner_member_sub_doc(uid)]);
    assert(value_wf(users_val)) by {
        assert(sub_wf(owner_member_sub_doc(uid)));
        assert(forall|i: int| 0 <= i < 1 ==> sub_wf((users_val->Array_0)[i]));
    }
    lemma_doc_set_get(d2, "users"@, users_val);
    let d3 = doc_set(d2, "users"@, users_val);
    lemma_doc_set_get(d3, "_id"@, ValueV::Scalar(ScalarV::Id(oid)));
    let d4 = doc_set(d3, "_id"@, ValueV::Scalar(ScalarV::Id(oid)));
    assert(d1 =~= e.push(("deleted"@, ValueV::Scalar(ScalarV::Bool(false)))));
    match name {
        Some(n) => {
            assert(d2 =~= d1.push(("name"@, ValueV::Scalar(ScalarV::Str(n)))));
        },
        None => {},
    }
    assert(d3 =~= d2.push(("users"@, users_val)));
    assert(d4 =~= d3.push(("_id"@, ValueV::Scalar(ScalarV::Id(oid)))));
    assert(d4 =~= money_map_stored_doc(name, uid, oid));
}

/// A freshly created money map is visible to its owner, and its membership
/// list reads back as exactly one record: the owner.
pub proof fn lemma_create_owner_visible(
    docs: Seq<DocV>,
    name: Option<Seq<char>>,
    uid: Seq<char>,
    oid: ObjectId,
)
    requires
        valid_object_id_hex(uid),
    ensures
        ({
            let d = money_map_stored_doc(name, uid, oid);
            let docs2 = docs.push(d);
            &&& crate::controllers::scope::mm_visible_to(d, oid, uid)
            &&& exists|i: int| 0 <= i < docs2.len() && crate::controllers::scope::mm_visible_to(
                #[trigger] docs2[i], oid, uid)
            &&& money_map_of_doc(d).users == Some(
                seq![
                    MoneyMapUserModelV {
                        user: Some(
                            OutUserModelV {
                                id: Some(ObjectId { value: hex_value(uid) as u128 }),
                                first_name: None,
                                last_name: None,
                                email: None,
                            },
                        ),
                        owner: true,
                    },
                ],
            )
        }),
{
    mm_keys_distinct();
    lemma_stored_doc_fields(name, uid, oid);
    let d = money_map_stored_doc(name, uid, oid);
    let sub = owner_member_sub_doc(uid);
    assert(sub[0].0 == "user_id"@ && sub[1].0 == "owner"@);
    assert(sub_wf(sub));
    assert(crate::store::document::sub_has_key(sub, "user_id"@));
    assert(sub_get(sub, "user_id"@) == Some(ScalarV::Str(uid))) by {
        let j = crate::store::document::sub_key_at(sub, "user_id"@);
        assert(0 <= j < 2 && sub[j].0 == "user_id"@);
        assert(j == 0);
    }
    assert(sub_get(sub, "owner"@) == Some(ScalarV::Bool(true))) by {
        assert(sub[1].0 == "owner"@);
        assert(crate::store::document::sub_has_key(sub, "owner"@));
        let j = crate::store::document::sub_key_at(sub, "owner"@);
        assert(0 <= j < 2 && sub[j].0 == "owner"@);
        assert(j == 1);
    }
    assert(member_owner(sub));
    let arr = seq![sub];
    assert(crate::controllers::scope::is_member(d, uid)) by {
        assert(sub_get(arr[0], "user_id"@) == Some(ScalarV::Str(uid)));
    }
    assert(crate::controllers::scope::mm_visible_to(d, oid, uid));
    let docs2 = docs.push(d);
    assert(docs2[docs.len() as int] == d);
    assert(members_of(arr) =~= member_of(sub)) by {
        assert(arr.len() == 1);
        assert(arr.drop_last() =~= Seq::<SubDocV>::empty());
        assert(arr.last() == sub);
        assert(members_of(arr) == members_of(arr.drop_last()) + member_of(sub));
        assert(members_of(Seq::<SubDocV>::empty()) == Seq::<MoneyMapUserModelV>::empty());
        assert(members_of(arr.drop_last()) == Seq::<MoneyMapUserModelV>::empty());
    }
    assert(money_map_of_doc(d).users == Some(member_of(sub)));
    assert(member_of(sub) =~= seq![
        MoneyMapUserModelV {
            user: Some(
                OutUserModelV {
                    id: Some(ObjectId { value: hex_value(uid) as u128 }),
                    first_name: None,
                    last_name: None,
                    email: None,
                },
            ),
            owner: true,
        },
    ]);
}

/// Re-applying the same update to the stored state it already produced
/// changes nothing: writing a model read back from the store is idempotent.
pub proof fn lemma_update_idempotent(
    docs: Seq<DocV>,
    i: int,
    id: ObjectId,
    name: Option<Seq<char>>,
)
    requires
        0 <= i < docs.len(),
        doc_wf(docs[i]),
        is_update_target(docs[i], id),
    ensures
        ({
            let once = docs.update(i, apply_set(docs[i], name_set_doc(name)));
            &&& is_update_target(once[i], id)
            &&& apply_set(once[i], name_set_doc(name)) == once[i]
            &&& once.update(i, apply_set(once[i], name_set_doc(name))) == once
        }),
{
    mm_keys_distinct();
    let s = name_set_doc(name);
    assert(doc_wf(s));
    assert(!doc_has_key(s, "_id"@) && !doc_has_key(s, "deleted"@)) by {
        if doc_has_key(s, "_id"@) {
            let j = doc_key_at(s, "_id"@);
            assert(s[j].0 == "_id"@ && s[j].0 == "name"@);
        }
        if doc_has_key(s, "deleted"@) {
            let j = doc_key_at(s, "deleted"@);
            assert(s[j].0 == "deleted"@ && s[j].0 == "name"@);
        }
    }
    lemma_apply_set(docs[i], s);
    let d1 = apply_set(docs[i], s);
    let once = docs.update(i, d1);
    assert(once[i] == d1);
    assert(doc_get(d1, "_id"@) == doc_get(docs[i], "_id"@));
    assert(doc_get(d1, "deleted"@) == doc_get(docs[i], "deleted"@));
    assert(is_update_target(d1, id));
    lemma_apply_set(d1, s);
    assert(apply_set(d1, s) =~= d1) by {
        match name {
            Some(n) => {
                assert(s =~= Seq::<(Seq<char>, ValueV)>::empty().push(
                    ("name"@, ValueV::Scalar(ScalarV::Str(n)))));
                assert(s.drop_last() =~= Seq::<(Seq<char>, ValueV)>::empty());
                assert(apply_set(d1, s.drop_last()) == d1);
                assert(doc_get(d1, "name"@) == Some(ValueV::Scalar(ScalarV::Str(n)))) by {
                    assert(s[0].0 == "name"@ && s[0].1 == ValueV::Scalar(ScalarV::Str(n)));
                }
                crate::store::document::lemma_doc_set_same(
                    d1, "name"@, ValueV::Scalar(ScalarV::Str(n)));
            },
            None => {
                assert(s.len() == 0);
            },
        }
    }
    assert(once.update(i, apply_set(d1, s)) =~= once);
}

/// Soft deletion never removes a document: the deleted row keeps its
/// identifier and stays in the collection, but no read carrying the implicit
/// soft-delete scope returns it any more.
pub proof fn lemma_delete_is_soft(docs: Seq<DocV>, i: int, id: ObjectId)
    requires
        0 <= i < docs.len(),
        doc_wf(docs[i]),
        has_id(docs[i], id),
        forall|j: int| 0 <= j < docs.len() && j != i ==> crate::store::collection::doc_id(
            #[trigger] docs[j]) != Some(id),
    ensures
        ({
            let docs2 = docs.update(i, apply_set(docs[i], delete_set_doc()));
            &&& docs2.len() == docs.len()
            &&& has_id(docs2[i], id)
            &&& !not_deleted(docs2[i])
            &&& forall|f: Seq<CondV>| !scoped_matches(f, docs2[i])
            &&& forall|j: int| 0 <= j < docs2.len() ==> !scoped_matches(
                seq![CondV::FieldEq("_id"@, ScalarV::Id(id))], #[trigger] docs2[j])
        }),
{
    mm_keys_distinct();
    let s = delete_set_doc();
    assert(doc_wf(s));
    assert(!doc_has_key(s, "_id"@)) by {
        if doc_has_key(s, "_id"@) {
            let j = doc_key_at(s, "_id"@);
            assert(s[j].0 == "_id"@ && s[j].0 == "deleted"@);
        }
    }
    lemma_apply_set(docs[i], s);
    let d2 = apply_set(docs[i], s);
    let docs2 = docs.update(i, d2);
    assert(doc_get(d2, "_id"@) == doc_get(docs[i], "_id"@));
    assert(doc_get(d2, "deleted"@) == Some(ValueV::Scalar(ScalarV::Bool(true)))) by {
        assert(s[0].0 == "deleted"@ && s[0].1 == ValueV::Scalar(ScalarV::Bool(true)));
    }
    assert(!not_deleted(d2));
    let idf = seq![CondV::FieldEq("_id"@, ScalarV::Id(id))];
    assert forall|j: int| 0 <= j < docs2.len()
        implies !scoped_matches(idf, #[trigger] docs2[j]) by {
        if j == i {
            assert(!not_deleted(docs2[j]));
        } else {
            assert(docs2[j] == docs[j]);
            if scoped_matches(idf, docs2[j]) {
                assert(crate::store::filter::cond_matches(idf[0], docs[j]));
                assert(doc_get(docs[j], "_id"@) == Some(ValueV::Scalar(ScalarV::Id(id))));
                assert(crate::store::collection::doc_id(docs[j]) == Some(id));
            }
        }
    }
}

// ---------------------------------------------------------------------------
// The executable mapper.
// ---------------------------------------------------------------------------

/// Read a stored document as a money map model, tolerantly: absent or
/// mismatched fields become `None`, malformed membership elements are
/// skipped.
pub fn document_to_model(doc: &Document) -> (m: MoneyMapModel)
    requires
        doc_wf(doc@),
    ensures
        m@ == money_map_of_doc(doc@),
{
    let id = match doc.get(&"_id".to_owned()) {
        Some(v) => match v {
            Value::Scalar(s) => match s {
                Scalar::Id(o) => Some(*o),
                _ => None,
            },
            _ => None,
        },
        None => None,
    };
    let name = match doc.get(&"name".to_owned()) {
        Some(v) => match v {
            Value::Scalar(s) => match s {
                Scalar::Str(n) => Some(n.clone()),
                _ => None,
            },
            _ => None,
        },
        None => None,
    };
    let users = match doc.get(&"users".to_owned()) {
        Some(val) => match val {
            Value::Array(a) => {
                proof {
                    assert(value_wf(doc@[doc_key_at(doc@, "users"@)].1));
                    assert(value_wf(val@));
                    assert forall|j: int| 0 <= j < a@.len()
                        implies sub_wf((#[trigger] a@[j])@) by {
                        assert((val@)->Array_0[j] == a@[j]@);
                    }
                }
                let n = a.len();
                let mut out: Vec<MoneyMapUserModel> = Vec::new();
                let ghost av = (val@)->Array_0;
                let mut i: usize = 0;
                while i < n
                    invariant
                        n == a.len(),
                        i <= n,
                        av == (val@)->Array_0,
                        av.len() == a@.len(),
                        forall|j: int| 0 <= j < a@.len() ==> (#[trigger] av[j]) == a@[j]@,
                        forall|j: int| 0 <= j < a@.len() ==> sub_wf((#[trigger] a@[j])@),
                        mm_users_view(out@) =~= members_of(av.subrange(0, i as int)),
                    decreases n - i,
                {
                    match a[i].get(&"user_id".to_owned()) {
                        Some(sc) => match sc {
                            Scalar::Str(uid_s) => match ObjectId::with_string(uid_s.as_str()) {
                                Some(oid) => {
                                    let owner = match a[i].get(&"owner".to_owned()) {
                                        Some(ow) => match ow {
                                            Scalar::Bool(b) => *b,
                                            _ => false,
                                        },
                                        None => false,
                                    };
                                    out.push(MoneyMapUserModel {
                                        user: Some(OutUserModel {
                                            id: Some(oid),
                                            first_name: None,
                                            last_name: None,
                                            email: None,
                                        }),
                                        owner,
                                    });
                                    proof {
                                        assert(member_of(av[i as int]) =~= seq![
                                            out@[out@.len() - 1]@,
                                        ]);
                                    }
                                },
                                None => {
                                    proof {
                                        assert(member_of(av[i as int]) =~= Seq::empty());
                                    }
                                },
                            },
                            _ => {
                                proof {
                                    assert(member_of(av[i as int]) =~= Seq::empty());
                                }
                            },
                        },
                        None => {
                            proof {
                                assert(member_of(av[i as int]) =~= Seq::empty());
                            }
                        },
                    }
                    proof {
                        let s1 = av.subrange(0, i as int + 1);
                        assert(s1.drop_last() =~= av.subrange(0, i as int));
                        assert(s1.last() == av[i as int]);
                        assert(mm_users_view(out@) =~= members_of(av.subrange(0, i as int))
                            + member_of(av[i as int]));
                    }
                    i = i + 1;
                }
                proof {
                    assert(av.subrange(0, n as int) =~= av);
                }
                Some(out)
            },
            _ => None,
        },
        None => None,
    };
    let m = MoneyMapModel { id, name, users };
    proof {
        assert(m@.users == money_map_of_doc(doc@).users);
    }
    m
}

// ---------------------------------------------------------------------------
// The accessor.
// ---------------------------------------------------------------------------

/// The money map collection's data accessor.
pub struct MoneyMapDAO {
    _priv: (),
}

impl MoneyMapDAO {
    pub fn new() -> MoneyMapDAO {
        MoneyMapDAO { _priv: () }
    }

    /// All money maps matching the filter, under the implicit soft-delete
    /// scope; store order is kept.
    pub fn find(&self, store: &Store, filter: &Vec<Cond>) -> (r: Vec<MoneyMapModel>)
        requires
            store_wf(store@),
        ensures
            money_maps_view(r@) == matching_money_maps(
                store@.money_maps.docs, filter_view(filter@)),
    {
        let coll = &store.money_maps;
        let n = coll.documents.len();
        let mut out: Vec<MoneyMapModel> = Vec::new();
        let ghost docs = store@.money_maps.docs;
        let mut i: usize = 0;
        while i < n
            invariant
                coll_wf(store@.money_maps),
                docs == store@.money_maps.docs,
                n == coll.documents.len(),
                coll == &store.money_maps,
                i <= n,
                docs.len() == n,
                money_maps_view(out@) =~= matching_money_maps(
                    docs.subrange(0, i as int), filter_view(filter@)),
            decreases n - i,
        {
            proof {
                assert(docs[i as int] == coll.documents@[i as int]@);
                assert(doc_wf(docs[i as int]));
            }
            if eval_scoped(filter, &coll.documents[i]) {
                let m = document_to_model(&coll.documents[i]);
                out.push(m);
            }
            proof {
                let s1 = docs.subrange(0, i as int + 1);
                assert(s1.drop_last() =~= docs.subrange(0, i as int));
                assert(s1.last() == docs[i as int]);
                assert(money_maps_view(out@) =~= matching_money_maps(
                    docs.subrange(0, i as int + 1), filter_view(filter@)));
            }
            i = i + 1;
        }
        proof {
            assert(docs.subrange(0, n as int) =~= docs);
            assert(money_maps_view(out@) =~= matching_money_maps(docs, filter_view(filter@)));
        }
        out
    }

    /// The first money map matching the filter under the soft-delete scope,
    /// if any matches.
    pub fn find_one(&self, store: &Store, filter: &Vec<Cond>) -> (r: Option<MoneyMapModel>)
        requires
            store_wf(store@),
        ensures
            r is Some <==> exists|i: int|
                0 <= i < store@.money_maps.docs.len() && scoped_matches(
                    filter_view(filter@), #[trigger] store@.money_maps.docs[i]),
            r matches Some(m) ==> exists|i: int|
                0 <= i < store@.money_maps.docs.len()
                && scoped_matches(filter_view(filter@), #[trigger] store@.money_maps.docs[i])
                && m@ == money_map_of_doc(store@.money_maps.docs[i]),
    {
        let coll = &store.money_maps;
        let n = coll.documents.len();
        let ghost docs = store@.money_maps.docs;
        let mut i: usize = 0;
        while i < n
            invariant
                coll_wf(store@.money_maps),
                docs == store@.money_maps.docs,
                n == coll.documents.len(),
                coll == &store.money_maps,
                i <= n,
                docs.len() == n,
                forall|j: int| 0 <= j < i ==> !scoped_matches(
                    filter_view(filter@), #[trigger] docs[j]),
            decreases n - i,
        {
            proof {
                assert(docs[i as int] == coll.documents@[i as int]@);
                assert(doc_wf(docs[i as int]));
            }
            if eval_scoped(filter, &coll.documents[i]) {
                let m = document_to_model(&coll.documents[i]);
                return Some(m);
            }
            i = i + 1;
        }
        None
    }

    /// Insert a new money map owned by `user_id`: the stored document is not
    /// deleted and its membership list holds exactly one record, the owner.
    pub fn create(&self, store: &mut Store, money_map: &MoneyMapModel, user_id: String) -> (r:
        MMResult<InsertOneResult>)
        requires
            store_wf(old(store)@),
            old(store)@.money_maps.next_id < u64::MAX,
        ensures
            store_wf(final(store)@),
            final(store)@.users == old(store)@.users,
            final(store)@.accounts == old(store)@.accounts,
            final(store)@.money_maps.next_id == old(store)@.money_maps.next_id + 1,
            r matches Ok(res) && res.acknowledged && res.inserted_id == Some(
                ObjectId { value: old(store)@.money_maps.next_id as u128 }),
            final(store)@.money_maps.docs == old(store)@.money_maps.docs.push(
                money_map_stored_doc(
                    money_map@.name,
                    user_id@,
                    ObjectId { value: old(store)@.money_maps.next_id as u128 },
                ),
            ),
    {
        let ghost uidv = user_id@;
        let mut member = EmbeddedDocument::new();
        member.push_field("user_id".to_owned(), Scalar::Str(user_id));
        proof {
            mm_keys_distinct();
            if crate::store::document::sub_has_key(member@, "owner"@) {
                let j = crate::store::document::sub_key_at(member@, "owner"@);
                assert(member@[j].0 == "owner"@);
            }
        }
        member.push_field("owner".to_owned(), Scalar::Bool(true));
        proof {
            assert(member@ =~= owner_member_sub_doc(uidv));
        }

        let mut doc = Document::new();
        doc.set("deleted".to_owned(), Value::Scalar(Scalar::Bool(false)));
        if let Some(n) = &money_map.name {
            doc.set("name".to_owned(), Value::Scalar(Scalar::Str(n.clone())));
        }
        let mut users: Vec<EmbeddedDocument> = Vec::new();
        users.push(member);
        let users_val = Value::Array(users);
        proof {
            mm_keys_distinct();
            assert((users_val@)->Array_0 =~= seq![owner_member_sub_doc(uidv)]);
            assert(value_wf(users_val@));
            assert(doc@ =~= match money_map@.name {
                Some(n) => seq![
                    ("deleted"@, ValueV::Scalar(ScalarV::Bool(false))),
                    ("name"@, ValueV::Scalar(ScalarV::Str(n))),
                ],
                None => seq![("deleted"@, ValueV::Scalar(ScalarV::Bool(false)))],
            });
        }
        doc.set("users".to_owned(), users_val);
        proof {
            assert(doc@ =~= money_map_create_doc(money_map@.name, uidv));
            if doc_has_key(doc@, "_id"@) {
                let j = doc_key_at(doc@, "_id"@);
                assert(doc@[j].0 == "_id"@);
            }
        }
        let result = store.money_maps.insert_one(doc);
        proof {
            assert(final(store)@.money_maps.docs =~= old(store)@.money_maps.docs.push(
                money_map_stored_doc(
                    money_map@.name,
                    uidv,
                    ObjectId { value: old(store)@.money_maps.next_id as u128 },
                ),
            ));
        }
        Ok(result)
    }

    /// Update an existing money map: write the client-settable fields of the
    /// model against its identifier, then re-read the stored row. Fails with
    /// a `DAO`-kind error when no identified, not-deleted document exists.
    pub fn update(&self, store: &mut Store, money_map: &MoneyMapModel) -> (r: MMResult<
        MoneyMapModel>)
        requires
            store_wf(old(store)@),
            money_map@.id is Some,
        ensures
            store_wf(final(store)@),
            final(store)@.users == old(store)@.users,
            final(store)@.accounts == old(store)@.accounts,
            final(store)@.money_maps.next_id == old(store)@.money_maps.next_id,
            ({
                let id = money_map@.id->0;
                let docs = old(store)@.money_maps.docs;
                &&& ((forall|i: int| 0 <= i < docs.len() ==> !is_update_target(
                    #[trigger] docs[i], id)) ==> (r matches Err(e)
                        && e.kind_of() == MMErrorKind::DAO
                        && e.message() == "Unable to save money map"@
                        && final(store)@.money_maps.docs == docs))
                &&& ((exists|i: int| 0 <= i < docs.len() && is_update_target(
                    #[trigger] docs[i], id)) ==> (exists|i: int|
                        0 <= i < docs.len() && is_update_target(#[trigger] docs[i], id)
                        && final(store)@.money_maps.docs == docs.update(
                            i, apply_set(docs[i], name_set_doc(money_map@.name)))
                        && (r matches Ok(m) && m@ == money_map_of_doc(
                            apply_set(docs[i], name_set_doc(money_map@.name))))))
            }),
    {
        let id: ObjectId = match &money_map.id {
            Some(o) => *o,
            None => {
                proof {
                    assert(false);
                }
                ObjectId { value: 0 }
            },
        };
        let mut filter: Vec<Cond> = Vec::new();
        filter.push(Cond::FieldEq("_id".to_owned(), Scalar::Id(id)));
        filter.push(Cond::FieldNe("deleted".to_owned(), Scalar::Bool(true)));
        proof {
            mm_keys_distinct();
            assert(filter_view(filter@) =~= seq![
                CondV::FieldEq("_id"@, ScalarV::Id(id)),
                CondV::FieldNe("deleted"@, ScalarV::Bool(true)),
            ]);
            assert forall|d: DocV| crate::store::filter::filter_matches(
                filter_view(filter@), d) == is_update_target(d, id) by {
                let fv = filter_view(filter@);
                assert(crate::store::filter::cond_matches(fv[0], d) == has_id(d, id));
                assert(crate::store::filter::cond_matches(fv[1], d) == not_deleted(d));
                if is_update_target(d, id) {
                    assert forall|i: int| 0 <= i < fv.len()
                        implies crate::store::filter::cond_matches(#[trigger] fv[i], d) by {
                        assert(i == 0 || i == 1);
                    }
                }
            }
        }
        let mut set = Document::new();
        if let Some(n) = &money_map.name {
            set.set("name".to_owned(), Value::Scalar(Scalar::Str(n.clone())));
        }
        proof {
            assert(set@ =~= name_set_doc(money_map@.name));
            if doc_has_key(set@, "_id"@) {
                let j = doc_key_at(set@, "_id"@);
                assert(set@[j].0 == "_id"@);
            }
        }
        let ghost docs = store@.money_maps.docs;
        let result = store.money_maps.update_one(&filter, &set);
        if result.matched_count > 0 {
            proof {
                let i = choose|i: int|
                    0 <= i < docs.len()
                    && crate::store::filter::filter_matches(filter_view(filter@), docs[i])
                    && store@.money_maps.docs == docs.update(
                        i, apply_set(docs[i], set@))
                    && (result.modified_count == 1 <==> apply_set(docs[i], set@) != docs[i]);
                assert(doc_wf(docs[i]));
                lemma_apply_set(docs[i], set@);
                let d2 = apply_set(docs[i], set@);
                assert(!doc_has_key(set@, "_id"@) && !doc_has_key(set@, "deleted"@)) by {
                    mm_keys_distinct();
                    if doc_has_key(set@, "_id"@) {
                        let j = doc_key_at(set@, "_id"@);
                        assert(set@[j].0 == "_id"@);
                    }
                    if doc_has_key(set@, "deleted"@) {
                        let j = doc_key_at(set@, "deleted"@);
                        assert(set@[j].0 == "deleted"@);
                    }
                }
                assert(doc_get(d2, "_id"@) == doc_get(docs[i], "_id"@));
                assert(doc_get(d2, "deleted"@) == doc_get(docs[i], "deleted"@));
                assert(is_update_target(d2, id));
                assert(store@.money_maps.docs[i] == d2);
            }
            let mut reread: Vec<Cond> = Vec::new();
            reread.push(Cond::FieldEq("_id".to_owned(), Scalar::Id(id)));
            proof {
                assert(filter_view(reread@) =~= seq![CondV::FieldEq("_id"@, ScalarV::Id(id))]);
                assert forall|d: DocV| crate::store::filter::scoped_matches(
                    filter_view(reread@), d) == is_update_target(d, id) by {
                    let fv = filter_view(reread@);
                    assert(crate::store::filter::cond_matches(fv[0], d) == has_id(d, id));
                    if is_update_target(d, id) {
                        assert forall|i: int| 0 <= i < fv.len()
                            implies crate::store::filter::cond_matches(#[trigger] fv[i], d) by {
                            assert(i == 0);
                        }
                    }
                }
            }
            match self.find_one(store, &reread) {
                Some(m) => {
                    proof {
                        // Identifier uniqueness pins the re-read row to the
                        // updated one.
                        let newdocs = store@.money_maps.docs;
                        let i = choose|i: int|
                            0 <= i < docs.len()
                            && crate::store::filter::filter_matches(
                                filter_view(filter@), docs[i])
                            && newdocs == docs.update(i, apply_set(docs[i], set@))
                            && (result.modified_count == 1 <==> apply_set(docs[i], set@)
                                != docs[i]);
                        let j = choose|j: int|
                            0 <= j < newdocs.len()
                            && crate::store::filter::scoped_matches(
                                filter_view(reread@), newdocs[j])
                            && m@ == money_map_of_doc(newdocs[j]);
                        assert(is_update_target(newdocs[j], id));
                        assert(has_id(newdocs[j], id));
                        assert(crate::store::collection::doc_id(newdocs[j]) == Some(id));
                        assert(is_update_target(newdocs[i], id));
                        assert(crate::store::collection::doc_id(newdocs[i]) == Some(id));
                        if i != j {
                            assert(crate::store::collection::doc_id(newdocs[i])
                                != crate::store::collection::doc_id(newdocs[j]));
                        }
                        assert(m@ == money_map_of_doc(apply_set(docs[i], set@)));
                    }
                    Ok(m)
                },
                None => Err(MMError::new("Unable to save money map", MMErrorKind::DAO)),
            }
        } else {
            Err(MMError::new("Unable to save money map", MMErrorKind::DAO))
        }
    }

    /// Soft-delete a money map by its textual identifier: the document's
    /// `deleted` flag is set, the document itself is never removed. Fails
    /// with a `DAO`-kind error on a malformed identifier.
    pub fn delete(&self, store: &mut Store, money_map_id: &str) -> (r: MMResult<UpdateResult>)
        requires
            store_wf(old(store)@),
        ensures
            store_wf(final(store)@),
            final(store)@.users == old(store)@.users,
            final(store)@.accounts == old(store)@.accounts,
            final(store)@.money_maps.next_id == old(store)@.money_maps.next_id,
            !valid_object_id_hex(money_map_id@) ==> (r matches Err(e)
                && e.kind_of() == MMErrorKind::DAO
                && e.message() == "Failed to delete money map."@
                && final(store)@.money_maps.docs == old(store)@.money_maps.docs),
            valid_object_id_hex(money_map_id@) ==> ({
                let id = ObjectId { value: hex_value(money_map_id@) as u128 };
                let docs = old(store)@.money_maps.docs;
                &&& r matches Ok(res) && res.acknowledged && res.matched_count <= 1
                &&& ((forall|i: int| 0 <= i < docs.len() ==> !has_id(#[trigger] docs[i], id))
                    ==> (final(store)@.money_maps.docs == docs
                        && (r matches Ok(res) && res.matched_count == 0
                            && res.modified_count == 0)))
                &&& ((exists|i: int| 0 <= i < docs.len() && has_id(#[trigger] docs[i], id))
                    ==> (exists|i: int| 0 <= i < docs.len() && has_id(#[trigger] docs[i], id)
                        && final(store)@.money_maps.docs == docs.update(
                            i, apply_set(docs[i], delete_set_doc()))
                        && (r matches Ok(res) && res.matched_count == 1
                            && res.modified_count <= 1
                            && (res.modified_count == 1 <==> apply_set(
                                docs[i], delete_set_doc()) != docs[i]))))
            }),
    {
        match ObjectId::with_string(money_map_id) {
            Some(id) => {
                let mut filter: Vec<Cond> = Vec::new();
                filter.push(Cond::FieldEq("_id".to_owned(), Scalar::Id(id)));
                let mut set = Document::new();
                set.set("deleted".to_owned(), Value::Scalar(Scalar::Bool(true)));
                proof {
                    mm_keys_distinct();
                    assert(filter_view(filter@) =~= seq![
                        CondV::FieldEq("_id"@, ScalarV::Id(id)),
                    ]);
                    assert forall|d: DocV| crate::store::filter::filter_matches(
                        filter_view(filter@), d) == has_id(d, id) by {
                        let fv = filter_view(filter@);
                        assert(crate::store::filter::cond_matches(fv[0], d) == has_id(d, id));
                        if has_id(d, id) {
                            assert forall|i: int| 0 <= i < fv.len()
                                implies crate::store::filter::cond_matches(
                                    #[trigger] fv[i], d) by {
                                assert(i == 0);
                            }
                        }
                    }
                    assert(set@ =~= delete_set_doc());
                    if doc_has_key(set@, "_id"@) {
                        let j = doc_key_at(set@, "_id"@);
                        assert(set@[j].0 == "_id"@);
                    }
                }
                let result = store.money_maps.update_one(&filter, &set);
                Ok(result)
            },
            None => Err(MMError::new("Failed to delete money map.", MMErrorKind::DAO)),
        }
    }
}

} // verus!
