//! The authorization predicates the controllers compose at each call site.
//!
//! The data accessors are identifier-scoping-agnostic: the policy that a
//! money map is visible to a caller only when a membership record carries
//! the caller's user identifier (and the map is not soft-deleted) is
//! composed here, visibly, and conjoined onto every money-map-scoped query.

use vstd::prelude::*;
use crate::dao::money_map_dao::has_id;
use crate::store::document::{DocV, Scalar, ScalarV};
use crate::store::filter::{
    cond_matches, filter_view, not_deleted, scoped_matches, Cond, CondV,
};
use crate::store::object_id::ObjectId;

verus! {

/// Whether a membership record of this document carries the caller's user
/// identifier.
pub open spec fn is_member(d: DocV, uid: Seq<char>) -> bool {
    cond_matches(CondV::ArrayFieldEq("users"@, "user_id"@, ScalarV::Str(uid)), d)
}

/// Whether a money map document is visible to a caller: it carries the
/// identifier, the caller is a member, and it is not soft-deleted. Absence
/// and non-membership are indistinguishable by design.
pub open spec fn mm_visible_to(d: DocV, id: ObjectId, uid: Seq<char>) -> bool {
    has_id(d, id) && is_member(d, uid) && not_deleted(d)
}

/// The filter a money-map-scoped operation composes: target identifier,
/// caller membership, and the soft-delete scope spelled out.
pub fn mm_scope_filter(id: ObjectId, user_id: &str) -> (f: Vec<Cond>)
    ensures
        forall|d: DocV| scoped_matches(filter_view(f@), d) == mm_visible_to(d, id, user_id@),
{
    let mut f: Vec<Cond> = Vec::new();
    f.push(Cond::FieldEq("_id".to_owned(), Scalar::Id(id)));
    f.push(Cond::ArrayFieldEq("users".to_owned(), "user_id".to_owned(), Scalar::Str(
        user_id.to_owned())));
    f.push(Cond::FieldNe("deleted".to_owned(), Scalar::Bool(true)));
    proof {
        assert(filter_view(f@) =~= seq![
            CondV::FieldEq("_id"@, ScalarV::Id(id)),
            CondV::ArrayFieldEq("users"@, "user_id"@, ScalarV::Str(user_id@)),
            CondV::FieldNe("deleted"@, ScalarV::Bool(true)),
        ]);
        assert forall|d: DocV| scoped_matches(filter_view(f@), d) == mm_visible_to(
            d, id, user_id@) by {
            let fv = filter_view(f@);
            assert(cond_matches(fv[0], d) == has_id(d, id));
            assert(cond_matches(fv[1], d) == is_member(d, user_id@));
            assert(cond_matches(fv[2], d) == not_deleted(d));
            if mm_visible_to(d, id, user_id@) {
                assert forall|i: int| 0 <= i < fv.len() implies cond_matches(
                    #[trigger] fv[i], d) by {
                    assert(i == 0 || i == 1 || i == 2);
                }
            }
        }
    }
    f
}

/// The filter a caller-membership listing composes: member and not deleted.
pub fn member_filter(user_id: &str) -> (f: Vec<Cond>)
    ensures
        filter_view(f@) == seq![
            CondV::ArrayFieldEq("users"@, "user_id"@, ScalarV::Str(user_id@)),
            CondV::FieldNe("deleted"@, ScalarV::Bool(true)),
        ],
        forall|d: DocV| scoped_matches(filter_view(f@), d) == (is_member(d, user_id@)
            && not_deleted(d)),
{
    let mut f: Vec<Cond> = Vec::new();
    f.push(Cond::ArrayFieldEq("users".to_owned(), "user_id".to_owned(), Scalar::Str(
        user_id.to_owned())));
    f.push(Cond::FieldNe("deleted".to_owned(), Scalar::Bool(true)));
    proof {
        assert(filter_view(f@) =~= seq![
            CondV::ArrayFieldEq("users"@, "user_id"@, ScalarV::Str(user_id@)),
            CondV::FieldNe("deleted"@, ScalarV::Bool(true)),
        ]);
        assert forall|d: DocV| scoped_matches(filter_view(f@), d) == (is_member(d, user_id@)
            && not_deleted(d)) by {
            let fv = filter_view(f@);
            assert(cond_matches(fv[0], d) == is_member(d, user_id@));
            assert(cond_matches(fv[1], d) == not_deleted(d));
            if is_member(d, user_id@) && not_deleted(d) {
                assert forall|i: int| 0 <= i < fv.len() implies cond_matches(
                    #[trigger] fv[i], d) by {
                    assert(i == 0 || i == 1);
                }
            }
        }
    }
    f
}

/// The filter a by-identifier read composes.
pub fn by_id_filter(id: ObjectId) -> (f: Vec<Cond>)
    ensures
        forall|d: DocV| scoped_matches(filter_view(f@), d) == (has_id(d, id)
            && not_deleted(d)),
{
    let mut f: Vec<Cond> = Vec::new();
    f.push(Cond::FieldEq("_id".to_owned(), Scalar::Id(id)));
    proof {
        assert(filter_view(f@) =~= seq![CondV::FieldEq("_id"@, ScalarV::Id(id))]);
        assert forall|d: DocV| scoped_matches(filter_view(f@), d) == (has_id(d, id)
            && not_deleted(d)) by {
            let fv = filter_view(f@);
            assert(cond_matches(fv[0], d) == has_id(d, id));
            if has_id(d, id) && not_deleted(d) {
                assert forall|i: int| 0 <= i < fv.len() implies cond_matches(
                    #[trigger] fv[i], d) by {
                    assert(i == 0);
                }
            }
        }
    }
    f
}

} // verus!
