//! Query filters: conjunctions of field conditions over stored documents.
//!
//! The data-access layer supplies the mechanism (evaluating a filter); the
//! controllers supply the policy by composing, at each call site, the
//! conditions that scope a query to the caller's membership and to
//! not-deleted documents.

use vstd::prelude::*;
use crate::store::document::{
    doc_get, doc_key_at, doc_wf, scalar_eq, sub_get, value_wf, DocV, Document, Scalar, ScalarV,
    Value, ValueV,
};

verus! {

/// One condition of a filter.
pub enum Cond {
    /// The field holds exactly this scalar.
    FieldEq(String, Scalar),
    /// The field does not hold this scalar (an absent field qualifies).
    FieldNe(String, Scalar),
    /// The field is an array with some element whose sub-field holds this
    /// scalar.
    ArrayFieldEq(String, String, Scalar),
}

/// The mathematical value of a [`Cond`].
pub enum CondV {
    FieldEq(Seq<char>, ScalarV),
    FieldNe(Seq<char>, ScalarV),
    ArrayFieldEq(Seq<char>, Seq<char>, ScalarV),
}

impl View for Cond {
    type V = CondV;

    open spec fn view(&self) -> CondV {
        match self {
            Cond::FieldEq(k, v) => CondV::FieldEq(k@, v@),
            Cond::FieldNe(k, v) => CondV::FieldNe(k@, v@),
            Cond::ArrayFieldEq(k, sk, v) => CondV::ArrayFieldEq(k@, sk@, v@),
        }
    }
}

/// Whether a document satisfies one condition.
pub open spec fn cond_matches(c: CondV, d: DocV) -> bool {
    match c {
        CondV::FieldEq(k, v) => doc_get(d, k) == Some(ValueV::Scalar(v)),
        CondV::FieldNe(k, v) => doc_get(d, k) != Some(ValueV::Scalar(v)),
        CondV::ArrayFieldEq(k, sk, v) => match doc_get(d, k) {
            Some(ValueV::Array(a)) => exists|i: int|
                0 <= i < a.len() && sub_get(#[trigger] a[i], sk) == Some(v),
            _ => false,
        },
    }
}

/// The mathematical value of a whole filter.
pub open spec fn filter_view(f: Seq<Cond>) -> Seq<CondV> {
    Seq::new(f.len(), |i: int| f[i]@)
}

/// Whether a document satisfies every condition of a filter.
pub open spec fn filter_matches(f: Seq<CondV>, d: DocV) -> bool {
    forall|i: int| 0 <= i < f.len() ==> cond_matches(#[trigger] f[i], d)
}

/// The soft-delete read scope: a document is visible unless its `deleted`
/// field holds `true`; an absent or mismatched field counts as visible.
pub open spec fn not_deleted(d: DocV) -> bool {
    doc_get(d, "deleted"@) != Some(ValueV::Scalar(ScalarV::Bool(true)))
}

/// A caller-supplied filter conjoined with the implicit soft-delete scope
/// every read applies.
pub open spec fn scoped_matches(f: Seq<CondV>, d: DocV) -> bool {
    filter_matches(f, d) && not_deleted(d)
}

/// Whether the field at `key` holds exactly the scalar `v`.
fn field_eq_scalar(d: &Document, key: &String, v: &Scalar) -> (r: bool)
    requires
        doc_wf(d@),
    ensures
        r == (doc_get(d@, key@) == Some(ValueV::Scalar(v@))),
{
    match d.get(key) {
        Some(Value::Scalar(s)) => scalar_eq(s, v),
        Some(Value::Array(_)) => false,
        None => false,
    }
}

/// Decide whether a document satisfies one condition.
pub fn eval_cond(c: &Cond, d: &Document) -> (r: bool)
    requires
        doc_wf(d@),
    ensures
        r == cond_matches(c@, d@),
{
    match c {
        Cond::FieldEq(key, v) => field_eq_scalar(d, key, v),
        Cond::FieldNe(key, v) => !field_eq_scalar(d, key, v),
        Cond::ArrayFieldEq(key, sub_key, v) => {
            match d.get(key) {
                Some(val) => match val {
                    Value::Array(a) => {
                        proof {
                            assert(value_wf(d@[doc_key_at(d@, key@)].1));
                            assert(value_wf(val@));
                            assert forall|j: int| 0 <= j < a@.len()
                                implies crate::store::document::sub_wf((#[trigger] a@[j])@) by {
                                assert((val@)->Array_0[j] == a@[j]@);
                            }
                        }
                        let n = a.len();
                        let mut i: usize = 0;
                        while i < n
                            invariant
                                n == a.len(),
                                i <= n,
                                doc_wf(d@),
                                c@ == CondV::ArrayFieldEq(key@, sub_key@, v@),
                                doc_get(d@, key@) == Some(val@),
                                val@ == ValueV::Array(Seq::new(a@.len(), |j: int| a@[j]@)),
                                forall|j: int| 0 <= j < a@.len() ==>
                                    crate::store::document::sub_wf((#[trigger] a@[j])@),
                                forall|j: int| 0 <= j < i ==>
                                    sub_get((#[trigger] a@[j])@, sub_key@) != Some(v@),
                            decreases n - i,
                        {
                            match a[i].get(sub_key) {
                                Some(s) => {
                                    if scalar_eq(s, v) {
                                        proof {
                                            let av = (val@)->Array_0;
                                            assert(av[i as int] == a@[i as int]@);
                                            assert(sub_get(av[i as int], sub_key@) == Some(v@));
                                        }
                                        return true;
                                    }
                                },
                                None => {},
                            }
                            i = i + 1;
                        }
                        proof {
                            let av = (val@)->Array_0;
                            assert forall|j: int| 0 <= j < av.len()
                                implies sub_get(#[trigger] av[j], sub_key@) != Some(v@) by {
                                assert(av[j] == a@[j]@);
                            }
                        }
                        false
                    },
                    Value::Scalar(_) => false,
                },
                None => false,
            }
        },
    }
}

/// Decide whether a document is visible under the soft-delete scope.
pub fn eval_not_deleted(d: &Document) -> (r: bool)
    requires
        doc_wf(d@),
    ensures
        r == not_deleted(d@),
{
    !field_eq_scalar(d, &"deleted".to_owned(), &Scalar::Bool(true))
}

/// Decide whether a document satisfies every condition of a filter.
pub fn eval_filter(f: &Vec<Cond>, d: &Document) -> (r: bool)
    requires
        doc_wf(d@),
    ensures
        r == filter_matches(filter_view(f@), d@),
{
    let n = f.len();
    let mut i: usize = 0;
    while i < n
        invariant
            doc_wf(d@),
            n == f.len(),
            i <= n,
            forall|j: int| 0 <= j < i ==> cond_matches(filter_view(f@)[j], d@),
        decreases n - i,
    {
        if !eval_cond(&f[i], d) {
            proof {
                assert(filter_view(f@)[i as int] == f@[i as int]@);
            }
            return false;
        }
        proof {
            assert(filter_view(f@)[i as int] == f@[i as int]@);
        }
        i = i + 1;
    }
    true
}

/// Decide whether a document satisfies a filter under the soft-delete
/// scope.
pub fn eval_scoped(f: &Vec<Cond>, d: &Document) -> (r: bool)
    requires
        doc_wf(d@),
    ensures
        r == scoped_matches(filter_view(f@), d@),
{
    let m = eval_filter(f, d);
    m && eval_not_deleted(d)
}

} // verus!
