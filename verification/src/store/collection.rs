//! Collections of stored documents, and the store holding one collection per
//! entity.
//!
//! Every document in a collection carries a store-generated `_id` field;
//! identifiers are unique within the collection. Writes never remove a
//! document: deletion elsewhere in the system is a soft-delete flag, and the
//! only mutations a collection offers are inserting a fresh document and
//! updating the fields of the first document matching a filter.

use vstd::prelude::*;
use crate::store::document::{
    doc_get, doc_has_key, doc_set, doc_wf, lemma_doc_set_get, lemma_doc_set_same, value_eq,
    value_wf, DocV, Document, Scalar, ScalarV, Value, ValueV,
};
use crate::store::filter::{eval_filter, filter_matches, filter_view, Cond};
use crate::store::object_id::ObjectId;

verus! {

/// What an insert reports: the identifier the store assigned.
pub struct InsertOneResult {
    pub acknowledged: bool,
    pub inserted_id: Option<ObjectId>,
}

/// What an update reports: how many documents matched, and how many were
/// actually changed.
pub struct UpdateResult {
    pub acknowledged: bool,
    pub matched_count: u64,
    pub modified_count: u64,
}

/// The mathematical value of a collection.
pub struct CollectionV {
    pub docs: Seq<DocV>,
    pub next_id: u64,
}

/// One collection of documents with a fresh-identifier counter.
pub struct Collection {
    pub documents: Vec<Document>,
    pub next_id: u64,
}

impl View for Collection {
    type V = CollectionV;

    open spec fn view(&self) -> CollectionV {
        CollectionV {
            docs: Seq::new(self.documents@.len(), |i: int| self.documents@[i]@),
            next_id: self.next_id,
        }
    }
}

/// The identifier a document carries, if it carries a well-typed one.
pub open spec fn doc_id(d: DocV) -> Option<ObjectId> {
    match doc_get(d, "_id"@) {
        Some(ValueV::Scalar(ScalarV::Id(o))) => Some(o),
        _ => None,
    }
}

/// Collection well-formedness: documents are well formed, each carries an
/// identifier assigned from the counter, and identifiers are unique.
pub open spec fn coll_wf(c: CollectionV) -> bool {
    &&& forall|i: int| 0 <= i < c.docs.len() ==> doc_wf(#[trigger] c.docs[i])
    &&& forall|i: int| 0 <= i < c.docs.len() ==>
        ((#[trigger] doc_id(c.docs[i])) matches Some(o) && o.value < c.next_id as u128)
    &&& forall|i: int, j: int|
        0 <= i < c.docs.len() && 0 <= j < c.docs.len() && i != j ==>
            doc_id(c.docs[i]) != doc_id(c.docs[j])
}

/// `d` with every field of `s` applied in order, each replacing or appending.
pub open spec fn apply_set(d: DocV, s: DocV) -> DocV
    decreases s.len(),
{
    if s.len() == 0 {
        d
    } else {
        doc_set(apply_set(d, s.drop_last()), s.last().0, s.last().1)
    }
}

/// Applying a set document gives each of its keys its value, leaves every
/// other key as it was, and preserves well-formedness.
pub proof fn lemma_apply_set(d: DocV, s: DocV)
    requires
        doc_wf(d),
        doc_wf(s),
    ensures
        doc_wf(apply_set(d, s)),
        forall|k: Seq<char>| !doc_has_key(s, k) ==>
            doc_get(apply_set(d, s), k) == doc_get(d, k),
        forall|i: int| 0 <= i < s.len() ==>
            doc_get(apply_set(d, s), (#[trigger] s[i]).0) == Some(s[i].1),
    decreases s.len(),
{
    if s.len() > 0 {
        let s0 = s.drop_last();
        let last = s.last();
        assert(doc_wf(s0)) by {
            assert(forall|i: int| 0 <= i < s0.len() ==> s0[i] == s[i]);
        }
        lemma_apply_set(d, s0);
        assert(value_wf(last.1)) by {
            assert(s[s.len() - 1].1 == last.1);
        }
        lemma_doc_set_get(apply_set(d, s0), last.0, last.1);
        assert forall|k: Seq<char>| !doc_has_key(s, k)
            implies doc_get(apply_set(d, s), k) == doc_get(d, k) by {
            assert(s[s.len() - 1].0 == last.0);
            assert(k != last.0);
            assert(!doc_has_key(s0, k)) by {
                if doc_has_key(s0, k) {
                    let j = crate::store::document::doc_key_at(s0, k);
                    assert(s[j].0 == k);
                }
            }
        }
        assert forall|i: int| 0 <= i < s.len()
            implies doc_get(apply_set(d, s), (#[trigger] s[i]).0) == Some(s[i].1) by {
            if i == s.len() - 1 {
                assert(doc_get(apply_set(d, s), last.0) == Some(last.1));
            } else {
                assert(s0[i] == s[i]);
                assert(s[i].0 != last.0);
                assert(doc_get(apply_set(d, s), s[i].0) == doc_get(apply_set(d, s0), s[i].0));
            }
        }
    }
}

impl Collection {
    /// A fresh, empty collection.
    pub fn new() -> (c: Collection)
        ensures
            c@.docs == Seq::<DocV>::empty(),
            c@.next_id == 0,
            coll_wf(c@),
    {
        let c = Collection { documents: Vec::new(), next_id: 0 };
        proof {
            assert(c@.docs =~= Seq::<DocV>::empty());
        }
        c
    }

    /// The index of the first document matching `filter`, if any matches.
    pub fn find_first(&self, filter: &Vec<Cond>) -> (r: Option<usize>)
        requires
            coll_wf(self@),
        ensures
            r is None <==> (forall|i: int| 0 <= i < self@.docs.len() ==>
                !filter_matches(filter_view(filter@), #[trigger] self@.docs[i])),
            r matches Some(i) ==> i < self@.docs.len()
                && filter_matches(filter_view(filter@), self@.docs[i as int])
                && (forall|j: int| 0 <= j < i ==>
                    !filter_matches(filter_view(filter@), #[trigger] self@.docs[j])),
    {
        let n = self.documents.len();
        let mut i: usize = 0;
        while i < n
            invariant
                coll_wf(self@),
                n == self.documents.len(),
                i <= n,
                forall|j: int| 0 <= j < i ==>
                    !filter_matches(filter_view(filter@), #[trigger] self@.docs[j]),
            decreases n - i,
        {
            proof {
                assert(self@.docs[i as int] == self.documents@[i as int]@);
                assert(doc_wf(self@.docs[i as int]));
            }
            if eval_filter(filter, &self.documents[i]) {
                proof {
                    assert(self@.docs[i as int] == self.documents@[i as int]@);
                }
                return Some(i);
            }
            proof {
                assert(self@.docs[i as int] == self.documents@[i as int]@);
            }
            i = i + 1;
        }
        None
    }

    /// Insert a fresh document; the store assigns and returns its
    /// identifier.
    pub fn insert_one(&mut self, doc: Document) -> (r: InsertOneResult)
        requires
            coll_wf(old(self)@),
            doc_wf(doc@),
            !doc_has_key(doc@, "_id"@),
            old(self).next_id < u64::MAX,
        ensures
            coll_wf(final(self)@),
            r.acknowledged,
            r.inserted_id == Some(ObjectId { value: old(self)@.next_id as u128 }),
            final(self)@.next_id == old(self)@.next_id + 1,
            final(self)@.docs == old(self)@.docs.push(
                doc_set(doc@, "_id"@, ValueV::Scalar(ScalarV::Id(
                    ObjectId { value: old(self)@.next_id as u128 },
                ))),
            ),
    {
        let ghost pre = self@;
        let oid = ObjectId { value: self.next_id as u128 };
        let mut d = doc;
        d.set("_id".to_owned(), Value::Scalar(Scalar::Id(oid)));
        let ghost dv = d@;
        self.documents.push(d);
        self.next_id = self.next_id + 1;
        proof {
            assert(self@.docs =~= pre.docs.push(dv));
            assert(doc_id(dv) == Some(oid));
            let c2 = self@;
            assert forall|i: int| 0 <= i < c2.docs.len()
                implies ((#[trigger] doc_id(c2.docs[i])) matches Some(o)
                    && o.value < c2.next_id as u128) by {
                if i < pre.docs.len() {
                    assert(c2.docs[i] == pre.docs[i]);
                } else {
                    assert(c2.docs[i] == dv);
                }
            }
            assert forall|i: int, j: int|
                0 <= i < c2.docs.len() && 0 <= j < c2.docs.len() && i != j
                implies doc_id(c2.docs[i]) != doc_id(c2.docs[j]) by {
                if i < pre.docs.len() && j < pre.docs.len() {
                    assert(c2.docs[i] == pre.docs[i] && c2.docs[j] == pre.docs[j]);
                } else if i == pre.docs.len() {
                    assert(doc_id(pre.docs[j]) matches Some(o) && o.value < pre.next_id as u128);
                } else {
                    assert(doc_id(pre.docs[i]) matches Some(o) && o.value < pre.next_id as u128);
                }
            }
            assert forall|i: int| 0 <= i < c2.docs.len()
                implies doc_wf(#[trigger] c2.docs[i]) by {
                if i < pre.docs.len() {
                    assert(c2.docs[i] == pre.docs[i]);
                } else {
                    assert(c2.docs[i] == dv);
                }
            }
        }
        InsertOneResult { acknowledged: true, inserted_id: Some(oid) }
    }

    /// Apply `set` to the first document matching `filter`, reporting how
    /// many documents matched and whether the match was actually changed.
    pub fn update_one(&mut self, filter: &Vec<Cond>, set: &Document) -> (r: UpdateResult)
        requires
            coll_wf(old(self)@),
            doc_wf(set@),
            !doc_has_key(set@, "_id"@),
        ensures
            coll_wf(final(self)@),
            r.acknowledged,
            r.matched_count <= 1,
            r.modified_count <= 1,
            final(self)@.next_id == old(self)@.next_id,
            r.matched_count == 0 ==> final(self)@.docs == old(self)@.docs
                && r.modified_count == 0
                && (forall|i: int| 0 <= i < old(self)@.docs.len() ==>
                    !filter_matches(filter_view(filter@), #[trigger] old(self)@.docs[i])),
            r.matched_count == 1 ==> exists|i: int|
                0 <= i < old(self)@.docs.len()
                && filter_matches(filter_view(filter@), #[trigger] old(self)@.docs[i])
                && final(self)@.docs == old(self)@.docs.update(
                    i, apply_set(old(self)@.docs[i], set@))
                && (r.modified_count == 1 <==> apply_set(old(self)@.docs[i], set@)
                    != old(self)@.docs[i]),
            (exists|i: int| 0 <= i < old(self)@.docs.len()
                && filter_matches(filter_view(filter@), #[trigger] old(self)@.docs[i]))
                ==> r.matched_count == 1,
    {
        let ghost pre = self@;
        match self.find_first(filter) {
            None => UpdateResult { acknowledged: true, matched_count: 0, modified_count: 0 },
            Some(i) => {
                let ghost d0 = pre.docs[i as int];
                proof {
                    assert(doc_wf(d0));
                    lemma_apply_set(d0, set@);
                }
                let m = set.fields.len();
                let mut j: usize = 0;
                let mut changed = false;
                while j < m
                    invariant
                        coll_wf(pre),
                        old(self)@ == pre,
                        doc_wf(set@),
                        doc_wf(d0),
                        i < pre.docs.len(),
                        d0 == pre.docs[i as int],
                        m == set.fields.len(),
                        j <= m,
                        i < self.documents@.len(),
                        self@.docs == pre.docs.update(
                            i as int, apply_set(d0, set@.subrange(0, j as int))),
                        self@.next_id == pre.next_id,
                        doc_wf(apply_set(d0, set@.subrange(0, j as int))),
                        changed <==> apply_set(d0, set@.subrange(0, j as int)) != d0,
                    decreases m - j,
                {
                    let ghost sj = set@.subrange(0, j as int);
                    let ghost sj1 = set@.subrange(0, j as int + 1);
                    let ghost cur = apply_set(d0, sj);
                    proof {
                        assert(sj1.drop_last() =~= sj);
                        assert(sj1.last() == set@[j as int]);
                        assert(doc_wf(sj)) by {
                            assert(forall|x: int| 0 <= x < sj.len() ==> sj[x] == set@[x]);
                        }
                        lemma_apply_set(d0, sj);
                        assert(value_wf(set@[j as int].1));
                        lemma_doc_set_get(cur, set@[j as int].0, set@[j as int].1);
                        assert(self@.docs[i as int] == cur);
                    }
                    let key_ref = &set.fields[j].0;
                    let same = match self.documents[i].get(key_ref) {
                        Some(existing) => value_eq(existing, &set.fields[j].1),
                        None => false,
                    };
                    if same {
                        proof {
                            lemma_doc_set_same(cur, set@[j as int].0, set@[j as int].1);
                            assert(apply_set(d0, sj1) == cur);
                            assert(self@.docs =~= pre.docs.update(
                                i as int, apply_set(d0, sj1)));
                        }
                    } else {
                        let key = set.fields[j].0.clone();
                        let val = crate::store::document::value_clone(&set.fields[j].1);
                        let ghost docs_before = self.documents@;
                        let ghost view_before = self@.docs;
                        proof {
                            assert(key@ == set@[j as int].0);
                            assert(val@ == set@[j as int].1);
                            assert(docs_before[i as int]@ == cur);
                        }
                        self.documents[i].set(key, val);
                        proof {
                            assert(self.documents@ == docs_before.update(
                                i as int, self.documents@[i as int]));
                            assert(self.documents@[i as int]@ == doc_set(
                                cur, set@[j as int].0, set@[j as int].1));
                            assert(apply_set(d0, sj1) == doc_set(
                                cur, set@[j as int].0, set@[j as int].1));
                            assert(self@.docs.len() == self.documents@.len());
                            assert(self.documents@.len() == docs_before.len());
                            assert(view_before.len() == docs_before.len());
                            assert(view_before.len() == pre.docs.len());
                            assert forall|x: int| 0 <= x < self@.docs.len()
                                implies self@.docs[x] == pre.docs.update(
                                    i as int, apply_set(d0, sj1))[x] by {
                                assert(self@.docs[x] == self.documents@[x]@);
                                if x != i {
                                    assert(self.documents@[x] == docs_before[x]);
                                    assert(view_before[x] == docs_before[x]@);
                                    assert(view_before[x] == pre.docs.update(i as int, cur)[x]);
                                    assert(pre.docs.update(i as int, cur)[x] == pre.docs[x]);
                                } else {
                                    assert(self@.docs[x] == apply_set(d0, sj1));
                                }
                            }
                            assert(self@.docs =~= pre.docs.update(
                                i as int, apply_set(d0, sj1)));
                            // The key was not set before this step, so its
                            // old value in `cur` is its value in `d0`; the
                            // new value differs from it.
                            let k = set@[j as int].0;
                            assert(!doc_has_key(sj, k)) by {
                                if doc_has_key(sj, k) {
                                    let x = crate::store::document::doc_key_at(sj, k);
                                    assert(set@[x].0 == k);
                                    assert(set@[x].0 != set@[j as int].0);
                                }
                            }
                            assert(doc_get(cur, k) == doc_get(d0, k));
                            assert(doc_get(apply_set(d0, sj1), k) == Some(set@[j as int].1));
                            assert(apply_set(d0, sj1) != d0);
                        }
                        changed = true;
                    }
                    j = j + 1;
                }
                proof {
                    assert(set@.subrange(0, m as int) =~= set@);
                    let df = apply_set(d0, set@);
                    assert(self@.docs == pre.docs.update(i as int, df));
                    lemma_apply_set(d0, set@);
                    // Well-formedness of the whole collection is preserved:
                    // the set document carries no `_id`, so the updated
                    // document keeps its identifier.
                    assert(doc_get(df, "_id"@) == doc_get(d0, "_id"@));
                    assert(doc_id(df) == doc_id(d0));
                    let c2 = self@;
                    assert forall|x: int| 0 <= x < c2.docs.len()
                        implies doc_wf(#[trigger] c2.docs[x]) by {
                        if x != i {
                            assert(c2.docs[x] == pre.docs[x]);
                        }
                    }
                    assert forall|x: int| 0 <= x < c2.docs.len()
                        implies ((#[trigger] doc_id(c2.docs[x])) matches Some(o)
                            && o.value < c2.next_id as u128) by {
                        if x != i {
                            assert(c2.docs[x] == pre.docs[x]);
                        } else {
                            assert(doc_id(pre.docs[x]) matches Some(o)
                                && o.value < pre.next_id as u128);
                        }
                    }
                    assert forall|x: int, y: int|
                        0 <= x < c2.docs.len() && 0 <= y < c2.docs.len() && x != y
                        implies doc_id(c2.docs[x]) != doc_id(c2.docs[y]) by {
                        assert(doc_id(c2.docs[x]) == doc_id(pre.docs[x]));
                        assert(doc_id(c2.docs[y]) == doc_id(pre.docs[y]));
                    }
                }
                let modified: u64 = if changed { 1 } else { 0 };
                UpdateResult { acknowledged: true, matched_count: 1, modified_count: modified }
            },
        }
    }
}

/// The mathematical value of the whole store.
pub struct StoreV {
    pub money_maps: CollectionV,
    pub users: CollectionV,
    pub accounts: CollectionV,
}

/// The document store: one collection per entity.
pub struct Store {
    pub money_maps: Collection,
    pub users: Collection,
    pub accounts: Collection,
}

impl View for Store {
    type V = StoreV;

    open spec fn view(&self) -> StoreV {
        StoreV { money_maps: self.money_maps@, users: self.users@, accounts: self.accounts@ }
    }
}

/// Store well-formedness: every collection is well formed.
pub open spec fn store_wf(s: StoreV) -> bool {
    coll_wf(s.money_maps) && coll_wf(s.users) && coll_wf(s.accounts)
}

impl Store {
    /// A fresh, empty store.
    pub fn new() -> (s: Store)
        ensures
            store_wf(s@),
            s@.money_maps.docs == Seq::<DocV>::empty(),
            s@.users.docs == Seq::<DocV>::empty(),
            s@.accounts.docs == Seq::<DocV>::empty(),
    {
        Store { money_maps: Collection::new(), users: Collection::new(), accounts: Collection::new() }
    }
}

} // verus!
