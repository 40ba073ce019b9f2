//! Schemaless documents, as the store holds them.
//!
//! A document is an ordered list of key/value fields with pairwise-distinct
//! keys. A value is a scalar (identifier, string or boolean) or an array of
//! embedded documents whose fields are scalars only; that is exactly the
//! shape the entities of this system persist. Reads are tolerant: a missing
//! key is simply absent, and the mapper layer treats absent or mismatched
//! fields as defaults.

use vstd::prelude::*;
use crate::store::object_id::ObjectId;

verus! {

/// A scalar field value.
pub enum Scalar {
    Id(ObjectId),
    Str(String),
    Bool(bool),
}

/// The mathematical value of a [`Scalar`].
pub enum ScalarV {
    Id(ObjectId),
    Str(Seq<char>),
    Bool(bool),
}

impl View for Scalar {
    type V = ScalarV;

    open spec fn view(&self) -> ScalarV {
        match self {
            Scalar::Id(o) => ScalarV::Id(*o),
            Scalar::Str(s) => ScalarV::Str(s@),
            Scalar::Bool(b) => ScalarV::Bool(*b),
        }
    }
}

/// The mathematical value of an embedded document: its fields in order.
pub type SubDocV = Seq<(Seq<char>, ScalarV)>;

/// A flat document embedded in an array field; its values are scalars.
pub struct EmbeddedDocument {
    pub fields: Vec<(String, Scalar)>,
}

impl View for EmbeddedDocument {
    type V = SubDocV;

    open spec fn view(&self) -> SubDocV {
        Seq::new(self.fields@.len(), |i: int| (self.fields@[i].0@, self.fields@[i].1@))
    }
}

/// A top-level field value: a scalar or an array of embedded documents.
pub enum Value {
    Scalar(Scalar),
    Array(Vec<EmbeddedDocument>),
}

/// The mathematical value of a [`Value`].
pub enum ValueV {
    Scalar(ScalarV),
    Array(Seq<SubDocV>),
}

impl View for Value {
    type V = ValueV;

    open spec fn view(&self) -> ValueV {
        match self {
            Value::Scalar(s) => ValueV::Scalar(s@),
            Value::Array(a) => ValueV::Array(Seq::new(a@.len(), |i: int| a@[i]@)),
        }
    }
}

/// The mathematical value of a document: its fields in order.
pub type DocV = Seq<(Seq<char>, ValueV)>;

/// A top-level stored document.
pub struct Document {
    pub fields: Vec<(String, Value)>,
}

impl View for Document {
    type V = DocV;

    open spec fn view(&self) -> DocV {
        Seq::new(self.fields@.len(), |i: int| (self.fields@[i].0@, self.fields@[i].1@))
    }
}

// ---------------------------------------------------------------------------
// Well-formedness: keys are pairwise distinct, array elements likewise.
// ---------------------------------------------------------------------------

/// Keys of an embedded document are pairwise distinct.
pub open spec fn sub_wf(d: SubDocV) -> bool {
    forall|i: int, j: int| 0 <= i < d.len() && 0 <= j < d.len() && i != j ==> d[i].0 != d[j].0
}

/// A value is well formed when every embedded document in it is.
pub open spec fn value_wf(v: ValueV) -> bool {
    match v {
        ValueV::Scalar(_) => true,
        ValueV::Array(a) => forall|i: int| 0 <= i < a.len() ==> sub_wf(a[i]),
    }
}

/// A document is well formed: distinct keys, well-formed values.
pub open spec fn doc_wf(d: DocV) -> bool {
    &&& forall|i: int, j: int| 0 <= i < d.len() && 0 <= j < d.len() && i != j ==> d[i].0 != d[j].0
    &&& forall|i: int| 0 <= i < d.len() ==> value_wf(#[trigger] d[i].1)
}

// ---------------------------------------------------------------------------
// Lookup and update, at the specification level.
// ---------------------------------------------------------------------------

pub open spec fn sub_has_key(d: SubDocV, k: Seq<char>) -> bool {
    exists|i: int| 0 <= i < d.len() && d[i].0 == k
}

pub open spec fn sub_key_at(d: SubDocV, k: Seq<char>) -> int {
    choose|i: int| 0 <= i < d.len() && d[i].0 == k
}

/// The scalar stored under `k` in an embedded document, if any.
pub open spec fn sub_get(d: SubDocV, k: Seq<char>) -> Option<ScalarV> {
    if sub_has_key(d, k) {
        Some(d[sub_key_at(d, k)].1)
    } else {
        None
    }
}

pub open spec fn doc_has_key(d: DocV, k: Seq<char>) -> bool {
    exists|i: int| 0 <= i < d.len() && d[i].0 == k
}

pub open spec fn doc_key_at(d: DocV, k: Seq<char>) -> int {
    choose|i: int| 0 <= i < d.len() && d[i].0 == k
}

/// The value stored under `k` in a document, if any.
pub open spec fn doc_get(d: DocV, k: Seq<char>) -> Option<ValueV> {
    if doc_has_key(d, k) {
        Some(d[doc_key_at(d, k)].1)
    } else {
        None
    }
}

/// `d` with the field at `k` replaced, or appended when `k` is absent.
pub open spec fn doc_set(d: DocV, k: Seq<char>, v: ValueV) -> DocV {
    if doc_has_key(d, k) {
        d.update(doc_key_at(d, k), (k, v))
    } else {
        d.push((k, v))
    }
}

/// Setting a key yields that value at the key and leaves every other key as
/// it was; well-formedness is preserved.
pub proof fn lemma_doc_set_get(d: DocV, k: Seq<char>, v: ValueV)
    requires
        doc_wf(d),
        value_wf(v),
    ensures
        doc_wf(doc_set(d, k, v)),
        doc_get(doc_set(d, k, v), k) == Some(v),
        forall|k2: Seq<char>| k2 != k ==> doc_get(doc_set(d, k, v), k2) == doc_get(d, k2),
{
    let d2 = doc_set(d, k, v);
    if doc_has_key(d, k) {
        let i = doc_key_at(d, k);
        assert(0 <= i < d.len() && d[i].0 == k);
        assert(d2[i].0 == k);
        assert(doc_has_key(d2, k));
        let i2 = doc_key_at(d2, k);
        assert(0 <= i2 < d2.len() && d2[i2].0 == k);
        assert(i2 == i);
        assert forall|k2: Seq<char>| k2 != k implies doc_get(d2, k2) == doc_get(d, k2) by {
            if doc_has_key(d, k2) {
                let j = doc_key_at(d, k2);
                assert(j != i);
                assert(d2[j].0 == k2);
                assert(doc_has_key(d2, k2));
                let j2 = doc_key_at(d2, k2);
                assert(j2 != i);
                assert(d[j2].0 == k2);
                assert(j2 == j);
            } else {
                if doc_has_key(d2, k2) {
                    let j2 = doc_key_at(d2, k2);
                    assert(j2 != i);
                    assert(d[j2].0 == k2);
                }
            }
        }
    } else {
        assert(d2 == d.push((k, v)));
        let idx: int = d.len() as int;
        assert(0 <= idx < d2.len());
        assert(d2[idx].0 == k);
        assert(doc_has_key(d2, k));
        let i2 = doc_key_at(d2, k);
        assert forall|j: int| 0 <= j < d.len() implies d2[j].0 != k by {
            assert(d2[j] == d[j]);
        }
        assert(i2 == d.len());
        assert forall|k2: Seq<char>| k2 != k implies doc_get(d2, k2) == doc_get(d, k2) by {
            if doc_has_key(d, k2) {
                let j = doc_key_at(d, k2);
                assert(d2[j].0 == k2);
                let j2 = doc_key_at(d2, k2);
                assert(j2 != d.len());
                assert(d[j2].0 == k2);
            } else {
                if doc_has_key(d2, k2) {
                    let j2 = doc_key_at(d2, k2);
                    assert(j2 != d.len());
                    assert(d[j2].0 == k2);
                }
            }
        }
        assert forall|i: int, j: int|
            0 <= i < d2.len() && 0 <= j < d2.len() && i != j implies d2[i].0 != d2[j].0 by {
            if i < d.len() && j < d.len() {
                assert(d2[i] == d[i] && d2[j] == d[j]);
            } else if i == d.len() {
                assert(d2[j].0 != k);
            } else {
                assert(d2[i].0 != k);
            }
        }
    }
}

/// Setting a key to the value it already holds leaves the document as it is.
pub proof fn lemma_doc_set_same(d: DocV, k: Seq<char>, v: ValueV)
    requires
        doc_wf(d),
        doc_get(d, k) == Some(v),
    ensures
        doc_set(d, k, v) == d,
{
    let i = doc_key_at(d, k);
    assert(0 <= i < d.len() && d[i].0 == k);
    assert(d[i] == (k, v));
    assert(doc_set(d, k, v) =~= d);
}

// ---------------------------------------------------------------------------
// Executable operations.
// ---------------------------------------------------------------------------

/// Decide equality of two scalars, by content.
pub fn scalar_eq(a: &Scalar, b: &Scalar) -> (r: bool)
    ensures
        r == (a@ == b@),
{
    match (a, b) {
        (Scalar::Id(x), Scalar::Id(y)) => x.value == y.value,
        (Scalar::Str(x), Scalar::Str(y)) => x.eq(y),
        (Scalar::Bool(x), Scalar::Bool(y)) => x == y,
        _ => false,
    }
}

/// Copy a scalar, preserving its content.
pub fn scalar_clone(s: &Scalar) -> (r: Scalar)
    ensures
        r@ == s@,
{
    match s {
        Scalar::Id(o) => Scalar::Id(*o),
        Scalar::Str(t) => Scalar::Str(t.clone()),
        Scalar::Bool(b) => Scalar::Bool(*b),
    }
}

impl EmbeddedDocument {
    pub fn new() -> (d: EmbeddedDocument)
        ensures
            d@ == Seq::<(Seq<char>, ScalarV)>::empty(),
            sub_wf(d@),
    {
        let d = EmbeddedDocument { fields: Vec::new() };
        proof {
            assert(d@ =~= Seq::<(Seq<char>, ScalarV)>::empty());
        }
        d
    }

    /// The scalar stored under `key`, if any.
    pub fn get(&self, key: &String) -> (r: Option<&Scalar>)
        requires
            sub_wf(self@),
        ensures
            r is Some <==> sub_has_key(self@, key@),
            r matches Some(v) ==> sub_get(self@, key@) == Some(v@),
    {
        let n = self.fields.len();
        let mut i: usize = 0;
        while i < n
            invariant
                sub_wf(self@),
                n == self.fields.len(),
                i <= n,
                forall|j: int| 0 <= j < i ==> self@[j].0 != key@,
            decreases n - i,
        {
            if self.fields[i].0.eq(key) {
                proof {
                    assert(self@[i as int].0 == key@);
                    assert(sub_has_key(self@, key@));
                    let j = sub_key_at(self@, key@);
                    assert(0 <= j < self@.len() && self@[j].0 == key@);
                    assert(j == i as int);
                }
                return Some(&self.fields[i].1);
            }
            i = i + 1;
        }
        proof {
            if sub_has_key(self@, key@) {
                let j = sub_key_at(self@, key@);
                assert(self@[j].0 != key@);
            }
        }
        None
    }

    /// Append a fresh field. The key must not be present yet.
    pub fn push_field(&mut self, key: String, value: Scalar)
        requires
            sub_wf(old(self)@),
            !sub_has_key(old(self)@, key@),
        ensures
            final(self)@ == old(self)@.push((key@, value@)),
            sub_wf(final(self)@),
    {
        let ghost pre = self@;
        self.fields.push((key, value));
        proof {
            assert(self@ =~= pre.push((pre.len() as int, self@.last()).1));
            assert forall|i: int, j: int|
                0 <= i < self@.len() && 0 <= j < self@.len() && i != j
                implies self@[i].0 != self@[j].0 by {
                if i < pre.len() && j < pre.len() {
                    assert(self@[i] == pre[i] && self@[j] == pre[j]);
                } else if i == pre.len() {
                    assert(pre[j].0 != self@[i].0);
                } else {
                    assert(pre[i].0 != self@[j].0);
                }
            }
        }
    }
}

/// Copy an embedded document, preserving its content.
pub fn sub_doc_clone(d: &EmbeddedDocument) -> (r: EmbeddedDocument)
    ensures
        r@ == d@,
{
    let n = d.fields.len();
    let mut fields: Vec<(String, Scalar)> = Vec::new();
    let mut i: usize = 0;
    while i < n
        invariant
            n == d.fields.len(),
            i <= n,
            fields@.len() == i,
            forall|j: int| 0 <= j < i ==>
                (#[trigger] fields@[j]).0@ == d@[j].0 && fields@[j].1@ == d@[j].1,
        decreases n - i,
    {
        let key = d.fields[i].0.clone();
        let val = scalar_clone(&d.fields[i].1);
        fields.push((key, val));
        i = i + 1;
    }
    let r = EmbeddedDocument { fields };
    proof {
        assert(r@ =~= d@);
    }
    r
}

/// Copy a value, preserving its content.
pub fn value_clone(v: &Value) -> (r: Value)
    ensures
        r@ == v@,
{
    match v {
        Value::Scalar(s) => Value::Scalar(scalar_clone(s)),
        Value::Array(a) => {
            let n = a.len();
            let mut out: Vec<EmbeddedDocument> = Vec::new();
            let mut i: usize = 0;
            while i < n
                invariant
                    n == a.len(),
                    i <= n,
                    out@.len() == i,
                    forall|j: int| 0 <= j < i ==> (#[trigger] out@[j])@ == a@[j]@,
                decreases n - i,
            {
                out.push(sub_doc_clone(&a[i]));
                i = i + 1;
            }
            let r = Value::Array(out);
            proof {
                assert(r@ matches ValueV::Array(s) && s =~= v@->Array_0);
            }
            r
        },
    }
}

impl Document {
    pub fn new() -> (d: Document)
        ensures
            d@ == Seq::<(Seq<char>, ValueV)>::empty(),
            doc_wf(d@),
    {
        let d = Document { fields: Vec::new() };
        proof {
            assert(d@ =~= Seq::<(Seq<char>, ValueV)>::empty());
        }
        d
    }

    /// The value stored under `key`, if any.
    pub fn get(&self, key: &String) -> (r: Option<&Value>)
        requires
            doc_wf(self@),
        ensures
            r is Some <==> doc_has_key(self@, key@),
            r matches Some(v) ==> doc_get(self@, key@) == Some(v@),
    {
        let n = self.fields.len();
        let mut i: usize = 0;
        while i < n
            invariant
                doc_wf(self@),
                n == self.fields.len(),
                i <= n,
                forall|j: int| 0 <= j < i ==> self@[j].0 != key@,
            decreases n - i,
        {
            if self.fields[i].0.eq(key) {
                proof {
                    assert(self@[i as int].0 == key@);
                    assert(doc_has_key(self@, key@));
                    let j = doc_key_at(self@, key@);
                    assert(0 <= j < self@.len() && self@[j].0 == key@);
                    assert(j == i as int);
                }
                return Some(&self.fields[i].1);
            }
            i = i + 1;
        }
        proof {
            if doc_has_key(self@, key@) {
                let j = doc_key_at(self@, key@);
                assert(self@[j].0 != key@);
            }
        }
        None
    }

    /// Replace the field at `key`, or append it when absent.
    pub fn set(&mut self, key: String, value: Value)
        requires
            doc_wf(old(self)@),
            value_wf(value@),
        ensures
            final(self)@ == doc_set(old(self)@, key@, value@),
            doc_wf(final(self)@),
            doc_get(final(self)@, key@) == Some(value@),
            forall|k2: Seq<char>| k2 != key@ ==>
                doc_get(final(self)@, k2) == doc_get(old(self)@, k2),
    {
        let ghost pre = self@;
        let n = self.fields.len();
        let mut i: usize = 0;
        while i < n
            invariant
                old(self)@ == pre,
                self@ == pre,
                doc_wf(pre),
                value_wf(value@),
                n == self.fields.len(),
                i <= n,
                forall|j: int| 0 <= j < i ==> pre[j].0 != key@,
            decreases n - i,
        {
            if self.fields[i].0.eq(&key) {
                proof {
                    assert(pre[i as int].0 == key@);
                    assert(doc_has_key(pre, key@));
                    let j = doc_key_at(pre, key@);
                    assert(0 <= j < pre.len() && pre[j].0 == key@);
                    assert(j == i as int);
                }
                self.fields[i] = (key, value);
                proof {
                    lemma_doc_set_get(pre, key@, value@);
                    assert(self@ =~= pre.update(i as int, (key@, value@)));
                }
                return;
            }
            i = i + 1;
        }
        proof {
            if doc_has_key(pre, key@) {
                let j = doc_key_at(pre, key@);
                assert(pre[j].0 != key@);
            }
        }
        self.fields.push((key, value));
        proof {
            lemma_doc_set_get(pre, key@, value@);
            assert(self@ =~= pre.push((key@, value@)));
        }
    }
}

/// Decide equality of two embedded documents, by content.
pub fn sub_doc_eq(a: &EmbeddedDocument, b: &EmbeddedDocument) -> (r: bool)
    ensures
        r == (a@ == b@),
{
    let n = a.fields.len();
    if n != b.fields.len() {
        proof {
            assert(a@.len() != b@.len());
        }
        return false;
    }
    let mut i: usize = 0;
    while i < n
        invariant
            n == a.fields.len(),
            n == b.fields.len(),
            i <= n,
            forall|j: int| 0 <= j < i ==> a@[j] == b@[j],
        decreases n - i,
    {
        if !a.fields[i].0.eq(&b.fields[i].0) || !scalar_eq(&a.fields[i].1, &b.fields[i].1) {
            proof {
                assert(a@[i as int] != b@[i as int]);
                if a@ == b@ {
                    assert(a@[i as int] == b@[i as int]);
                }
            }
            return false;
        }
        proof {
            assert(a@[i as int] == b@[i as int]);
        }
        i = i + 1;
    }
    proof {
        assert(a@ =~= b@);
    }
    true
}

/// Decide equality of two values, by content.
pub fn value_eq(a: &Value, b: &Value) -> (r: bool)
    ensures
        r == (a@ == b@),
{
    match (a, b) {
        (Value::Scalar(x), Value::Scalar(y)) => scalar_eq(x, y),
        (Value::Array(x), Value::Array(y)) => {
            let n = x.len();
            if n != y.len() {
                proof {
                    assert((a@)->Array_0.len() != (b@)->Array_0.len());
                }
                return false;
            }
            let mut i: usize = 0;
            while i < n
                invariant
                    n == x.len(),
                    n == y.len(),
                    i <= n,
                    a@ == ValueV::Array(Seq::new(x@.len(), |j: int| x@[j]@)),
                    b@ == ValueV::Array(Seq::new(y@.len(), |j: int| y@[j]@)),
                    forall|j: int| 0 <= j < i ==> (#[trigger] x@[j])@ == y@[j]@,
                decreases n - i,
            {
                if !sub_doc_eq(&x[i], &y[i]) {
                    proof {
                        let xv = (a@)->Array_0;
                        let yv = (b@)->Array_0;
                        assert(xv[i as int] != yv[i as int]);
                        if a@ == b@ {
                            assert(xv[i as int] == yv[i as int]);
                        }
                    }
                    return false;
                }
                i = i + 1;
            }
            proof {
                assert((a@)->Array_0 =~= (b@)->Array_0);
            }
            true
        },
        _ => {
            proof {
                assert(a@ != b@);
            }
            false
        },
    }
}

} // verus!
