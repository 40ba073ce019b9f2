//! The validation report every mutable entity produces before a write.
//!
//! A report is a list of field-name/violation-message pairs; it is valid
//! exactly when the list is empty. Validation always runs before any
//! mutating store call, and a payload that fails validation leaves the store
//! untouched.

use vstd::prelude::*;

verus! {

/// A field-level validation report.
pub struct ValidationResult {
    pub errors: Vec<(String, String)>,
}

impl View for ValidationResult {
    type V = Seq<(Seq<char>, Seq<char>)>;

    open spec fn view(&self) -> Seq<(Seq<char>, Seq<char>)> {
        Seq::new(self.errors@.len(), |i: int| (self.errors@[i].0@, self.errors@[i].1@))
    }
}

impl ValidationResult {
    /// An empty (valid) report.
    pub fn new() -> (r: ValidationResult)
        ensures
            r@ == Seq::<(Seq<char>, Seq<char>)>::empty(),
    {
        let r = ValidationResult { errors: Vec::new() };
        proof {
            assert(r@ =~= Seq::<(Seq<char>, Seq<char>)>::empty());
        }
        r
    }

    /// Record one violation against a field.
    pub fn add_error(&mut self, field: &str, message: &str)
        ensures
            final(self)@ == old(self)@.push((field@, message@)),
    {
        let ghost pre = self@;
        self.errors.push((field.to_owned(), message.to_owned()));
        proof {
            assert(self@ =~= pre.push((field@, message@)));
        }
    }

    /// True exactly when no violation was recorded.
    pub fn is_valid(&self) -> (r: bool)
        ensures
            r <==> self@.len() == 0,
    {
        self.errors.len() == 0
    }
}

} // verus!
