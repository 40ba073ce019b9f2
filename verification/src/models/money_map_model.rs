//! Money map entity models.
//!
//! A money map is a budget shared among a set of users; each membership
//! record pairs a user with an owner flag, and exactly one record per map
//! carries `owner = true`.

use vstd::prelude::*;
use crate::common::validation::ValidationResult;
use crate::models::user_model::{opt_str, OutUserModel, OutUserModelV};
use crate::store::object_id::ObjectId;

verus! {

/// One membership record joined with the member's public fields.
pub struct MoneyMapUserModel {
    pub user: Option<OutUserModel>,
    pub owner: bool,
}

/// The mathematical value of a [`MoneyMapUserModel`].
pub struct MoneyMapUserModelV {
    pub user: Option<OutUserModelV>,
    pub owner: bool,
}

impl View for MoneyMapUserModel {
    type V = MoneyMapUserModelV;

    open spec fn view(&self) -> MoneyMapUserModelV {
        MoneyMapUserModelV {
            user: match self.user {
                Some(u) => Some(u@),
                None => None,
            },
            owner: self.owner,
        }
    }
}

impl MoneyMapUserModel {
    pub fn new(user: OutUserModel, owner: bool) -> (r: MoneyMapUserModel)
        ensures
            r@ == (MoneyMapUserModelV { user: Some(user@), owner }),
    {
        MoneyMapUserModel { user: Some(user), owner }
    }
}

/// The view of an optional membership list.
pub open spec fn opt_users(o: Option<Seq<MoneyMapUserModel>>) -> Option<Seq<MoneyMapUserModelV>> {
    match o {
        Some(s) => Some(Seq::new(s.len(), |i: int| s[i]@)),
        None => None,
    }
}

/// A money map.
pub struct MoneyMapModel {
    pub id: Option<ObjectId>,
    pub name: Option<String>,
    pub users: Option<Vec<MoneyMapUserModel>>,
}

/// The mathematical value of a [`MoneyMapModel`].
pub struct MoneyMapModelV {
    pub id: Option<ObjectId>,
    pub name: Option<Seq<char>>,
    pub users: Option<Seq<MoneyMapUserModelV>>,
}

impl View for MoneyMapModel {
    type V = MoneyMapModelV;

    open spec fn view(&self) -> MoneyMapModelV {
        MoneyMapModelV {
            id: self.id,
            name: opt_str(self.name),
            users: match self.users {
                Some(u) => opt_users(Some(u@)),
                None => None,
            },
        }
    }
}

/// A money map payload is semantically valid when it carries a non-empty
/// name.
pub open spec fn money_map_payload_valid(m: MoneyMapModelV) -> bool {
    m.name matches Some(n) && n.len() > 0
}

/// Copy a membership record, preserving its content.
pub fn money_map_user_clone(m: &MoneyMapUserModel) -> (r: MoneyMapUserModel)
    ensures
        r@ == m@,
{
    MoneyMapUserModel {
        user: match &m.user {
            Some(u) => Some(OutUserModel {
                id: u.id,
                first_name: crate::models::user_model::opt_string_clone(&u.first_name),
                last_name: crate::models::user_model::opt_string_clone(&u.last_name),
                email: crate::models::user_model::opt_string_clone(&u.email),
            }),
            None => None,
        },
        owner: m.owner,
    }
}

impl MoneyMapModel {
    pub fn get_id(&self) -> (r: Option<ObjectId>)
        ensures
            r == self@.id,
    {
        self.id
    }

    pub fn get_name(&self) -> (r: Option<String>)
        ensures
            opt_str(r) == self@.name,
    {
        crate::models::user_model::opt_string_clone(&self.name)
    }

    pub fn get_users(&self) -> (r: Option<Vec<MoneyMapUserModel>>)
        ensures
            opt_users(match r {
                Some(u) => Some(u@),
                None => None,
            }) == self@.users,
    {
        match &self.users {
            Some(list) => {
                let n = list.len();
                let mut out: Vec<MoneyMapUserModel> = Vec::new();
                let mut i: usize = 0;
                while i < n
                    invariant
                        n == list.len(),
                        i <= n,
                        out@.len() == i,
                        forall|j: int| 0 <= j < i ==> (#[trigger] out@[j])@ == list@[j]@,
                    decreases n - i,
                {
                    out.push(money_map_user_clone(&list[i]));
                    i = i + 1;
                }
                proof {
                    assert(Seq::new(out@.len(), |j: int| out@[j]@) =~= Seq::new(
                        list@.len(), |j: int| list@[j]@));
                }
                Some(out)
            },
            None => None,
        }
    }

    pub fn set_id(&mut self, id: ObjectId)
        ensures
            final(self)@ == (MoneyMapModelV { id: Some(id), ..old(self)@ }),
    {
        self.id = Some(id);
    }

    pub fn set_users(&mut self, users: Option<Vec<MoneyMapUserModel>>)
        ensures
            final(self)@ == (MoneyMapModelV {
                users: opt_users(match users {
                    Some(u) => Some(u@),
                    None => None,
                }),
                ..old(self)@
            }),
    {
        self.users = users;
    }

    /// Validate the payload: the name is required and must be non-empty.
    pub fn validate(&self) -> (r: ValidationResult)
        ensures
            r@.len() == 0 <==> money_map_payload_valid(self@),
            !money_map_payload_valid(self@) ==> r@ =~= seq![("name"@, "Name is required."@)],
    {
        let mut result = ValidationResult::new();
        let valid = match &self.name {
            Some(n) => n.as_str().unicode_len() > 0,
            None => false,
        };
        if !valid {
            result.add_error("name", "Name is required.");
        }
        result
    }
}

} // verus!
