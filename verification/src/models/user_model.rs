//! User entity models.
//!
//! `UserModel` is the stored shape, password hash included; `OutUserModel`
//! is the public projection handed to callers, which never carries the
//! password.

use vstd::prelude::*;
use crate::store::object_id::ObjectId;

verus! {

/// The view of an optional string.
pub open spec fn opt_str(o: Option<String>) -> Option<Seq<char>> {
    match o {
        Some(s) => Some(s@),
        None => None,
    }
}

/// Copy an optional string, preserving its content.
pub fn opt_string_clone(o: &Option<String>) -> (r: Option<String>)
    ensures
        opt_str(r) == opt_str(*o),
{
    match o {
        Some(s) => Some(s.clone()),
        None => None,
    }
}

/// A stored user.
pub struct UserModel {
    pub id: Option<ObjectId>,
    pub first_name: Option<String>,
    pub last_name: Option<String>,
    pub email: Option<String>,
    pub password: Option<String>,
}

/// The mathematical value of a [`UserModel`].
pub struct UserModelV {
    pub id: Option<ObjectId>,
    pub first_name: Option<Seq<char>>,
    pub last_name: Option<Seq<char>>,
    pub email: Option<Seq<char>>,
    pub password: Option<Seq<char>>,
}

impl View for UserModel {
    type V = UserModelV;

    open spec fn view(&self) -> UserModelV {
        UserModelV {
            id: self.id,
            first_name: opt_str(self.first_name),
            last_name: opt_str(self.last_name),
            email: opt_str(self.email),
            password: opt_str(self.password),
        }
    }
}

/// A user's public fields: everything but the password.
pub struct OutUserModel {
    pub id: Option<ObjectId>,
    pub first_name: Option<String>,
    pub last_name: Option<String>,
    pub email: Option<String>,
}

/// The mathematical value of an [`OutUserModel`].
pub struct OutUserModelV {
    pub id: Option<ObjectId>,
    pub first_name: Option<Seq<char>>,
    pub last_name: Option<Seq<char>>,
    pub email: Option<Seq<char>>,
}

impl View for OutUserModel {
    type V = OutUserModelV;

    open spec fn view(&self) -> OutUserModelV {
        OutUserModelV {
            id: self.id,
            first_name: opt_str(self.first_name),
            last_name: opt_str(self.last_name),
            email: opt_str(self.email),
        }
    }
}

/// The public projection of a stored user.
pub open spec fn out_of_user(u: UserModelV) -> OutUserModelV {
    OutUserModelV { id: u.id, first_name: u.first_name, last_name: u.last_name, email: u.email }
}

impl OutUserModel {
    /// Project a stored user to its public fields, dropping the password.
    pub fn new(user: UserModel) -> (r: OutUserModel)
        ensures
            r@ == out_of_user(user@),
    {
        OutUserModel {
            id: user.id,
            first_name: user.first_name,
            last_name: user.last_name,
            email: user.email,
        }
    }
}

} // verus!
