//! The administrator entity, looked up by email at login.

use vstd::prelude::*;
use crate::identity::ID;

verus! {

/// The mathematical value of an administrator record.
pub struct AdminV {
    pub id: ID,
    pub name: Seq<char>,
    pub email: Seq<char>,
    pub password_hash: Seq<char>,
}

/// An administrator account, restored from storage for authentication.
#[derive(Debug, PartialEq)]
pub struct Admin {
    pub id: ID,
    pub name: String,
    pub email: String,
    pub password_hash: String,
}

impl View for Admin {
    type V = AdminV;

    open spec fn view(&self) -> AdminV {
        AdminV {
            id: self.id,
            name: self.name@,
            email: self.email@,
            password_hash: self.password_hash@,
        }
    }
}

impl Clone for Admin {
    fn clone(&self) -> (r: Self)
        ensures
            r == *self,
    {
        Admin {
            id: self.id,
            name: self.name.clone(),
            email: self.email.clone(),
            password_hash: self.password_hash.clone(),
        }
    }
}

} // verus!
