//! The identity of a persisted entity.
//!
//! An entity is either freshly constructed and not yet written to storage
//! (`New`), or it has been persisted under a positive numeric id
//! (`Existing`).

use vstd::prelude::*;

verus! {

/// The identifier of an entity: absent until the entity is persisted,
/// then a positive number chosen by storage.
#[derive(Clone, Copy, Debug, PartialEq, Eq, Structural)]
pub enum ID {
    New,
    Existing(i32),
}

/// The failure of constructing an `ID` from a number that is not positive.
#[derive(Clone, Copy, Debug, PartialEq, Eq, Structural)]
pub enum IdentityError {
    InvalidId(i32),
}

impl ID {
    /// True when the identity refers to a persisted entity with a positive id.
    pub open spec fn spec_is_existing(self) -> bool {
        self matches ID::Existing(n) && n > 0
    }

    /// The identity of an entity that has not been persisted yet.
    pub fn new() -> (r: ID)
        ensures
            r == ID::New,
    {
        ID::New
    }

    /// The identity of a persisted entity; only positive ids are accepted.
    pub fn existing(id: i32) -> (r: Result<ID, IdentityError>)
        ensures
            id > 0 ==> r == Ok::<ID, IdentityError>(ID::Existing(id)),
            id <= 0 ==> r == Err::<ID, IdentityError>(IdentityError::InvalidId(id)),
    {
        if id <= 0 {
            Err(IdentityError::InvalidId(id))
        } else {
            Ok(ID::Existing(id))
        }
    }

    /// Whether this identity was assigned by storage.
    pub fn is_existing(&self) -> (r: bool)
        ensures
            r == (*self matches ID::Existing(_)),
    {
        match self {
            ID::Existing(_) => true,
            ID::New => false,
        }
    }

    /// The numeric id, absent for an entity that was never persisted.
    pub fn as_i32(&self) -> (r: Option<i32>)
        ensures
            r == (match *self {
                ID::Existing(n) => Some(n),
                ID::New => None::<i32>,
            }),
    {
        match self {
            ID::Existing(n) => Some(*n),
            ID::New => None,
        }
    }
}

} // verus!
