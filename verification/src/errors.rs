//! Domain-level failures: invalid entity data and storage faults.

use vstd::prelude::*;
use vstd::string::StringExecFns;
use crate::text::int_text;

verus! {

/// A patient entity could not be built from the given data.
#[derive(Debug, PartialEq, Eq)]
pub enum PatientEntityError {
    InvalidId(i32),
}

/// An appointment entity could not be built from the given data.
#[derive(Debug, PartialEq, Eq)]
pub enum AppointmentEntityError {
    InvalidPatientId(i32),
    InvalidAppointmentAt(String),
}

/// A storage operation failed.
#[derive(Debug, PartialEq, Eq)]
pub enum RepositoryError {
    DatabaseError(String),
}

impl PatientEntityError {
    /// The text shown to a caller for this failure.
    pub fn message(&self) -> (r: String)
        ensures
            r@ == (match *self {
                PatientEntityError::InvalidId(id) => "An invalid ID was given for a patient: "@
                    + int_text(id as int),
            }),
    {
        match self {
            PatientEntityError::InvalidId(id) => {
                let mut s = String::from_str("An invalid ID was given for a patient: ");
                s.append(crate::text::i32_text(*id).as_str());
                s
            },
        }
    }
}

impl AppointmentEntityError {
    /// The text shown to a caller for this failure.
    pub fn message(&self) -> (r: String)
        ensures
            r@ == (match *self {
                AppointmentEntityError::InvalidPatientId(id) => "Invalid patient ID: "@
                    + int_text(id as int),
                AppointmentEntityError::InvalidAppointmentAt(m) => "Invalid appointment at: "@
                    + m@,
            }),
    {
        match self {
            AppointmentEntityError::InvalidPatientId(id) => {
                let mut s = String::from_str("Invalid patient ID: ");
                s.append(crate::text::i32_text(*id).as_str());
                s
            },
            AppointmentEntityError::InvalidAppointmentAt(m) => {
                let mut s = String::from_str("Invalid appointment at: ");
                s.append(m.as_str());
                s
            },
        }
    }
}

impl RepositoryError {
    /// The text shown to a caller for this failure.
    pub fn message(&self) -> (r: String)
        ensures
            r@ == (match *self {
                RepositoryError::DatabaseError(m) => "A database error occurred: "@ + m@,
            }),
    {
        match self {
            RepositoryError::DatabaseError(m) => {
                let mut s = String::from_str("A database error occurred: ");
                s.append(m.as_str());
                s
            },
        }
    }
}

} // verus!
