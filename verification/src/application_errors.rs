//! Application-level failures, one sum type per use-case family.
//!
//! Storage faults convert uniformly into `Unexpected`; entity construction
//! failures convert into `Constraint`.

use vstd::prelude::*;
use vstd::string::StringExecFns;
use crate::errors::{AppointmentEntityError, RepositoryError};
use crate::text::int_text;

verus! {

/// A failure of one of the patient use cases.
#[derive(Debug, PartialEq, Eq)]
pub enum PatientApplicationError {
    Conflict(String),
    Unexpected(String),
    NotFound(String),
}

/// A failure of one of the appointment use cases.
#[derive(Debug, PartialEq, Eq)]
pub enum AppointmentApplicationError {
    Constraint(String),
    Unexpected(String),
    NotFound(String),
    PatientNotFound(String),
}

/// A failure of the administrator login use case.
#[derive(Debug, PartialEq, Eq)]
pub enum AdminApplicationError {
    Unexpected(String),
    NotFound(String),
    LoginFailed(String),
}

impl PatientApplicationError {
    /// The text shown to a caller for this failure.
    pub fn message(&self) -> (r: String)
        ensures
            r@ == (match *self {
                PatientApplicationError::Conflict(m) =>
                    "The following conflict occurred when writing a patient: "@ + m@,
                PatientApplicationError::Unexpected(m) => "An unexpected error occurred: "@ + m@,
                PatientApplicationError::NotFound(m) =>
                    "A patient with the following CPF was not found: "@ + m@,
            }),
    {
        match self {
            PatientApplicationError::Conflict(m) => {
                let mut s = String::from_str(
                    "The following conflict occurred when writing a patient: ",
                );
                s.append(m.as_str());
                s
            },
            PatientApplicationError::Unexpected(m) => {
                let mut s = String::from_str("An unexpected error occurred: ");
                s.append(m.as_str());
                s
            },
            PatientApplicationError::NotFound(m) => {
                let mut s = String::from_str("A patient with the following CPF was not found: ");
                s.append(m.as_str());
                s
            },
        }
    }
}

impl From<RepositoryError> for PatientApplicationError {
    /// Storage faults surface as `Unexpected`, keeping the detail text.
    fn from(value: RepositoryError) -> Self {
        match value {
            RepositoryError::DatabaseError(m) => PatientApplicationError::Unexpected(m),
        }
    }
}

impl vstd::std_specs::convert::FromSpecImpl<RepositoryError> for PatientApplicationError {
    open spec fn obeys_from_spec() -> bool {
        true
    }

    open spec fn from_spec(value: RepositoryError) -> Self {
        match value {
            RepositoryError::DatabaseError(m) => PatientApplicationError::Unexpected(m),
        }
    }
}

impl AppointmentApplicationError {
    /// The text shown to a caller for this failure. Constraint and lookup
    /// details are already full sentences and pass through unchanged.
    pub fn message(&self) -> (r: String)
        ensures
            r@ == (match *self {
                AppointmentApplicationError::Constraint(m) => m@,
                AppointmentApplicationError::Unexpected(m) => "An unexpected error occurred: "@
                    + m@,
                AppointmentApplicationError::NotFound(m) => m@,
                AppointmentApplicationError::PatientNotFound(m) =>
                    "A patient with the following CPF was not found: "@ + m@,
            }),
    {
        match self {
            AppointmentApplicationError::Constraint(m) => m.clone(),
            AppointmentApplicationError::Unexpected(m) => {
                let mut s = String::from_str("An unexpected error occurred: ");
                s.append(m.as_str());
                s
            },
            AppointmentApplicationError::NotFound(m) => m.clone(),
            AppointmentApplicationError::PatientNotFound(m) => {
                let mut s = String::from_str("A patient with the following CPF was not found: ");
                s.append(m.as_str());
                s
            },
        }
    }

    /// Entity construction failures surface as `Constraint`, carrying the
    /// entity error's own message.
    pub fn from_entity_error(value: AppointmentEntityError) -> (r: Self)
        ensures
            r matches AppointmentApplicationError::Constraint(m) && m@ == (match value {
                AppointmentEntityError::InvalidPatientId(id) => "Invalid patient ID: "@
                    + int_text(id as int),
                AppointmentEntityError::InvalidAppointmentAt(t) => "Invalid appointment at: "@
                    + t@,
            }),
    {
        AppointmentApplicationError::Constraint(value.message())
    }
}

impl From<RepositoryError> for AppointmentApplicationError {
    /// Storage faults surface as `Unexpected`, keeping the detail text.
    fn from(value: RepositoryError) -> Self {
        match value {
            RepositoryError::DatabaseError(m) => AppointmentApplicationError::Unexpected(m),
        }
    }
}

impl vstd::std_specs::convert::FromSpecImpl<RepositoryError> for AppointmentApplicationError {
    open spec fn obeys_from_spec() -> bool {
        true
    }

    open spec fn from_spec(value: RepositoryError) -> Self {
        match value {
            RepositoryError::DatabaseError(m) => AppointmentApplicationError::Unexpected(m),
        }
    }
}

impl AdminApplicationError {
    /// The text shown to a caller for this failure. A login failure is
    /// already a full sentence and passes through unchanged.
    pub fn message(&self) -> (r: String)
        ensures
            r@ == (match *self {
                AdminApplicationError::Unexpected(m) => "An unexpected error occurred: "@ + m@,
                AdminApplicationError::NotFound(m) =>
                    "An admin with the following email was not found: "@ + m@,
                AdminApplicationError::LoginFailed(m) => m@,
            }),
    {
        match self {
            AdminApplicationError::Unexpected(m) => {
                let mut s = String::from_str("An unexpected error occurred: ");
                s.append(m.as_str());
                s
            },
            AdminApplicationError::NotFound(m) => {
                let mut s = String::from_str(
                    "An admin with the following email was not found: ",
                );
                s.append(m.as_str());
                s
            },
            AdminApplicationError::LoginFailed(m) => m.clone(),
        }
    }
}

impl From<RepositoryError> for AdminApplicationError {
    /// Storage faults surface as `Unexpected`, keeping the detail text.
    fn from(value: RepositoryError) -> Self {
        match value {
            RepositoryError::DatabaseError(m) => AdminApplicationError::Unexpected(m),
        }
    }
}

impl vstd::std_specs::convert::FromSpecImpl<RepositoryError> for AdminApplicationError {
    open spec fn obeys_from_spec() -> bool {
        true
    }

    open spec fn from_spec(value: RepositoryError) -> Self {
        match value {
            RepositoryError::DatabaseError(m) => AdminApplicationError::Unexpected(m),
        }
    }
}

} // verus!
