//! Transport-facing failure categories.
//!
//! Each application error maps to one category here; the surrounding HTTP
//! layer turns a category into a status code and renders the message.

use vstd::prelude::*;
use vstd::string::StringExecFns;
use crate::application_errors::{AppointmentApplicationError, PatientApplicationError};

verus! {

/// The transport-facing category of a patient use-case failure.
#[derive(Debug, PartialEq, Eq)]
pub enum PatientHttpError {
    Constraint(String),
    Internal(String),
    NotFound(String),
}

/// The transport-facing category of an appointment use-case failure.
#[derive(Debug, PartialEq, Eq)]
pub enum AppointmentHttpError {
    Constraint(String),
    Internal(String),
    NotFound(String),
    PatientNotFound(String),
}

impl PatientHttpError {
    /// The text shown to a caller for this failure.
    pub fn message(&self) -> (r: String)
        ensures
            r@ == (match *self {
                PatientHttpError::Constraint(m) =>
                    "A constraint error occurred for the patient: "@ + m@,
                PatientHttpError::Internal(m) => "An internal error occurred for the patient: "@
                    + m@,
                PatientHttpError::NotFound(m) => "The patient could not be found: "@ + m@,
            }),
    {
        match self {
            PatientHttpError::Constraint(m) => {
                let mut s = String::from_str("A constraint error occurred for the patient: ");
                s.append(m.as_str());
                s
            },
            PatientHttpError::Internal(m) => {
                let mut s = String::from_str("An internal error occurred for the patient: ");
                s.append(m.as_str());
                s
            },
            PatientHttpError::NotFound(m) => {
                let mut s = String::from_str("The patient could not be found: ");
                s.append(m.as_str());
                s
            },
        }
    }
}

impl From<PatientApplicationError> for PatientHttpError {
    /// Conflicts map to `Constraint`, faults to `Internal`, misses to
    /// `NotFound`, each keeping its detail text.
    fn from(value: PatientApplicationError) -> Self {
        match value {
            PatientApplicationError::Conflict(m) => PatientHttpError::Constraint(m),
            PatientApplicationError::Unexpected(m) => PatientHttpError::Internal(m),
            PatientApplicationError::NotFound(m) => PatientHttpError::NotFound(m),
        }
    }
}

impl vstd::std_specs::convert::FromSpecImpl<PatientApplicationError> for PatientHttpError {
    open spec fn obeys_from_spec() -> bool {
        true
    }

    open spec fn from_spec(value: PatientApplicationError) -> Self {
        match value {
            PatientApplicationError::Conflict(m) => PatientHttpError::Constraint(m),
            PatientApplicationError::Unexpected(m) => PatientHttpError::Internal(m),
            PatientApplicationError::NotFound(m) => PatientHttpError::NotFound(m),
        }
    }
}

impl AppointmentHttpError {
    /// The text shown to a caller for this failure.
    pub fn message(&self) -> (r: String)
        ensures
            r@ == (match *self {
                AppointmentHttpError::Constraint(m) =>
                    "A constraint error occurred for the appointment: "@ + m@,
                AppointmentHttpError::Internal(m) =>
                    "An internal error occurred for the appointment: "@ + m@,
                AppointmentHttpError::NotFound(m) => "The appointment could not be found: "@ + m@,
                AppointmentHttpError::PatientNotFound(m) => "The patient could not be found: "@
                    + m@,
            }),
    {
        match self {
            AppointmentHttpError::Constraint(m) => {
                let mut s = String::from_str("A constraint error occurred for the appointment: ");
                s.append(m.as_str());
                s
            },
            AppointmentHttpError::Internal(m) => {
                let mut s = String::from_str("An internal error occurred for the appointment: ");
                s.append(m.as_str());
                s
            },
            AppointmentHttpError::NotFound(m) => {
                let mut s = String::from_str("The appointment could not be found: ");
                s.append(m.as_str());
                s
            },
            AppointmentHttpError::PatientNotFound(m) => {
                let mut s = String::from_str("The patient could not be found: ");
                s.append(m.as_str());
                s
            },
        }
    }
}

impl From<AppointmentApplicationError> for AppointmentHttpError {
    /// Constraints map to `Constraint`, faults to `Internal`, and the two
    /// lookup misses keep their distinction, each keeping its detail text.
    fn from(value: AppointmentApplicationError) -> Self {
        match value {
            AppointmentApplicationError::Constraint(m) => AppointmentHttpError::Constraint(m),
            AppointmentApplicationError::Unexpected(m) => AppointmentHttpError::Internal(m),
            AppointmentApplicationError::NotFound(m) => AppointmentHttpError::NotFound(m),
            AppointmentApplicationError::PatientNotFound(m) => {
                AppointmentHttpError::PatientNotFound(m)
            },
        }
    }
}

impl vstd::std_specs::convert::FromSpecImpl<AppointmentApplicationError> for AppointmentHttpError {
    open spec fn obeys_from_spec() -> bool {
        true
    }

    open spec fn from_spec(value: AppointmentApplicationError) -> Self {
        match value {
            AppointmentApplicationError::Constraint(m) => AppointmentHttpError::Constraint(m),
            AppointmentApplicationError::Unexpected(m) => AppointmentHttpError::Internal(m),
            AppointmentApplicationError::NotFound(m) => AppointmentHttpError::NotFound(m),
            AppointmentApplicationError::PatientNotFound(m) => {
                AppointmentHttpError::PatientNotFound(m)
            },
        }
    }
}

} // verus!
