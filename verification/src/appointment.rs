//! The appointment entity and its two-state lifecycle.
//!
//! An appointment starts out active and may be canceled exactly once;
//! cancellation stamps the time and the reason and is never undone.

use vstd::prelude::*;
use crate::datetime::now_datetime_text;
use crate::errors::AppointmentEntityError;
use crate::identity::ID;

verus! {

/// The mathematical value of an appointment record.
pub struct AppointmentV {
    pub id: ID,
    pub patient_id: int,
    pub appointment_at: Seq<char>,
    pub specialty: Seq<char>,
    pub notes: Option<Seq<char>>,
    pub canceled: bool,
    pub canceled_at: Option<Seq<char>>,
    pub cancellation_reason: Option<Seq<char>>,
}

/// An appointment for one patient at one moment, in canonical timestamp
/// text, with its cancellation state.
#[derive(Debug, PartialEq)]
pub struct Appointment {
    pub id: ID,
    pub patient_id: i32,
    pub appointment_at: String,
    pub specialty: String,
    pub notes: Option<String>,
    pub canceled: bool,
    pub canceled_at: Option<String>,
    pub cancellation_reason: Option<String>,
}

impl View for Appointment {
    type V = AppointmentV;

    open spec fn view(&self) -> AppointmentV {
        AppointmentV {
            id: self.id,
            patient_id: self.patient_id as int,
            appointment_at: self.appointment_at@,
            specialty: self.specialty@,
            notes: self.notes.deep_view(),
            canceled: self.canceled,
            canceled_at: self.canceled_at.deep_view(),
            cancellation_reason: self.cancellation_reason.deep_view(),
        }
    }
}

impl DeepView for Appointment {
    type V = AppointmentV;

    open spec fn deep_view(&self) -> AppointmentV {
        self.view()
    }
}

/// A copy of an optional text field.
fn clone_opt_text(o: &Option<String>) -> (r: Option<String>)
    ensures
        r == *o,
{
    match o {
        Some(s) => Some(s.clone()),
        None => None,
    }
}

impl Clone for Appointment {
    fn clone(&self) -> (r: Self)
        ensures
            r == *self,
    {
        Appointment {
            id: self.id,
            patient_id: self.patient_id,
            appointment_at: self.appointment_at.clone(),
            specialty: self.specialty.clone(),
            notes: clone_opt_text(&self.notes),
            canceled: self.canceled,
            canceled_at: clone_opt_text(&self.canceled_at),
            cancellation_reason: clone_opt_text(&self.cancellation_reason),
        }
    }
}

impl Appointment {
    /// An active appointment that has not been persisted yet; the patient
    /// reference must be a positive id.
    pub fn new(
        patient_id: i32,
        appointment_at: String,
        specialty: String,
        notes: Option<String>,
    ) -> (r: Result<Self, AppointmentEntityError>)
        ensures
            patient_id > 0 ==> (r matches Ok(a) && a@ == AppointmentV {
                id: ID::New,
                patient_id: patient_id as int,
                appointment_at: appointment_at@,
                specialty: specialty@,
                notes: notes.deep_view(),
                canceled: false,
                canceled_at: None,
                cancellation_reason: None,
            }),
            patient_id <= 0 ==> (r matches Err(e) && e
                == AppointmentEntityError::InvalidPatientId(patient_id)),
    {
        if patient_id <= 0 {
            return Err(AppointmentEntityError::InvalidPatientId(patient_id));
        }

        Ok(Appointment {
            id: ID::New,
            patient_id,
            appointment_at,
            specialty,
            notes,
            canceled: false,
            canceled_at: None,
            cancellation_reason: None,
        })
    }

    /// Cancels an active appointment: stamps the current time and records
    /// the reason. Never called on an appointment that is already canceled.
    pub fn cancel(&mut self, cancellation_reason: String)
        requires
            !old(self)@.canceled,
        ensures
            final(self)@.canceled_at matches Some(_),
            final(self)@ == (AppointmentV {
                canceled: true,
                canceled_at: final(self)@.canceled_at,
                cancellation_reason: Some(cancellation_reason@),
                ..old(self)@
            }),
    {
        self.canceled = true;
        self.canceled_at = Some(now_datetime_text());
        self.cancellation_reason = Some(cancellation_reason);
    }

    /// Whether the appointment has been canceled.
    pub fn is_canceled(&self) -> (r: bool)
        ensures
            r == self@.canceled,
    {
        self.canceled
    }
}

} // verus!
