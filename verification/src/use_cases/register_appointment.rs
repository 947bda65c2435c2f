//! Registering an appointment directly by patient id.

use vstd::prelude::*;
use crate::application_errors::AppointmentApplicationError;
use crate::appointment::Appointment;
use crate::datetime::{parse_datetime_text, parsed_datetime};
use crate::dtos::CreateAppointmentDTO;
use crate::errors::AppointmentEntityError;
use crate::identity::ID;
use crate::repositories::{stored_appointment, AppointmentRepository, PatientRepository};
use crate::text::int_text;

verus! {

/// Registers an appointment for a patient named by id; the id must belong
/// to a stored patient.
pub struct RegisterAppointmentUseCase<T: AppointmentRepository, P: PatientRepository> {
    pub appointment_repository: T,
    pub patient_repository: P,
}

impl<T: AppointmentRepository, P: PatientRepository> RegisterAppointmentUseCase<T, P> {
    /// A use case over the given stores.
    pub fn new(appointment_repository: T, patient_repository: P) -> (r: Self)
        ensures
            r.appointment_repository == appointment_repository,
            r.patient_repository == patient_repository,
    {
        Self { appointment_repository, patient_repository }
    }

    /// Stores the appointment and returns the persisted entity.
    ///
    /// A patient id that is not positive, or a timestamp that does not
    /// parse, is a `Constraint`; an id that no stored patient carries is
    /// `PatientNotFound`; a storage fault surfaces as `Unexpected` and
    /// writes nothing.
    pub fn execute(&mut self, appointment: CreateAppointmentDTO) -> (r: Result<
        Appointment,
        AppointmentApplicationError,
    >)
        requires
            old(self).patient_repository.wf(),
            old(self).appointment_repository.wf(),
        ensures
            final(self).patient_repository == old(self).patient_repository,
            final(self).appointment_repository.wf(),
            r matches Ok(a) ==> stored_appointment(a@) && !a@.canceled && a@.patient_id
                == appointment.patient_id as int && appointment.patient_id > 0 && parsed_datetime(
                appointment.appointment_at@,
            ) == Ok::<Seq<char>, Seq<char>>(a@.appointment_at) && a@.specialty == appointment.specialty@ && a@.notes
                == appointment.notes.deep_view() && (exists|i: int|
                0 <= i < old(self).patient_repository.patients().len() && (#[trigger] old(self).patient_repository.patients()[i]).id == ID::Existing(appointment.patient_id))
                && final(self).appointment_repository.appointments() == old(self).appointment_repository.appointments().push(a@),
            r matches Err(e) ==> final(self).appointment_repository.appointments() == old(self).appointment_repository.appointments() && (match e {
                AppointmentApplicationError::Constraint(m) => (appointment.patient_id <= 0 && m@
                    == "Invalid patient ID: "@ + int_text(appointment.patient_id as int)) || (
                appointment.patient_id > 0 && (parsed_datetime(appointment.appointment_at@)
                    matches Err(pe) && m@ == "Invalid appointment at: "@ + pe)),
                AppointmentApplicationError::PatientNotFound(c) => appointment.patient_id > 0
                    && c@ == int_text(appointment.patient_id as int) && !(exists|i: int|
                    0 <= i < old(self).patient_repository.patients().len() && (#[trigger] old(self).patient_repository.patients()[i]).id == ID::Existing(
                        appointment.patient_id,
                    )),
                AppointmentApplicationError::Unexpected(_) => true,
                AppointmentApplicationError::NotFound(_) => false,
            }),
            appointment.patient_id <= 0 ==> (r matches Err(
                AppointmentApplicationError::Constraint(m),
            ) && m@ == "Invalid patient ID: "@ + int_text(appointment.patient_id as int)),
            appointment.patient_id > 0 && parsed_datetime(appointment.appointment_at@) is Err
                ==> (r matches Err(AppointmentApplicationError::Constraint(m)) && (parsed_datetime(
                appointment.appointment_at@,
            ) matches Err(pe) && m@ == "Invalid appointment at: "@ + pe)),
            old(self).patient_repository.infallible()
                && old(self).appointment_repository.infallible() && appointment.patient_id > 0
                && parsed_datetime(appointment.appointment_at@) is Ok && (exists|i: int|
                0 <= i < old(self).patient_repository.patients().len() && (#[trigger] old(self).patient_repository.patients()[i]).id == ID::Existing(appointment.patient_id))
                ==> r is Ok,
            old(self).patient_repository.infallible() && appointment.patient_id > 0
                && parsed_datetime(appointment.appointment_at@) is Ok && !(exists|i: int|
                0 <= i < old(self).patient_repository.patients().len() && (#[trigger] old(self).patient_repository.patients()[i]).id == ID::Existing(appointment.patient_id))
                ==> (r matches Err(AppointmentApplicationError::PatientNotFound(c)) && c@
                == int_text(appointment.patient_id as int)),
    {
        if appointment.patient_id <= 0 {
            return Err(
                AppointmentApplicationError::from_entity_error(
                    AppointmentEntityError::InvalidPatientId(appointment.patient_id),
                ),
            );
        }

        let at = match parse_datetime_text(appointment.appointment_at.as_str()) {
            Ok(t) => t,
            Err(m) => {
                return Err(
                    AppointmentApplicationError::from_entity_error(
                        AppointmentEntityError::InvalidAppointmentAt(m),
                    ),
                );
            },
        };

        let appt = match Appointment::new(
            appointment.patient_id,
            at,
            appointment.specialty,
            appointment.notes,
        ) {
            Ok(a) => a,
            Err(e) => {
                return Err(AppointmentApplicationError::from_entity_error(e));
            },
        };

        match self.patient_repository.find_by_id(appointment.patient_id) {
            Ok(Some(_)) => {},
            Ok(None) => {
                return Err(
                    AppointmentApplicationError::PatientNotFound(
                        crate::text::i32_text(appointment.patient_id),
                    ),
                );
            },
            Err(e) => {
                return Err(AppointmentApplicationError::from(e));
            },
        }

        match self.appointment_repository.save(&appt) {
            Ok(a) => Ok(a),
            Err(e) => Err(AppointmentApplicationError::from(e)),
        }
    }
}

} // verus!
