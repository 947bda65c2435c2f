//! Booking an appointment: patient lookup, conflict check, persistence.

use vstd::prelude::*;
use vstd::string::StringExecFns;
use crate::application_errors::AppointmentApplicationError;
use crate::appointment::Appointment;
use crate::datetime::{parse_datetime_text, parsed_datetime};
use crate::dtos::BookAppointmentDTO;
use crate::repositories::{
    cpf_present, has_active, id_num, stored_appointment, AppointmentRepository, PatientRepository,
};

verus! {

/// The constraint text for a slot that is already taken.
pub open spec fn booking_conflict_message(cpf: Seq<char>, at: Seq<char>) -> Seq<char> {
    "There's already an appointment for patient with CPF: "@ + cpf + " at: "@ + at
}

/// Books an appointment for a patient found by cpf, enforcing that no
/// second active appointment exists for the same patient and time.
pub struct BookAppointmentUseCase<T: AppointmentRepository, P: PatientRepository> {
    pub appointment_repository: T,
    pub patient_repository: P,
}

impl<T: AppointmentRepository, P: PatientRepository> BookAppointmentUseCase<T, P> {
    /// A use case over the given stores.
    pub fn new(appointment_repository: T, patient_repository: P) -> (r: Self)
        ensures
            r.appointment_repository == appointment_repository,
            r.patient_repository == patient_repository,
    {
        Self { appointment_repository, patient_repository }
    }

    /// Books the appointment and returns the persisted entity.
    ///
    /// An unknown cpf is `PatientNotFound`; a timestamp that does not
    /// parse surfaces as `Unexpected`; a slot that already holds an
    /// active appointment is a `Constraint` and writes nothing; a storage
    /// fault surfaces as `Unexpected` and writes nothing.
    pub fn execute(&mut self, appointment: BookAppointmentDTO) -> (r: Result<
        Appointment,
        AppointmentApplicationError,
    >)
        requires
            old(self).patient_repository.wf(),
            old(self).appointment_repository.wf(),
        ensures
            final(self).patient_repository == old(self).patient_repository,
            final(self).appointment_repository.wf(),
            r matches Ok(a) ==> stored_appointment(a@) && !a@.canceled && a@.canceled_at is None
                && a@.cancellation_reason is None && a@.specialty == appointment.specialty@
                && a@.notes == appointment.notes.deep_view() && parsed_datetime(
                appointment.appointment_at@,
            ) == Ok::<Seq<char>, Seq<char>>(a@.appointment_at) && (exists|i: int|
                0 <= i < old(self).patient_repository.patients().len() && (#[trigger] old(self).patient_repository.patients()[i]).cpf == appointment.patient_cpf@ && id_num(
                    old(self).patient_repository.patients()[i].id,
                ) == a@.patient_id) && !has_active(
                old(self).appointment_repository.appointments(),
                a@.patient_id,
                a@.appointment_at,
            ) && final(self).appointment_repository.appointments() == old(self).appointment_repository.appointments().push(a@),
            r matches Err(e) ==> final(self).appointment_repository.appointments() == old(self).appointment_repository.appointments() && (match e {
                AppointmentApplicationError::PatientNotFound(c) => c@ == appointment.patient_cpf@
                    && !cpf_present(
                    old(self).patient_repository.patients(),
                    appointment.patient_cpf@,
                ),
                AppointmentApplicationError::Constraint(m) => (exists|i: int|
                    0 <= i < old(self).patient_repository.patients().len() && (#[trigger] old(self).patient_repository.patients()[i]).cpf == appointment.patient_cpf@ && (
                    parsed_datetime(appointment.appointment_at@) matches Ok(t) && has_active(
                        old(self).appointment_repository.appointments(),
                        id_num(old(self).patient_repository.patients()[i].id),
                        t,
                    ) && m@ == booking_conflict_message(appointment.patient_cpf@, t))),
                AppointmentApplicationError::Unexpected(_) => true,
                AppointmentApplicationError::NotFound(_) => false,
            }),
            old(self).patient_repository.infallible() && !cpf_present(
                old(self).patient_repository.patients(),
                appointment.patient_cpf@,
            ) ==> (r matches Err(AppointmentApplicationError::PatientNotFound(c)) && c@
                == appointment.patient_cpf@),
            old(self).patient_repository.infallible() && cpf_present(
                old(self).patient_repository.patients(),
                appointment.patient_cpf@,
            ) && parsed_datetime(appointment.appointment_at@) is Err ==> (r matches Err(
                AppointmentApplicationError::Unexpected(m),
            ) && (parsed_datetime(appointment.appointment_at@) matches Err(pe) && m@ == pe)),
            old(self).patient_repository.infallible()
                && old(self).appointment_repository.infallible() && cpf_present(
                old(self).patient_repository.patients(),
                appointment.patient_cpf@,
            ) && (parsed_datetime(appointment.appointment_at@) matches Ok(t) && (forall|i: int|
                0 <= i < old(self).patient_repository.patients().len() && (#[trigger] old(self).patient_repository.patients()[i]).cpf == appointment.patient_cpf@
                    ==> has_active(
                    old(self).appointment_repository.appointments(),
                    id_num(old(self).patient_repository.patients()[i].id),
                    t,
                ))) ==> (r matches Err(AppointmentApplicationError::Constraint(m)) && (
            parsed_datetime(appointment.appointment_at@) matches Ok(t) && m@
                == booking_conflict_message(appointment.patient_cpf@, t))),
            old(self).patient_repository.infallible()
                && old(self).appointment_repository.infallible() && cpf_present(
                old(self).patient_repository.patients(),
                appointment.patient_cpf@,
            ) && (parsed_datetime(appointment.appointment_at@) matches Ok(t) && (forall|i: int|
                0 <= i < old(self).patient_repository.patients().len() && (#[trigger] old(self).patient_repository.patients()[i]).cpf == appointment.patient_cpf@
                    ==> !has_active(
                    old(self).appointment_repository.appointments(),
                    id_num(old(self).patient_repository.patients()[i].id),
                    t,
                ))) ==> r is Ok,
    {
        let found = match self.patient_repository.find_by_cpf(appointment.patient_cpf.clone()) {
            Ok(found) => found,
            Err(e) => {
                return Err(AppointmentApplicationError::from(e));
            },
        };

        let patient = match found {
            Some(p) => p,
            None => {
                return Err(
                    AppointmentApplicationError::PatientNotFound(appointment.patient_cpf),
                );
            },
        };

        if !patient.id.is_existing() {
            return Err(AppointmentApplicationError::PatientNotFound(appointment.patient_cpf));
        }

        let patient_id = match patient.id.as_i32() {
            Some(n) => n,
            None => 0,
        };

        let at = match parse_datetime_text(appointment.appointment_at.as_str()) {
            Ok(t) => t,
            Err(m) => {
                return Err(AppointmentApplicationError::Unexpected(m));
            },
        };

        let appt = match Appointment::new(
            patient_id,
            at,
            appointment.specialty,
            appointment.notes,
        ) {
            Ok(a) => a,
            Err(e) => {
                return Err(AppointmentApplicationError::from_entity_error(e));
            },
        };

        match self.appointment_repository.exists_by_patient_id_and_appointment_at(
            patient_id,
            appt.appointment_at.as_str(),
        ) {
            Ok(true) => {
                let mut m = String::from_str(
                    "There's already an appointment for patient with CPF: ",
                );
                m.append(patient.cpf.as_str());
                m.append(" at: ");
                m.append(appt.appointment_at.as_str());
                proof {
                    assert(m@ =~= booking_conflict_message(
                        appointment.patient_cpf@,
                        appt.appointment_at@,
                    ));
                }
                return Err(AppointmentApplicationError::Constraint(m));
            },
            Ok(false) => {},
            Err(e) => {
                return Err(AppointmentApplicationError::from(e));
            },
        }

        match self.appointment_repository.save(&appt) {
            Ok(a) => Ok(a),
            Err(e) => Err(AppointmentApplicationError::from(e)),
        }
    }
}

} // verus!
