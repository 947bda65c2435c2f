//! Canceling an appointment: patient lookup, slot lookup, idempotent
//! cancellation, persistence.

use vstd::prelude::*;
use vstd::string::StringExecFns;
use crate::application_errors::AppointmentApplicationError;
use crate::appointment::{Appointment, AppointmentV};
use crate::datetime::{parse_datetime_text, parsed_datetime};
use crate::dtos::CancelAppointmentDTO;
use crate::repositories::{
    active_slot, cpf_present, has_active, id_num, slot_present, stored_appointment,
    AppointmentRepository, PatientRepository,
};

verus! {

/// The lookup-miss text for a slot that holds no appointment.
pub open spec fn cancel_not_found_message(cpf: Seq<char>, at: Seq<char>) -> Seq<char> {
    "No appointment found for patient with CPF: "@ + cpf + " at: "@ + at
}

/// The reason that is recorded: the given one, or an empty one when the
/// request carries none.
pub open spec fn effective_reason(reason: Option<String>) -> Seq<char> {
    match reason {
        Some(s) => s@,
        None => Seq::<char>::empty(),
    }
}

/// Cancels the appointment of a patient found by cpf at a given time;
/// canceling an appointment that is already canceled returns it unchanged
/// and writes nothing.
pub struct CancelAppointmentUseCase<T: AppointmentRepository, P: PatientRepository> {
    pub appointment_repo: T,
    pub patient_repo: P,
}

impl<T: AppointmentRepository, P: PatientRepository> CancelAppointmentUseCase<T, P> {
    /// A use case over the given stores.
    pub fn new(appointment_repository: T, patient_repository: P) -> (r: Self)
        ensures
            r.appointment_repo == appointment_repository,
            r.patient_repo == patient_repository,
    {
        Self { appointment_repo: appointment_repository, patient_repo: patient_repository }
    }

    /// Cancels and returns the appointment at the patient's slot.
    ///
    /// An unknown cpf is `PatientNotFound`; a timestamp that does not
    /// parse surfaces as `Unexpected`; an empty slot is `NotFound`; a slot
    /// whose appointment is already canceled returns it unchanged with no
    /// write; a storage fault surfaces as `Unexpected`.
    pub fn execute(&mut self, appointment: CancelAppointmentDTO) -> (r: Result<
        Appointment,
        AppointmentApplicationError,
    >)
        requires
            old(self).patient_repo.wf(),
            old(self).appointment_repo.wf(),
        ensures
            final(self).patient_repo == old(self).patient_repo,
            final(self).appointment_repo.wf(),
            final(self).appointment_repo.infallible() == old(self).appointment_repo.infallible(),
            r matches Ok(a) ==> stored_appointment(a@) && a@.canceled && parsed_datetime(
                appointment.appointment_at@,
            ) == Ok::<Seq<char>, Seq<char>>(a@.appointment_at) && (exists|i: int|
                0 <= i < old(self).patient_repo.patients().len() && (#[trigger] old(self).patient_repo.patients()[i]).cpf == appointment.patient_cpf@ && id_num(
                    old(self).patient_repo.patients()[i].id,
                ) == a@.patient_id) && (((exists|i: int|
                0 <= i < old(self).appointment_repo.appointments().len() && #[trigger] old(self).appointment_repo.appointments()[i] == a@) && !has_active(
                old(self).appointment_repo.appointments(),
                a@.patient_id,
                a@.appointment_at,
            ) && final(self).appointment_repo.appointments() == old(self).appointment_repo.appointments()) || ((
            exists|j: int|
                0 <= j < old(self).appointment_repo.appointments().len() && active_slot(
                    #[trigger] old(self).appointment_repo.appointments()[j],
                    a@.patient_id,
                    a@.appointment_at,
                ) && a@ == (AppointmentV {
                    canceled: true,
                    canceled_at: a@.canceled_at,
                    cancellation_reason: Some(effective_reason(appointment.cancellation_reason)),
                    ..old(self).appointment_repo.appointments()[j]
                })) && (a@.canceled_at matches Some(_)) && (exists|i: int|
                0 <= i < old(self).appointment_repo.appointments().len() && (#[trigger] old(self).appointment_repo.appointments()[i]).id == a@.id && final(self).appointment_repo.appointments() == old(self).appointment_repo.appointments()
                    .update(i, a@)))),
            r matches Err(e) ==> final(self).appointment_repo.appointments() == old(self).appointment_repo.appointments() && (match e {
                AppointmentApplicationError::PatientNotFound(c) => c@ == appointment.patient_cpf@
                    && !cpf_present(old(self).patient_repo.patients(), appointment.patient_cpf@),
                AppointmentApplicationError::NotFound(m) => (parsed_datetime(
                    appointment.appointment_at@,
                ) matches Ok(t) && m@ == cancel_not_found_message(appointment.patient_cpf@, t)
                    && (exists|i: int|
                    0 <= i < old(self).patient_repo.patients().len() && (#[trigger] old(self).patient_repo.patients()[i]).cpf == appointment.patient_cpf@
                        && !slot_present(
                        old(self).appointment_repo.appointments(),
                        id_num(old(self).patient_repo.patients()[i].id),
                        t,
                    ))),
                AppointmentApplicationError::Unexpected(_) => true,
                AppointmentApplicationError::Constraint(_) => false,
            }),
            old(self).patient_repo.infallible() && !cpf_present(
                old(self).patient_repo.patients(),
                appointment.patient_cpf@,
            ) ==> (r matches Err(AppointmentApplicationError::PatientNotFound(c)) && c@
                == appointment.patient_cpf@),
            old(self).patient_repo.infallible() && cpf_present(
                old(self).patient_repo.patients(),
                appointment.patient_cpf@,
            ) && parsed_datetime(appointment.appointment_at@) is Err ==> (r matches Err(
                AppointmentApplicationError::Unexpected(m),
            ) && (parsed_datetime(appointment.appointment_at@) matches Err(pe) && m@ == pe)),
            old(self).patient_repo.infallible() && old(self).appointment_repo.infallible()
                && cpf_present(old(self).patient_repo.patients(), appointment.patient_cpf@) && (
            parsed_datetime(appointment.appointment_at@) matches Ok(t) && (forall|i: int|
                0 <= i < old(self).patient_repo.patients().len() && (#[trigger] old(self).patient_repo.patients()[i]).cpf == appointment.patient_cpf@ ==> !slot_present(
                    old(self).appointment_repo.appointments(),
                    id_num(old(self).patient_repo.patients()[i].id),
                    t,
                ))) ==> (r matches Err(AppointmentApplicationError::NotFound(m)) && (
            parsed_datetime(appointment.appointment_at@) matches Ok(t) && m@
                == cancel_not_found_message(appointment.patient_cpf@, t))),
            old(self).patient_repo.infallible() && old(self).appointment_repo.infallible()
                && cpf_present(old(self).patient_repo.patients(), appointment.patient_cpf@) && (
            parsed_datetime(appointment.appointment_at@) matches Ok(t) && (forall|i: int|
                0 <= i < old(self).patient_repo.patients().len() && (#[trigger] old(self).patient_repo.patients()[i]).cpf == appointment.patient_cpf@ ==> !has_active(
                    old(self).appointment_repo.appointments(),
                    id_num(old(self).patient_repo.patients()[i].id),
                    t,
                ) && slot_present(
                    old(self).appointment_repo.appointments(),
                    id_num(old(self).patient_repo.patients()[i].id),
                    t,
                ))) ==> (r matches Ok(a) && a@.canceled && final(self).appointment_repo.appointments() == old(self).appointment_repo.appointments()),
            old(self).patient_repo.infallible() && old(self).appointment_repo.infallible()
                && cpf_present(old(self).patient_repo.patients(), appointment.patient_cpf@) && (
            parsed_datetime(appointment.appointment_at@) matches Ok(t) && (forall|i: int|
                0 <= i < old(self).patient_repo.patients().len() && (#[trigger] old(self).patient_repo.patients()[i]).cpf == appointment.patient_cpf@ ==> has_active(
                    old(self).appointment_repo.appointments(),
                    id_num(old(self).patient_repo.patients()[i].id),
                    t,
                ))) ==> r is Ok,
    {
        let found = match self.patient_repo.find_by_cpf(appointment.patient_cpf.clone()) {
            Ok(found) => found,
            Err(e) => {
                return Err(AppointmentApplicationError::from(e));
            },
        };

        let patient = match found {
            Some(p) => p,
            None => {
                return Err(
                    AppointmentApplicationError::PatientNotFound(appointment.patient_cpf),
                );
            },
        };

        if !patient.id.is_existing() {
            return Err(AppointmentApplicationError::PatientNotFound(appointment.patient_cpf));
        }

        let patient_id = match patient.id.as_i32() {
            Some(n) => n,
            None => 0,
        };

        let cancellation_reason = match appointment.cancellation_reason {
            Some(reason) => reason,
            None => String::new(),
        };

        let at = match parse_datetime_text(appointment.appointment_at.as_str()) {
            Ok(t) => t,
            Err(m) => {
                return Err(AppointmentApplicationError::Unexpected(m));
            },
        };

        let found_appointment = match self.appointment_repo.find_by_patient_id_and_appointment_at(
            patient_id,
            at.as_str(),
        ) {
            Ok(found_appointment) => found_appointment,
            Err(e) => {
                return Err(AppointmentApplicationError::from(e));
            },
        };

        let mut appt = match found_appointment {
            Some(a) => a,
            None => {
                let mut m = String::from_str("No appointment found for patient with CPF: ");
                m.append(patient.cpf.as_str());
                m.append(" at: ");
                m.append(at.as_str());
                proof {
                    assert(m@ =~= cancel_not_found_message(appointment.patient_cpf@, at@));
                }
                return Err(AppointmentApplicationError::NotFound(m));
            },
        };

        proof {
            if !appt@.canceled {
                let k = choose|k: int|
                    0 <= k < old(self).appointment_repo.appointments().len() && #[trigger] old(self).appointment_repo.appointments()[k] == appt@;
                assert(active_slot(
                    old(self).appointment_repo.appointments()[k],
                    patient_id as int,
                    at@,
                ));
            }
        }

        if appt.is_canceled() {
            return Ok(appt);
        }

        appt.cancel(cancellation_reason);

        match self.appointment_repo.update(&appt) {
            Ok(a) => Ok(a),
            Err(e) => Err(AppointmentApplicationError::from(e)),
        }
    }
}

} // verus!
