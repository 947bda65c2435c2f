//! Listing every appointment of a patient found by cpf.

use vstd::prelude::*;
use crate::application_errors::AppointmentApplicationError;
use crate::appointment::{Appointment, AppointmentV};
use crate::repositories::{cpf_present, id_num, AppointmentRepository, PatientRepository};

verus! {

/// Lists the appointments, active and canceled, of a patient found by
/// cpf, in storage order.
pub struct ListAppointmentsByPatientCpfUseCase<T: PatientRepository, P: AppointmentRepository> {
    pub patient_repo: T,
    pub appointment_repo: P,
}

impl<T: PatientRepository, P: AppointmentRepository> ListAppointmentsByPatientCpfUseCase<T, P> {
    /// A use case over the given stores.
    pub fn new(patient_repo: T, appointment_repo: P) -> (r: Self)
        ensures
            r.patient_repo == patient_repo,
            r.appointment_repo == appointment_repo,
    {
        Self { patient_repo, appointment_repo }
    }

    /// Every stored appointment of the patient with this cpf. An unknown
    /// cpf is `PatientNotFound`; a storage fault surfaces as `Unexpected`.
    pub fn execute(&self, cpf: String) -> (r: Result<
        Vec<Appointment>,
        AppointmentApplicationError,
    >)
        requires
            self.patient_repo.wf(),
            self.appointment_repo.wf(),
        ensures
            r matches Ok(v) ==> (exists|i: int|
                0 <= i < self.patient_repo.patients().len()
                    && (#[trigger] self.patient_repo.patients()[i]).cpf == cpf@ && v.deep_view()
                    == self.appointment_repo.appointments().filter(
                    |a: AppointmentV|
                        a.patient_id == id_num(self.patient_repo.patients()[i].id),
                )),
            r matches Err(e) ==> (match e {
                AppointmentApplicationError::PatientNotFound(c) => c@ == cpf@ && !cpf_present(
                    self.patient_repo.patients(),
                    cpf@,
                ),
                AppointmentApplicationError::Unexpected(_) => true,
                AppointmentApplicationError::Constraint(_) => false,
                AppointmentApplicationError::NotFound(_) => false,
            }),
            self.patient_repo.infallible() && !cpf_present(self.patient_repo.patients(), cpf@)
                ==> (r matches Err(AppointmentApplicationError::PatientNotFound(c)) && c@
                == cpf@),
            self.patient_repo.infallible() && self.appointment_repo.infallible() && cpf_present(
                self.patient_repo.patients(),
                cpf@,
            ) ==> r is Ok,
    {
        let found = match self.patient_repo.find_by_cpf(cpf.clone()) {
            Ok(found) => found,
            Err(e) => {
                return Err(AppointmentApplicationError::from(e));
            },
        };

        let patient = match found {
            Some(p) => p,
            None => {
                return Err(AppointmentApplicationError::PatientNotFound(cpf));
            },
        };

        if !patient.id.is_existing() {
            return Err(AppointmentApplicationError::PatientNotFound(cpf));
        }

        let patient_id = match patient.id.as_i32() {
            Some(n) => n,
            None => 0,
        };

        match self.appointment_repo.find_by_patient_id(patient_id) {
            Ok(v) => Ok(v),
            Err(e) => Err(AppointmentApplicationError::from(e)),
        }
    }
}

} // verus!
