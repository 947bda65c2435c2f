//! Registering a patient under a cpf that nobody holds yet.

use vstd::prelude::*;
use vstd::string::StringExecFns;
use crate::application_errors::PatientApplicationError;
use crate::dtos::CreatePatientDTO;
use crate::identity::ID;
use crate::patient::{Patient, PatientV};
use crate::repositories::{cpf_present, PatientRepository};

verus! {

/// The conflict text for a cpf that is already stored.
pub open spec fn cpf_taken_message(cpf: Seq<char>) -> Seq<char> {
    "The CPF "@ + cpf + " is already taken"@
}

/// Registers a patient: the cpf must not be stored yet, then storage
/// assigns the id that is returned.
pub struct RegisterPatientUseCase<T: PatientRepository> {
    pub patient_repo: T,
}

impl<T: PatientRepository> RegisterPatientUseCase<T> {
    /// A use case over the given store.
    pub fn new(patient_repo: T) -> (r: Self)
        ensures
            r.patient_repo == patient_repo,
    {
        Self { patient_repo }
    }

    /// Stores the patient and returns the assigned id. A cpf that is
    /// already stored is a `Conflict`; a storage fault surfaces as
    /// `Unexpected` and leaves the store unchanged.
    pub fn execute(&mut self, patient: CreatePatientDTO) -> (r: Result<
        i32,
        PatientApplicationError,
    >)
        requires
            old(self).patient_repo.wf(),
        ensures
            final(self).patient_repo.wf(),
            r matches Ok(id) ==> id > 0 && !cpf_present(
                old(self).patient_repo.patients(),
                patient.cpf@,
            ) && final(self).patient_repo.patients() == old(self).patient_repo.patients().push(
                PatientV { id: ID::Existing(id), name: patient.name@, cpf: patient.cpf@ },
            ),
            r matches Err(e) ==> (match e {
                PatientApplicationError::Conflict(m) => cpf_present(
                    old(self).patient_repo.patients(),
                    patient.cpf@,
                ) && m@ == cpf_taken_message(patient.cpf@),
                PatientApplicationError::Unexpected(_) => true,
                PatientApplicationError::NotFound(_) => false,
            }) && final(self).patient_repo.patients() == old(self).patient_repo.patients(),
            old(self).patient_repo.infallible() && cpf_present(
                old(self).patient_repo.patients(),
                patient.cpf@,
            ) ==> (r matches Err(PatientApplicationError::Conflict(m)) && m@ == cpf_taken_message(
                patient.cpf@,
            )),
            old(self).patient_repo.infallible() && !cpf_present(
                old(self).patient_repo.patients(),
                patient.cpf@,
            ) ==> r is Ok,
    {
        match self.patient_repo.exists_by_cpf(patient.cpf.as_str()) {
            Ok(true) => {
                let mut m = String::from_str("The CPF ");
                m.append(patient.cpf.as_str());
                m.append(" is already taken");
                return Err(PatientApplicationError::Conflict(m));
            },
            Ok(false) => {},
            Err(e) => {
                return Err(PatientApplicationError::from(e));
            },
        }

        let patient: Patient = Patient::from(patient);

        match self.patient_repo.save(&patient) {
            Ok(id) => Ok(id),
            Err(e) => Err(PatientApplicationError::from(e)),
        }
    }
}

} // verus!
