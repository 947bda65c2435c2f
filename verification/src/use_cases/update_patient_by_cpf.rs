//! Renaming a patient found by cpf.

use vstd::prelude::*;
use crate::application_errors::PatientApplicationError;
use crate::dtos::UpdatePatientDTO;
use crate::patient::Patient;
use crate::repositories::{cpf_present, stored_patient, PatientRepository};

verus! {

/// Updates the name of the patient stored under a cpf.
pub struct UpdatePatientByCpfUseCase<T: PatientRepository> {
    pub patient_repo: T,
}

impl<T: PatientRepository> UpdatePatientByCpfUseCase<T> {
    /// A use case over the given store.
    pub fn new(patient_repo: T) -> (r: Self)
        ensures
            r.patient_repo == patient_repo,
    {
        Self { patient_repo }
    }

    /// Rewrites the stored patient's name and returns the updated entity.
    /// A cpf that nobody holds is `NotFound`; a storage fault surfaces as
    /// `Unexpected` and leaves the store unchanged.
    pub fn execute(&mut self, cpf: String, updated_patient: UpdatePatientDTO) -> (r: Result<
        Patient,
        PatientApplicationError,
    >)
        requires
            old(self).patient_repo.wf(),
        ensures
            final(self).patient_repo.wf(),
            final(self).patient_repo.infallible() == old(self).patient_repo.infallible(),
            r matches Ok(p) ==> p@.cpf == cpf@ && stored_patient(p@) && (
            updated_patient.name matches Some(n) ==> p@.name == n@) && (exists|j: int|
                0 <= j < old(self).patient_repo.patients().len() && (#[trigger] old(self).patient_repo.patients()[j]).cpf == cpf@ && p@.id == old(self).patient_repo.patients()[j].id && (updated_patient.name is None ==> p@.name
                    == old(self).patient_repo.patients()[j].name)) && (exists|i: int|
                0 <= i < old(self).patient_repo.patients().len() && (#[trigger] old(self).patient_repo.patients()[i]).id == p@.id && old(self).patient_repo.patients()[i].cpf
                    == cpf@ && final(self).patient_repo.patients() == old(self).patient_repo.patients().update(i, p@)),
            r matches Err(e) ==> (match e {
                PatientApplicationError::NotFound(c) => c@ == cpf@ && !cpf_present(
                    old(self).patient_repo.patients(),
                    cpf@,
                ),
                PatientApplicationError::Unexpected(_) => true,
                PatientApplicationError::Conflict(_) => false,
            }) && final(self).patient_repo.patients() == old(self).patient_repo.patients(),
            old(self).patient_repo.infallible() && !cpf_present(
                old(self).patient_repo.patients(),
                cpf@,
            ) ==> (r matches Err(PatientApplicationError::NotFound(c)) && c@ == cpf@),
            old(self).patient_repo.infallible() && cpf_present(
                old(self).patient_repo.patients(),
                cpf@,
            ) ==> r is Ok,
    {
        let found = match self.patient_repo.find_by_cpf(cpf.clone()) {
            Ok(found) => found,
            Err(e) => {
                return Err(PatientApplicationError::from(e));
            },
        };

        let mut patient = match found {
            Some(p) => p,
            None => {
                return Err(PatientApplicationError::NotFound(cpf));
            },
        };

        patient.name = match updated_patient.name {
            Some(name) => name,
            None => patient.name,
        };

        match self.patient_repo.update(&patient) {
            Ok(p) => Ok(p),
            Err(e) => Err(PatientApplicationError::from(e)),
        }
    }
}

} // verus!
