//! Looking a patient up by cpf.

use vstd::prelude::*;
use crate::application_errors::PatientApplicationError;
use crate::patient::Patient;
use crate::repositories::{cpf_present, stored_patient, PatientRepository};

verus! {

/// Finds a patient by cpf; an absent patient is no error here, the caller
/// decides what a miss means.
pub struct FindPatientByCpfUseCase<T: PatientRepository> {
    pub patient_repo: T,
}

impl<T: PatientRepository> FindPatientByCpfUseCase<T> {
    /// A use case over the given store.
    pub fn new(patient_repo: T) -> (r: Self)
        ensures
            r.patient_repo == patient_repo,
    {
        Self { patient_repo }
    }

    /// The stored patient with this cpf, absent when no such patient is
    /// stored; a storage fault surfaces as `Unexpected`.
    pub fn execute(&self, cpf: String) -> (r: Result<Option<Patient>, PatientApplicationError>)
        requires
            self.patient_repo.wf(),
        ensures
            r matches Ok(Some(p)) ==> (exists|i: int|
                0 <= i < self.patient_repo.patients().len()
                    && #[trigger] self.patient_repo.patients()[i] == p@) && p@.cpf == cpf@
                && stored_patient(p@),
            r matches Ok(None) ==> !cpf_present(self.patient_repo.patients(), cpf@),
            r matches Err(e) ==> e matches PatientApplicationError::Unexpected(_),
            self.patient_repo.infallible() ==> r is Ok,
    {
        match self.patient_repo.find_by_cpf(cpf) {
            Ok(found) => Ok(found),
            Err(e) => Err(PatientApplicationError::from(e)),
        }
    }
}

} // verus!
