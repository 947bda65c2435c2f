//! Deleting a patient by cpf.

use vstd::prelude::*;
use crate::application_errors::PatientApplicationError;
use crate::patient::PatientV;
use crate::repositories::PatientRepository;

verus! {

/// Deletes a patient by cpf; deleting an absent cpf is not an error.
pub struct DeletePatientByCpfUseCase<T: PatientRepository> {
    pub patient_repo: T,
}

impl<T: PatientRepository> DeletePatientByCpfUseCase<T> {
    /// A use case over the given store.
    pub fn new(patient_repo: T) -> (r: Self)
        ensures
            r.patient_repo == patient_repo,
    {
        Self { patient_repo }
    }

    /// Removes every stored patient with this cpf; a storage fault
    /// surfaces as `Unexpected` and leaves the store unchanged.
    pub fn execute(&mut self, cpf: String) -> (r: Result<(), PatientApplicationError>)
        requires
            old(self).patient_repo.wf(),
        ensures
            final(self).patient_repo.wf(),
            final(self).patient_repo.infallible() == old(self).patient_repo.infallible(),
            r is Ok ==> final(self).patient_repo.patients() == old(self).patient_repo.patients().filter(|p: PatientV| p.cpf != cpf@),
            r matches Err(e) ==> e matches PatientApplicationError::Unexpected(_) && final(self).patient_repo.patients() == old(self).patient_repo.patients(),
            old(self).patient_repo.infallible() ==> r is Ok,
    {
        match self.patient_repo.delete_by_cpf(cpf) {
            Ok(()) => Ok(()),
            Err(e) => Err(PatientApplicationError::from(e)),
        }
    }
}

} // verus!
