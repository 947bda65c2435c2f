//! The patient entity: an identity, a name, and the CPF that serves as the
//! patient's natural key.

use vstd::prelude::*;
use crate::dtos::CreatePatientDTO;
use crate::errors::PatientEntityError;
use crate::identity::ID;

verus! {

/// The mathematical value of a patient record.
pub struct PatientV {
    pub id: ID,
    pub name: Seq<char>,
    pub cpf: Seq<char>,
}

/// A patient: constructed fresh before registration, or restored from
/// storage with the id that storage assigned.
#[derive(Debug, PartialEq)]
pub struct Patient {
    pub id: ID,
    pub name: String,
    pub cpf: String,
}

impl View for Patient {
    type V = PatientV;

    open spec fn view(&self) -> PatientV {
        PatientV { id: self.id, name: self.name@, cpf: self.cpf@ }
    }
}

impl Clone for Patient {
    fn clone(&self) -> (r: Self)
        ensures
            r == *self,
    {
        Patient { id: self.id, name: self.name.clone(), cpf: self.cpf.clone() }
    }
}

impl Patient {
    /// A patient that has not been persisted yet.
    pub fn new(name: String, cpf: String) -> (r: Self)
        ensures
            r@ == (PatientV { id: ID::New, name: name@, cpf: cpf@ }),
    {
        Patient { id: ID::New, name, cpf }
    }

    /// A patient read back from storage; the stored id must be positive.
    pub fn restore(id: i32, name: String, cpf: String) -> (r: Result<Self, PatientEntityError>)
        ensures
            id > 0 ==> (r matches Ok(p) && p@ == PatientV {
                id: ID::Existing(id),
                name: name@,
                cpf: cpf@,
            }),
            id <= 0 ==> (r matches Err(e) && e == PatientEntityError::InvalidId(id)),
    {
        if id <= 0 {
            return Err(PatientEntityError::InvalidId(id));
        }
        Ok(Patient { id: ID::Existing(id), name, cpf })
    }
}

impl From<CreatePatientDTO> for Patient {
    /// A registration request becomes a fresh, unpersisted patient.
    fn from(value: CreatePatientDTO) -> Self {
        Patient { id: ID::New, name: value.name, cpf: value.cpf }
    }
}

impl vstd::std_specs::convert::FromSpecImpl<CreatePatientDTO> for Patient {
    open spec fn obeys_from_spec() -> bool {
        true
    }

    open spec fn from_spec(value: CreatePatientDTO) -> Self {
        Patient { id: ID::New, name: value.name, cpf: value.cpf }
    }
}

} // verus!
