//! Plain value objects carried between the transport layer and the use
//! cases, and the loaded shapes handed back for display.

use vstd::prelude::*;
use crate::appointment::{Appointment, AppointmentV};
use crate::identity::ID;
use crate::patient::Patient;

verus! {

/// A request to register a patient.
#[derive(Debug, PartialEq)]
pub struct CreatePatientDTO {
    pub name: String,
    pub cpf: String,
}

impl Clone for CreatePatientDTO {
    fn clone(&self) -> (r: Self)
        ensures
            r == *self,
    {
        CreatePatientDTO { name: self.name.clone(), cpf: self.cpf.clone() }
    }
}

/// A request to rename a patient; an absent name leaves it unchanged.
#[derive(Debug, PartialEq)]
pub struct UpdatePatientDTO {
    pub name: Option<String>,
}

/// A patient as handed back to the transport layer.
#[derive(Debug, PartialEq)]
pub struct LoadedPatientDTO {
    pub id: i32,
    pub name: String,
    pub cpf: String,
}

impl LoadedPatientDTO {
    /// The loaded shape of a persisted patient; an unpersisted one has no
    /// loaded shape.
    pub fn from_entity(value: Patient) -> (r: Option<LoadedPatientDTO>)
        ensures
            value@.id matches ID::Existing(n) ==> (r matches Some(d) && d.id == n && d.name@
                == value@.name && d.cpf@ == value@.cpf),
            value@.id is New ==> r is None,
    {
        match value.id {
            ID::Existing(id) => Some(
                LoadedPatientDTO { id, name: value.name, cpf: value.cpf },
            ),
            ID::New => None,
        }
    }
}

impl From<Patient> for Option<LoadedPatientDTO> {
    /// A persisted patient loads; an unpersisted one does not.
    fn from(value: Patient) -> Self {
        match value.id {
            ID::Existing(id) => Some(
                LoadedPatientDTO { id, name: value.name, cpf: value.cpf },
            ),
            ID::New => None,
        }
    }
}

impl vstd::std_specs::convert::FromSpecImpl<Patient> for Option<LoadedPatientDTO> {
    open spec fn obeys_from_spec() -> bool {
        true
    }

    open spec fn from_spec(value: Patient) -> Self {
        match value.id {
            ID::Existing(id) => Some(
                LoadedPatientDTO { id, name: value.name, cpf: value.cpf },
            ),
            ID::New => None,
        }
    }
}

/// A request to book an appointment by patient cpf.
#[derive(Debug, PartialEq)]
pub struct BookAppointmentDTO {
    pub patient_cpf: String,
    pub appointment_at: String,
    pub specialty: String,
    pub notes: Option<String>,
}

/// A request to cancel an appointment by patient cpf; an absent reason is
/// recorded as an empty one.
#[derive(Debug, PartialEq)]
pub struct CancelAppointmentDTO {
    pub patient_cpf: String,
    pub appointment_at: String,
    pub cancellation_reason: Option<String>,
}

/// A request to register an appointment directly by patient id.
#[derive(Debug, PartialEq)]
pub struct CreateAppointmentDTO {
    pub patient_id: i32,
    pub appointment_at: String,
    pub specialty: String,
    pub notes: Option<String>,
}

/// An appointment as handed back to the transport layer.
#[derive(Debug, PartialEq)]
pub struct LoadedAppointmentDTO {
    pub id: i32,
    pub patient_id: i32,
    pub appointment_at: String,
    pub specialty: String,
    pub notes: Option<String>,
    pub canceled: bool,
    pub canceled_at: Option<String>,
    pub cancellation_reason: Option<String>,
}

impl View for LoadedAppointmentDTO {
    type V = AppointmentV;

    open spec fn view(&self) -> AppointmentV {
        AppointmentV {
            id: ID::Existing(self.id),
            patient_id: self.patient_id as int,
            appointment_at: self.appointment_at@,
            specialty: self.specialty@,
            notes: self.notes.deep_view(),
            canceled: self.canceled,
            canceled_at: self.canceled_at.deep_view(),
            cancellation_reason: self.cancellation_reason.deep_view(),
        }
    }
}

impl LoadedAppointmentDTO {
    /// The loaded shape of a persisted appointment; an unpersisted one has
    /// no loaded shape.
    pub fn from_entity(value: Appointment) -> (r: Option<LoadedAppointmentDTO>)
        ensures
            value@.id matches ID::Existing(_) ==> (r matches Some(d) && d@ == value@),
            value@.id is New ==> r is None,
    {
        match value.id {
            ID::Existing(id) => Some(
                LoadedAppointmentDTO {
                    id,
                    patient_id: value.patient_id,
                    appointment_at: value.appointment_at,
                    specialty: value.specialty,
                    notes: value.notes,
                    canceled: value.canceled,
                    canceled_at: value.canceled_at,
                    cancellation_reason: value.cancellation_reason,
                },
            ),
            ID::New => None,
        }
    }
}

impl From<Appointment> for Option<LoadedAppointmentDTO> {
    /// A persisted appointment loads; an unpersisted one does not.
    fn from(value: Appointment) -> Self {
        match value.id {
            ID::Existing(id) => Some(
                LoadedAppointmentDTO {
                    id,
                    patient_id: value.patient_id,
                    appointment_at: value.appointment_at,
                    specialty: value.specialty,
                    notes: value.notes,
                    canceled: value.canceled,
                    canceled_at: value.canceled_at,
                    cancellation_reason: value.cancellation_reason,
                },
            ),
            ID::New => None,
        }
    }
}

impl vstd::std_specs::convert::FromSpecImpl<Appointment> for Option<LoadedAppointmentDTO> {
    open spec fn obeys_from_spec() -> bool {
        true
    }

    open spec fn from_spec(value: Appointment) -> Self {
        match value.id {
            ID::Existing(id) => Some(
                LoadedAppointmentDTO {
                    id,
                    patient_id: value.patient_id,
                    appointment_at: value.appointment_at,
                    specialty: value.specialty,
                    notes: value.notes,
                    canceled: value.canceled,
                    canceled_at: value.canceled_at,
                    cancellation_reason: value.cancellation_reason,
                },
            ),
            ID::New => None,
        }
    }
}

/// The loaded shapes of a list of appointments, keeping storage order;
/// entities that were never persisted are left out.
#[derive(Debug, PartialEq)]
pub struct LoadedAppointmentsDTO(pub Vec<LoadedAppointmentDTO>);

impl LoadedAppointmentsDTO {
    /// Appends one loaded appointment.
    pub fn push(&mut self, appointment_dto: LoadedAppointmentDTO)
        ensures
            final(self).0@ == old(self).0@.push(appointment_dto),
    {
        self.0.push(appointment_dto);
    }

    /// The loaded appointments, in the order they were added.
    pub fn collect(self) -> (r: Vec<LoadedAppointmentDTO>)
        ensures
            r == self.0,
    {
        self.0
    }

    /// Loads every persisted appointment of the list, keeping the order.
    pub fn from_entities(value: Vec<Appointment>) -> (r: Self)
        ensures
            r.0@.map_values(|d: LoadedAppointmentDTO| d@) == value.deep_view().filter(
                |a: AppointmentV| a.id matches ID::Existing(_),
            ),
    {
        let ghost target = value.deep_view();
        let ghost pred = |a: AppointmentV| a.id matches ID::Existing(_);
        let mut result = LoadedAppointmentsDTO(Vec::new());
        let mut i: usize = 0;
        proof {
            assert(value@.map_values(|a: Appointment| a@) =~= target);
            assert(target.take(0).filter(pred) =~= result.0@.map_values(
                |d: LoadedAppointmentDTO| d@,
            )) by {
                reveal(Seq::filter);
            }
        }
        while i < value.len()
            invariant
                i <= value@.len(),
                target == value.deep_view(),
                value@.map_values(|a: Appointment| a@) == target,
                pred == (|a: AppointmentV| a.id matches ID::Existing(_)),
                result.0@.map_values(|d: LoadedAppointmentDTO| d@) == target.take(
                    i as int,
                ).filter(pred),
            decreases value@.len() - i,
        {
            proof {
                let prefix = target.take(i as int);
                let longer = target.take(i + 1 as int);
                assert(longer.drop_last() =~= prefix);
                assert(longer.last() == target[i as int]);
                reveal(Seq::filter);
                if pred(target[i as int]) {
                    assert(longer.filter(pred) == prefix.filter(pred).push(target[i as int]));
                } else {
                    assert(longer.filter(pred) == prefix.filter(pred));
                }
            }
            let entity = value[i].clone();
            let ghost entity_view = entity@;
            let ghost views_before = result.0@.map_values(|d: LoadedAppointmentDTO| d@);
            match LoadedAppointmentDTO::from_entity(entity) {
                Some(dto) => {
                    result.push(dto);
                    proof {
                        assert(result.0@.map_values(|d: LoadedAppointmentDTO| d@)
                            =~= views_before.push(entity_view));
                    }
                },
                None => {},
            }
            i += 1;
        }
        proof {
            assert(target.take(target.len() as int) =~= target);
        }
        result
    }
}

impl From<Vec<Appointment>> for LoadedAppointmentsDTO {
    /// Loads every persisted appointment of the list, keeping the order.
    fn from(value: Vec<Appointment>) -> Self {
        LoadedAppointmentsDTO::from_entities(value)
    }
}

impl vstd::std_specs::convert::FromSpecImpl<Vec<Appointment>> for LoadedAppointmentsDTO {
    open spec fn obeys_from_spec() -> bool {
        false
    }

    open spec fn from_spec(value: Vec<Appointment>) -> Self {
        // never relied on: the conversion builds fresh values, so obeys is false
        arbitrary()
    }
}

/// A request to authenticate an administrator.
#[derive(Debug, PartialEq)]
pub struct LoginDTO {
    pub email: String,
    pub password: String,
}

} // verus!
