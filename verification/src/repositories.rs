//! Repository ports: the capability interfaces the use cases depend on.
//!
//! Each port abstracts a store as the sequence of rows it holds, in storage
//! order. Any operation may fail with a storage fault, which callers wrap as
//! an unexpected error; a store whose `infallible` spec holds (such as the
//! in-memory store) never does, and the use-case contracts sharpen to exact
//! outcomes over such a store.

use vstd::prelude::*;
use crate::admin::{Admin, AdminV};
use crate::appointment::{Appointment, AppointmentV};
use crate::errors::RepositoryError;
use crate::identity::ID;
use crate::patient::{Patient, PatientV};

verus! {

/// True when some row holds the given cpf.
pub open spec fn cpf_present(rows: Seq<PatientV>, cpf: Seq<char>) -> bool {
    exists|i: int| 0 <= i < rows.len() && (#[trigger] rows[i]).cpf == cpf
}

/// True when some row holds the given admin email.
pub open spec fn email_present(rows: Seq<AdminV>, email: Seq<char>) -> bool {
    exists|i: int| 0 <= i < rows.len() && (#[trigger] rows[i]).email == email
}

/// Whether one appointment row belongs to this patient at this time.
pub open spec fn slot_row(a: AppointmentV, patient_id: int, at: Seq<char>) -> bool {
    a.patient_id == patient_id && a.appointment_at == at
}

/// True when some row, active or canceled, occupies the slot.
pub open spec fn slot_present(rows: Seq<AppointmentV>, patient_id: int, at: Seq<char>) -> bool {
    exists|i: int| 0 <= i < rows.len() && #[trigger] slot_row(rows[i], patient_id, at)
}

/// Whether one appointment row occupies the slot of this patient at this
/// time and is still active.
pub open spec fn active_slot(a: AppointmentV, patient_id: int, at: Seq<char>) -> bool {
    slot_row(a, patient_id, at) && !a.canceled
}

/// The number behind an identity; an unpersisted identity has none and
/// counts as zero.
pub open spec fn id_num(id: ID) -> int {
    match id {
        ID::Existing(n) => n as int,
        ID::New => 0,
    }
}

/// True when some row is an active appointment of the patient at the time:
/// the uniqueness constraint forbids booking into such a slot again.
pub open spec fn has_active(rows: Seq<AppointmentV>, patient_id: int, at: Seq<char>) -> bool {
    exists|i: int| 0 <= i < rows.len() && #[trigger] active_slot(rows[i], patient_id, at)
}

/// No two distinct active rows occupy the same patient-and-time slot:
/// the core uniqueness invariant of the appointment store.
pub open spec fn at_most_one_active(rows: Seq<AppointmentV>) -> bool {
    forall|i: int, j: int|
        #![trigger rows[i], rows[j]]
        0 <= i < j < rows.len() && !rows[i].canceled && !rows[j].canceled ==> !(rows[i].patient_id
            == rows[j].patient_id && rows[i].appointment_at == rows[j].appointment_at)
}

/// The law a successful booking obeys: it appends a row only when the
/// slot holds no active appointment, so a store with at most one active
/// appointment per slot keeps that invariant.
pub proof fn lemma_booking_keeps_slot_uniqueness(rows: Seq<AppointmentV>, a: AppointmentV)
    requires
        at_most_one_active(rows),
        !a.canceled ==> !has_active(rows, a.patient_id, a.appointment_at),
    ensures
        at_most_one_active(rows.push(a)),
{
    let grown = rows.push(a);
    assert forall|i: int, j: int|
        #![trigger grown[i], grown[j]]
        0 <= i < j < grown.len() && !grown[i].canceled && !grown[j].canceled implies !(
    grown[i].patient_id == grown[j].patient_id && grown[i].appointment_at
        == grown[j].appointment_at) by {
        if j == grown.len() - 1 && grown[i].patient_id == a.patient_id && grown[i].appointment_at
            == a.appointment_at && !grown[i].canceled && !a.canceled {
            assert(active_slot(rows[i], a.patient_id, a.appointment_at));
            assert(has_active(rows, a.patient_id, a.appointment_at));
        }
    }
}

/// The law a cancellation obeys: it only rewrites one row into a canceled
/// one, so a store with at most one active appointment per slot keeps
/// that invariant.
pub proof fn lemma_cancellation_keeps_slot_uniqueness(
    rows: Seq<AppointmentV>,
    k: int,
    a: AppointmentV,
)
    requires
        at_most_one_active(rows),
        0 <= k < rows.len(),
        a.canceled,
    ensures
        at_most_one_active(rows.update(k, a)),
{
}

/// A row that storage has persisted: its id is a positive storage id.
pub open spec fn stored_patient(p: PatientV) -> bool {
    p.id matches ID::Existing(n) && n > 0
}

/// A row that storage has persisted: its id is a positive storage id.
pub open spec fn stored_appointment(a: AppointmentV) -> bool {
    a.id matches ID::Existing(n) && n > 0
}

/// The store of patient rows, keyed by cpf.
pub trait PatientRepository: Sized {
    /// The stored patient rows, in storage order.
    spec fn patients(&self) -> Seq<PatientV>;

    /// The store is in a usable state.
    spec fn wf(&self) -> bool;

    /// Whether every operation on this store succeeds.
    spec fn infallible(&self) -> bool;

    /// Whether a patient with this cpf is stored.
    fn exists_by_cpf(&self, cpf: &str) -> (r: Result<bool, RepositoryError>)
        requires
            self.wf(),
        ensures
            r matches Ok(b) ==> b == cpf_present(self.patients(), cpf@),
            self.infallible() ==> r is Ok,
    ;

    /// Persists a fresh patient; storage assigns the positive id it returns.
    fn save(&mut self, patient: &Patient) -> (r: Result<i32, RepositoryError>)
        requires
            old(self).wf(),
        ensures
            final(self).wf(),
            r matches Ok(id) ==> id > 0 && !cpf_present(old(self).patients(), patient@.cpf)
                && final(self).patients() == old(self).patients().push(PatientV {
                id: ID::Existing(id),
                name: patient@.name,
                cpf: patient@.cpf,
            }),
            r is Err ==> final(self).patients() == old(self).patients(),
            old(self).infallible() && !cpf_present(old(self).patients(), patient@.cpf)
                ==> r is Ok,
    ;

    /// The stored patient with this storage id, if any.
    fn find_by_id(&self, id: i32) -> (r: Result<Option<Patient>, RepositoryError>)
        requires
            self.wf(),
        ensures
            r matches Ok(Some(p)) ==> (exists|i: int|
                0 <= i < self.patients().len() && #[trigger] self.patients()[i] == p@) && p@.id
                == ID::Existing(id) && id > 0,
            r matches Ok(None) ==> !(exists|i: int|
                0 <= i < self.patients().len() && (#[trigger] self.patients()[i]).id
                    == ID::Existing(id)),
            self.infallible() ==> r is Ok,
    ;

    /// The stored patient with this cpf, if any.
    fn find_by_cpf(&self, cpf: String) -> (r: Result<Option<Patient>, RepositoryError>)
        requires
            self.wf(),
        ensures
            r matches Ok(Some(p)) ==> (exists|i: int|
                0 <= i < self.patients().len() && #[trigger] self.patients()[i] == p@) && p@.cpf
                == cpf@ && stored_patient(p@),
            r matches Ok(None) ==> !cpf_present(self.patients(), cpf@),
            self.infallible() ==> r is Ok,
    ;

    /// Rewrites the stored row that carries this patient's id.
    fn update(&mut self, patient: &Patient) -> (r: Result<Patient, RepositoryError>)
        requires
            old(self).wf(),
            stored_patient(patient@),
            exists|i: int|
                0 <= i < old(self).patients().len() && (#[trigger] old(self).patients()[i]).id
                    == patient@.id && old(self).patients()[i].cpf == patient@.cpf,
        ensures
            final(self).wf(),
            final(self).infallible() == old(self).infallible(),
            r matches Ok(p) ==> p@ == patient@ && (exists|i: int|
                0 <= i < old(self).patients().len() && (#[trigger] old(self).patients()[i]).id
                    == patient@.id && old(self).patients()[i].cpf == patient@.cpf && final(self).patients() == old(self).patients().update(i, patient@)),
            r is Err ==> final(self).patients() == old(self).patients(),
            old(self).infallible() ==> r is Ok,
    ;

    /// Removes every stored row with this cpf; removing an absent cpf is
    /// not a fault.
    fn delete_by_cpf(&mut self, cpf: String) -> (r: Result<(), RepositoryError>)
        requires
            old(self).wf(),
        ensures
            final(self).wf(),
            final(self).infallible() == old(self).infallible(),
            r is Ok ==> final(self).patients() == old(self).patients().filter(
                |p: PatientV| p.cpf != cpf@,
            ),
            r is Err ==> final(self).patients() == old(self).patients(),
            old(self).infallible() ==> r is Ok,
    ;
}

/// The store of appointment rows.
pub trait AppointmentRepository: Sized {
    /// The stored appointment rows, in storage order.
    spec fn appointments(&self) -> Seq<AppointmentV>;

    /// The store is in a usable state.
    spec fn wf(&self) -> bool;

    /// Whether every operation on this store succeeds.
    spec fn infallible(&self) -> bool;

    /// Whether the patient already has an active appointment at this time.
    fn exists_by_patient_id_and_appointment_at(
        &self,
        patient_id: i32,
        appointment_at: &str,
    ) -> (r: Result<bool, RepositoryError>)
        requires
            self.wf(),
        ensures
            r matches Ok(b) ==> b == has_active(
                self.appointments(),
                patient_id as int,
                appointment_at@,
            ),
            self.infallible() ==> r is Ok,
    ;

    /// Persists a fresh appointment; storage assigns a positive id that no
    /// stored row carries, and returns the persisted row.
    fn save(&mut self, appointment: &Appointment) -> (r: Result<Appointment, RepositoryError>)
        requires
            old(self).wf(),
        ensures
            final(self).wf(),
            r matches Ok(a) ==> stored_appointment(a@) && a@ == (AppointmentV {
                id: a@.id,
                ..appointment@
            }) && (forall|i: int|
                0 <= i < old(self).appointments().len()
                    ==> (#[trigger] old(self).appointments()[i]).id != a@.id)
                && final(self).appointments() == old(self).appointments().push(a@),
            r is Err ==> final(self).appointments() == old(self).appointments(),
            old(self).infallible() ==> r is Ok,
    ;

    /// The appointment of this patient at this time: the active one when
    /// one exists, else a canceled one; absent only when no row occupies
    /// the slot.
    fn find_by_patient_id_and_appointment_at(
        &self,
        patient_id: i32,
        appointment_at: &str,
    ) -> (r: Result<Option<Appointment>, RepositoryError>)
        requires
            self.wf(),
        ensures
            r matches Ok(Some(a)) ==> (exists|i: int|
                0 <= i < self.appointments().len() && #[trigger] self.appointments()[i] == a@)
                && slot_row(a@, patient_id as int, appointment_at@) && stored_appointment(a@) && (
            a@.canceled ==> !has_active(self.appointments(), patient_id as int, appointment_at@)),
            r matches Ok(None) ==> !slot_present(
                self.appointments(),
                patient_id as int,
                appointment_at@,
            ),
            self.infallible() ==> r is Ok,
    ;

    /// Rewrites the stored row that carries this appointment's id.
    fn update(&mut self, appointment: &Appointment) -> (r: Result<Appointment, RepositoryError>)
        requires
            old(self).wf(),
            stored_appointment(appointment@),
            exists|i: int|
                0 <= i < old(self).appointments().len()
                    && (#[trigger] old(self).appointments()[i]).id == appointment@.id,
        ensures
            final(self).wf(),
            final(self).infallible() == old(self).infallible(),
            r matches Ok(a) ==> a@ == appointment@ && (exists|i: int|
                0 <= i < old(self).appointments().len()
                    && (#[trigger] old(self).appointments()[i]).id == appointment@.id
                    && final(self).appointments()
                        == old(self).appointments().update(i, appointment@)),
            r is Err ==> final(self).appointments() == old(self).appointments(),
            old(self).infallible() ==> r is Ok,
    ;

    /// Every stored appointment of this patient, active and canceled, in
    /// storage order.
    fn find_by_patient_id(&self, patient_id: i32) -> (r: Result<Vec<Appointment>, RepositoryError>)
        requires
            self.wf(),
        ensures
            r matches Ok(v) ==> v.deep_view() == self.appointments().filter(
                |a: AppointmentV| a.patient_id == patient_id as int,
            ),
            self.infallible() ==> r is Ok,
    ;
}

/// The store of administrator accounts, keyed by email.
pub trait AdminRepository: Sized {
    /// The stored administrator rows, in storage order.
    spec fn admins(&self) -> Seq<AdminV>;

    /// The store is in a usable state.
    spec fn wf(&self) -> bool;

    /// Whether every operation on this store succeeds.
    spec fn infallible(&self) -> bool;

    /// The stored administrator with this email, if any.
    fn find_by_email(&self, email: String) -> (r: Result<Option<Admin>, RepositoryError>)
        requires
            self.wf(),
        ensures
            r matches Ok(Some(a)) ==> (exists|i: int|
                0 <= i < self.admins().len() && #[trigger] self.admins()[i] == a@) && a@.email
                == email@,
            r matches Ok(None) ==> !email_present(self.admins(), email@),
            self.infallible() ==> r is Ok,
    ;
}

} // verus!
