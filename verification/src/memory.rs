//! In-memory repository implementations.
//!
//! These stores keep their rows in a vector and assign ids from a counter.
//! They implement the repository ports exactly, never fail while ids remain,
//! and stand in for real storage in tests and in small deployments.

use vstd::prelude::*;
use vstd::string::StringExecFns;
use crate::admin::{Admin, AdminV};
use crate::appointment::{Appointment, AppointmentV};
use crate::errors::RepositoryError;
use crate::identity::ID;
use crate::patient::{Patient, PatientV};
use crate::repositories::{
    active_slot, cpf_present, slot_row, AdminRepository, AppointmentRepository, PatientRepository,
};
use crate::text::str_eq;

verus! {

/// A row the patient store may hold: persisted, with an id below the next
/// free one.
pub open spec fn patient_row_ok(p: PatientV, next: int) -> bool {
    p.id matches ID::Existing(n) && 0 < n < next
}

/// No two rows share a cpf.
pub open spec fn distinct_cpfs(s: Seq<PatientV>) -> bool {
    forall|i: int, j: int|
        #![trigger s[i], s[j]]
        0 <= i < j < s.len() ==> s[i].cpf != s[j].cpf
}

/// No two rows share a storage id.
pub open spec fn distinct_patient_ids(s: Seq<PatientV>) -> bool {
    forall|i: int, j: int|
        #![trigger s[i], s[j]]
        0 <= i < j < s.len() ==> s[i].id != s[j].id
}

/// Every row of a filtered sequence comes from the original, so filtering
/// keeps the cpfs and the ids distinct.
proof fn lemma_filter_patient_rows(s: Seq<PatientV>, pred: spec_fn(PatientV) -> bool)
    ensures
        forall|i: int| 0 <= i < s.filter(pred).len() ==> s.contains(#[trigger] s.filter(pred)[i]),
        distinct_cpfs(s) ==> distinct_cpfs(s.filter(pred)),
        distinct_patient_ids(s) ==> distinct_patient_ids(s.filter(pred)),
    decreases s.len(),
{
    reveal(Seq::filter);
    if s.len() > 0 {
        let prefix = s.drop_last();
        lemma_filter_patient_rows(prefix, pred);
        assert forall|i: int| 0 <= i < prefix.filter(pred).len() implies s.contains(
            #[trigger] prefix.filter(pred)[i],
        ) by {
            let k = choose|k: int| 0 <= k < prefix.len() && prefix[k] == prefix.filter(pred)[i];
            assert(s[k] == prefix.filter(pred)[i]);
        }
        assert(s.contains(s.last())) by {
            assert(s[s.len() - 1] == s.last());
        }
        if distinct_cpfs(s) {
            assert(distinct_cpfs(prefix));
            assert forall|i: int, j: int|
                #![trigger s.filter(pred)[i], s.filter(pred)[j]]
                0 <= i < j < s.filter(pred).len() implies s.filter(pred)[i].cpf != s.filter(
                pred,
            )[j].cpf by {
                if pred(s.last()) && j == s.filter(pred).len() - 1 {
                    let k = choose|k: int|
                        0 <= k < prefix.len() && prefix[k] == prefix.filter(pred)[i];
                    assert(s[k] == s.filter(pred)[i]);
                    assert(s[s.len() - 1].cpf != s[k].cpf);
                }
            }
        }
        if distinct_patient_ids(s) {
            assert(distinct_patient_ids(prefix));
            assert forall|i: int, j: int|
                #![trigger s.filter(pred)[i], s.filter(pred)[j]]
                0 <= i < j < s.filter(pred).len() implies s.filter(pred)[i].id != s.filter(
                pred,
            )[j].id by {
                if pred(s.last()) && j == s.filter(pred).len() - 1 {
                    let k = choose|k: int|
                        0 <= k < prefix.len() && prefix[k] == prefix.filter(pred)[i];
                    assert(s[k] == s.filter(pred)[i]);
                    assert(s[s.len() - 1].id != s[k].id);
                }
            }
        }
    }
}

/// The index of the row with this cpf, if one is stored.
fn find_index_by_cpf(v: &Vec<Patient>, cpf: &str) -> (r: Option<usize>)
    ensures
        r matches Some(i) ==> i < v@.len() && v@[i as int]@.cpf == cpf@,
        r is None ==> forall|j: int| 0 <= j < v@.len() ==> (#[trigger] v@[j]@).cpf != cpf@,
{
    let mut i: usize = 0;
    while i < v.len()
        invariant
            i <= v@.len(),
            forall|j: int| 0 <= j < i ==> (#[trigger] v@[j]@).cpf != cpf@,
        decreases v@.len() - i,
    {
        if str_eq(v[i].cpf.as_str(), cpf) {
            return Some(i);
        }
        i += 1;
    }
    None
}

/// The index of the row with this storage id, if one is stored.
fn find_index_by_id(v: &Vec<Patient>, id: i32) -> (r: Option<usize>)
    ensures
        r matches Some(i) ==> i < v@.len() && v@[i as int]@.id == ID::Existing(id),
        r is None ==> forall|j: int| 0 <= j < v@.len() ==> (#[trigger] v@[j]@).id != ID::Existing(
            id,
        ),
{
    let mut i: usize = 0;
    while i < v.len()
        invariant
            i <= v@.len(),
            forall|j: int| 0 <= j < i ==> (#[trigger] v@[j]@).id != ID::Existing(id),
        decreases v@.len() - i,
    {
        if v[i].id == ID::Existing(id) {
            return Some(i);
        }
        i += 1;
    }
    None
}

/// The in-memory patient store: rows in insertion order, ids from a counter.
pub struct InMemoryPatientRepository {
    store: Vec<Patient>,
    next_id: i32,
}

impl InMemoryPatientRepository {
    /// An empty store whose first assigned id is 1.
    pub fn new() -> (r: Self)
        ensures
            r.wf(),
            r.infallible(),
            r.patients() == Seq::<PatientV>::empty(),
    {
        let r = InMemoryPatientRepository { store: Vec::new(), next_id: 1 };
        proof {
            assert(r.patients() =~= Seq::<PatientV>::empty());
        }
        r
    }

    /// Adds a row restored from elsewhere under the id it already carries.
    /// The row is taken exactly when its id is a fresh positive storage id
    /// below the top of the id range (so the store stays infallible) and
    /// its cpf is not stored yet; otherwise the store is unchanged.
    pub fn seed(&mut self, patient: Patient) -> (r: bool)
        requires
            old(self).wf(),
        ensures
            final(self).wf(),
            final(self).infallible() == old(self).infallible(),
            r == ((patient@.id matches ID::Existing(n) && 0 < n < i32::MAX - 1) && !cpf_present(
                old(self).patients(),
                patient@.cpf,
            ) && (forall|j: int|
                0 <= j < old(self).patients().len() ==> (#[trigger] old(self).patients()[j]).id
                    != patient@.id)),
            r ==> final(self).patients() == old(self).patients().push(patient@),
            !r ==> final(self).patients() == old(self).patients(),
    {
        let id: i32 = match patient.id {
            ID::Existing(n) => n,
            ID::New => 0,
        };
        if id <= 0 || id >= i32::MAX - 1 {
            return false;
        }
        match find_index_by_cpf(&self.store, patient.cpf.as_str()) {
            Some(i) => {
                proof {
                    assert(old(self).patients()[i as int].cpf == patient@.cpf);
                }
                return false;
            },
            None => {},
        }
        match find_index_by_id(&self.store, id) {
            Some(i) => {
                proof {
                    assert(old(self).patients()[i as int].id == patient@.id);
                }
                return false;
            },
            None => {},
        }
        let ghost before = self.patients();
        self.store.push(patient);
        if id >= self.next_id {
            self.next_id = id + 1;
        }
        proof {
            assert(self.patients() =~= before.push(patient@));
            assert forall|a: int, b: int|
                #![trigger self.patients()[a], self.patients()[b]]
                0 <= a < b < self.patients().len() implies self.patients()[a].cpf
                != self.patients()[b].cpf && self.patients()[a].id != self.patients()[b].id by {
                if b == self.patients().len() - 1 {
                    assert(before[a].cpf != patient@.cpf);
                    assert(before[a].id != patient@.id);
                }
            }
        }
        true
    }
}

impl PatientRepository for InMemoryPatientRepository {
    closed spec fn patients(&self) -> Seq<PatientV> {
        self.store@.map_values(|p: Patient| p@)
    }

    closed spec fn wf(&self) -> bool {
        &&& 1 <= self.next_id
        &&& forall|i: int|
            0 <= i < self.patients().len() ==> patient_row_ok(
                #[trigger] self.patients()[i],
                self.next_id as int,
            )
        &&& distinct_cpfs(self.patients())
        &&& distinct_patient_ids(self.patients())
    }

    closed spec fn infallible(&self) -> bool {
        self.next_id < i32::MAX
    }

    fn exists_by_cpf(&self, cpf: &str) -> (r: Result<bool, RepositoryError>) {
        match find_index_by_cpf(&self.store, cpf) {
            Some(i) => {
                proof {
                    assert(self.patients()[i as int].cpf == cpf@);
                }
                Ok(true)
            },
            None => Ok(false),
        }
    }

    fn save(&mut self, patient: &Patient) -> (r: Result<i32, RepositoryError>) {
        match find_index_by_cpf(&self.store, patient.cpf.as_str()) {
            Some(i) => {
                proof {
                    assert(old(self).patients()[i as int].cpf == patient@.cpf);
                }
                return Err(RepositoryError::DatabaseError(
                    String::from_str("A patient with this CPF is already stored"),
                ));
            },
            None => {},
        }
        if self.next_id == i32::MAX {
            return Err(RepositoryError::DatabaseError(
                String::from_str("The store has no free ids left"),
            ));
        }
        let id = self.next_id;
        self.next_id = id + 1;
        let stored = Patient { id: ID::Existing(id), name: patient.name.clone(), cpf: patient.cpf.clone() };
        let ghost before = self.patients();
        let ghost stored_view = stored@;
        self.store.push(stored);
        proof {
            assert(self.patients() =~= before.push(stored_view));
            assert forall|a: int, b: int|
                #![trigger self.patients()[a], self.patients()[b]]
                0 <= a < b < self.patients().len() implies self.patients()[a].cpf
                != self.patients()[b].cpf && self.patients()[a].id != self.patients()[b].id by {
                if b == self.patients().len() - 1 {
                    assert(patient_row_ok(before[a], id as int));
                }
            }
        }
        Ok(id)
    }

    fn find_by_id(&self, id: i32) -> (r: Result<Option<Patient>, RepositoryError>) {
        match find_index_by_id(&self.store, id) {
            Some(i) => {
                proof {
                    assert(self.patients()[i as int] == self.store@[i as int]@);
                }
                Ok(Some(self.store[i].clone()))
            },
            None => Ok(None),
        }
    }

    fn find_by_cpf(&self, cpf: String) -> (r: Result<Option<Patient>, RepositoryError>) {
        match find_index_by_cpf(&self.store, cpf.as_str()) {
            Some(i) => {
                proof {
                    assert(self.patients()[i as int] == self.store@[i as int]@);
                }
                Ok(Some(self.store[i].clone()))
            },
            None => Ok(None),
        }
    }

    fn update(&mut self, patient: &Patient) -> (r: Result<Patient, RepositoryError>) {
        let id: i32 = match patient.id {
            ID::Existing(n) => n,
            ID::New => 0,
        };
        match find_index_by_id(&self.store, id) {
            Some(i) => {
                let ghost before = self.patients();
                proof {
                    let k = choose|k: int|
                        0 <= k < before.len() && (#[trigger] before[k]).id == patient@.id
                            && before[k].cpf == patient@.cpf;
                    assert(before[i as int].id == patient@.id);
                    assert(k == i as int);
                    assert(before[i as int].cpf == patient@.cpf);
                }
                let row = patient.clone();
                self.store[i] = row;
                proof {
                    assert(self.patients() =~= before.update(i as int, patient@));
                    assert forall|a: int, b: int|
                        #![trigger self.patients()[a], self.patients()[b]]
                        0 <= a < b < self.patients().len() implies self.patients()[a].cpf
                        != self.patients()[b].cpf && self.patients()[a].id
                        != self.patients()[b].id by {
                        assert(before[a].cpf != before[b].cpf);
                        assert(before[a].id != before[b].id);
                        assert(self.patients()[i as int] == patient@);
                    }
                }
                Ok(patient.clone())
            },
            None => {
                proof {
                    let k = choose|k: int|
                        0 <= k < old(self).patients().len() && (
                        #[trigger] old(self).patients()[k]).id == patient@.id
                            && old(self).patients()[k].cpf == patient@.cpf;
                    assert(old(self).patients()[k].id == ID::Existing(id));
                    assert(false);
                }
                Err(RepositoryError::DatabaseError(String::from_str("The row to update is gone")))
            },
        }
    }

    fn delete_by_cpf(&mut self, cpf: String) -> (r: Result<(), RepositoryError>) {
        let ghost target = self.patients();
        let ghost pred = |p: PatientV| p.cpf != cpf@;
        let mut kept: Vec<Patient> = Vec::new();
        let mut i: usize = 0;
        proof {
            assert(target.take(0).filter(pred) =~= kept@.map_values(|p: Patient| p@)) by {
                reveal(Seq::filter);
            }
        }
        while i < self.store.len()
            invariant
                i <= self.store@.len(),
                target == self.patients(),
                pred == (|p: PatientV| p.cpf != cpf@),
                kept@.map_values(|p: Patient| p@) == target.take(i as int).filter(pred),
            decreases self.store@.len() - i,
        {
            let keep = !str_eq(self.store[i].cpf.as_str(), cpf.as_str());
            proof {
                let prefix = target.take(i as int);
                let longer = target.take(i + 1 as int);
                assert(longer.drop_last() =~= prefix);
                assert(longer.last() == target[i as int]);
                reveal(Seq::filter);
                if pred(target[i as int]) {
                    assert(longer.filter(pred) == prefix.filter(pred).push(target[i as int]));
                } else {
                    assert(longer.filter(pred) == prefix.filter(pred));
                }
            }
            if keep {
                let row = self.store[i].clone();
                let ghost kept_before = kept@.map_values(|p: Patient| p@);
                kept.push(row);
                proof {
                    assert(kept@.map_values(|p: Patient| p@) =~= kept_before.push(
                        target[i as int],
                    ));
                }
            }
            i += 1;
        }
        proof {
            assert(target.take(target.len() as int) =~= target);
        }
        self.store = kept;
        proof {
            lemma_filter_patient_rows(target, pred);
            assert forall|a: int|
                0 <= a < self.patients().len() implies patient_row_ok(
                #[trigger] self.patients()[a],
                self.next_id as int,
            ) by {
                let k = choose|k: int| 0 <= k < target.len() && target[k] == self.patients()[a];
                assert(patient_row_ok(target[k], self.next_id as int));
            }
        }
        Ok(())
    }
}

/// A row the appointment store may hold: persisted, with an id below the
/// next free one.
pub open spec fn appointment_row_ok(a: AppointmentV, next: int) -> bool {
    a.id matches ID::Existing(n) && 0 < n < next
}

/// No two rows share a storage id.
pub open spec fn distinct_appointment_ids(s: Seq<AppointmentV>) -> bool {
    forall|i: int, j: int|
        #![trigger s[i], s[j]]
        0 <= i < j < s.len() ==> s[i].id != s[j].id
}

/// The index of the active row of this patient at this time, if one is
/// stored.
fn find_active_index(v: &Vec<Appointment>, patient_id: i32, at: &str) -> (r: Option<usize>)
    ensures
        r matches Some(i) ==> i < v@.len() && active_slot(v@[i as int]@, patient_id as int, at@),
        r is None ==> forall|j: int|
            0 <= j < v@.len() ==> !active_slot(#[trigger] v@[j]@, patient_id as int, at@),
{
    let mut i: usize = 0;
    while i < v.len()
        invariant
            i <= v@.len(),
            forall|j: int| 0 <= j < i ==> !active_slot(#[trigger] v@[j]@, patient_id as int, at@),
        decreases v@.len() - i,
    {
        if v[i].patient_id == patient_id && !v[i].canceled && str_eq(
            v[i].appointment_at.as_str(),
            at,
        ) {
            return Some(i);
        }
        i += 1;
    }
    None
}

/// The index of some row of this patient at this time, active or not, if
/// one is stored.
fn find_slot_index(v: &Vec<Appointment>, patient_id: i32, at: &str) -> (r: Option<usize>)
    ensures
        r matches Some(i) ==> i < v@.len() && slot_row(v@[i as int]@, patient_id as int, at@),
        r is None ==> forall|j: int|
            0 <= j < v@.len() ==> !slot_row(#[trigger] v@[j]@, patient_id as int, at@),
{
    let mut i: usize = 0;
    while i < v.len()
        invariant
            i <= v@.len(),
            forall|j: int| 0 <= j < i ==> !slot_row(#[trigger] v@[j]@, patient_id as int, at@),
        decreases v@.len() - i,
    {
        if v[i].patient_id == patient_id && str_eq(v[i].appointment_at.as_str(), at) {
            return Some(i);
        }
        i += 1;
    }
    None
}

/// The index of the appointment row with this storage id, if one is stored.
fn find_appointment_index_by_id(v: &Vec<Appointment>, id: i32) -> (r: Option<usize>)
    ensures
        r matches Some(i) ==> i < v@.len() && v@[i as int]@.id == ID::Existing(id),
        r is None ==> forall|j: int| 0 <= j < v@.len() ==> (#[trigger] v@[j]@).id != ID::Existing(
            id,
        ),
{
    let mut i: usize = 0;
    while i < v.len()
        invariant
            i <= v@.len(),
            forall|j: int| 0 <= j < i ==> (#[trigger] v@[j]@).id != ID::Existing(id),
        decreases v@.len() - i,
    {
        if v[i].id == ID::Existing(id) {
            return Some(i);
        }
        i += 1;
    }
    None
}

/// The in-memory appointment store: rows in insertion order, ids from a
/// counter.
pub struct InMemoryAppointmentRepository {
    store: Vec<Appointment>,
    next_id: i32,
}

impl InMemoryAppointmentRepository {
    /// An empty store whose first assigned id is 1.
    pub fn new() -> (r: Self)
        ensures
            r.wf(),
            r.infallible(),
            r.appointments() == Seq::<AppointmentV>::empty(),
    {
        let r = InMemoryAppointmentRepository { store: Vec::new(), next_id: 1 };
        proof {
            assert(r.appointments() =~= Seq::<AppointmentV>::empty());
        }
        r
    }
}

impl AppointmentRepository for InMemoryAppointmentRepository {
    closed spec fn appointments(&self) -> Seq<AppointmentV> {
        self.store@.map_values(|a: Appointment| a@)
    }

    closed spec fn wf(&self) -> bool {
        &&& 1 <= self.next_id
        &&& forall|i: int|
            0 <= i < self.appointments().len() ==> appointment_row_ok(
                #[trigger] self.appointments()[i],
                self.next_id as int,
            )
        &&& distinct_appointment_ids(self.appointments())
    }

    closed spec fn infallible(&self) -> bool {
        self.next_id < i32::MAX
    }

    fn exists_by_patient_id_and_appointment_at(
        &self,
        patient_id: i32,
        appointment_at: &str,
    ) -> (r: Result<bool, RepositoryError>) {
        match find_active_index(&self.store, patient_id, appointment_at) {
            Some(i) => {
                proof {
                    assert(active_slot(
                        self.appointments()[i as int],
                        patient_id as int,
                        appointment_at@,
                    ));
                }
                Ok(true)
            },
            None => {
                proof {
                    assert forall|j: int| 0 <= j < self.appointments().len() implies !active_slot(
                        #[trigger] self.appointments()[j],
                        patient_id as int,
                        appointment_at@,
                    ) by {
                        assert(self.appointments()[j] == self.store@[j]@);
                    }
                }
                Ok(false)
            },
        }
    }

    fn save(&mut self, appointment: &Appointment) -> (r: Result<Appointment, RepositoryError>) {
        if self.next_id == i32::MAX {
            return Err(RepositoryError::DatabaseError(
                String::from_str("The store has no free ids left"),
            ));
        }
        let id = self.next_id;
        self.next_id = id + 1;
        let mut stored = appointment.clone();
        stored.id = ID::Existing(id);
        let result = stored.clone();
        let ghost before = self.appointments();
        let ghost stored_view = stored@;
        self.store.push(stored);
        proof {
            assert(self.appointments() =~= before.push(stored_view));
            assert forall|a: int, b: int|
                #![trigger self.appointments()[a], self.appointments()[b]]
                0 <= a < b < self.appointments().len() implies self.appointments()[a].id
                != self.appointments()[b].id by {
                if b == self.appointments().len() - 1 {
                    assert(appointment_row_ok(before[a], id as int));
                }
            }
            assert forall|a: int|
                0 <= a < before.len() implies (#[trigger] before[a]).id != stored_view.id by {
                assert(appointment_row_ok(before[a], id as int));
            }
        }
        Ok(result)
    }

    fn find_by_patient_id_and_appointment_at(
        &self,
        patient_id: i32,
        appointment_at: &str,
    ) -> (r: Result<Option<Appointment>, RepositoryError>) {
        match find_active_index(&self.store, patient_id, appointment_at) {
            Some(i) => {
                proof {
                    assert(self.appointments()[i as int] == self.store@[i as int]@);
                }
                return Ok(Some(self.store[i].clone()));
            },
            None => {},
        }
        proof {
            assert forall|j: int| 0 <= j < self.appointments().len() implies !active_slot(
                #[trigger] self.appointments()[j],
                patient_id as int,
                appointment_at@,
            ) by {
                assert(self.appointments()[j] == self.store@[j]@);
            }
        }
        match find_slot_index(&self.store, patient_id, appointment_at) {
            Some(i) => {
                proof {
                    assert(self.appointments()[i as int] == self.store@[i as int]@);
                }
                Ok(Some(self.store[i].clone()))
            },
            None => {
                proof {
                    assert forall|j: int| 0 <= j < self.appointments().len() implies !slot_row(
                        #[trigger] self.appointments()[j],
                        patient_id as int,
                        appointment_at@,
                    ) by {
                        assert(self.appointments()[j] == self.store@[j]@);
                    }
                }
                Ok(None)
            },
        }
    }

    fn update(&mut self, appointment: &Appointment) -> (r: Result<Appointment, RepositoryError>) {
        let id: i32 = match appointment.id {
            ID::Existing(n) => n,
            ID::New => 0,
        };
        match find_appointment_index_by_id(&self.store, id) {
            Some(i) => {
                let ghost before = self.appointments();
                let row = appointment.clone();
                self.store[i] = row;
                proof {
                    assert(self.appointments() =~= before.update(i as int, appointment@));
                    assert forall|a: int, b: int|
                        #![trigger self.appointments()[a], self.appointments()[b]]
                        0 <= a < b < self.appointments().len() implies self.appointments()[a].id
                        != self.appointments()[b].id by {
                        assert(before[a].id != before[b].id);
                        assert(self.appointments()[i as int] == appointment@);
                        assert(before[i as int].id == appointment@.id);
                    }
                }
                Ok(appointment.clone())
            },
            None => {
                proof {
                    let k = choose|k: int|
                        0 <= k < old(self).appointments().len() && (#[trigger] old(self).appointments()[k]).id == appointment@.id;
                    assert(old(self).appointments()[k].id == ID::Existing(id));
                    assert(false);
                }
                Err(RepositoryError::DatabaseError(String::from_str("The row to update is gone")))
            },
        }
    }

    fn find_by_patient_id(&self, patient_id: i32) -> (r: Result<Vec<Appointment>, RepositoryError>) {
        let ghost target = self.appointments();
        let ghost pred = |a: AppointmentV| a.patient_id == patient_id as int;
        let mut out: Vec<Appointment> = Vec::new();
        let mut i: usize = 0;
        proof {
            assert(target.take(0).filter(pred) =~= out@.map_values(|a: Appointment| a@)) by {
                reveal(Seq::filter);
            }
        }
        while i < self.store.len()
            invariant
                i <= self.store@.len(),
                target == self.appointments(),
                pred == (|a: AppointmentV| a.patient_id == patient_id as int),
                out@.map_values(|a: Appointment| a@) == target.take(i as int).filter(pred),
            decreases self.store@.len() - i,
        {
            proof {
                let prefix = target.take(i as int);
                let longer = target.take(i + 1 as int);
                assert(longer.drop_last() =~= prefix);
                assert(longer.last() == target[i as int]);
                reveal(Seq::filter);
                if pred(target[i as int]) {
                    assert(longer.filter(pred) == prefix.filter(pred).push(target[i as int]));
                } else {
                    assert(longer.filter(pred) == prefix.filter(pred));
                }
            }
            if self.store[i].patient_id == patient_id {
                let row = self.store[i].clone();
                let ghost out_before = out@.map_values(|a: Appointment| a@);
                out.push(row);
                proof {
                    assert(out@.map_values(|a: Appointment| a@) =~= out_before.push(
                        target[i as int],
                    ));
                }
            }
            i += 1;
        }
        proof {
            assert(target.take(target.len() as int) =~= target);
            assert(out.deep_view() =~= out@.map_values(|a: Appointment| a@));
        }
        Ok(out)
    }
}

/// The in-memory administrator store.
pub struct InMemoryAdminRepository {
    store: Vec<Admin>,
}

impl InMemoryAdminRepository {
    /// An empty store.
    pub fn new() -> (r: Self)
        ensures
            r.wf(),
            r.infallible(),
            r.admins() == Seq::<AdminV>::empty(),
    {
        let r = InMemoryAdminRepository { store: Vec::new() };
        proof {
            assert(r.admins() =~= Seq::<AdminV>::empty());
        }
        r
    }

    /// Adds an administrator account.
    pub fn add(&mut self, admin: Admin)
        ensures
            final(self).wf(),
            final(self).infallible(),
            final(self).admins() == old(self).admins().push(admin@),
    {
        let ghost before = self.admins();
        let ghost admin_view = admin@;
        self.store.push(admin);
        proof {
            assert(self.admins() =~= before.push(admin_view));
        }
    }
}

impl AdminRepository for InMemoryAdminRepository {
    closed spec fn admins(&self) -> Seq<AdminV> {
        self.store@.map_values(|a: Admin| a@)
    }

    closed spec fn wf(&self) -> bool {
        true
    }

    closed spec fn infallible(&self) -> bool {
        true
    }

    fn find_by_email(&self, email: String) -> (r: Result<Option<Admin>, RepositoryError>) {
        let mut i: usize = 0;
        while i < self.store.len()
            invariant
                i <= self.store@.len(),
                forall|j: int| 0 <= j < i ==> (#[trigger] self.store@[j]@).email != email@,
            decreases self.store@.len() - i,
        {
            if str_eq(self.store[i].email.as_str(), email.as_str()) {
                proof {
                    assert(self.admins()[i as int] == self.store@[i as int]@);
                }
                return Ok(Some(self.store[i].clone()));
            }
            i += 1;
        }
        proof {
            assert forall|j: int| 0 <= j < self.admins().len() implies (
            #[trigger] self.admins()[j]).email != email@ by {
                assert(self.admins()[j] == self.store@[j]@);
            }
        }
        Ok(None)
    }
}

} // verus!
