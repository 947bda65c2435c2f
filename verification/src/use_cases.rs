//! The use cases: each orchestrates lookups, entity rules and writes
//! against the repository ports, and returns an entity or a typed error.

pub mod book_appointment;
pub mod cancel_appointment;
pub mod delete_patient_by_cpf;
pub mod find_patient_by_cpf;
pub mod list_appointments_by_patient_cpf;
pub mod login;
pub mod register_appointment;
pub mod register_patient;
pub mod update_patient_by_cpf;
