//! A clinic appointment-management core: patients, appointment booking and
//! cancellation with conflict enforcement, and administrator login.
//!
//! The domain entities, the repository ports they are stored through, and the
//! use cases that orchestrate them are verified; storage adapters and the
//! HTTP layer live outside this crate and talk to it through plain values.

pub mod identity;
pub mod text;
pub mod errors;
pub mod datetime;
pub mod patient;
pub mod appointment;
pub mod admin;
pub mod application_errors;
pub mod http_errors;
pub mod repositories;
pub mod memory;
pub mod dtos;
pub mod security;
pub mod use_cases;
