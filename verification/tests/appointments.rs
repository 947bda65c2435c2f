use clinic::application_errors::AppointmentApplicationError;
use clinic::appointment::Appointment;
use clinic::dtos::{
    BookAppointmentDTO, CancelAppointmentDTO, CreateAppointmentDTO, LoadedAppointmentDTO,
    LoadedAppointmentsDTO,
};
use clinic::identity::ID;
use clinic::memory::{InMemoryAppointmentRepository, InMemoryPatientRepository};
use clinic::patient::Patient;
use clinic::use_cases::book_appointment::BookAppointmentUseCase;
use clinic::use_cases::cancel_appointment::CancelAppointmentUseCase;
use clinic::use_cases::list_appointments_by_patient_cpf::ListAppointmentsByPatientCpfUseCase;
use clinic::use_cases::register_appointment::RegisterAppointmentUseCase;

const CPF: &str = "00011122233";

fn patient_store_with_andrew() -> InMemoryPatientRepository {
    let mut repo = InMemoryPatientRepository::new();
    assert!(repo.seed(Patient::restore(42, "Andrew".to_string(), CPF.to_string()).unwrap()));
    repo
}

fn book_dto(at: &str, specialty: &str) -> BookAppointmentDTO {
    BookAppointmentDTO {
        patient_cpf: CPF.to_string(),
        appointment_at: at.to_string(),
        specialty: specialty.to_string(),
        notes: None,
    }
}

#[test]
fn booking_scenario_with_conflict_and_idempotent_cancellation() {
    let mut sut = BookAppointmentUseCase::new(
        InMemoryAppointmentRepository::new(),
        patient_store_with_andrew(),
    );

    let booked = sut
        .execute(book_dto("2024-01-01T10:00:00", "Cardiology"))
        .unwrap();

    assert_eq!(booked.id, ID::Existing(1));
    assert_eq!(booked.patient_id, 42);
    assert_eq!(booked.appointment_at, "2024-01-01 10:00:00");
    assert_eq!(booked.specialty, "Cardiology");
    assert!(!booked.canceled);
    assert_eq!(booked.canceled_at, None);
    assert_eq!(booked.cancellation_reason, None);

    let second = sut.execute(book_dto("2024-01-01T10:00:00", "Cardiology"));
    assert_eq!(
        second,
        Err(AppointmentApplicationError::Constraint(
            "There's already an appointment for patient with CPF: 00011122233 at: 2024-01-01 10:00:00"
                .to_string()
        ))
    );

    let mut cancel = CancelAppointmentUseCase::new(
        sut.appointment_repository,
        sut.patient_repository,
    );

    let canceled = cancel
        .execute(CancelAppointmentDTO {
            patient_cpf: CPF.to_string(),
            appointment_at: "2024-01-01T10:00:00".to_string(),
            cancellation_reason: Some("Patient request".to_string()),
        })
        .unwrap();

    assert!(canceled.canceled);
    assert_eq!(
        canceled.cancellation_reason,
        Some("Patient request".to_string())
    );
    assert!(canceled.canceled_at.is_some());

    let again = cancel
        .execute(CancelAppointmentDTO {
            patient_cpf: CPF.to_string(),
            appointment_at: "2024-01-01T10:00:00".to_string(),
            cancellation_reason: Some("Changed my mind".to_string()),
        })
        .unwrap();

    assert_eq!(again, canceled);
}

#[test]
fn booking_unknown_cpf_fails_with_patient_not_found() {
    let mut sut = BookAppointmentUseCase::new(
        InMemoryAppointmentRepository::new(),
        InMemoryPatientRepository::new(),
    );

    let result = sut.execute(book_dto("2024-01-01T10:00:00", "Cardiology"));

    assert_eq!(
        result,
        Err(AppointmentApplicationError::PatientNotFound(CPF.to_string()))
    );
}

#[test]
fn booking_malformed_timestamp_fails_with_unexpected() {
    let mut sut = BookAppointmentUseCase::new(
        InMemoryAppointmentRepository::new(),
        patient_store_with_andrew(),
    );

    let result = sut.execute(book_dto("not a timestamp", "Cardiology"));

    let parse_error = "not a timestamp"
        .parse::<chrono::NaiveDateTime>()
        .unwrap_err()
        .to_string();
    assert_eq!(result, Err(AppointmentApplicationError::Unexpected(parse_error)));
}

#[test]
fn canceling_with_malformed_timestamp_fails_with_unexpected() {
    let mut sut = CancelAppointmentUseCase::new(
        InMemoryAppointmentRepository::new(),
        patient_store_with_andrew(),
    );

    let result = sut.execute(CancelAppointmentDTO {
        patient_cpf: CPF.to_string(),
        appointment_at: "soon".to_string(),
        cancellation_reason: None,
    });

    let parse_error = "soon".parse::<chrono::NaiveDateTime>().unwrap_err().to_string();
    assert_eq!(result, Err(AppointmentApplicationError::Unexpected(parse_error)));
}

#[test]
fn booking_same_time_after_cancellation_succeeds() {
    let mut book = BookAppointmentUseCase::new(
        InMemoryAppointmentRepository::new(),
        patient_store_with_andrew(),
    );
    book.execute(book_dto("2024-01-01T10:00:00", "Cardiology"))
        .unwrap();

    let mut cancel = CancelAppointmentUseCase::new(
        book.appointment_repository,
        book.patient_repository,
    );
    cancel
        .execute(CancelAppointmentDTO {
            patient_cpf: CPF.to_string(),
            appointment_at: "2024-01-01T10:00:00".to_string(),
            cancellation_reason: None,
        })
        .unwrap();

    let mut book = BookAppointmentUseCase::new(cancel.appointment_repo, cancel.patient_repo);
    let rebooked = book
        .execute(book_dto("2024-01-01T10:00:00", "Cardiology"))
        .unwrap();

    assert_eq!(rebooked.id, ID::Existing(2));
    assert!(!rebooked.canceled);
}

#[test]
fn canceling_unknown_cpf_fails_with_patient_not_found() {
    let mut sut = CancelAppointmentUseCase::new(
        InMemoryAppointmentRepository::new(),
        InMemoryPatientRepository::new(),
    );

    let result = sut.execute(CancelAppointmentDTO {
        patient_cpf: CPF.to_string(),
        appointment_at: "2024-01-01T10:00:00".to_string(),
        cancellation_reason: None,
    });

    assert_eq!(
        result,
        Err(AppointmentApplicationError::PatientNotFound(CPF.to_string()))
    );
}

#[test]
fn canceling_empty_slot_fails_with_not_found() {
    let mut sut = CancelAppointmentUseCase::new(
        InMemoryAppointmentRepository::new(),
        patient_store_with_andrew(),
    );

    let result = sut.execute(CancelAppointmentDTO {
        patient_cpf: CPF.to_string(),
        appointment_at: "2024-01-01T10:00:00".to_string(),
        cancellation_reason: None,
    });

    assert_eq!(
        result,
        Err(AppointmentApplicationError::NotFound(
            "No appointment found for patient with CPF: 00011122233 at: 2024-01-01 10:00:00"
                .to_string()
        ))
    );
}

#[test]
fn cancellation_reason_defaults_to_empty() {
    let mut book = BookAppointmentUseCase::new(
        InMemoryAppointmentRepository::new(),
        patient_store_with_andrew(),
    );
    book.execute(book_dto("2024-01-01T10:00:00", "Cardiology"))
        .unwrap();

    let mut cancel = CancelAppointmentUseCase::new(
        book.appointment_repository,
        book.patient_repository,
    );
    let canceled = cancel
        .execute(CancelAppointmentDTO {
            patient_cpf: CPF.to_string(),
            appointment_at: "2024-01-01T10:00:00".to_string(),
            cancellation_reason: None,
        })
        .unwrap();

    assert_eq!(canceled.cancellation_reason, Some(String::new()));
}

#[test]
fn listing_returns_active_and_canceled_appointments() {
    let mut book = BookAppointmentUseCase::new(
        InMemoryAppointmentRepository::new(),
        patient_store_with_andrew(),
    );
    book.execute(book_dto("2024-01-01T10:00:00", "Cardiology"))
        .unwrap();
    book.execute(book_dto("2024-01-02T11:30:00", "Dermatology"))
        .unwrap();

    let mut cancel = CancelAppointmentUseCase::new(
        book.appointment_repository,
        book.patient_repository,
    );
    cancel
        .execute(CancelAppointmentDTO {
            patient_cpf: CPF.to_string(),
            appointment_at: "2024-01-01T10:00:00".to_string(),
            cancellation_reason: None,
        })
        .unwrap();

    let list = ListAppointmentsByPatientCpfUseCase::new(
        cancel.patient_repo,
        cancel.appointment_repo,
    );
    let appointments = list.execute(CPF.to_string()).unwrap();

    assert_eq!(appointments.len(), 2);
    assert!(appointments[0].canceled);
    assert_eq!(appointments[0].appointment_at, "2024-01-01 10:00:00");
    assert!(!appointments[1].canceled);
    assert_eq!(appointments[1].appointment_at, "2024-01-02 11:30:00");
}

#[test]
fn listing_unknown_cpf_fails_with_patient_not_found() {
    let list = ListAppointmentsByPatientCpfUseCase::new(
        InMemoryPatientRepository::new(),
        InMemoryAppointmentRepository::new(),
    );

    let result = list.execute(CPF.to_string());

    assert_eq!(
        result,
        Err(AppointmentApplicationError::PatientNotFound(CPF.to_string()))
    );
}

#[test]
fn registering_appointment_by_patient_id() {
    let mut sut = RegisterAppointmentUseCase::new(
        InMemoryAppointmentRepository::new(),
        patient_store_with_andrew(),
    );

    let registered = sut
        .execute(CreateAppointmentDTO {
            patient_id: 42,
            appointment_at: "2024-03-05T09:15:00".to_string(),
            specialty: "Orthopedics".to_string(),
            notes: Some("first visit".to_string()),
        })
        .unwrap();

    assert_eq!(registered.id, ID::Existing(1));
    assert_eq!(registered.patient_id, 42);
    assert_eq!(registered.appointment_at, "2024-03-05 09:15:00");
    assert_eq!(registered.notes, Some("first visit".to_string()));
    assert!(!registered.canceled);
}

#[test]
fn registering_appointment_rejects_bad_inputs() {
    let mut sut = RegisterAppointmentUseCase::new(
        InMemoryAppointmentRepository::new(),
        patient_store_with_andrew(),
    );

    let result = sut.execute(CreateAppointmentDTO {
        patient_id: 0,
        appointment_at: "2024-03-05T09:15:00".to_string(),
        specialty: "Orthopedics".to_string(),
        notes: None,
    });
    assert_eq!(
        result,
        Err(AppointmentApplicationError::Constraint(
            "Invalid patient ID: 0".to_string()
        ))
    );

    let result = sut.execute(CreateAppointmentDTO {
        patient_id: 9,
        appointment_at: "2024-03-05T09:15:00".to_string(),
        specialty: "Orthopedics".to_string(),
        notes: None,
    });
    assert_eq!(
        result,
        Err(AppointmentApplicationError::PatientNotFound("9".to_string()))
    );

    let result = sut.execute(CreateAppointmentDTO {
        patient_id: 42,
        appointment_at: "never".to_string(),
        specialty: "Orthopedics".to_string(),
        notes: None,
    });
    let parse_error = "never".parse::<chrono::NaiveDateTime>().unwrap_err().to_string();
    assert_eq!(
        result,
        Err(AppointmentApplicationError::Constraint(format!(
            "Invalid appointment at: {parse_error}"
        )))
    );
}

#[test]
fn loaded_appointments_skip_unpersisted_entities() {
    let persisted = Appointment {
        id: ID::Existing(3),
        patient_id: 42,
        appointment_at: "2024-01-01 10:00:00".to_string(),
        specialty: "Cardiology".to_string(),
        notes: None,
        canceled: false,
        canceled_at: None,
        cancellation_reason: None,
    };
    let unpersisted =
        Appointment::new(42, "2024-01-01 11:00:00".to_string(), "X".to_string(), None).unwrap();

    let loaded: LoadedAppointmentsDTO = vec![persisted, unpersisted].into();
    let loaded = loaded.collect();

    assert_eq!(loaded.len(), 1);
    assert_eq!(loaded[0].id, 3);
    assert_eq!(loaded[0].specialty, "Cardiology");
}

#[test]
fn loaded_appointments_push_and_collect_keep_order() {
    let mut dto = LoadedAppointmentsDTO(Vec::new());
    dto.push(LoadedAppointmentDTO {
        id: 1,
        patient_id: 42,
        appointment_at: "2024-01-01 10:00:00".to_string(),
        specialty: "Cardiology".to_string(),
        notes: None,
        canceled: false,
        canceled_at: None,
        cancellation_reason: None,
    });
    dto.push(LoadedAppointmentDTO {
        id: 2,
        patient_id: 42,
        appointment_at: "2024-01-02 10:00:00".to_string(),
        specialty: "Dermatology".to_string(),
        notes: None,
        canceled: false,
        canceled_at: None,
        cancellation_reason: None,
    });

    let collected = dto.collect();
    assert_eq!(collected.len(), 2);
    assert_eq!(collected[0].id, 1);
    assert_eq!(collected[1].id, 2);
}

#[test]
fn appointment_entity_construction_and_cancellation() {
    let result = Appointment::new(0, "2024-01-01 10:00:00".to_string(), "X".to_string(), None);
    assert!(result.is_err());

    let mut appointment =
        Appointment::new(42, "2024-01-01 10:00:00".to_string(), "X".to_string(), None).unwrap();
    assert!(!appointment.is_canceled());

    appointment.cancel("no show".to_string());
    assert!(appointment.is_canceled());
    assert_eq!(appointment.cancellation_reason, Some("no show".to_string()));
    assert!(appointment.canceled_at.is_some());
}
