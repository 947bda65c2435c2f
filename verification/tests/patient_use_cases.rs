use clinic::application_errors::PatientApplicationError;
use clinic::dtos::{CreatePatientDTO, UpdatePatientDTO};
use clinic::memory::InMemoryPatientRepository;
use clinic::patient::Patient;
use clinic::use_cases::delete_patient_by_cpf::DeletePatientByCpfUseCase;
use clinic::use_cases::find_patient_by_cpf::FindPatientByCpfUseCase;
use clinic::use_cases::register_patient::RegisterPatientUseCase;
use clinic::use_cases::update_patient_by_cpf::UpdatePatientByCpfUseCase;

fn make_fake_create_patient_dto(cpf: Option<String>) -> CreatePatientDTO {
    CreatePatientDTO {
        name: "Andrew".to_string(),
        cpf: match cpf {
            None => "00011122233".to_string(),
            Some(value) => value,
        },
    }
}

#[test]
fn delete_patient_by_cpf_execute_ok() {
    let cpf = "12345678901";

    let mut repo = InMemoryPatientRepository::new();
    assert!(repo.seed(Patient::restore(42, "Andrew".to_string(), cpf.to_string()).unwrap()));

    let mut sut = DeletePatientByCpfUseCase::new(repo);

    let result = sut.execute(cpf.to_string()).unwrap();

    assert_eq!(result, ());

    let check = FindPatientByCpfUseCase::new(sut.patient_repo);
    assert_eq!(check.execute(cpf.to_string()).unwrap(), None);
}

#[test]
fn find_patient_by_cpf_execute_ok() {
    let fake_patient =
        Patient::restore(42, "Andrew".to_string(), "00011122233".to_string()).unwrap();

    let mut repo = InMemoryPatientRepository::new();
    assert!(repo.seed(fake_patient.clone()));

    let sut = FindPatientByCpfUseCase::new(repo);

    let result = sut.execute(fake_patient.cpf.clone()).unwrap();

    assert_eq!(result, Some(fake_patient));
}

#[test]
fn find_patient_by_cpf_execute_absent() {
    let sut = FindPatientByCpfUseCase::new(InMemoryPatientRepository::new());

    let result = sut.execute("00011122233".to_string()).unwrap();

    assert_eq!(result, None);
}

#[test]
fn execute_cpf_taken_error() {
    let fake_patient = make_fake_create_patient_dto(None);

    let mut repo = InMemoryPatientRepository::new();
    assert!(repo.seed(
        Patient::restore(7, "Someone".to_string(), fake_patient.cpf.clone()).unwrap()
    ));

    let mut sut = RegisterPatientUseCase::new(repo);

    let result = sut.execute(fake_patient.clone());

    assert_eq!(
        result,
        Err(PatientApplicationError::Conflict(format!(
            "The CPF {} is already taken",
            fake_patient.cpf
        )))
    )
}

#[test]
fn register_patient_execute_ok() {
    let cpf = "11122233344";
    let fake_patient = make_fake_create_patient_dto(Some(cpf.to_string()));

    // Seeding an unrelated patient under id 41 makes 42 the next free id,
    // matching the id storage is expected to assign.
    let mut repo = InMemoryPatientRepository::new();
    assert!(repo.seed(
        Patient::restore(41, "Someone".to_string(), "99988877766".to_string()).unwrap()
    ));

    let new_patient_id = 42;

    let mut sut = RegisterPatientUseCase::new(repo);

    let result = sut.execute(fake_patient.clone()).unwrap();

    assert_eq!(result, new_patient_id);

    let check = FindPatientByCpfUseCase::new(sut.patient_repo);
    let stored = check.execute(cpf.to_string()).unwrap().unwrap();
    assert_eq!(
        stored,
        Patient::restore(new_patient_id, "Andrew".to_string(), cpf.to_string()).unwrap()
    );
}

#[test]
fn execute_patient_not_found() {
    let cpf = "12345678901".to_string();
    let updated_patient = UpdatePatientDTO {
        name: Some("Andrew Updated".to_string()),
    };

    let mut sut = UpdatePatientByCpfUseCase::new(InMemoryPatientRepository::new());

    let result = sut.execute(cpf.clone(), updated_patient);

    assert_eq!(result, Err(PatientApplicationError::NotFound(cpf)));
}

#[test]
fn update_patient_by_cpf_execute_ok() {
    let new_name = "Andrew Monteiro".to_string();
    let cpf = "12345678901".to_string();
    let fake_patient = Patient::restore(42, "Andrew".to_string(), cpf.clone()).unwrap();
    let mut updated_patient_entity = fake_patient.clone();
    updated_patient_entity.name = new_name.clone();

    let mut repo = InMemoryPatientRepository::new();
    assert!(repo.seed(fake_patient));

    let mut sut = UpdatePatientByCpfUseCase::new(repo);

    let result = sut
        .execute(cpf.clone(), UpdatePatientDTO { name: Some(new_name) })
        .unwrap();

    assert_eq!(result, updated_patient_entity);
}

#[test]
fn update_patient_keeps_name_when_none_is_given() {
    let cpf = "12345678901".to_string();
    let fake_patient = Patient::restore(42, "Andrew".to_string(), cpf.clone()).unwrap();

    let mut repo = InMemoryPatientRepository::new();
    assert!(repo.seed(fake_patient.clone()));

    let mut sut = UpdatePatientByCpfUseCase::new(repo);

    let result = sut.execute(cpf, UpdatePatientDTO { name: None }).unwrap();

    assert_eq!(result, fake_patient);
}

#[test]
fn seed_refuses_reused_ids_and_cpfs() {
    let mut repo = InMemoryPatientRepository::new();
    assert!(repo.seed(Patient::restore(5, "A".to_string(), "00011122233".to_string()).unwrap()));
    assert!(!repo.seed(Patient::restore(5, "B".to_string(), "99988877766".to_string()).unwrap()));
    assert!(!repo.seed(Patient::restore(6, "C".to_string(), "00011122233".to_string()).unwrap()));
    assert!(!repo.seed(Patient::new("D".to_string(), "12312312312".to_string())));
}

#[test]
fn delete_leaves_other_patients_alone() {
    let mut repo = InMemoryPatientRepository::new();
    assert!(repo.seed(Patient::restore(1, "A".to_string(), "00011122233".to_string()).unwrap()));
    assert!(repo.seed(Patient::restore(2, "B".to_string(), "99988877766".to_string()).unwrap()));

    let mut sut = DeletePatientByCpfUseCase::new(repo);
    sut.execute("00011122233".to_string()).unwrap();

    let check = FindPatientByCpfUseCase::new(sut.patient_repo);
    assert_eq!(check.execute("00011122233".to_string()).unwrap(), None);
    assert_eq!(
        check.execute("99988877766".to_string()).unwrap(),
        Some(Patient::restore(2, "B".to_string(), "99988877766".to_string()).unwrap())
    );
}
