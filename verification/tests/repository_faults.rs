use clinic::dtos::{CreatePatientDTO, UpdatePatientDTO};
use clinic::errors::RepositoryError;
use clinic::memory::InMemoryPatientRepository;
use clinic::patient::Patient;
use clinic::repositories::PatientRepository;
use clinic::use_cases::delete_patient_by_cpf::DeletePatientByCpfUseCase;
use clinic::use_cases::find_patient_by_cpf::FindPatientByCpfUseCase;
use clinic::use_cases::register_patient::RegisterPatientUseCase;
use clinic::use_cases::update_patient_by_cpf::UpdatePatientByCpfUseCase;

/// A store whose every operation fails, as a broken database would.
struct BrokenPatientRepository;

fn fake_error() -> RepositoryError {
    RepositoryError::DatabaseError("Fake Error".to_string())
}

impl PatientRepository for BrokenPatientRepository {
    // The port's ghost members are erased at every call site and are
    // never invoked at runtime.
    fn patients(&self) -> vstd::prelude::Seq<clinic::patient::PatientV> {
        panic!()
    }

    fn wf(&self) -> bool {
        panic!()
    }

    fn infallible(&self) -> bool {
        panic!()
    }

    fn exists_by_cpf(&self, _cpf: &str) -> Result<bool, RepositoryError> {
        Err(fake_error())
    }

    fn save(&mut self, _patient: &Patient) -> Result<i32, RepositoryError> {
        Err(fake_error())
    }

    fn find_by_id(&self, _id: i32) -> Result<Option<Patient>, RepositoryError> {
        Err(fake_error())
    }

    fn find_by_cpf(&self, _cpf: String) -> Result<Option<Patient>, RepositoryError> {
        Err(fake_error())
    }

    fn update(&mut self, _patient: &Patient) -> Result<Patient, RepositoryError> {
        Err(fake_error())
    }

    fn delete_by_cpf(&mut self, _cpf: String) -> Result<(), RepositoryError> {
        Err(fake_error())
    }
}

#[test]
fn execute_patient_repository_delete_by_cpf_error() {
    let mut sut = DeletePatientByCpfUseCase::new(BrokenPatientRepository);

    let result = sut.execute("12345678901".to_string());

    assert!(result.is_err());
}

#[test]
fn execute_patient_repository_error() {
    let sut = FindPatientByCpfUseCase::new(BrokenPatientRepository);

    let result = sut.execute("00011122233".to_string());

    assert!(result.is_err());
}

#[test]
fn execute_patient_repository_exists_by_cpf_error() {
    let fake_patient = CreatePatientDTO {
        name: "Andrew".to_string(),
        cpf: "00011122233".to_string(),
    };

    let mut sut = RegisterPatientUseCase::new(BrokenPatientRepository);

    let result = sut.execute(fake_patient);

    assert!(result.is_err());
}

#[test]
fn execute_patient_repository_find_by_cpf_error() {
    let mut sut = UpdatePatientByCpfUseCase::new(BrokenPatientRepository);

    let result = sut.execute(
        "12345678901".to_string(),
        UpdatePatientDTO {
            name: Some("Andrew Updated".to_string()),
        },
    );

    assert!(result.is_err());
}

/// A store that reads fine but fails on every write.
struct WriteBrokenPatientRepository(InMemoryPatientRepository);

impl PatientRepository for WriteBrokenPatientRepository {
    // The port's ghost members are erased at every call site and are
    // never invoked at runtime.
    fn patients(&self) -> vstd::prelude::Seq<clinic::patient::PatientV> {
        panic!()
    }

    fn wf(&self) -> bool {
        panic!()
    }

    fn infallible(&self) -> bool {
        panic!()
    }

    fn exists_by_cpf(&self, cpf: &str) -> Result<bool, RepositoryError> {
        self.0.exists_by_cpf(cpf)
    }

    fn save(&mut self, _patient: &Patient) -> Result<i32, RepositoryError> {
        Err(fake_error())
    }

    fn find_by_id(&self, id: i32) -> Result<Option<Patient>, RepositoryError> {
        self.0.find_by_id(id)
    }

    fn find_by_cpf(&self, cpf: String) -> Result<Option<Patient>, RepositoryError> {
        self.0.find_by_cpf(cpf)
    }

    fn update(&mut self, _patient: &Patient) -> Result<Patient, RepositoryError> {
        Err(fake_error())
    }

    fn delete_by_cpf(&mut self, _cpf: String) -> Result<(), RepositoryError> {
        Err(fake_error())
    }
}

#[test]
fn execute_patient_repository_save_error() {
    let fake_patient = CreatePatientDTO {
        name: "Andrew".to_string(),
        cpf: "00011122233".to_string(),
    };

    let mut sut =
        RegisterPatientUseCase::new(WriteBrokenPatientRepository(InMemoryPatientRepository::new()));

    let result = sut.execute(fake_patient);

    assert!(result.is_err());
}

#[test]
fn execute_patient_repository_update_error() {
    let mut stored = InMemoryPatientRepository::new();
    assert!(stored.seed(
        Patient::restore(42, "Andrew".to_string(), "12345678901".to_string()).unwrap()
    ));

    let mut sut = UpdatePatientByCpfUseCase::new(WriteBrokenPatientRepository(stored));

    let result = sut.execute(
        "12345678901".to_string(),
        UpdatePatientDTO {
            name: Some("Andrew Updated".to_string()),
        },
    );

    assert!(result.is_err());
}
