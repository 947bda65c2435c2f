use clinic::admin::Admin;
use clinic::application_errors::AdminApplicationError;
use clinic::dtos::LoginDTO;
use clinic::identity::ID;
use clinic::memory::InMemoryAdminRepository;
use clinic::security::create_jwt;
use clinic::use_cases::login::LoginUseCase;
use jsonwebtoken::{DecodingKey, Validation};

fn admin_store(email: &str, password: &str) -> InMemoryAdminRepository {
    let mut repo = InMemoryAdminRepository::new();
    repo.add(Admin {
        id: ID::Existing(1),
        name: "Root".to_string(),
        email: email.to_string(),
        password_hash: bcrypt::hash(password, 4).unwrap(),
    });
    repo
}

#[test]
fn login_issues_a_decodable_token() {
    let email = "admin@clinic.com";
    let sut = LoginUseCase::new(admin_store(email, "hunter2"));

    let token = sut
        .execute(LoginDTO {
            email: email.to_string(),
            password: "hunter2".to_string(),
        })
        .unwrap();

    let decoded = jsonwebtoken::decode::<serde_json::Value>(
        &token,
        &DecodingKey::from_secret(b"secret"),
        &Validation::default(),
    )
    .unwrap();

    assert_eq!(decoded.claims.get("sub").and_then(|v| v.as_str()), Some(email));
    assert!(decoded.claims.get("exp").and_then(|v| v.as_u64()).unwrap_or(0) > 0);
}

#[test]
fn login_rejects_a_wrong_password() {
    let email = "admin@clinic.com";
    let sut = LoginUseCase::new(admin_store(email, "hunter2"));

    let result = sut.execute(LoginDTO {
        email: email.to_string(),
        password: "wrong".to_string(),
    });

    assert_eq!(
        result,
        Err(AdminApplicationError::LoginFailed(format!(
            "The provided credentials are invalid: {email}"
        )))
    );
}

#[test]
fn login_rejects_an_unknown_email() {
    let sut = LoginUseCase::new(InMemoryAdminRepository::new());

    let result = sut.execute(LoginDTO {
        email: "nobody@clinic.com".to_string(),
        password: "hunter2".to_string(),
    });

    assert_eq!(
        result,
        Err(AdminApplicationError::NotFound("nobody@clinic.com".to_string()))
    );
}

#[test]
fn create_jwt_tokens_differ_by_subject() {
    let a = create_jwt("a@clinic.com".to_string()).unwrap();
    let b = create_jwt("b@clinic.com".to_string()).unwrap();
    assert_ne!(a, b);

    let decoded = jsonwebtoken::decode::<serde_json::Value>(
        &a,
        &DecodingKey::from_secret(b"secret"),
        &Validation::default(),
    )
    .unwrap();
    assert_eq!(decoded.claims.get("sub").and_then(|v| v.as_str()), Some("a@clinic.com"));
}
