//! Administrator login: password check and token issuance.

use vstd::prelude::*;
use vstd::string::StringExecFns;
use crate::application_errors::AdminApplicationError;
use crate::dtos::LoginDTO;
use crate::repositories::{email_present, AdminRepository};
use crate::security::{bcrypt_accepts, create_jwt, hs256_token, verify_password};

verus! {

/// The failure text for a password that the stored hash rejects.
pub open spec fn invalid_credentials_message(email: Seq<char>) -> Seq<char> {
    "The provided credentials are invalid: "@ + email
}

/// The failure text for a token that could not be issued.
pub open spec fn token_failure_message(email: Seq<char>) -> Seq<char> {
    "Could not generate JWT token for admin "@ + email
}

/// Authenticates an administrator by email and password and issues a
/// token.
pub struct LoginUseCase<T: AdminRepository> {
    pub admin_repo: T,
}

impl<T: AdminRepository> LoginUseCase<T> {
    /// A use case over the given store.
    pub fn new(admin_repo: T) -> (r: Self)
        ensures
            r.admin_repo == admin_repo,
    {
        Self { admin_repo }
    }

    /// A token for the administrator stored under this email, when the
    /// password matches the stored hash. An unknown email is `NotFound`; a
    /// rejected password or a failed token issuance is `LoginFailed`; a
    /// storage fault surfaces as `Unexpected`.
    pub fn execute(&self, input: LoginDTO) -> (r: Result<String, AdminApplicationError>)
        requires
            self.admin_repo.wf(),
        ensures
            r matches Ok(t) ==> (exists|i: int|
                0 <= i < self.admin_repo.admins().len()
                    && (#[trigger] self.admin_repo.admins()[i]).email == input.email@
                    && bcrypt_accepts(
                    input.password@,
                    self.admin_repo.admins()[i].password_hash,
                )) && (exists|exp: int|
                #[trigger] hs256_token(input.email@, exp, "secret"@) == Some(t@)),
            r matches Err(e) ==> (match e {
                AdminApplicationError::NotFound(m) => m@ == input.email@ && !email_present(
                    self.admin_repo.admins(),
                    input.email@,
                ),
                AdminApplicationError::LoginFailed(m) => email_present(
                    self.admin_repo.admins(),
                    input.email@,
                ) && (m@ == invalid_credentials_message(input.email@) || m@
                    == token_failure_message(input.email@)),
                AdminApplicationError::Unexpected(_) => true,
            }),
            self.admin_repo.infallible() && !email_present(self.admin_repo.admins(), input.email@)
                ==> (r matches Err(AdminApplicationError::NotFound(m)) && m@ == input.email@),
            self.admin_repo.infallible() && email_present(self.admin_repo.admins(), input.email@)
                && (forall|i: int|
                0 <= i < self.admin_repo.admins().len() && (#[trigger] self.admin_repo.admins()[i]).email
                    == input.email@ ==> !bcrypt_accepts(
                    input.password@,
                    self.admin_repo.admins()[i].password_hash,
                )) ==> (r matches Err(AdminApplicationError::LoginFailed(m)) && m@
                == invalid_credentials_message(input.email@)),
            self.admin_repo.infallible() && email_present(self.admin_repo.admins(), input.email@)
                && (forall|i: int|
                0 <= i < self.admin_repo.admins().len() && (#[trigger] self.admin_repo.admins()[i]).email
                    == input.email@ ==> bcrypt_accepts(
                    input.password@,
                    self.admin_repo.admins()[i].password_hash,
                )) ==> (r is Ok || (r matches Err(AdminApplicationError::LoginFailed(m)) && m@
                == token_failure_message(input.email@))),
    {
        let found = match self.admin_repo.find_by_email(input.email.clone()) {
            Ok(found) => found,
            Err(e) => {
                return Err(AdminApplicationError::from(e));
            },
        };

        let admin = match found {
            Some(a) => a,
            None => {
                return Err(AdminApplicationError::NotFound(input.email));
            },
        };

        let admin_email = admin.email.clone();
        let password_hash = admin.password_hash.clone();

        if verify_password(input.password.as_str(), password_hash.as_str()) {
            let token = match create_jwt(admin_email.clone()) {
                Some(t) => t,
                None => {
                    let mut m = String::from_str("Could not generate JWT token for admin ");
                    m.append(admin_email.as_str());
                    return Err(AdminApplicationError::LoginFailed(m));
                },
            };
            return Ok(token);
        }

        let mut m = String::from_str("The provided credentials are invalid: ");
        m.append(admin_email.as_str());
        Err(AdminApplicationError::LoginFailed(m))
    }
}

} // verus!
