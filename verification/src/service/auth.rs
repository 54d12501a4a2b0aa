//! The authentication service: password hashing and the credential check.

use vstd::prelude::*;
use vstd::string::*;

use crate::data::models::user::User;
use crate::infrastructure::errors::InfrastructureError;
use crate::service::errors::{ServiceError, ServiceErrorView};

verus! {

/// What parsing `text` as a PHC password-hash string gives: success, or the
/// text of the parse error.
pub uninterp spec fn phc_parse(text: Seq<char>) -> Result<(), Seq<char>>;

/// Whether Argon2, with the parameters, salt and output recorded in the PHC
/// string `phc`, accepts `password`.
pub uninterp spec fn argon2_accepts(password: Seq<u8>, phc: Seq<char>) -> bool;

/// `argon2::PasswordHash::new`: parses a PHC string. Succeeds exactly when
/// `phc_parse` does, and fails with the text of its error.
#[verifier::external_body]
fn parse_phc(text: &str) -> (r: Result<(), String>)
    ensures
        match r {
            Ok(_) => phc_parse(text@) is Ok,
            Err(m) => phc_parse(text@) == Err::<(), Seq<char>>(m@),
        },
{
    match argon2::PasswordHash::new(text) {
        Ok(_) => Ok(()),
        Err(e) => Err(e.to_string()),
    }
}

/// `PasswordVerifier::verify_password` of the default `Argon2` on a PHC
/// string (which it parses, then verifies the password against): whether it
/// returns `Ok`.
#[verifier::external_body]
fn argon2_verify(password: &[u8], phc: &str) -> (r: bool)
    ensures
        r == argon2_accepts(password@, phc@),
{
    let verifier = argon2::Argon2::default();
    argon2::PasswordVerifier::<str>::verify_password(&verifier, password, phc).is_ok()
}

/// `PasswordHasher::hash_password` of the default `Argon2` (which draws a
/// random salt), as a PHC string, or the text of its error. The hash it gives
/// parses again, and the same password is accepted against it (the usage
/// example of the `argon2` crate). The default hasher is Argon2id, version 19,
/// and the PHC string names them first. Which hash comes back is left to
/// chance. With the default parameters it fails only where drawing the salt
/// fails (`rng failure`), where the memory blocks cannot be allocated (`out of
/// memory`), or where the password is longer than 2^32 - 1 bytes (`invalid
/// password`); whether the first two happen is left to the machine.
#[verifier::external_body]
fn argon2_hash(password: &[u8]) -> (r: Result<String, String>)
    ensures
        r matches Ok(h) ==> phc_parse(h@) is Ok && argon2_accepts(password@, h@),
        r matches Ok(h) ==> argon2id_v19_prefix().is_prefix_of(h@),
        r matches Err(m) ==> (m@ == "rng failure"@ || m@ == "out of memory"@ || (password@.len()
            > 0xFFFF_FFFF && m@ == "invalid password"@)),
{
    let hasher = argon2::Argon2::default();
    match argon2::PasswordHasher::<argon2::PasswordHash>::hash_password(&hasher, password) {
        Ok(h) => Ok(h.to_string()),
        Err(e) => Err(e.to_string()),
    }
}

/// The bytes a password is hashed and checked as.
pub open spec fn password_bytes(password: &str) -> Seq<u8> {
    password.spec_bytes()
}

/// How a PHC string of the default Argon2 hasher begins: the algorithm
/// Argon2id, version 19.
pub open spec fn argon2id_v19_prefix() -> Seq<char> {
    "$argon2id$v=19$"@
}

/// `phc` is a hash under which `password` is accepted.
pub open spec fn hashes(phc: Seq<char>, password: &str) -> bool {
    phc_parse(phc) is Ok && argon2_accepts(password_bytes(password), phc)
}

/// The explanation when no user has the email.
pub open spec fn no_such_user() -> Seq<char> {
    "A user with that email does not exist"@
}

/// The explanation when the user has no password hash.
pub open spec fn no_password_hash() -> Seq<char> {
    "Password hash not found. OAuth accounts should not use this method."@
}

/// The outcome of checking `password` against the user a lookup by email
/// found: the lookup's failure, a missing user, a missing or unreadable hash,
/// a rejected password, or the user.
pub open spec fn authentication_failure(
    lookup: Result<Option<User>, InfrastructureError>,
    password: &str,
) -> Option<ServiceErrorView> {
    match lookup {
        Err(e) => Some(ServiceErrorView::InternalError(e.message_spec())),
        Ok(None) => Some(ServiceErrorView::NotFound(no_such_user())),
        Ok(Some(user)) => match user.password_hash {
            None => Some(ServiceErrorView::NotFound(no_password_hash())),
            Some(h) => match phc_parse(h@) {
                Err(m) => Some(ServiceErrorView::InternalError(m)),
                Ok(_) => if argon2_accepts(password_bytes(password), h@) {
                    None
                } else {
                    Some(ServiceErrorView::AuthError)
                },
            },
        },
    }
}

/// A user whose stored hash was made from a password (as `hash_password`
/// makes it) is authenticated with that password.
pub proof fn lemma_hashed_password_authenticates(user: User, password: &str)
    requires
        user.password_hash matches Some(h) && hashes(h@, password),
    ensures
        authentication_failure(Ok(Some(user)), password) is None,
{
}

/// The service that checks credentials against the users of a user store.
#[derive(Clone)]
pub struct AuthService<R> {
    user_repo: R,
}

impl<R> AuthService<R> {
    /// The user store the service was made with.
    pub closed spec fn store(&self) -> R {
        self.user_repo
    }

    /// A service over the given user store.
    pub fn new(user_repo: R) -> (r: Self)
        ensures
            r.store() == user_repo,
    {
        AuthService { user_repo }
    }

    /// The user store the service reads.
    pub fn user_repo(&self) -> (r: &R)
        ensures
            *r == self.store(),
    {
        &self.user_repo
    }

    /// Hashes `password` with Argon2id (version 19) and a fresh random salt,
    /// as a PHC string; the hash accepts the password. A failure of the hasher
    /// is an internal error with its text: no salt could be drawn, no memory
    /// could be had, or the password is longer than 2^32 - 1 bytes.
    pub fn hash_password(password: &str) -> (r: Result<String, ServiceError>)
        ensures
            match r {
                Ok(h) => hashes(h@, password) && argon2id_v19_prefix().is_prefix_of(h@),
                Err(e) => e matches ServiceError::InternalError(m) && (m@ == "rng failure"@ || m@
                    == "out of memory"@ || (password.spec_bytes().len() > 0xFFFF_FFFF && m@
                    == "invalid password"@)),
            },
    {
        match argon2_hash(password.as_bytes()) {
            Ok(h) => Ok(h),
            Err(m) => Err(ServiceError::InternalError(m)),
        }
    }

    /// Checks `password` against the user that the lookup by email found
    /// (`lookup` is that lookup's outcome): answers the user when its stored
    /// hash accepts the password.
    pub fn authenticate_user(lookup: Result<Option<User>, InfrastructureError>, password: &str) -> (r:
        Result<User, ServiceError>)
        ensures
            match authentication_failure(lookup, password) {
                Some(e) => r matches Err(x) && x@ == e,
                None => r == Ok::<User, ServiceError>(lookup->Ok_0->Some_0),
            },
            r matches Ok(u) ==> lookup == Ok::<Option<User>, InfrastructureError>(Some(u)),
            r matches Ok(u) ==> (u.password_hash matches Some(h) && phc_parse(h@) is Ok
                && argon2_accepts(password.spec_bytes(), h@)),
            (lookup matches Ok(Some(u)) && u.password_hash matches Some(h) && phc_parse(h@) is Ok
                && !argon2_accepts(password.spec_bytes(), h@)) ==> r matches Err(
                ServiceError::AuthError,
            ),
    {
        let user = match lookup {
            Err(e) => return Err(ServiceError::InternalError(e.message())),
            Ok(None) => {
                return Err(ServiceError::NotFound("A user with that email does not exist".to_owned()))
            },
            Ok(Some(u)) => u,
        };
        let verdict = match &user.password_hash {
            None => Err(
                ServiceError::NotFound(
                    "Password hash not found. OAuth accounts should not use this method.".to_owned(),
                ),
            ),
            Some(h) => match parse_phc(h.as_str()) {
                Err(m) => Err(ServiceError::InternalError(m)),
                Ok(_) => if argon2_verify(password.as_bytes(), h.as_str()) {
                    Ok(())
                } else {
                    Err(ServiceError::AuthError)
                },
            },
        };
        match verdict {
            Ok(_) => Ok(user),
            Err(e) => Err(e),
        }
    }
}

} // verus!
