//! The users of the service and the requests and responses about them.

use vstd::prelude::*;

verus! {

/// The identifier type of the `uuid` crate.
#[verifier::external_type_specification]
#[verifier::external_body]
pub struct ExUuid(uuid::Uuid);

/// `Clone` of an identifier (derived in `uuid`, a copy of its bytes): gives an
/// equal identifier.
pub assume_specification[ <uuid::Uuid as Clone>::clone ](u: &uuid::Uuid) -> (r: uuid::Uuid)
    ensures
        r == *u,
;

/// A point in time in UTC: whole seconds since the Unix epoch, and the
/// nanoseconds past that second.
#[derive(Clone, Copy, Debug, PartialEq, Eq, Structural)]
pub struct Timestamp {
    pub seconds: i64,
    pub nanos: u32,
}

/// A registered user. Accounts made through an outside identity provider
/// have no password hash.
#[derive(Clone, Debug)]
pub struct User {
    pub id: uuid::Uuid,
    pub username: String,
    pub email: String,
    pub password_hash: Option<String>,
    pub created_at: Timestamp,
    pub updated_at: Timestamp,
}

/// The credentials of a login.
#[derive(Clone, Debug)]
pub struct LoginRequest {
    pub email: String,
    pub password: String,
}

/// The details of a sign-up.
#[derive(Clone, Debug)]
pub struct SignupRequest {
    pub username: String,
    pub email: String,
    pub password: String,
}

/// What is shown of a user: everything but the password hash.
#[derive(Clone, Debug)]
pub struct UserResponse {
    pub id: uuid::Uuid,
    pub username: String,
    pub email: String,
    pub created_at: Timestamp,
    pub updated_at: Timestamp,
}

impl From<User> for UserResponse {
    fn from(value: User) -> (r: Self) {
        UserResponse {
            id: value.id,
            username: value.username,
            email: value.email,
            created_at: value.created_at,
            updated_at: value.updated_at,
        }
    }
}

impl vstd::std_specs::convert::FromSpecImpl<User> for UserResponse {
    open spec fn obeys_from_spec() -> bool {
        true
    }

    open spec fn from_spec(value: User) -> UserResponse {
        UserResponse {
            id: value.id,
            username: value.username,
            email: value.email,
            created_at: value.created_at,
            updated_at: value.updated_at,
        }
    }
}

} // verus!
