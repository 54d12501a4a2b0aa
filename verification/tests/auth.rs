use lorekeeper::data::models::user::{Timestamp, User, UserResponse};
use lorekeeper::data::record::DecodeError;
use lorekeeper::infrastructure::errors::InfrastructureError;
use lorekeeper::service::auth::AuthService;
use lorekeeper::service::errors::ServiceError;

fn user(password_hash: Option<String>) -> User {
    User {
        id: uuid::Uuid::nil(),
        username: "ada".to_string(),
        email: "ada@example.com".to_string(),
        password_hash,
        created_at: Timestamp { seconds: 1_700_000_000, nanos: 5 },
        updated_at: Timestamp { seconds: 1_700_000_100, nanos: 0 },
    }
}

#[test]
fn hashed_password_is_a_phc_string() {
    let h = AuthService::<()>::hash_password("hunter42").unwrap();
    assert!(h.starts_with("$argon2id$v=19$"));
    let h2 = AuthService::<()>::hash_password("hunter42").unwrap();
    assert_ne!(h, h2);
}

#[test]
fn hashed_password_authenticates_and_others_do_not() {
    let h = AuthService::<()>::hash_password("hunter42").unwrap();
    let ok = AuthService::<()>::authenticate_user(Ok(Some(user(Some(h.clone())))), "hunter42").unwrap();
    assert_eq!(ok.email, "ada@example.com");
    assert_eq!(ok.password_hash, Some(h.clone()));
    let wrong = AuthService::<()>::authenticate_user(Ok(Some(user(Some(h)))), "hunter43");
    assert!(matches!(wrong, Err(ServiceError::AuthError)));
}

#[test]
fn missing_user_is_not_found() {
    match AuthService::<()>::authenticate_user(Ok(None), "pw") {
        Err(ServiceError::NotFound(m)) => assert_eq!(m, "A user with that email does not exist"),
        other => panic!("unexpected {:?}", other),
    }
}

#[test]
fn user_without_hash_is_not_found() {
    match AuthService::<()>::authenticate_user(Ok(Some(user(None))), "pw") {
        Err(ServiceError::NotFound(m)) => {
            assert_eq!(m, "Password hash not found. OAuth accounts should not use this method.")
        },
        other => panic!("unexpected {:?}", other),
    }
}

#[test]
fn unreadable_hash_is_an_internal_error() {
    match AuthService::<()>::authenticate_user(Ok(Some(user(Some("not a hash".to_string())))), "pw") {
        Err(ServiceError::InternalError(m)) => assert!(!m.is_empty()),
        other => panic!("unexpected {:?}", other),
    }
}

#[test]
fn failed_lookup_is_an_internal_error() {
    let lookup = Err(InfrastructureError::MemgraphDeserialize(DecodeError::InvalidType));
    match AuthService::<()>::authenticate_user(lookup, "pw") {
        Err(ServiceError::InternalError(m)) => assert_eq!(m, "Memgraph deserialization error"),
        other => panic!("unexpected {:?}", other),
    }
}

#[test]
fn auth_service_keeps_its_store() {
    let service = AuthService::new(42u8);
    assert_eq!(*service.user_repo(), 42u8);
}

#[test]
fn user_response_drops_the_hash() {
    let r = UserResponse::from(user(Some("h".to_string())));
    assert_eq!(r.id, uuid::Uuid::nil());
    assert_eq!(r.username, "ada");
    assert_eq!(r.email, "ada@example.com");
    assert_eq!(r.created_at, Timestamp { seconds: 1_700_000_000, nanos: 5 });
    assert_eq!(r.updated_at, Timestamp { seconds: 1_700_000_100, nanos: 0 });
}
