use backend::errors::APIError;
use backend::handlers::auth::{
    login, register_user, register_with_salt, user_created, LoginRequest, RegisterRequest, User,
};
use backend::middleware::auth::authorize;

const SECRET: &str = "login-secret";

fn register(name: &str, password: &str) -> backend::handlers::auth::NewUser {
    register_user(
        &None,
        RegisterRequest { username: name.to_string(), password: password.to_string() },
    )
    .ok()
    .expect("registered")
}

#[test]
fn taken_name_conflicts() {
    let existing = Some(User { id: 1, username: "ann".to_string(), password_hash: "x".to_string() });
    let r = register_user(
        &existing,
        RegisterRequest { username: "ann".to_string(), password: "pw".to_string() },
    );
    assert!(matches!(r, Err(APIError::Conflict)));
}

#[test]
fn new_user_gets_a_bcrypt_hash() {
    let u = register("bob", "hunter2");
    assert_eq!(u.username, "bob");
    assert_ne!(u.password_hash, "hunter2");
    assert!(u.password_hash.starts_with("$2b$12$"));
    assert!(bcrypt::verify("hunter2", &u.password_hash).unwrap());
    let reply = user_created();
    assert_eq!((reply.status, reply.body), (201, "User created"));
}

#[test]
fn registered_password_logs_in_and_token_authorizes() {
    let u = register("carol", "s3cret");
    let user = User { id: 7, username: u.username, password_hash: u.password_hash };
    let now: u64 = 1_900_000_000;
    let token = login(
        Some(user),
        LoginRequest { username: "carol".to_string(), password: "s3cret".to_string() },
        SECRET,
        now,
    )
    .expect("token");
    let header = format!("Bearer {}", token);
    assert_eq!(
        authorize(Some(&header), SECRET),
        Ok("{\"sub\":7,\"exp\":1900604800}".to_string())
    );
}

#[test]
fn wrong_password_is_unauthorized() {
    let u = register("dave", "right");
    let user = User { id: 8, username: u.username, password_hash: u.password_hash };
    let r = login(
        Some(user),
        LoginRequest { username: "dave".to_string(), password: "wrong".to_string() },
        SECRET,
        1_900_000_000,
    );
    assert_eq!(r, Err(APIError::Unauthorized));
}

#[test]
fn unknown_user_is_not_found() {
    let r = login(
        None,
        LoginRequest { username: "nobody".to_string(), password: "pw".to_string() },
        SECRET,
        1_900_000_000,
    );
    assert_eq!(r, Err(APIError::NotFound));
}

#[test]
fn unreadable_stored_hash_is_internal_error() {
    let user = User { id: 9, username: "eve".to_string(), password_hash: "plain".to_string() };
    let r = login(
        Some(user),
        LoginRequest { username: "eve".to_string(), password: "plain".to_string() },
        SECRET,
        1_900_000_000,
    );
    assert_eq!(r, Err(APIError::InternalServerError));
}

#[test]
fn registration_with_a_given_salt_is_the_cost_12_bcrypt_hash() {
    let salt = [7u8; 16];
    let u = register_with_salt(
        &None,
        RegisterRequest { username: "fay".to_string(), password: "pw1".to_string() },
        salt,
    )
    .ok()
    .expect("registered");
    let expected = bcrypt::hash_with_salt("pw1", 12, salt)
        .unwrap()
        .format_for_version(bcrypt::Version::TwoB);
    assert_eq!(u.username, "fay");
    assert_eq!(u.password_hash, expected);
    assert_eq!(u.password_hash.len(), 60);
    assert!(u.password_hash.starts_with("$2b$12$"));
    assert!(bcrypt::verify("pw1", &u.password_hash).unwrap());
}

#[test]
fn registration_with_a_given_salt_conflicts_on_taken_name() {
    let existing = Some(User { id: 1, username: "gus".to_string(), password_hash: "x".to_string() });
    let r = register_with_salt(
        &existing,
        RegisterRequest { username: "gus".to_string(), password: "pw".to_string() },
        [0u8; 16],
    );
    assert!(matches!(r, Err(APIError::Conflict)));
}
