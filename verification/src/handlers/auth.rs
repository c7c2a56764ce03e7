use vstd::prelude::*;

use crate::errors::{text_result, APIError, Reply};
use crate::json::digit_char;
use crate::middleware::auth::{
    claims_json, issue_token, jwt_accepted_claims, jwt_encoded, Claims,
};

verus! {

/// The body of a registration request.
pub struct RegisterRequest {
    pub username: String,
    pub password: String,
}

/// The body of a login request.
pub struct LoginRequest {
    pub username: String,
    pub password: String,
}

/// A stored user, as the users table holds it.
pub struct User {
    pub id: i32,
    pub username: String,
    pub password_hash: String,
}

/// A user to be stored: the name and the bcrypt hash of the password.
pub struct NewUser {
    pub username: String,
    pub password_hash: String,
}

/// The bcrypt work factor of stored password hashes.
pub const HASH_COST: u32 = 12;

/// How long a session token stays valid, in seconds (seven days).
pub const TOKEN_LIFETIME_SECS: u64 = 604800;

/// Names what `bcrypt::verify` returns for a password and a stored hash:
/// `Some(matches)`, or `None` when the hash cannot be read.
pub uninterp spec fn bcrypt_verifies(password: Seq<char>, hash: Seq<char>) -> Option<bool>;

/// Names what `bcrypt::hash_with_salt` writes for a password, a cost and a
/// salt, formatted as `bcrypt::hash` formats it (`$2b$`, two-digit cost,
/// `$`, base64 salt and hash).
pub uninterp spec fn bcrypt_hashed(password: Seq<char>, cost: u32, salt: Seq<u8>) -> Seq<char>;

#[verifier::external_type_specification]
#[verifier::external_body]
pub struct ExBcryptError(bcrypt::BcryptError);

#[verifier::external_type_specification]
#[verifier::external_body]
pub struct ExRandomError(getrandom::Error);

/// Calls `getrandom::getrandom` on 16 bytes, the salt source that
/// `bcrypt::hash` uses. Nothing is stated of the bytes, which are random,
/// nor of when the system's random source fails.
#[verifier::external_body]
fn random_salt() -> (r: Result<[u8; 16], getrandom::Error>) {
    let mut salt = [0u8; 16];
    match getrandom::getrandom(&mut salt) {
        Ok(()) => Ok(salt),
        Err(e) => Err(e),
    }
}

/// Calls `bcrypt::hash_with_salt` and formats the result with
/// `format_for_version(Version::TwoB)`, which is what `bcrypt::hash` does
/// after drawing its salt. Claimed: it fails exactly when the cost is
/// outside 4..=31; the hash is the one named by `bcrypt_hashed`; it reads
/// `$2b$`, the cost in two digits and `$`, 60 characters in all; and
/// `bcrypt::verify` accepts it for the same password (in the crate's source
/// `verify` parses this text and recomputes the hash with its cost and
/// salt).
#[verifier::external_body]
fn bcrypt_hash_with_salt(password: &str, cost: u32, salt: [u8; 16]) -> (r: Result<
    String,
    bcrypt::BcryptError,
>)
    ensures
        r is Ok <==> 4 <= cost <= 31,
        r matches Ok(h) ==> h@ == bcrypt_hashed(password@, cost, salt@),
        r matches Ok(h) ==> bcrypt_verifies(password@, h@) == Some(true),
        r matches Ok(h) ==> h@.len() == 60 && h@.subrange(0, 4) == seq!['$', '2', 'b', '$']
            && h@[4] == digit_char((cost / 10) as int) && h@[5] == digit_char((cost % 10) as int) && h@[6] == '$',
{
    match bcrypt::hash_with_salt(password, cost, salt) {
        Ok(parts) => Ok(parts.format_for_version(bcrypt::Version::TwoB)),
        Err(e) => Err(e),
    }
}

/// Calls `bcrypt::verify`. Claimed: the outcome is the one named by
/// `bcrypt_verifies`.
#[verifier::external_body]
fn bcrypt_verify(password: &str, hash: &str) -> (r: Result<bool, bcrypt::BcryptError>)
    ensures
        (match r {
            Ok(b) => bcrypt_verifies(password@, hash@) == Some(b),
            Err(_) => bcrypt_verifies(password@, hash@) is None,
        }),
{
    bcrypt::verify(password, hash)
}

/// How every stored password hash begins: bcrypt version 2b, cost 12.
pub open spec fn stored_hash_prefix() -> Seq<char> {
    seq!['$', '2', 'b', '$', '1', '2', '$']
}

/// `u` is what storing the registration `data` with bcrypt salt `salt`
/// gives: the requested name and the cost-12 bcrypt hash of the password,
/// which bcrypt verifies for that password.
pub open spec fn registered_as(u: NewUser, data: RegisterRequest, salt: Seq<u8>) -> bool {
    &&& u.username@ == data.username@
    &&& u.password_hash@ == bcrypt_hashed(data.password@, HASH_COST, salt)
    &&& bcrypt_verifies(data.password@, u.password_hash@) == Some(true)
    &&& u.password_hash@.len() == 60
    &&& u.password_hash@.subrange(0, 7) == stored_hash_prefix()
}

/// What a registration decides once the bcrypt salt is drawn: `Conflict`
/// when a user already holds the requested name, otherwise the user to
/// store, with the cost-12 bcrypt hash of the password under `salt`.
pub fn register_with_salt(existing: &Option<User>, data: RegisterRequest, salt: [u8; 16]) -> (r:
    Result<NewUser, APIError>)
    ensures
        existing is Some ==> r == Err::<NewUser, APIError>(APIError::Conflict),
        existing is None ==> (r matches Ok(u) && registered_as(u, data, salt@)),
        existing is None ==> (r matches Ok(u) && u.username@ == data.username@
            && u.password_hash@ == bcrypt_hashed(data.password@, 12u32, salt@)),
{
    if existing.is_some() {
        return Err(APIError::Conflict);
    }
    match bcrypt_hash_with_salt(data.password.as_str(), HASH_COST, salt) {
        Ok(password_hash) => {
            let u = NewUser { username: data.username, password_hash };
            assert(u.password_hash@.subrange(0, 7) =~= stored_hash_prefix());
            Ok(u)
        },
        Err(_) => {
            proof {
                assert(false);
            }
            Err(APIError::InternalServerError)
        },
    }
}

/// What a registration decides, given the user already stored under the
/// requested name, if any: `Conflict` when the name is taken (no salt is
/// drawn then); otherwise a fresh random salt is drawn
/// (`InternalServerError` when the random source fails) and the user is
/// stored as `register_with_salt` says.
pub fn register_user(existing: &Option<User>, data: RegisterRequest) -> (r: Result<
    NewUser,
    APIError,
>)
    ensures
        existing is Some ==> r == Err::<NewUser, APIError>(APIError::Conflict),
        existing is None && r is Err ==> r == Err::<NewUser, APIError>(
            APIError::InternalServerError,
        ),
        r matches Ok(u) ==> exists|salt: Seq<u8>|
            salt.len() == 16 && #[trigger] registered_as(u, data, salt),
{
    if existing.is_some() {
        return Err(APIError::Conflict);
    }
    match random_salt() {
        Ok(salt) => {
            let ghost request = data;
            let r = register_with_salt(existing, data, salt);
            proof {
                if r is Ok {
                    assert(registered_as(r->Ok_0, request, salt@));
                }
            }
            r
        },
        Err(_) => Err(APIError::InternalServerError),
    }
}

/// The answer once the new user is stored.
pub fn user_created() -> (r: Reply)
    ensures
        r.status == 201,
        r.body@ == "User created"@,
{
    Reply { status: 201, body: "User created" }
}

/// The outcome of a login, given the user stored under the requested name,
/// the password offered, the token secret and the current time in seconds.
pub open spec fn login_outcome(
    found: Option<User>,
    password: Seq<char>,
    secret: Seq<char>,
    now: int,
) -> Result<Seq<char>, APIError> {
    match found {
        None => Err(APIError::NotFound),
        Some(u) => match bcrypt_verifies(password, u.password_hash@) {
            None => Err(APIError::InternalServerError),
            Some(false) => Err(APIError::Unauthorized),
            Some(true) => Ok(
                jwt_encoded(claims_json(u.id as int, now + TOKEN_LIFETIME_SECS), secret).unwrap(),
            ),
        },
    }
}

/// What a login decides: `NotFound` when no user has the name,
/// `Unauthorized` when the password does not match the stored hash,
/// `InternalServerError` when the stored hash cannot be read, otherwise a
/// session token for the user, valid for seven days from `now` and signed
/// with `secret`: `authorize` with that secret accepts it on every check
/// but the expiry time and then yields the user's id and that expiry.
pub fn login(found: Option<User>, data: LoginRequest, secret: &str, now: u64) -> (r: Result<
    String,
    APIError,
>)
    requires
        now + TOKEN_LIFETIME_SECS <= usize::MAX,
    ensures
        text_result(r) == login_outcome(found, data.password@, secret@, now as int),
        r is Ok <==> (found matches Some(u) && bcrypt_verifies(data.password@, u.password_hash@)
            == Some(true)),
        r matches Ok(t) ==> (found matches Some(u) && jwt_accepted_claims(t@, secret@) == Some(
            claims_json(u.id as int, now + TOKEN_LIFETIME_SECS),
        )),
{
    let user = match found {
        Some(user) => user,
        None => return Err(APIError::NotFound),
    };
    let is_valid_password = match bcrypt_verify(data.password.as_str(), user.password_hash.as_str()) {
        Ok(b) => b,
        Err(_) => return Err(APIError::InternalServerError),
    };
    if !is_valid_password {
        return Err(APIError::Unauthorized);
    }
    let expiry: usize = (now + TOKEN_LIFETIME_SECS) as usize;
    let claims = Claims { sub: user.id, exp: expiry };
    let token = issue_token(&claims, secret);
    Ok(token)
}

/// A user who logs in with the password they registered with (a stored
/// hash that bcrypt verifies for it, as `register_user` and
/// `register_with_salt` guarantee) gets a session token: the one issued
/// for their id and an expiry seven days after `now`.
pub proof fn lemma_registered_password_logs_in(
    user: User,
    password: Seq<char>,
    secret: Seq<char>,
    now: int,
)
    requires
        bcrypt_verifies(password, user.password_hash@) == Some(true),
    ensures
        login_outcome(Some(user), password, secret, now) == Ok::<Seq<char>, APIError>(
            jwt_encoded(claims_json(user.id as int, now + TOKEN_LIFETIME_SECS), secret).unwrap(),
        ),
{
}

/// Storing a registration and logging in with the same password: the login
/// succeeds, whatever salt was drawn.
pub proof fn lemma_register_then_login(
    u: NewUser,
    data: RegisterRequest,
    salt: Seq<u8>,
    id: i32,
    password: Seq<char>,
    secret: Seq<char>,
    now: int,
)
    requires
        registered_as(u, data, salt),
        password == data.password@,
    ensures
        login_outcome(
            Some(User { id, username: u.username, password_hash: u.password_hash }),
            password,
            secret,
            now,
        ) is Ok,
{
}

/// A password that bcrypt rejects for the stored hash never logs in, and
/// an unknown user name is answered with `NotFound`.
pub proof fn lemma_wrong_password_refused(
    found: Option<User>,
    password: Seq<char>,
    secret: Seq<char>,
    now: int,
)
    ensures
        found is None ==> login_outcome(found, password, secret, now) == Err::<Seq<char>, APIError>(
            APIError::NotFound,
        ),
        found matches Some(u) && bcrypt_verifies(password, u.password_hash@) == Some(false)
            ==> login_outcome(found, password, secret, now) == Err::<Seq<char>, APIError>(
            APIError::Unauthorized,
        ),
{
}

/// What a stored registration is, for every password and salt: the
/// requested name and the cost-12 bcrypt hash of the password under that
/// salt, a 60-character text starting `$2b$12$`, which bcrypt verifies for
/// the password.
pub proof fn lemma_registration(u: NewUser, data: RegisterRequest, salt: Seq<u8>)
    requires
        registered_as(u, data, salt),
    ensures
        u.username@ == data.username@,
        u.password_hash@ == bcrypt_hashed(data.password@, 12u32, salt),
        bcrypt_verifies(data.password@, u.password_hash@) == Some(true),
        u.password_hash@.len() == 60,
        u.password_hash@.subrange(0, 7) == seq!['$', '2', 'b', '$', '1', '2', '$'],
{
}

/// What a login gives for every input: `NotFound` without a user,
/// `InternalServerError` when the stored hash cannot be read,
/// `Unauthorized` when bcrypt rejects the password, and otherwise the
/// token issued for the user's id and an expiry 604800 seconds (seven
/// days) after `now`.
pub proof fn lemma_login(found: Option<User>, password: Seq<char>, secret: Seq<char>, now: int)
    ensures
        found is None ==> login_outcome(found, password, secret, now) == Err::<
            Seq<char>,
            APIError,
        >(APIError::NotFound),
        found matches Some(u) && bcrypt_verifies(password, u.password_hash@) is None
            ==> login_outcome(found, password, secret, now) == Err::<Seq<char>, APIError>(
            APIError::InternalServerError,
        ),
        found matches Some(u) && bcrypt_verifies(password, u.password_hash@) == Some(false)
            ==> login_outcome(found, password, secret, now) == Err::<Seq<char>, APIError>(
            APIError::Unauthorized,
        ),
        found is Some && bcrypt_verifies(password, found->Some_0.password_hash@) == Some(true)
            ==> login_outcome(found, password, secret, now) == Ok::<Seq<char>, APIError>(
            jwt_encoded(claims_json(found->Some_0.id as int, now + 604800), secret).unwrap(),
        ),
{
}

} // verus!
