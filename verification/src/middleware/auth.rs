use vstd::prelude::*;
use vstd::string::*;

use crate::errors::APIError;
use crate::json::{decimal_i32, decimal_int, decimal_usize, opt_text};

verus! {

/// What a session token asserts: the user it was issued to and when it
/// stops being valid (seconds since the Unix epoch).
#[derive(Clone, Copy, Debug, PartialEq, Eq, Structural)]
pub struct Claims {
    pub sub: i32,
    pub exp: usize,
}

/// The prefix of an `Authorization` header that carries a bearer token.
pub open spec fn bearer_prefix() -> Seq<char> {
    seq!['B', 'e', 'a', 'r', 'e', 'r', ' ']
}

/// The token that an `Authorization` header value carries: what follows
/// `"Bearer "`, if the value starts with it.
pub open spec fn strip_bearer(v: Seq<char>) -> Option<Seq<char>> {
    if v.len() >= 7 && v.subrange(0, 7) == bearer_prefix() {
        Some(v.subrange(7, v.len() as int))
    } else {
        None
    }
}

/// The token carried by an optional `Authorization` header value.
pub open spec fn token_of_header(header: Option<&str>) -> Option<Seq<char>> {
    match header {
        Some(v) => strip_bearer(v@),
        None => None,
    }
}

/// The JSON text of a token's claims, fields in declaration order, as
/// serde writes the struct.
pub open spec fn claims_json(sub: int, exp: int) -> Seq<char> {
    "{\"sub\":"@ + decimal_int(sub) + ",\"exp\":"@ + decimal_int(exp) + "}"@
}

/// Extracts the bearer token from the value of an `Authorization` header.
pub fn extract_token(header: Option<&str>) -> (r: Option<String>)
    ensures
        opt_text(r) == token_of_header(header),
{
    match header {
        None => None,
        Some(v) => {
            let n = v.unicode_len();
            if n >= 7 && v.get_char(0) == 'B' && v.get_char(1) == 'e' && v.get_char(2) == 'a'
                && v.get_char(3) == 'r' && v.get_char(4) == 'e' && v.get_char(5) == 'r'
                && v.get_char(6) == ' ' {
                assert(v@.subrange(0, 7) =~= bearer_prefix());
                let rest = v.substring_char(7, n);
                Some(String::from_str(rest))
            } else {
                assert(v@.len() >= 7 ==> forall|i: int|
                    0 <= i < 7 ==> #[trigger] v@.subrange(0, 7)[i] == v@[i]);
                None
            }
        },
    }
}

impl Claims {
    /// The JSON text that a token issued for these claims carries.
    pub fn to_json(&self) -> (s: String)
        ensures
            s@ == claims_json(self.sub as int, self.exp as int),
    {
        let mut s = String::from_str("{\"sub\":");
        let sub = decimal_i32(self.sub);
        s.append(sub.as_str());
        s.append(",\"exp\":");
        let exp = decimal_usize(self.exp);
        s.append(exp.as_str());
        s.append("}");
        s
    }
}

/// Names what `jsonwebtoken::encode` returns for a claims text and an HMAC
/// secret, with the default header (HS256): `Some(token)` or `None` when
/// the call fails.
pub uninterp spec fn jwt_encoded(claims: Seq<char>, secret: Seq<char>) -> Option<Seq<char>>;

/// Names what `jsonwebtoken::decode` with `Validation::default()` hands
/// back for a token and an HMAC secret, as far as it does not depend on the
/// clock: `None` when a check other than the expiry time rejects the token
/// (format, header, HS256 signature under `secret`, base64, JSON, a
/// missing or non-numeric `exp`, an `aud` claim), otherwise `Some` of the
/// JSON value in the token's payload segment, as written there without
/// surrounding whitespace.
pub uninterp spec fn jwt_accepted_claims(token: Seq<char>, secret: Seq<char>) -> Option<Seq<char>>;

/// The claims JSON text of a token issued for `c`.
pub open spec fn claims_text_of(c: Claims) -> Seq<char> {
    claims_json(c.sub as int, c.exp as int)
}

/// Calls `jsonwebtoken::encode` with `Header::default()` (HS256), the claims
/// given as JSON text (through `serde_json::value::RawValue::from_string`,
/// so the text is written verbatim) and `EncodingKey::from_secret`, for a
/// claims text written as `Claims::to_json` writes it. Claimed: the call
/// succeeds (the text is JSON, an HMAC key matches HS256, and HMAC signing
/// cannot fail), its result is the one named by `jwt_encoded`, and `decode`
/// with the same secret accepts the token on every check but the clock,
/// handing back exactly `claims` (the payload segment is the base64 of these
/// bytes; `exp` is a non-negative integer; there is no `aud`).
#[verifier::external_body]
fn jwt_encode(claims: &str, secret: &str) -> (r: Option<String>)
    requires
        exists|c: Claims| #[trigger] claims_text_of(c) == claims@,
    ensures
        r is Some,
        opt_text(r) == jwt_encoded(claims@, secret@),
        r matches Some(t) ==> jwt_accepted_claims(t@, secret@) == Some(claims@),
{
    let raw = match serde_json::value::RawValue::from_string(claims.to_string()) {
        Ok(raw) => raw,
        Err(_) => return None,
    };
    let key = jsonwebtoken::EncodingKey::from_secret(secret.as_bytes());
    match jsonwebtoken::encode(&jsonwebtoken::Header::default(), &raw, &key) {
        Ok(token) => Some(token),
        Err(_) => None,
    }
}

/// Calls `jsonwebtoken::decode` with `DecodingKey::from_secret` and
/// `Validation::default()`, taking the claims as raw JSON text. Claimed:
/// an accepted token yields the text named by `jwt_accepted_claims`, and a
/// token that name rejects is rejected. Not stated: whether a token that
/// passes every other check is accepted, since `decode` compares `exp`
/// (with 60 s of leeway) with the system clock; `decode` also panics if the
/// clock reads before 1970, which no argument decides.
#[verifier::external_body]
pub(crate) fn jwt_decode(token: &str, secret: &str) -> (r: Option<String>)
    ensures
        r matches Some(p) ==> jwt_accepted_claims(token@, secret@) == Some(p@),
        jwt_accepted_claims(token@, secret@) is None ==> r is None,
{
    let key = jsonwebtoken::DecodingKey::from_secret(secret.as_bytes());
    let validation = jsonwebtoken::Validation::default();
    match jsonwebtoken::decode::<Box<serde_json::value::RawValue>>(token, &key, &validation) {
        Ok(data) => Some(data.claims.get().to_string()),
        Err(_) => None,
    }
}

/// Issues a session token for `claims`, signed with `secret`. The token
/// is accepted by `authorize` with the same secret on every check but the
/// expiry time, and then yields exactly the claims it was issued for.
pub fn issue_token(claims: &Claims, secret: &str) -> (r: String)
    ensures
        jwt_encoded(claims_text_of(*claims), secret@) == Some(r@),
        jwt_accepted_claims(r@, secret@) == Some(claims_text_of(*claims)),
{
    let text = claims.to_json();
    assert(claims_text_of(*claims) == text@);
    match jwt_encode(text.as_str(), secret) {
        Some(token) => token,
        None => {
            proof {
                assert(false);
            }
            String::new()
        },
    }
}

/// What the authentication of a request decides, from the value of its
/// `Authorization` header and the server's token secret: the claims JSON
/// text of the bearer token, or `Unauthorized` when the header carries no
/// bearer token or the token is not accepted.
pub fn authorize(header: Option<&str>, secret: &str) -> (r: Result<String, APIError>)
    ensures
        token_of_header(header) is None ==> r == Err::<String, APIError>(APIError::Unauthorized),
        r matches Err(e) ==> e == APIError::Unauthorized,
        r matches Ok(p) ==> token_of_header(header) matches Some(t) && jwt_accepted_claims(
            t,
            secret@,
        ) == Some(p@),
        token_of_header(header) matches Some(t) && jwt_accepted_claims(t, secret@) is None ==> r
            is Err,
{
    let token = match extract_token(header) {
        Some(t) => t,
        None => return Err(APIError::Unauthorized),
    };
    match jwt_decode(token.as_str(), secret) {
        Some(text) => Ok(text),
        None => Err(APIError::Unauthorized),
    }
}

/// A header written as `"Bearer "` followed by a token carries exactly
/// that token.
pub proof fn lemma_bearer_roundtrip(token: Seq<char>)
    ensures
        strip_bearer(bearer_prefix() + token) == Some(token),
{
    let v = bearer_prefix() + token;
    assert(v.subrange(0, 7) =~= bearer_prefix());
    assert(v.subrange(7, v.len() as int) =~= token);
}

/// A header value carries a bearer token exactly when it starts with the
/// seven characters `Bearer ` (capital B, one space), and the token is
/// then everything after them.
pub proof fn lemma_strip_bearer(v: Seq<char>)
    ensures
        strip_bearer(v) is Some <==> (v.len() >= 7 && v[0] == 'B' && v[1] == 'e' && v[2] == 'a'
            && v[3] == 'r' && v[4] == 'e' && v[5] == 'r' && v[6] == ' '),
        strip_bearer(v) matches Some(t) ==> v == seq!['B', 'e', 'a', 'r', 'e', 'r', ' '] + t,
{
    if v.len() >= 7 && v[0] == 'B' && v[1] == 'e' && v[2] == 'a' && v[3] == 'r' && v[4] == 'e'
        && v[5] == 'r' && v[6] == ' ' {
        assert(v.subrange(0, 7) =~= bearer_prefix());
    }
    if v.len() >= 7 && v.subrange(0, 7) == bearer_prefix() {
        assert(forall|i: int| 0 <= i < 7 ==> #[trigger] v.subrange(0, 7)[i] == v[i]);
        assert(v =~= seq!['B', 'e', 'a', 'r', 'e', 'r', ' '] + v.subrange(7, v.len() as int));
    }
}

} // verus!
