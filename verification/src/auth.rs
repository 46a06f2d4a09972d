//! The token issuer and the token gate: `login` checks a submitted password
//! against a stored argon2 hash and mints a signed, time-limited bearer
//! credential; `check_bearer` is the middleware decision that admits or
//! rejects a request to a protected route. Password hashing and token
//! signing are done by the argon2 and jsonwebtoken crates behind trusted
//! wrappers; everything around those calls is verified.

use vstd::prelude::*;
use vstd::string::StrSliceExecFns;
use crate::error::AppError;
use argon2::password_hash::{PasswordHash, PasswordVerifier};

verus! {

/// A stored account record. Accounts are created out-of-band; this pathway
/// only reads them.
pub struct User {
    pub id: u128,
    pub username: String,
    pub password_hash: String,
    pub created_at: i64,
}

/// The credentials a client submits to `login`.
pub struct LoginRequest {
    pub username: String,
    pub password: String,
}

/// The issued credential, handed back as an opaque string.
#[derive(Debug)]
pub struct LoginResponse {
    pub token: String,
}

/// What a bearer credential encodes: the subject (a username) and the
/// expiry as seconds since the epoch.
#[derive(Debug)]
pub struct Claims {
    pub sub: String,
    pub exp: u64,
}

/// Seconds a freshly issued credential stays valid: 24 hours.
pub const TOKEN_LIFETIME_SECS: u64 = 86400;

/// The token jsonwebtoken mints for this subject, expiry and signing
/// secret. The signing is deterministic (HS256 over a fixed header and a
/// two-field claims object), so the result is a function of the arguments.
pub uninterp spec fn token_of(sub: Seq<char>, exp: u64, secret: Seq<char>) -> Seq<char>;

/// The subject and expiry a token carries when its signature verifies
/// against the secret and the claims hold a string subject and an integer
/// expiry; `None` when it is malformed or signed otherwise.
pub uninterp spec fn claims_of(token: Seq<char>, secret: Seq<char>) -> Option<(Seq<char>, u64)>;

/// Whether a stored hash string parses as a PHC-format password hash.
pub uninterp spec fn phc_parses(hash: Seq<char>) -> bool;

/// Whether the password matches the hash under argon2.
pub uninterp spec fn argon2_verifies(password: Seq<char>, hash: Seq<char>) -> bool;

/// Outcome of holding a submitted password against a stored hash.
pub enum PasswordCheck {
    /// The stored hash string does not parse; a server-side fault, never an
    /// authentication verdict.
    BadHash,
    Match,
    Mismatch,
}

/// Relies on argon2: `PasswordHash::new` parses the stored PHC string, and
/// `Argon2::verify_password` recomputes the hash over the submitted
/// password in constant time. Both are functions of their arguments alone.
#[verifier::external_body]
fn verify_password_hash(password: &str, hash: &str) -> (r: PasswordCheck)
    ensures
        (r is BadHash) == !phc_parses(hash@),
        phc_parses(hash@) ==> ((r is Match) == argon2_verifies(password@, hash@)),
{
    match PasswordHash::new(hash) {
        Err(_) => PasswordCheck::BadHash,
        Ok(parsed) => match argon2::Argon2::default().verify_password(
            password.as_bytes(),
            &parsed,
        ) {
            Ok(()) => PasswordCheck::Match,
            Err(_) => PasswordCheck::Mismatch,
        },
    }
}

/// Relies on jsonwebtoken's `encode` with the default header (HS256): the
/// token is the deterministic signing of `{sub, exp}` with the secret, and
/// decoding it under the same secret yields those claims back. For this
/// input `encode` cannot fail — the key and header families agree, JSON
/// serialization of the fixed header and of a string-keyed object of a
/// string and an integer is infallible, and HMAC signing always returns —
/// so the wrapper promises the token itself.
#[verifier::external_body]
fn encode_token(sub: &str, exp: u64, secret: &str) -> (r: String)
    ensures
        r@ == token_of(sub@, exp, secret@),
        claims_of(r@, secret@) == Some((sub@, exp)),
{
    let mut claims = serde_json::Map::new();
    claims.insert("sub".to_string(), serde_json::Value::String(sub.to_string()));
    claims.insert("exp".to_string(), serde_json::Value::from(exp));
    jsonwebtoken::encode(
        &jsonwebtoken::Header::default(),
        &serde_json::Value::Object(claims),
        &jsonwebtoken::EncodingKey::from_secret(secret.as_bytes()),
    ).expect("HS256 encoding of a two-field claims object cannot fail")
}

/// Relies on jsonwebtoken's `decode` (HS256) with the expiry comparison
/// switched off: the signature is verified against the secret and the
/// carried subject and expiry are handed out (the body only moves those two
/// fields out of the decoded claims object). With no clock involved the
/// outcome is a function of token and secret alone, so success is promised
/// exactly where the signature verifies and the two claims are present;
/// the caller compares the expiry against its own clock.
#[verifier::external_body]
fn decode_token(token: &str, secret: &str) -> (r: Option<(String, u64)>)
    ensures
        (r is Some) == (claims_of(token@, secret@) is Some),
        r matches Some(c) ==> claims_of(token@, secret@) == Some((c.0@, c.1)),
{
    let key = jsonwebtoken::DecodingKey::from_secret(secret.as_bytes());
    let mut validation = jsonwebtoken::Validation::default();
    validation.validate_exp = false;
    let data = jsonwebtoken::decode::<serde_json::Value>(token, &key, &validation).ok()?;
    let sub = data.claims.get("sub")?.as_str()?.to_string();
    let exp = data.claims.get("exp")?.as_u64()?;
    Some((sub, exp))
}

/// Verify a submitted password against the stored record (if one was found
/// for the submitted username) and mint a credential on success.
///
/// A missing record and a wrong password yield the identical rejection, so
/// a caller cannot probe which usernames exist. On success the credential's
/// subject is the stored username and its expiry is exactly 24 hours past
/// `now`.
pub fn login(user: Option<&User>, payload: &LoginRequest, secret: &str, now: u64) -> (r: Result<
    LoginResponse,
    AppError,
>)
    requires
        now + TOKEN_LIFETIME_SECS <= u64::MAX,
    ensures
        user is None ==> (r matches Err(e) && e matches AppError::Unauthorized(m) && m@
            == "Invalid credentials"@),
        (user matches Some(u) && !phc_parses(u.password_hash@)) ==> (r matches Err(e)
            && e matches AppError::InternalServerError(m) && m@ == "Invalid password hash"@),
        (user matches Some(u) && phc_parses(u.password_hash@) && !argon2_verifies(
            payload.password@,
            u.password_hash@,
        )) ==> (r matches Err(e) && e matches AppError::Unauthorized(m) && m@
            == "Invalid credentials"@),
        user matches Some(u) ==> ((phc_parses(u.password_hash@) && argon2_verifies(
            payload.password@,
            u.password_hash@,
        )) ==> (r matches Ok(resp) && resp.token@ == token_of(
            u.username@,
            (now + TOKEN_LIFETIME_SECS) as u64,
            secret@,
        ) && claims_of(resp.token@, secret@) == Some(
            (u.username@, (now + TOKEN_LIFETIME_SECS) as u64),
        ))),
        (r is Ok) == (user matches Some(u) && phc_parses(u.password_hash@) && argon2_verifies(
            payload.password@,
            u.password_hash@,
        )),
{
    let u = match user {
        None => {
            return Err(AppError::Unauthorized("Invalid credentials".to_owned()));
        },
        Some(u) => u,
    };
    match verify_password_hash(payload.password.as_str(), u.password_hash.as_str()) {
        PasswordCheck::BadHash => Err(
            AppError::InternalServerError("Invalid password hash".to_owned()),
        ),
        PasswordCheck::Mismatch => Err(AppError::Unauthorized("Invalid credentials".to_owned())),
        PasswordCheck::Match => {
            let exp = now + TOKEN_LIFETIME_SECS;
            let token = encode_token(u.username.as_str(), exp, secret);
            Ok(LoginResponse { token })
        },
    }
}

/// The view of an optional header value.
pub open spec fn opt_view(h: Option<&String>) -> Option<Seq<char>> {
    match h {
        None => None,
        Some(s) => Some(s@),
    }
}

/// The token inside an `Authorization: Bearer <token>` header value, if the
/// value is present and carries that scheme.
pub open spec fn spec_bearer_token(h: Option<Seq<char>>) -> Option<Seq<char>> {
    match h {
        None => None,
        Some(s) => if s.len() >= 7 && s.take(7) == "Bearer "@ {
            Some(s.skip(7))
        } else {
            None
        },
    }
}

/// Strip the `Bearer ` scheme off an `Authorization` header value.
pub fn extract_bearer(header: Option<&String>) -> (r: Option<String>)
    ensures
        r matches Some(t) ==> spec_bearer_token(opt_view(header)) == Some(t@),
        r is None ==> spec_bearer_token(opt_view(header)) is None,
{
    proof {
        reveal_strlit("Bearer ");
    }
    let h = match header {
        None => {
            return None;
        },
        Some(h) => h,
    };
    let hs = h.as_str();
    let n = hs.unicode_len();
    if n < 7 {
        return None;
    }
    if hs.get_char(0) != 'B' || hs.get_char(1) != 'e' || hs.get_char(2) != 'a' || hs.get_char(3)
        != 'r' || hs.get_char(4) != 'e' || hs.get_char(5) != 'r' || hs.get_char(6) != ' ' {
        assert(forall|i: int| 0 <= i < 7 ==> h@.take(7)[i] == h@[i]);
        assert(h@.take(7) != "Bearer "@);
        return None;
    }
    assert(h@.take(7) =~= "Bearer "@);
    let tok = hs.substring_char(7, n);
    Some(tok.to_owned())
}

/// When the token gate admits a request at `now`: its header carries a
/// bearer token whose signature verifies under the secret and whose expiry
/// lies strictly after `now`.
pub open spec fn bearer_admits(header: Option<Seq<char>>, secret: Seq<char>, now: u64) -> bool {
    &&& spec_bearer_token(header) matches Some(t)
    &&& claims_of(t, secret) matches Some(c)
    &&& c.1 > now
}

/// Admit a request to a protected route exactly when it carries a `Bearer`
/// token whose signature verifies and that has not expired by `now` (an
/// exact comparison, no leeway); every failure is the same terminal
/// rejection and the request never reaches a handler.
pub fn check_bearer(header: Option<&String>, secret: &str, now: u64) -> (r: Result<
    Claims,
    AppError,
>)
    ensures
        (r is Ok) == bearer_admits(opt_view(header), secret@, now),
        r matches Ok(c) ==> (spec_bearer_token(opt_view(header)) matches Some(t) && claims_of(
            t,
            secret@,
        ) == Some((c.sub@, c.exp)) && c.exp > now),
        r matches Err(e) ==> (e matches AppError::Unauthorized(m) && m@ == "Unauthorized"@),
{
    let token = match extract_bearer(header) {
        None => {
            return Err(AppError::Unauthorized("Unauthorized".to_owned()));
        },
        Some(t) => t,
    };
    match decode_token(token.as_str(), secret) {
        None => Err(AppError::Unauthorized("Unauthorized".to_owned())),
        Some((sub, exp)) => {
            if exp > now {
                Ok(Claims { sub, exp })
            } else {
                Err(AppError::Unauthorized("Unauthorized".to_owned()))
            }
        },
    }
}

} // verus!
