use vstd::prelude::*;

use crate::errors::AppError;

verus! {

/// How long an issued token stays valid, in seconds: a fixed 24 hours.
pub const TOKEN_LIFETIME_SECONDS: u64 = 86400;

/// The claim set embedded in an identity token.
#[derive(Debug)]
pub struct Claims {
    pub sub: u128,
    pub exp: u64,
    pub iat: u64,
    pub email: String,
    pub username: String,
}

/// The mathematical value of a claim set: subject, email, username,
/// issued-at, expiry.
pub open spec fn claims_tuple(c: &Claims) -> (u128, Seq<char>, Seq<char>, u64, u64) {
    (c.sub, c.email@, c.username@, c.iat, c.exp)
}

/// The claim set a token carries under a given secret, or `None` when the
/// token is malformed, not signed with that secret, or does not carry the
/// expected claim fields. Signature checking is deterministic, so this is a
/// function of the token and the secret alone; expiry is judged separately,
/// against a caller-supplied time.
pub uninterp spec fn jwt_claims_of(token: Seq<char>, secret: Seq<char>) -> Option<
    (u128, Seq<char>, Seq<char>, u64, u64),
>;

/// Relies on `jsonwebtoken::encode` with the default header (HS256): the
/// returned token, decoded under the same secret, yields exactly the claims
/// given here. This call cannot fail: the key is built for the same HMAC
/// family as the header, the HMAC accepts a key of any length, and the
/// header and the string-keyed claim map serialize infallibly.
#[verifier::external_body]
fn encode_claims(
    sub: u128,
    email: &String,
    username: &String,
    iat: u64,
    exp: u64,
    secret: &String,
) -> (r: Option<String>)
    ensures
        r is Some,
        r matches Some(t) ==> jwt_claims_of(t@, secret@) == Some(
            (sub, email@, username@, iat, exp),
        ),
{
    let mut m = serde_json::Map::new();
    m.insert("sub".to_owned(), serde_json::Value::String(sub.to_string()));
    m.insert("email".to_owned(), serde_json::Value::String(email.clone()));
    m.insert("username".to_owned(), serde_json::Value::String(username.clone()));
    m.insert("iat".to_owned(), serde_json::Value::from(iat));
    m.insert("exp".to_owned(), serde_json::Value::from(exp));
    jsonwebtoken::encode(
        &jsonwebtoken::Header::default(),
        &serde_json::Value::Object(m),
        &jsonwebtoken::EncodingKey::from_secret(secret.as_bytes()),
    ).ok()
}

/// Relies on `jsonwebtoken::decode` restricted to HS256, with the expiry
/// check turned off so that expiry can be judged in checked code against a
/// caller-supplied time. Decoding is then a function of the token and the
/// secret alone: structure and signature are checked and the claim fields
/// extracted.
#[verifier::external_body]
fn decode_claims(token: &String, secret: &String) -> (r: Option<Claims>)
    ensures
        r matches Some(c) ==> jwt_claims_of(token@, secret@) == Some(claims_tuple(&c)),
        r is None ==> jwt_claims_of(token@, secret@) is None,
{
    let mut validation = jsonwebtoken::Validation::new(jsonwebtoken::Algorithm::HS256);
    validation.validate_exp = false;
    let data = jsonwebtoken::decode::<serde_json::Value>(
        token,
        &jsonwebtoken::DecodingKey::from_secret(secret.as_bytes()),
        &validation,
    ).ok()?;
    Some(Claims {
        sub: data.claims.get("sub")?.as_str()?.parse::<u128>().ok()?,
        exp: data.claims.get("exp")?.as_u64()?,
        iat: data.claims.get("iat")?.as_u64()?,
        email: data.claims.get("email")?.as_str()?.to_owned(),
        username: data.claims.get("username")?.as_str()?.to_owned(),
    })
}

/// Relies on `std::time::SystemTime::now`: whole seconds since the Unix
/// epoch, or nothing when the system clock reads before the epoch — that
/// reading comes back as the error case of `duration_since`, so no path
/// here can panic. Nothing can be promised of a clock reading.
#[verifier::external_body]
pub(crate) fn current_timestamp() -> Option<u64> {
    std::time::SystemTime::now()
        .duration_since(std::time::UNIX_EPOCH)
        .ok()
        .map(|d| d.as_secs())
}

/// Mint a token over the given identity, issued at `now` and expiring a
/// fixed 24 hours later. Minting always succeeds: signing with the shared
/// secret has no failure path.
pub fn create_jwt_at(
    user_id: u128,
    email: &String,
    username: &String,
    jwt_secret: &String,
    now: u64,
) -> (r: Result<String, AppError>)
    requires
        now + TOKEN_LIFETIME_SECONDS <= u64::MAX,
    ensures
        r is Ok,
        r matches Ok(t) ==> jwt_claims_of(t@, jwt_secret@) == Some(
            (user_id, email@, username@, now, (now + TOKEN_LIFETIME_SECONDS) as u64),
        ),
{
    let exp = now + TOKEN_LIFETIME_SECONDS;
    match encode_claims(user_id, email, username, now, exp, jwt_secret) {
        Some(t) => Ok(t),
        None => Err(AppError::JwtError),
    }
}

/// Whether a token carries exactly the given identity under the given
/// secret, issued at `iat` and expiring a fixed 24 hours later.
pub open spec fn carries_identity(
    t: Seq<char>,
    secret: Seq<char>,
    user_id: u128,
    email: Seq<char>,
    username: Seq<char>,
    iat: u64,
) -> bool {
    &&& iat + TOKEN_LIFETIME_SECONDS <= u64::MAX
    &&& jwt_claims_of(t, secret) == Some(
        (user_id, email, username, iat, (iat + TOKEN_LIFETIME_SECONDS) as u64),
    )
}

/// Whether a token carries exactly the given identity under the given
/// secret, issued at some moment and expiring a fixed 24 hours later.
pub open spec fn token_for_identity(
    t: Seq<char>,
    secret: Seq<char>,
    user_id: u128,
    email: Seq<char>,
    username: Seq<char>,
) -> bool {
    exists|iat: u64| carries_identity(t, secret, user_id, email, username, iat)
}

/// Mint a token over the given identity, issued at the current time. On
/// success the token carries exactly this identity, with an expiry a fixed
/// 24 hours past its issued-at claim; the only failures left are a clock
/// that cannot be read — a pre-epoch reading — or one so large the expiry
/// would not fit, both internal errors.
pub fn create_jwt(
    user_id: u128,
    email: &String,
    username: &String,
    jwt_secret: &String,
) -> (r: Result<String, AppError>)
    ensures
        r matches Ok(t) ==> token_for_identity(t@, jwt_secret@, user_id, email@, username@),
        r matches Err(e) ==> e == AppError::InternalServerError,
{
    let now = match current_timestamp() {
        Some(n) => n,
        None => {
            return Err(AppError::InternalServerError);
        },
    };
    if now > u64::MAX - TOKEN_LIFETIME_SECONDS {
        return Err(AppError::InternalServerError);
    }
    let r = create_jwt_at(user_id, email, username, jwt_secret, now);
    proof {
        if r is Ok {
            assert(carries_identity(r->Ok_0@, jwt_secret@, user_id, email@, username@, now));
        }
    }
    r
}

/// Whether a token is accepted under a secret at a given time: it decodes
/// under that secret and the time lies strictly before its expiry claim.
pub open spec fn token_accepted(token: Seq<char>, secret: Seq<char>, now: u64) -> bool {
    match jwt_claims_of(token, secret) {
        Some(t) => now < t.4,
        None => false,
    }
}

/// Every issued token verifies before its expiry: a token minted over an
/// identity at `iat` is accepted under the same secret at any time strictly
/// before `iat` plus the fixed 24-hour lifetime, and what it decodes to is
/// exactly the identity it was minted over.
pub proof fn lemma_issued_token_accepted(
    t: Seq<char>,
    secret: Seq<char>,
    user_id: u128,
    email: Seq<char>,
    username: Seq<char>,
    iat: u64,
    now: u64,
)
    requires
        carries_identity(t, secret, user_id, email, username, iat),
        now < iat + TOKEN_LIFETIME_SECONDS,
    ensures
        token_accepted(t, secret, now),
        jwt_claims_of(t, secret) == Some(
            (user_id, email, username, iat, (iat + TOKEN_LIFETIME_SECONDS) as u64),
        ),
{
}

/// Validate a token against a secret at a given time. Succeeds exactly when
/// the token decodes under the secret and the given time lies strictly
/// before the expiry claim; a failure of either kind is the same token
/// error, so a caller learns nothing about why a bad token was rejected.
pub fn decode_jwt_at(token: &String, jwt_secret: &String, now: u64) -> (r: Result<
    Claims,
    AppError,
>)
    ensures
        r is Ok <==> token_accepted(token@, jwt_secret@, now),
        match jwt_claims_of(token@, jwt_secret@) {
            Some(t) => if now < t.4 {
                r matches Ok(c) && claims_tuple(&c) == t
            } else {
                r == Err::<Claims, AppError>(AppError::JwtError)
            },
            None => r == Err::<Claims, AppError>(AppError::JwtError),
        },
{
    match decode_claims(token, jwt_secret) {
        Some(c) => {
            if now < c.exp {
                Ok(c)
            } else {
                Err(AppError::JwtError)
            }
        },
        None => Err(AppError::JwtError),
    }
}

/// Validate a token against a secret at the current time. An `Ok` carries
/// exactly the claims the token was signed over; a token that does not
/// decode under this secret is always rejected as a token error, whatever
/// the clock says. A clock that cannot be read — a pre-epoch reading — is
/// an internal error, never an acceptance: the same policy as minting.
pub fn decode_jwt(token: &String, jwt_secret: &String) -> (r: Result<Claims, AppError>)
    ensures
        r matches Ok(c) ==> jwt_claims_of(token@, jwt_secret@) == Some(claims_tuple(&c)),
        jwt_claims_of(token@, jwt_secret@) is None ==> r == Err::<Claims, AppError>(
            AppError::JwtError,
        ),
        r matches Err(e) ==> e == AppError::JwtError || e == AppError::InternalServerError,
{
    match decode_claims(token, jwt_secret) {
        None => Err(AppError::JwtError),
        Some(c) => match current_timestamp() {
            None => Err(AppError::InternalServerError),
            Some(now) => {
                if now < c.exp {
                    Ok(c)
                } else {
                    Err(AppError::JwtError)
                }
            },
        },
    }
}

} // verus!
