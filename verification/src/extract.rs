use vstd::prelude::*;

use crate::errors::AppError;
use crate::jwt::current_timestamp;
use crate::jwt::decode_jwt_at;
use crate::jwt::jwt_claims_of;
use crate::jwt::token_accepted;

verus! {

/// The verified identity of a request, as the bearer token claims it. No
/// store lookup is made: the claims are trusted as of issuance time, so a
/// renamed or deleted account's token stays usable until it expires.
#[derive(Debug)]
pub struct AuthenticatedUser {
    pub id: u128,
    pub email: String,
    pub username: String,
}

impl AuthenticatedUser {
    /// Resolve a request's bearer credential to a verified identity, as of
    /// the given time. Succeeds exactly when a credential is present and
    /// its token is accepted — it decodes under the secret and the time
    /// lies strictly before its expiry. A missing credential, a token that
    /// fails verification, and an expired token are all the same
    /// unauthorized outcome; on success the identity is exactly what the
    /// token was signed over.
    pub fn from_bearer_at(bearer: Option<&String>, jwt_secret: &String, now: u64) -> (r: Result<
        AuthenticatedUser,
        AppError,
    >)
        ensures
            r is Ok <==> (bearer matches Some(t) && token_accepted(t@, jwt_secret@, now)),
            r matches Err(e) ==> e == AppError::Unauthorized,
            r matches Ok(au) ==> {
                &&& bearer matches Some(t)
                &&& jwt_claims_of(t@, jwt_secret@) matches Some(c)
                &&& au.id == c.0
                &&& au.email@ == c.1
                &&& au.username@ == c.2
            },
    {
        let token = match bearer {
            Some(t) => t,
            None => {
                return Err(AppError::Unauthorized);
            },
        };
        match decode_jwt_at(token, jwt_secret, now) {
            Ok(c) => Ok(AuthenticatedUser { id: c.sub, email: c.email, username: c.username }),
            Err(_) => Err(AppError::Unauthorized),
        }
    }

    /// Resolve a request's bearer credential at the current time: the thin
    /// clock-reading shell over the clocked form above. Whatever the clock
    /// says, a token that does not decode under this secret is rejected,
    /// and a clock that cannot be read — a pre-epoch reading — counts as a
    /// failed verification, never an acceptance.
    pub fn from_bearer(bearer: Option<&String>, jwt_secret: &String) -> (r: Result<
        AuthenticatedUser,
        AppError,
    >)
        ensures
            bearer is None ==> r == Err::<AuthenticatedUser, AppError>(AppError::Unauthorized),
            (bearer matches Some(t) && jwt_claims_of(t@, jwt_secret@) is None) ==> r == Err::<
                AuthenticatedUser,
                AppError,
            >(AppError::Unauthorized),
            r matches Err(e) ==> e == AppError::Unauthorized,
            r matches Ok(au) ==> {
                &&& bearer matches Some(t)
                &&& jwt_claims_of(t@, jwt_secret@) matches Some(c)
                &&& au.id == c.0
                &&& au.email@ == c.1
                &&& au.username@ == c.2
            },
    {
        let now = match current_timestamp() {
            Some(n) => n,
            None => {
                return Err(AppError::Unauthorized);
            },
        };
        AuthenticatedUser::from_bearer_at(bearer, jwt_secret, now)
    }
}

} // verus!
