use vstd::prelude::*;

use crate::crypto::bcrypt_matches;
use crate::crypto::hash_password;
use crate::crypto::verify_password;
use crate::errors::AppError;
use crate::jwt::create_jwt;
use crate::jwt::token_for_identity;
use crate::models::AuthResponse;
use crate::models::LoginUser;
use crate::models::RegisterUser;
use crate::models::UserResponse;
use crate::models::valid_register;
use crate::query::QueryBuilder;
use crate::query::SqlValueView;
use crate::query::count_users_query;
use crate::query::count_users_sql;
use crate::query::find_user_by_email_query;
use crate::query::find_user_by_email_sql;
use crate::query::insert_user_query;
use crate::query::insert_user_sql;
use crate::query::params_view;
use crate::validation::email_ok;

verus! {

/// First step of registration: validate the payload shape, before any store
/// access, and produce the combined uniqueness pre-check over both email
/// and username.
pub fn register_precheck(payload: &RegisterUser) -> (r: Result<QueryBuilder, AppError>)
    ensures
        r is Ok <==> valid_register(payload.email@, payload.username@, payload.password@),
        r matches Err(e) ==> e == AppError::ValidationError,
        r matches Ok(q) ==> q.sql@ == count_users_sql() && params_view(q.params@) == seq![
            SqlValueView::Text(payload.email@),
            SqlValueView::Text(payload.username@),
        ],
{
    match payload.validate() {
        Ok(()) => Ok(count_users_query(&payload.email, &payload.username)),
        Err(e) => Err(e),
    }
}

/// Second step of registration, given the pre-check's count: any match on
/// either key fails the whole request with the same conflict error, without
/// revealing which field collided, and no insert statement is produced.
/// Otherwise the password is hashed with a per-call random salt and the
/// insert is produced; the digest it binds verifies against the submitted
/// password.
pub fn register_prepare(payload: &RegisterUser, existing_count: i64, hash_cost: u32) -> (r:
    Result<QueryBuilder, AppError>)
    ensures
        !valid_register(payload.email@, payload.username@, payload.password@) ==> r == Err::<
            QueryBuilder,
            AppError,
        >(AppError::ValidationError),
        valid_register(payload.email@, payload.username@, payload.password@) && existing_count > 0
            ==> r == Err::<QueryBuilder, AppError>(AppError::UserAlreadyExists),
        r matches Ok(q) ==> {
            &&& valid_register(payload.email@, payload.username@, payload.password@)
            &&& existing_count <= 0
            &&& q.sql@ == insert_user_sql()
            &&& exists|d: Seq<char>|
                #[trigger] bcrypt_matches(payload.password@, d) && params_view(q.params@) == seq![
                    SqlValueView::Text(payload.email@),
                    SqlValueView::Text(payload.username@),
                    SqlValueView::Text(d),
                ]
        },
        r matches Err(e) ==> e == AppError::ValidationError || e == AppError::UserAlreadyExists
            || e == AppError::InternalServerError,
        valid_register(payload.email@, payload.username@, payload.password@) && existing_count
            <= 0 ==> (r matches Err(e) ==> e == AppError::InternalServerError),
{
    match payload.validate() {
        Ok(()) => (),
        Err(e) => {
            return Err(e);
        },
    }
    if existing_count > 0 {
        return Err(AppError::UserAlreadyExists);
    }
    let digest = match hash_password(&payload.password, hash_cost) {
        Some(d) => d,
        None => {
            return Err(AppError::InternalServerError);
        },
    };
    let q = insert_user_query(&payload.email, &payload.username, &digest);
    proof {
        assert(bcrypt_matches(payload.password@, digest@) && params_view(q.params@) == seq![
            SqlValueView::Text(payload.email@),
            SqlValueView::Text(payload.username@),
            SqlValueView::Text(digest@),
        ]);
    }
    Ok(q)
}

/// How a failed account insert is reported: a store-side uniqueness
/// violation — a concurrent registration won the race past the pre-check —
/// is the same conflict as the pre-check finding a match; any other store
/// failure stays a generic store error that leaks no internal detail.
pub fn register_insert_failure(unique_violation: bool) -> (r: AppError)
    ensures
        r == if unique_violation {
            AppError::UserAlreadyExists
        } else {
            AppError::DatabaseError
        },
{
    if unique_violation {
        AppError::UserAlreadyExists
    } else {
        AppError::DatabaseError
    }
}

/// Last step of registration, over the freshly inserted account row: mint a
/// token carrying exactly the new identity. Minting fails only on a
/// pre-epoch clock reading, and an insert that succeeded but a minting that
/// failed is one failed operation for the caller.
pub fn register_finish(user: UserResponse, jwt_secret: &String) -> (r: Result<
    AuthResponse,
    AppError,
>)
    ensures
        r matches Ok(a) ==> {
            &&& a.user.id == user.id
            &&& a.user.email@ == user.email@
            &&& a.user.username@ == user.username@
            &&& a.user.created_at == user.created_at
            &&& token_for_identity(
                a.token@,
                jwt_secret@,
                user.id,
                user.email@,
                user.username@,
            )
        },
        r matches Err(e) ==> e == AppError::InternalServerError,
{
    match create_jwt(user.id, &user.email, &user.username, jwt_secret) {
        Ok(token) => Ok(AuthResponse { token, user }),
        Err(e) => Err(e),
    }
}

/// First step of login: validate the payload shape, then look the account
/// up by email alone; the username is not a login key.
pub fn login_precheck(payload: &LoginUser) -> (r: Result<QueryBuilder, AppError>)
    ensures
        r is Ok <==> email_ok(payload.email@),
        r matches Err(e) ==> e == AppError::ValidationError,
        r matches Ok(q) ==> q.sql@ == find_user_by_email_sql() && params_view(q.params@) == seq![
            SqlValueView::Text(payload.email@),
        ],
{
    match payload.validate() {
        Ok(()) => Ok(find_user_by_email_query(&payload.email)),
        Err(e) => Err(e),
    }
}

/// Second step of login, given the looked-up row of id, email, username,
/// password hash and stored creation timestamp, or nothing. An unknown
/// email and a wrong password fail with the identical error, so a caller
/// learns nothing about which of the two it was; a stored digest that
/// cannot be parsed counts as a wrong password. On a match, a token over
/// the stored identity is minted — the only failure left there is a
/// pre-epoch clock reading — and the answered record carries the account's
/// stored creation timestamp.
pub fn login_finish(
    payload: &LoginUser,
    row: Option<(u128, String, String, String, i64)>,
    jwt_secret: &String,
) -> (r: Result<AuthResponse, AppError>)
    ensures
        row is None ==> r == Err::<AuthResponse, AppError>(AppError::InvalidCredentials),
        (row matches Some(t) && !bcrypt_matches(payload.password@, t.3@)) ==> r == Err::<
            AuthResponse,
            AppError,
        >(AppError::InvalidCredentials),
        r matches Ok(a) ==> {
            &&& row matches Some(t)
            &&& bcrypt_matches(payload.password@, t.3@)
            &&& a.user.id == t.0
            &&& a.user.email@ == t.1@
            &&& a.user.username@ == t.2@
            &&& a.user.created_at == t.4
            &&& token_for_identity(a.token@, jwt_secret@, t.0, t.1@, t.2@)
        },
        (row matches Some(t) && bcrypt_matches(payload.password@, t.3@)) ==> (r matches Err(e)
            ==> e == AppError::InternalServerError),
        r matches Err(e) ==> e == AppError::InvalidCredentials
            || e == AppError::InternalServerError,
{
    let (id, email, username, password_hash, created_at) = match row {
        Some(t) => t,
        None => {
            return Err(AppError::InvalidCredentials);
        },
    };
    let matched = match verify_password(&payload.password, &password_hash) {
        Some(b) => b,
        None => false,
    };
    if !matched {
        return Err(AppError::InvalidCredentials);
    }
    match create_jwt(id, &email, &username, jwt_secret) {
        Ok(token) => {
            proof {
                let tt = row->Some_0;
                assert(id == tt.0 && email@ == tt.1@ && username@ == tt.2@ && created_at == tt.4);
                assert(token_for_identity(token@, jwt_secret@, tt.0, tt.1@, tt.2@));
            }
            Ok(AuthResponse { token, user: UserResponse { id, email, username, created_at } })
        },
        Err(e) => Err(e),
    }
}

} // verus!
