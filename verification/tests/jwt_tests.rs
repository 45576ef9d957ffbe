use task_service::errors::AppError;
use task_service::extract::AuthenticatedUser;
use task_service::jwt::create_jwt;
use task_service::jwt::create_jwt_at;
use task_service::jwt::decode_jwt;
use task_service::jwt::decode_jwt_at;

const SECRET: &str = "test-signing-key";

#[test]
fn issue_then_verify_returns_original_claims() {
    let secret = SECRET.to_owned();
    let token = create_jwt(7, &"a@x.com".to_owned(), &"alice".to_owned(), &secret).unwrap();
    let c = decode_jwt(&token, &secret).unwrap();
    assert_eq!(c.sub, 7);
    assert_eq!(c.email, "a@x.com");
    assert_eq!(c.username, "alice");
    assert_eq!(c.exp, c.iat + 86400);
}

#[test]
fn verify_fails_under_a_different_secret() {
    let secret = SECRET.to_owned();
    let other = "another-signing-key".to_owned();
    let token = create_jwt(7, &"a@x.com".to_owned(), &"alice".to_owned(), &secret).unwrap();
    assert_eq!(decode_jwt(&token, &other).unwrap_err(), AppError::JwtError);
}

#[test]
fn verify_fails_on_truncated_or_mutated_tokens() {
    let secret = SECRET.to_owned();
    let token = create_jwt(7, &"a@x.com".to_owned(), &"alice".to_owned(), &secret).unwrap();
    let mut truncated = token.clone();
    truncated.pop();
    assert!(decode_jwt(&truncated, &secret).is_err());
    let mutated = format!("{}A", token);
    assert!(decode_jwt(&mutated, &secret).is_err());
    assert!(decode_jwt(&"not.a.token".to_owned(), &secret).is_err());
    assert!(decode_jwt(&String::new(), &secret).is_err());
}

#[test]
fn expiry_is_exactly_24_hours_after_issuance() {
    let secret = SECRET.to_owned();
    let iat: u64 = 1_000;
    let token =
        create_jwt_at(7, &"a@x.com".to_owned(), &"alice".to_owned(), &secret, iat).unwrap();
    // Strictly before the expiry claim: accepted.
    let c = decode_jwt_at(&token, &secret, iat + 86399).unwrap();
    assert_eq!(c.iat, iat);
    assert_eq!(c.exp, iat + 86400);
    // At the expiry moment and later: rejected.
    assert_eq!(decode_jwt_at(&token, &secret, iat + 86400).unwrap_err(), AppError::JwtError);
    assert_eq!(decode_jwt_at(&token, &secret, u64::MAX - 86400).unwrap_err(), AppError::JwtError);
}

#[test]
fn stale_token_is_rejected_by_the_clocked_path() {
    // A token issued long ago in clock time is past its 24-hour lifetime.
    let secret = SECRET.to_owned();
    let token = create_jwt_at(7, &"a@x.com".to_owned(), &"alice".to_owned(), &secret, 1_000)
        .unwrap();
    assert_eq!(decode_jwt(&token, &secret).unwrap_err(), AppError::JwtError);
}

#[test]
fn bearer_extraction_trusts_only_a_valid_token() {
    let secret = SECRET.to_owned();
    let token = create_jwt(9, &"b@x.com".to_owned(), &"bob".to_owned(), &secret).unwrap();
    let au = AuthenticatedUser::from_bearer(Some(&token), &secret).unwrap();
    assert_eq!(au.id, 9);
    assert_eq!(au.email, "b@x.com");
    assert_eq!(au.username, "bob");
    assert_eq!(
        AuthenticatedUser::from_bearer(None, &secret).unwrap_err(),
        AppError::Unauthorized
    );
    let garbage = "x.y.z".to_owned();
    assert_eq!(
        AuthenticatedUser::from_bearer(Some(&garbage), &secret).unwrap_err(),
        AppError::Unauthorized
    );
    let other = "another-signing-key".to_owned();
    assert_eq!(
        AuthenticatedUser::from_bearer(Some(&token), &other).unwrap_err(),
        AppError::Unauthorized
    );
}

#[test]
fn extraction_rejects_expired_tokens_at_the_given_time() {
    let secret = SECRET.to_owned();
    let iat: u64 = 1_000;
    let token =
        create_jwt_at(9, &"b@x.com".to_owned(), &"bob".to_owned(), &secret, iat).unwrap();
    let au = AuthenticatedUser::from_bearer_at(Some(&token), &secret, iat + 86399).unwrap();
    assert_eq!(au.id, 9);
    assert_eq!(
        AuthenticatedUser::from_bearer_at(Some(&token), &secret, iat + 86400).unwrap_err(),
        AppError::Unauthorized
    );
    assert_eq!(
        AuthenticatedUser::from_bearer_at(None, &secret, iat).unwrap_err(),
        AppError::Unauthorized
    );
}

#[test]
fn error_kinds_map_to_stable_status_codes() {
    assert_eq!(AppError::InvalidCredentials.status_code(), 401);
    assert_eq!(AppError::UserAlreadyExists.status_code(), 409);
    assert_eq!(AppError::TaskNotFound.status_code(), 404);
    assert_eq!(AppError::Unauthorized.status_code(), 403);
    assert_eq!(AppError::ValidationError.status_code(), 400);
    assert_eq!(AppError::DatabaseError.status_code(), 500);
    assert_eq!(AppError::JwtError.status_code(), 401);
    assert_eq!(AppError::InternalServerError.status_code(), 500);
    assert_eq!(AppError::UserNotFound.status_code(), 404);
    assert_eq!(AppError::AuthenticationFailed.status_code(), 401);
    assert_eq!(AppError::UserAlreadyExists.error_message(), "User already exists");
    assert_eq!(AppError::ValidationError.error_message(), "Validation failed");
}
