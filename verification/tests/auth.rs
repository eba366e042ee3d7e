use app_catalog::api::authenticate_request;
use app_catalog::api::get_user;
use app_catalog::api::user_login;
use app_catalog::api::user_register;
use app_catalog::api::AuthError;
use app_catalog::api::GetUserOutcome;
use app_catalog::api::LoginOutcome;
use app_catalog::api::LoginRequest;
use app_catalog::api::RegisterOutcome;
use app_catalog::api::RegisterRequest;
use app_catalog::password::hash_password;
use app_catalog::password::verify_password;
use app_catalog::token::JwtManager;
use app_catalog::token::TokenError;
use app_catalog::users::UserStore;

const NOW: u64 = 1_700_000_000;

fn manager() -> JwtManager {
    JwtManager::from_secret("test-signing-secret".to_string())
}

fn alice_request() -> RegisterRequest {
    RegisterRequest {
        username: "alice".to_string(),
        email: "alice@example.com".to_string(),
        password: "password1".to_string(),
        terms: true,
    }
}

#[test]
fn password_hash_verifies() {
    let hash = hash_password("password1").unwrap();
    assert!(verify_password("password1", &hash).unwrap());
}

#[test]
fn password_wrong_plain_fails() {
    let hash = hash_password("password1").unwrap();
    assert!(!verify_password("password2", &hash).unwrap());
}

#[test]
fn password_malformed_hash_errs() {
    assert!(verify_password("password1", "not-a-bcrypt-hash").is_err());
}

#[test]
fn token_round_trip_and_expiry() {
    let jwt = manager();
    let token = jwt.generate_token_at("alice", 7, NOW);
    assert!(!token.is_empty());

    let claims = jwt.validate_token_at(&token, NOW).unwrap();
    assert_eq!(claims.sub, "alice");
    assert_eq!(claims.id, 7);
    assert_eq!(claims.exp, NOW + 86400);

    // valid up to the last second before the expiry timestamp
    assert!(jwt.validate_token_at(&token, NOW + 86399).is_ok());
    // fails once the expiry timestamp has passed
    assert_eq!(jwt.validate_token_at(&token, NOW + 86400), Err(TokenError::InvalidToken));
    assert_eq!(jwt.validate_token_at(&token, NOW + 86401), Err(TokenError::InvalidToken));
}

#[test]
fn token_with_current_clock() {
    let jwt = manager();
    let token = jwt.generate_token("alice", 7).unwrap();
    let claims = jwt.validate_token(&token).unwrap();
    assert_eq!(claims.sub, "alice");
}

#[test]
fn token_rejects_tampering_and_wrong_secret() {
    let jwt = manager();
    let token = jwt.generate_token_at("alice", 7, NOW);

    let mut tampered = token.clone();
    tampered.push('x');
    assert!(jwt.validate_token_at(&tampered, NOW).is_err());

    let other = JwtManager::from_secret("another-secret".to_string());
    assert!(other.validate_token_at(&token, NOW).is_err());

    assert!(jwt.validate_token_at("not-a-token", NOW).is_err());
}

#[test]
fn register_then_login_yields_valid_token() {
    let mut store = UserStore::new();
    let jwt = manager();

    let outcome = user_register(&mut store, &alice_request(), NOW);
    assert_eq!(outcome, RegisterOutcome::Created);
    assert_eq!(outcome.status_code(), 201);

    let login = user_login(
        &store,
        &jwt,
        &LoginRequest { username: "alice".to_string(), password: "password1".to_string() },
        NOW,
    );
    let token = match login {
        LoginOutcome::Success(t) => t,
        other => panic!("expected a token, got {:?}", other),
    };
    assert!(!token.is_empty());

    let claims = jwt.validate_token_at(&token, NOW).unwrap();
    assert_eq!(claims.sub, "alice");

    let header = format!("Bearer {}", token);
    match get_user(&store, &jwt, Some(&header), NOW) {
        GetUserOutcome::Success(u) => {
            assert_eq!(u.username, "alice");
            assert_eq!(u.email, "alice@example.com");
            assert_eq!(u.password, None);
        }
        other => panic!("expected the profile, got {:?}", other),
    }
}

#[test]
fn login_by_email_case_insensitive() {
    let mut store = UserStore::new();
    let jwt = manager();
    assert_eq!(user_register(&mut store, &alice_request(), NOW), RegisterOutcome::Created);

    let login = user_login(
        &store,
        &jwt,
        &LoginRequest { username: "Alice@Example.COM".to_string(), password: "password1".to_string() },
        NOW,
    );
    let token = match login {
        LoginOutcome::Success(t) => t,
        other => panic!("expected a token, got {:?}", other),
    };
    // the token's subject is the username as stored, not the identifier used
    let claims = jwt.validate_token_at(&token, NOW).unwrap();
    assert_eq!(claims.sub, "alice");
}

#[test]
fn login_unknown_user_is_not_found() {
    let store = UserStore::new();
    let jwt = manager();
    let login = user_login(
        &store,
        &jwt,
        &LoginRequest { username: "nobody".to_string(), password: "password1".to_string() },
        NOW,
    );
    assert_eq!(login, LoginOutcome::UserNotFound);
    assert_eq!(login.status_code(), 404);
}

#[test]
fn login_wrong_password_is_unauthorized() {
    let mut store = UserStore::new();
    let jwt = manager();
    assert_eq!(user_register(&mut store, &alice_request(), NOW), RegisterOutcome::Created);
    let login = user_login(
        &store,
        &jwt,
        &LoginRequest { username: "alice".to_string(), password: "password2".to_string() },
        NOW,
    );
    assert_eq!(login, LoginOutcome::WrongPassword);
    assert_eq!(login.status_code(), 401);
}

#[test]
fn authenticate_requires_bearer_shape() {
    let jwt = manager();
    assert_eq!(authenticate_request(&jwt, None, NOW), Err(AuthError::MissingToken));
    assert_eq!(authenticate_request(&jwt, Some("Basic abc"), NOW), Err(AuthError::MissingToken));
    assert_eq!(authenticate_request(&jwt, Some("Bearer"), NOW), Err(AuthError::MissingToken));
    assert_eq!(
        authenticate_request(&jwt, Some("Bearer garbage"), NOW),
        Err(AuthError::InvalidToken)
    );
}

#[test]
fn get_user_with_missing_or_bad_token() {
    let store = UserStore::new();
    let jwt = manager();
    let missing = get_user(&store, &jwt, None, NOW);
    assert_eq!(missing, GetUserOutcome::MissingToken);
    assert_eq!(missing.status_code(), 401);

    let token = jwt.generate_token_at("ghost", 99, NOW);
    let header = format!("Bearer {}", token);
    // valid token for a user the store does not hold
    assert_eq!(get_user(&store, &jwt, Some(&header), NOW), GetUserOutcome::NotFound);
    // same token once expired
    assert_eq!(
        get_user(&store, &jwt, Some(&header), NOW + 86400),
        GetUserOutcome::InvalidToken
    );
}
