//! Token issuance and verification, the session handlers, and the
//! request-authentication gate.

use identity_core::errors::AppError;
use identity_core::handlers::create_user;
use identity_core::handlers::delete_user_handler;
use identity_core::requests::DeleteUser;
use identity_core::hash::get_argon2_default;
use identity_core::ids::id_from_string;
use identity_core::ids::id_to_string;
use identity_core::jwt::JWT;
use identity_core::middleware::auth;
use identity_core::requests::CreateUser;
use identity_core::requests::LoginUser;
use identity_core::responses::TokenType;
use identity_core::session::logout_handler;
use identity_core::session::login_handler;
use identity_core::session::refresh_handler;
use identity_core::session::SessionResponse;
use identity_core::store::UserStore;

const NOW: u64 = 1_700_000_000;
const ACCESS_LIFETIME: i64 = 3600;
const REFRESH_LIFETIME: i64 = 86400;

fn jwt() -> JWT {
    // "c2VjcmV0" is base64 of "secret": a shared-secret HS256 setup.
    match JWT::new(
        "HS256".to_string(),
        "c2VjcmV0".to_string(),
        "c2VjcmV0".to_string(),
        ACCESS_LIFETIME,
        REFRESH_LIFETIME,
    ) {
        Ok(j) => j,
        Err(_) => panic!("token service config"),
    }
}

fn logged_in_session(store: &mut UserStore) -> (SessionResponse, u128) {
    let hasher = get_argon2_default();
    let data = CreateUser { login: "alice".to_string(), password: "wonderland".to_string() };
    let user = create_user(store, data, &hasher, NOW).ok().unwrap();
    let login = LoginUser { login: "alice".to_string(), password: "wonderland".to_string() };
    let resp = match login_handler(store, &hasher, &jwt(), login, NOW) {
        Ok(r) => r,
        Err(_) => panic!("login should succeed"),
    };
    (resp, user.id)
}

#[test]
fn verify_after_create_returns_the_same_claims() {
    let service = jwt();
    let (exp, token) = service
        .create_token("subject-1".to_string(), TokenType::ACCESS, None, NOW)
        .ok()
        .unwrap();
    assert_eq!(exp, NOW + ACCESS_LIFETIME as u64);
    assert!(matches!(token.typ, TokenType::ACCESS));

    let claims = service.verify_token(token.token, NOW).ok().unwrap();
    assert_eq!(claims.sub, "subject-1");
    assert!(matches!(claims._type, TokenType::ACCESS));
    assert_eq!(claims.iat, NOW);
    assert_eq!(claims.exp, NOW + ACCESS_LIFETIME as u64);
}

#[test]
fn expired_or_tampered_tokens_are_unauthorized() {
    let service = jwt();
    let (_, token) = service
        .create_token("subject-1".to_string(), TokenType::ACCESS, None, NOW)
        .ok()
        .unwrap();

    // Expired: presented at its own expiry instant.
    match service.verify_token(token.token.clone(), NOW + ACCESS_LIFETIME as u64) {
        Err(AppError::UnAuthorizedError(m)) => assert_eq!(&*m.message, "Invalid token provided"),
        _ => panic!("an expired token must be rejected"),
    }

    // Tampered: flip the last signature character.
    let mut tampered = token.token.clone();
    let last = tampered.pop().unwrap();
    tampered.push(if last == 'A' { 'B' } else { 'A' });
    assert!(matches!(
        service.verify_token(tampered, NOW),
        Err(AppError::UnAuthorizedError(_))
    ));

    // Garbage.
    assert!(matches!(
        service.verify_token("not-a-token".to_string(), NOW),
        Err(AppError::UnAuthorizedError(_))
    ));

    // Signed under a different key.
    let other = match JWT::new(
        "HS256".to_string(),
        "b3RoZXIta2V5".to_string(),
        "b3RoZXIta2V5".to_string(),
        ACCESS_LIFETIME,
        REFRESH_LIFETIME,
    ) {
        Ok(j) => j,
        Err(_) => panic!("token service config"),
    };
    let (_, foreign) = other
        .create_token("subject-1".to_string(), TokenType::ACCESS, None, NOW)
        .ok()
        .unwrap();
    assert!(matches!(
        service.verify_token(foreign.token, NOW),
        Err(AppError::UnAuthorizedError(_))
    ));
}

#[test]
fn invalid_expiration_delta_is_a_configuration_error() {
    let service = jwt();
    match service.create_token("s".to_string(), TokenType::ACCESS, Some(0), NOW) {
        Err(AppError::ServiceNotImplementedError(m)) => {
            assert_eq!(&*m.message, "Invalid expiration delta was provided")
        }
        _ => panic!("a zero duration must fail before signing"),
    }
    assert!(matches!(
        service.create_token("s".to_string(), TokenType::ACCESS, Some(-60), NOW),
        Err(AppError::ServiceNotImplementedError(_))
    ));
}

#[test]
fn bad_token_service_configuration_is_rejected() {
    assert!(matches!(
        JWT::new("HS999".to_string(), "c2VjcmV0".to_string(), "c2VjcmV0".to_string(), 1, 1),
        Err(AppError::InternalServerError(_))
    ));
    assert!(matches!(
        JWT::new("HS256".to_string(), "!!!".to_string(), "c2VjcmV0".to_string(), 1, 1),
        Err(AppError::InternalServerError(_))
    ));
}

#[test]
fn login_issues_access_body_and_refresh_cookie() {
    let mut store = UserStore::new();
    let (resp, user_id) = logged_in_session(&mut store);

    assert!(matches!(resp.access.typ, TokenType::ACCESS));
    let claims = jwt().verify_token(resp.access.token.clone(), NOW).ok().unwrap();
    assert_eq!(claims.sub, id_to_string(user_id));
    assert!(matches!(claims._type, TokenType::ACCESS));

    let cookie = &resp.refresh_cookie;
    assert!(cookie.http_only);
    assert!(cookie.same_site_strict);
    assert_eq!(cookie.max_age_seconds, REFRESH_LIFETIME);
    assert_eq!(cookie.expires_at, (NOW + REFRESH_LIFETIME as u64) as i64);
    let refresh_claims = jwt().verify_token(cookie.value.clone(), NOW).ok().unwrap();
    assert!(matches!(refresh_claims._type, TokenType::REFRESH));
}

#[test]
fn login_failures() {
    let mut store = UserStore::new();
    let hasher = get_argon2_default();
    let data = CreateUser { login: "alice".to_string(), password: "wonderland".to_string() };
    create_user(&mut store, data, &hasher, NOW).ok().unwrap();

    let unknown = LoginUser { login: "nobody".to_string(), password: "pw".to_string() };
    assert!(matches!(
        login_handler(&store, &hasher, &jwt(), unknown, NOW),
        Err(AppError::NotFoundError(_))
    ));

    let wrong = LoginUser { login: "alice".to_string(), password: "wrong".to_string() };
    match login_handler(&store, &hasher, &jwt(), wrong, NOW) {
        Err(AppError::BadRequestError(m)) => assert_eq!(&*m.message, "Invalid password"),
        _ => panic!("a wrong password must be BadRequest"),
    }
}

#[test]
fn refresh_rotates_both_tokens() {
    let mut store = UserStore::new();
    let (resp, user_id) = logged_in_session(&mut store);

    let later = NOW + 100;
    let rotated = refresh_handler(&jwt(), Some(resp.refresh_cookie.value.clone()), later)
        .ok()
        .unwrap();
    let access = jwt().verify_token(rotated.access.token.clone(), later).ok().unwrap();
    assert!(matches!(access._type, TokenType::ACCESS));
    assert_eq!(access.sub, id_to_string(user_id));
    assert_eq!(access.iat, later);
    let refresh = jwt().verify_token(rotated.refresh_cookie.value.clone(), later).ok().unwrap();
    assert!(matches!(refresh._type, TokenType::REFRESH));
    assert_eq!(refresh.iat, later);
    assert_ne!(rotated.refresh_cookie.value, resp.refresh_cookie.value);
}

#[test]
fn refresh_rejects_missing_expired_and_access_tokens() {
    let mut store = UserStore::new();
    let (resp, _user_id) = logged_in_session(&mut store);

    assert!(matches!(
        refresh_handler(&jwt(), None, NOW),
        Err(AppError::UnAuthorizedError(_))
    ));

    // An Access token must never be accepted where a Refresh is expected.
    assert!(matches!(
        refresh_handler(&jwt(), Some(resp.access.token.clone()), NOW),
        Err(AppError::UnAuthorizedError(_))
    ));

    // Expired refresh cookie: rejected, and no new cookie comes back.
    let expired_at = NOW + REFRESH_LIFETIME as u64;
    assert!(matches!(
        refresh_handler(&jwt(), Some(resp.refresh_cookie.value.clone()), expired_at),
        Err(AppError::UnAuthorizedError(_))
    ));
}

#[test]
fn auth_accepts_access_token_from_cookie_or_bearer_header() {
    let mut store = UserStore::new();
    let (resp, user_id) = logged_in_session(&mut store);
    let service = jwt();

    let via_cookie = auth(&store, &service, Some(resp.access.token.clone()), None, NOW)
        .ok()
        .unwrap();
    assert_eq!(via_cookie.id, user_id);
    assert_eq!(via_cookie.login, "alice");

    let header = format!("Bearer {}", resp.access.token);
    let via_header = auth(&store, &service, None, Some(header), NOW).ok().unwrap();
    assert_eq!(via_header.id, user_id);
}

#[test]
fn auth_rejects_missing_malformed_and_refresh_credentials() {
    let mut store = UserStore::new();
    let (resp, _user_id) = logged_in_session(&mut store);
    let service = jwt();

    match auth(&store, &service, None, None, NOW) {
        Err(AppError::UnAuthorizedError(m)) => assert_eq!(&*m.message, "Token is not provided"),
        _ => panic!("no credential must be Unauthorized"),
    }

    // A header without the Bearer shape provides no credential.
    assert!(matches!(
        auth(&store, &service, None, Some(resp.access.token.clone()), NOW),
        Err(AppError::UnAuthorizedError(_))
    ));

    // A Refresh token must never pass a gate expecting an Access token.
    assert!(matches!(
        auth(&store, &service, Some(resp.refresh_cookie.value.clone()), None, NOW),
        Err(AppError::UnAuthorizedError(_))
    ));

    // An expired access token is rejected.
    assert!(matches!(
        auth(
            &store,
            &service,
            Some(resp.access.token.clone()),
            None,
            NOW + ACCESS_LIFETIME as u64
        ),
        Err(AppError::UnAuthorizedError(_))
    ));
}

#[test]
fn auth_collapses_unknown_subject_into_unauthorized() {
    let mut store = UserStore::new();
    let (resp, user_id) = logged_in_session(&mut store);
    let service = jwt();

    // Delete the account; its still-valid token must no longer authenticate,
    // and the failure is Unauthorized, not NotFound.
    let me = auth(&store, &service, Some(resp.access.token.clone()), None, NOW).ok().unwrap();
    delete_user_handler(&mut store, me, DeleteUser { id: None }).ok().unwrap();
    let _ = user_id;
    match auth(&store, &service, Some(resp.access.token), None, NOW) {
        Err(AppError::UnAuthorizedError(m)) => assert_eq!(&*m.message, "Unauthorized"),
        _ => panic!("a deleted account must be Unauthorized"),
    }
}

#[test]
fn logout_clears_the_refresh_cookie() {
    let (status, cookie) = logout_handler();
    assert!(status.status);
    assert_eq!(cookie.value, "");
    assert_eq!(cookie.expires_at, -1);
    assert_eq!(cookie.max_age_seconds, -3600);
    assert!(cookie.http_only);
    assert!(cookie.same_site_strict);
}

#[test]
fn full_session_scenario() {
    let mut store = UserStore::new();
    let hasher = get_argon2_default();
    let service = jwt();

    // "alice" is created successfully; "Alice" then conflicts.
    let alice = CreateUser { login: "alice".to_string(), password: "wonderland".to_string() };
    assert!(create_user(&mut store, alice, &hasher, NOW).is_ok());
    let cased = CreateUser { login: "Alice".to_string(), password: "other".to_string() };
    assert!(matches!(
        create_user(&mut store, cased, &hasher, NOW),
        Err(AppError::ConflictError(_))
    ));

    // A wrong password fails with BadRequest ("Invalid password").
    let wrong = LoginUser { login: "alice".to_string(), password: "nope".to_string() };
    match login_handler(&store, &hasher, &service, wrong, NOW) {
        Err(AppError::BadRequestError(m)) => assert_eq!(&*m.message, "Invalid password"),
        _ => panic!("wrong password must be BadRequest"),
    }

    // A valid login returns an access token in the body and sets the
    // refresh cookie.
    let good = LoginUser { login: "alice".to_string(), password: "wonderland".to_string() };
    let session = login_handler(&store, &hasher, &service, good, NOW).ok().unwrap();
    assert!(matches!(session.access.typ, TokenType::ACCESS));
    assert!(!session.access.token.is_empty());
    assert!(!session.refresh_cookie.value.is_empty());
    assert!(session.refresh_cookie.http_only);

    // A protected read with no token and no cookie is Unauthorized.
    assert!(matches!(
        auth(&store, &service, None, None, NOW),
        Err(AppError::UnAuthorizedError(_))
    ));

    // An expired refresh cookie is Unauthorized and issues no new pair.
    let after_expiry = NOW + REFRESH_LIFETIME as u64;
    assert!(matches!(
        refresh_handler(&service, Some(session.refresh_cookie.value), after_expiry),
        Err(AppError::UnAuthorizedError(_))
    ));
}

#[test]
fn identifier_text_round_trips() {
    let id: u128 = 0x550e8400_e29b_41d4_a716_446655440000;
    let text = id_to_string(id);
    assert_eq!(text, "550e8400-e29b-41d4-a716-446655440000");
    assert_eq!(id_from_string(&text), Some(id));
    assert_eq!(id_from_string("not-a-uuid"), None);
}
