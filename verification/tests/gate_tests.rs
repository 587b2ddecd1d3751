use backend::account::{login_check, LoginRequest, RegisterRequest, UserRecord};
use backend::errors::AuthError;
use backend::extract::AuthenticatedUser;
use backend::rbac::{GateDecision, Role, RoleGuard};
use backend::token::TokenCodec;

fn codec() -> TokenCodec {
    TokenCodec::new(b"gate-secret".to_vec())
}

fn issue(c: &TokenCodec, sub: i32, username: &str, is_admin: bool, now: i64) -> String {
    c.create_token_at(sub, username, is_admin, now).unwrap()
}

fn user(is_admin: bool) -> AuthenticatedUser {
    AuthenticatedUser { user_id: 1, username: "someone".to_string(), is_admin }
}

#[test]
fn test_scheme_enforcement() {
    let c = codec();
    let now: i64 = 1_000_000;
    let token = issue(&c, 1, "alice", false, now);

    // Missing header and every wrong scheme are the same generic rejection.
    let bad_headers = [
        format!("bearer {}", token),
        format!("BEARER {}", token),
        format!("Token {}", token),
        format!("Bearer{}", token),
        format!(" Bearer {}", token),
        "Bearer".to_string(),
        token.clone(),
    ];
    assert!(matches!(
        AuthenticatedUser::from_request_at(&c, None, now),
        Err(AuthError::Unauthenticated)
    ));
    for h in bad_headers.iter() {
        assert!(
            matches!(
                AuthenticatedUser::from_request_at(&c, Some(h), now),
                Err(AuthError::Unauthenticated)
            ),
            "header {:?} was not rejected",
            h
        );
    }

    // The exact scheme is accepted, with whitespace around the token trimmed.
    let u = AuthenticatedUser::from_request_at(&c, Some(&format!("Bearer {}", token)), now)
        .unwrap();
    assert_eq!(u.user_id, 1);
    assert_eq!(u.username, "alice");
    assert!(!u.is_admin);
    let padded = format!("Bearer   {}  \t", token);
    assert!(AuthenticatedUser::from_request_at(&c, Some(&padded), now).is_ok());
    // Unicode whitespace around the token is trimmed too, as str::trim does.
    let unicode_padded = format!("Bearer \u{a0}\u{2003}{}\u{3000}\u{85}", token);
    assert!(AuthenticatedUser::from_request_at(&c, Some(&unicode_padded), now).is_ok());
}

#[test]
fn test_expired_token_is_unauthenticated() {
    let c = codec();
    let issued: i64 = 1_000;
    let token = issue(&c, 1, "alice", false, issued);
    let header = format!("Bearer {}", token);
    let exp = issued + backend::token::TOKEN_LIFETIME_SECS;
    assert!(AuthenticatedUser::from_request_at(&c, Some(&header), exp - 1).is_ok());
    assert!(matches!(
        AuthenticatedUser::from_request_at(&c, Some(&header), exp),
        Err(AuthError::Unauthenticated)
    ));
}

#[test]
fn test_rbac_decision_table() {
    let user_gate = RoleGuard::new(Role::User).new_transform();
    let admin_gate = RoleGuard::new(Role::Admin).new_transform();
    let regular = user(false);
    let admin = user(true);

    // Identity absent: rejected whatever the requirement.
    assert_eq!(user_gate.call(None), GateDecision::Rejected);
    assert_eq!(admin_gate.call(None), GateDecision::Rejected);
    // A User requirement admits any identity.
    assert_eq!(user_gate.call(Some(&regular)), GateDecision::Admitted);
    assert_eq!(user_gate.call(Some(&admin)), GateDecision::Admitted);
    // An Admin requirement admits exactly the administrators.
    assert_eq!(admin_gate.call(Some(&regular)), GateDecision::Rejected);
    assert_eq!(admin_gate.call(Some(&admin)), GateDecision::Admitted);
}

#[test]
fn test_end_to_end_admission() {
    let c = codec();
    let now: i64 = 1_000_000;
    let token = issue(&c, 1, "alice", false, now);
    let header = format!("Bearer {}", token);

    let user_gate = RoleGuard::new(Role::User).new_transform();
    let admitted = user_gate.screen(&c, Some(&header), now).unwrap();
    assert_eq!(admitted.user_id, 1);
    assert_eq!(admitted.username, "alice");
    assert!(!admitted.is_admin);

    let admin_gate = RoleGuard::new(Role::Admin).new_transform();
    let rejected = admin_gate.screen(&c, Some(&header), now);
    assert!(matches!(rejected, Err(AuthError::Forbidden)));
    assert_eq!(AuthError::Forbidden.status_code(), 403);
}

#[test]
fn test_admin_path() {
    let c = codec();
    let now: i64 = 1_000_000;
    let token = issue(&c, 2, "root", true, now);
    let header = format!("Bearer {}", token);

    let admin_gate = RoleGuard::new(Role::Admin).new_transform();
    let admitted = admin_gate.screen(&c, Some(&header), now).unwrap();
    assert_eq!(admitted.user_id, 2);
    assert_eq!(admitted.username, "root");
    assert!(admitted.is_admin);
}

#[test]
fn test_no_header_rejected_before_gate() {
    let c = codec();
    let gate = RoleGuard::new(Role::User).new_transform();
    let r = gate.screen(&c, None, 0);
    // The extractor's 401, not the guard's 403: the guard never ran.
    assert!(matches!(r, Err(AuthError::Unauthenticated)));
    assert_eq!(AuthError::Unauthenticated.status_code(), 401);
}

#[test]
fn test_login_flow() {
    let c = codec();
    let now: i64 = 500;
    let request = RegisterRequest {
        username: "testuser".to_string(),
        email: "test@example.com".to_string(),
        password: "password123".to_string(),
    };
    let digest = request.hashed_password().unwrap();
    let record = UserRecord {
        id: 11,
        username: "testuser".to_string(),
        password_hash: digest,
        is_admin: false,
    };

    let good = LoginRequest {
        username: "testuser".to_string(),
        password: "password123".to_string(),
    };
    let response = login_check(&c, Some(&record), &good, now).unwrap();
    assert_eq!(response.user_id, 11);
    assert_eq!(response.username, "testuser");
    assert!(!response.is_admin);
    let claims = c.validate_token_at(&response.token, now).unwrap();
    assert_eq!(claims.sub, 11);
    assert_eq!(claims.username, "testuser");
    assert!(!claims.is_admin);

    let bad = LoginRequest {
        username: "testuser".to_string(),
        password: "password124".to_string(),
    };
    assert!(matches!(
        login_check(&c, Some(&record), &bad, now),
        Err(AuthError::Unauthenticated)
    ));
    assert!(matches!(
        login_check(&c, None, &good, now),
        Err(AuthError::Unauthenticated)
    ));
}

#[test]
fn test_login_admin_account() {
    let c = codec();
    let now: i64 = 700;
    let request = RegisterRequest {
        username: "adminuser".to_string(),
        email: "admin@example.com".to_string(),
        password: "adminpass".to_string(),
    };
    let record = UserRecord {
        id: 99,
        username: "adminuser".to_string(),
        password_hash: request.hashed_password().unwrap(),
        is_admin: true,
    };
    let login = LoginRequest {
        username: "adminuser".to_string(),
        password: "adminpass".to_string(),
    };
    let response = login_check(&c, Some(&record), &login, now).unwrap();
    assert!(response.is_admin);

    // The minted token walks through the admin gate.
    let header = format!("Bearer {}", response.token);
    let admin_gate = RoleGuard::new(Role::Admin).new_transform();
    let admitted = admin_gate.screen(&c, Some(&header), now).unwrap();
    assert_eq!(admitted.user_id, 99);
    assert!(admitted.is_admin);
}
