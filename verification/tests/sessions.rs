use site_backend::crypto::{hash_password, password_matches};
use site_backend::handlers::auth::{
    check_credentials, login, login_email, login_reply, logout, me, refresh_account, refresh_token,
    session_claims, session_user, LoginAction, LoginStep, RefreshAction, RefreshStep,
    SESSION_SECONDS,
};
use site_backend::models::{Claims, DbError, LoginRequest, Reply, User, UserRole};
use site_backend::replies::{Action, Step};

fn answer<P, T>(a: Action<P, T>) -> Reply<T> {
    match a {
        Action::Answer(r) => r,
        Action::Proceed(_) => panic!("expected an answer"),
    }
}

const KNOWN_HASH: &str = "$2b$04$EGdrhbKUv8Oc9vGiXX0HQOxSg445d458Muh7DAHskb6QbtCvdxcie";
const KNOWN_PASSWORD: &str = "correctbatteryhorsestapler";

fn user(id: u128, hash: &str, role: UserRole) -> User {
    User {
        id,
        email: "a@b.c".to_string(),
        password_hash: hash.to_string(),
        full_name: "A B".to_string(),
        title: Some("CEO".to_string()),
        role,
        is_active: true,
        avatar_url: None,
        permissions: serde_json::Value::Null,
        created_at: 1_700_000_000_000_000,
        updated_at: 1_700_000_000_000_001,
        last_login: None,
    }
}

fn db_error(text: &str) -> DbError {
    DbError { message: text.to_string() }
}

#[test]
fn login_email_is_lowercased() {
    let body = LoginRequest { email: "Admin@Example.COM".to_string(), password: "x".to_string() };
    assert_eq!(login_email(&body), "admin@example.com");
}

#[test]
fn password_matches_known_hash() {
    assert!(password_matches(KNOWN_PASSWORD, KNOWN_HASH));
    assert!(!password_matches("wrong", KNOWN_HASH));
    assert!(!password_matches(KNOWN_PASSWORD, "not a hash"));
}

#[test]
fn hashed_password_checks_against_itself() {
    let h = hash_password("hunter2").unwrap();
    assert_ne!(h, "hunter2");
    assert!(h.starts_with("$2b$12$"));
    assert_eq!(h.chars().count(), 60);
    assert!(password_matches("hunter2", &h));
    assert!(!password_matches("hunter3", &h));
}

#[test]
fn credentials_accepted_for_right_password() {
    let u = check_credentials(Ok(Some(user(7, KNOWN_HASH, UserRole::Editor))), KNOWN_PASSWORD).unwrap();
    assert_eq!(u.id, 7);
}

#[test]
fn credentials_refused_for_wrong_password_or_unknown_account() {
    let r = check_credentials(Ok(Some(user(7, KNOWN_HASH, UserRole::Editor))), "nope").unwrap_err();
    assert_eq!((r.status, r.error.error.as_str()), (401, "Invalid credentials"));
    let r = check_credentials(Ok(Some(user(7, "garbage", UserRole::Editor))), "nope").unwrap_err();
    assert_eq!((r.status, r.error.error.as_str()), (401, "Invalid credentials"));
    let r = check_credentials(Ok(None), "nope").unwrap_err();
    assert_eq!((r.status, r.error.error.as_str()), (401, "Invalid credentials"));
    let r = check_credentials(Err(db_error("down")), "nope").unwrap_err();
    assert_eq!((r.status, r.error.error.as_str()), (500, "Internal server error"));
}

#[test]
fn new_password_logs_in() {
    let h = hash_password("s3cret!").unwrap();
    let u = check_credentials(Ok(Some(user(9, &h, UserRole::Admin))), "s3cret!").unwrap();
    assert_eq!(u.id, 9);
}

#[test]
fn session_claims_name_the_user_and_expire_after_a_day() {
    let id: u128 = 0x550e8400_e29b_41d4_a716_446655440000;
    let c = session_claims(&user(id, KNOWN_HASH, UserRole::SuperAdmin), 1_700_000_000);
    assert_eq!(c.sub, "550e8400-e29b-41d4-a716-446655440000");
    assert_eq!(c.role, "superadmin");
    assert_eq!(c.iat, 1_700_000_000);
    assert_eq!(c.exp, 1_700_000_000 + SESSION_SECONDS as usize);
    assert_eq!(c.exp - c.iat, 86400);
}

#[test]
fn issued_token_identifies_account() {
    let id: u128 = 12345678901234567890;
    let c = session_claims(&user(id, KNOWN_HASH, UserRole::Viewer), 10);
    assert_eq!(session_user(Some(&c)).unwrap(), id);
}

#[test]
fn session_user_refusals() {
    let r = session_user(None).unwrap_err();
    assert_eq!((r.status, r.error.error.as_str()), (401, "Unauthorized"));
    let c = Claims { sub: "not-a-uuid".to_string(), role: "admin".to_string(), exp: 1, iat: 0 };
    let r = session_user(Some(&c)).unwrap_err();
    assert_eq!((r.status, r.error.error.as_str()), (401, "Invalid token"));
    let c = Claims { sub: "550E8400E29B41D4A716446655440000".to_string(), role: "x".to_string(), exp: 1, iat: 0 };
    assert_eq!(session_user(Some(&c)).unwrap(), 0x550e8400_e29b_41d4_a716_446655440000);
}

#[test]
fn login_reply_carries_token_and_public_account() {
    let r = login_reply(Ok("tok".to_string()), user(3, KNOWN_HASH, UserRole::Admin));
    assert_eq!(r.status, 200);
    let b = r.body.unwrap();
    assert!(b.success);
    let d = b.data.unwrap();
    assert_eq!(d.token, "tok");
    assert_eq!(d.user.id, 3);
    assert_eq!(d.user.role, UserRole::Admin);
    let r = login_reply(Err(()), user(3, KNOWN_HASH, UserRole::Admin));
    assert_eq!(r.status, 500);
    assert_eq!(r.body.unwrap_err().error, "Failed to generate token");
}

#[test]
fn logout_answers_ok() {
    let r = logout();
    assert_eq!(r.status, 200);
    assert_eq!(r.body.unwrap().data.unwrap(), "Logged out successfully");
}

#[test]
fn me_steps() {
    let c = Claims { sub: "550e8400-e29b-41d4-a716-446655440000".to_string(), role: "viewer".to_string(), exp: 1, iat: 0 };
    match me(Step::Begin(Some(&c))) {
        Action::Proceed(id) => assert_eq!(id, 0x550e8400_e29b_41d4_a716_446655440000),
        Action::Answer(_) => panic!("expected a lookup"),
    }
    let r = answer(me(Step::Begin(None)));
    assert_eq!((r.status, r.body.unwrap_err().error.as_str()), (401, "Unauthorized"));
    let bad = Claims { sub: "x".to_string(), role: "viewer".to_string(), exp: 1, iat: 0 };
    let r = answer(me(Step::Begin(Some(&bad))));
    assert_eq!((r.status, r.body.unwrap_err().error.as_str()), (401, "Invalid token"));
    let r = answer(me(Step::Done(Ok(Some(user(4, KNOWN_HASH, UserRole::Editor))))));
    assert_eq!(r.status, 200);
    assert_eq!(r.body.unwrap().data.unwrap().email, "a@b.c");
    let r = answer(me(Step::Done(Ok(None))));
    assert_eq!((r.status, r.body.unwrap_err().error.as_str()), (404, "User not found"));
    let r = answer(me(Step::Done(Err(db_error("x")))));
    assert_eq!((r.status, r.body.unwrap_err().error.as_str()), (500, "Internal server error"));
}

fn refresh_answer(a: RefreshAction) -> Reply<site_backend::models::TokenData> {
    match a {
        RefreshAction::Answer(r) => r,
        _ => panic!("expected an answer"),
    }
}

#[test]
fn refresh_steps() {
    assert_eq!(refresh_account(Ok(Some(user(5, KNOWN_HASH, UserRole::Viewer)))).unwrap().id, 5);
    let bad = Claims { sub: "not-a-uuid".to_string(), role: "superadmin".to_string(), exp: 1, iat: 0 };
    let r = refresh_answer(refresh_token(RefreshStep::Begin(Some(&bad))));
    assert_eq!((r.status, r.body.unwrap_err().error.as_str()), (401, "Invalid token"));
    let r = refresh_answer(refresh_token(RefreshStep::Begin(None)));
    assert_eq!((r.status, r.body.unwrap_err().error.as_str()), (401, "Unauthorized"));
    let good = Claims { sub: "00000000-0000-0000-0000-000000000007".to_string(), role: "viewer".to_string(), exp: 1, iat: 0 };
    match refresh_token(RefreshStep::Begin(Some(&good))) {
        RefreshAction::Lookup(id) => assert_eq!(id, 7),
        _ => panic!("expected a lookup"),
    }
    match refresh_token(RefreshStep::Found(Ok(Some(user(7, KNOWN_HASH, UserRole::Admin))), 100)) {
        RefreshAction::Sign(c) => {
            assert_eq!(c.sub, "00000000-0000-0000-0000-000000000007");
            assert_eq!(c.role, "admin");
            assert_eq!((c.iat, c.exp), (100, 100 + 86400));
        }
        _ => panic!("expected claims to sign"),
    }
    let r = refresh_answer(refresh_token(RefreshStep::Found(Ok(None), 100)));
    assert_eq!((r.status, r.body.unwrap_err().error.as_str()), (401, "User not found"));
    let r = refresh_answer(refresh_token(RefreshStep::Found(Err(db_error("x")), 100)));
    assert_eq!((r.status, r.body.unwrap_err().error.as_str()), (500, "Internal server error"));
    let r = refresh_answer(refresh_token(RefreshStep::Signed(Ok("new".to_string()))));
    assert_eq!(r.status, 200);
    assert_eq!(r.body.unwrap().data.unwrap().token, "new");
    let r = refresh_answer(refresh_token(RefreshStep::Signed(Err(()))));
    assert_eq!((r.status, r.body.unwrap_err().error.as_str()), (500, "Failed to generate token"));
}

#[test]
fn login_steps() {
    let body = LoginRequest { email: "Boss@X.com".to_string(), password: KNOWN_PASSWORD.to_string() };
    match login(LoginStep::Begin(&body)) {
        LoginAction::Lookup(e) => assert_eq!(e, "boss@x.com"),
        _ => panic!("expected a lookup"),
    }
    match login(LoginStep::Found(Ok(Some(user(9, KNOWN_HASH, UserRole::SuperAdmin))), &body.password, 50)) {
        LoginAction::Issue(u, c) => {
            assert_eq!(u.id, 9);
            assert_eq!(c.role, "superadmin");
            assert_eq!(c.exp - c.iat, 86400);
            assert_eq!(session_user(Some(&c)).unwrap(), 9);
        }
        _ => panic!("expected a token to issue"),
    }
    for found in [Ok(Some(user(9, KNOWN_HASH, UserRole::SuperAdmin))), Ok(None)] {
        match login(LoginStep::Found(found, "wrong", 50)) {
            LoginAction::Answer(r) => {
                assert_eq!((r.status, r.body.unwrap_err().error.as_str()), (401, "Invalid credentials"))
            }
            _ => panic!("expected a refusal"),
        }
    }
    match login(LoginStep::Found(Err(db_error("x")), "pw", 50)) {
        LoginAction::Answer(r) => {
            assert_eq!((r.status, r.body.unwrap_err().error.as_str()), (500, "Internal server error"))
        }
        _ => panic!("expected a refusal"),
    }
    match login(LoginStep::Signed(Ok("tok".to_string()), user(9, KNOWN_HASH, UserRole::SuperAdmin))) {
        LoginAction::Answer(r) => {
            assert_eq!(r.status, 200);
            assert_eq!(r.body.unwrap().data.unwrap().token, "tok");
        }
        _ => panic!("expected an answer"),
    }
}

fn inactive_user(id: u128) -> User {
    let mut u = user(id, KNOWN_HASH, UserRole::Admin);
    u.is_active = false;
    u
}

#[test]
fn deactivated_accounts_get_no_session() {
    let r = check_credentials(Ok(Some(inactive_user(7))), KNOWN_PASSWORD).unwrap_err();
    assert_eq!((r.status, r.error.error.as_str()), (401, "Invalid credentials"));
    match login(LoginStep::Found(Ok(Some(inactive_user(7))), KNOWN_PASSWORD, 50)) {
        LoginAction::Answer(r) => {
            assert_eq!((r.status, r.body.unwrap_err().error.as_str()), (401, "Invalid credentials"))
        }
        _ => panic!("expected a refusal"),
    }
    let r = refresh_account(Ok(Some(inactive_user(7)))).unwrap_err();
    assert_eq!((r.status, r.error.error.as_str()), (401, "User not found"));
    let r = refresh_answer(refresh_token(RefreshStep::Found(Ok(Some(inactive_user(7))), 100)));
    assert_eq!((r.status, r.body.unwrap_err().error.as_str()), (401, "User not found"));
}

#[test]
fn refused_logins_answer_alike() {
    let mut answers = Vec::new();
    for (found, password) in [
        (Ok(None), KNOWN_PASSWORD),
        (Ok(Some(user(3, KNOWN_HASH, UserRole::Viewer))), "wrong"),
        (Ok(Some(inactive_user(3))), KNOWN_PASSWORD),
    ] {
        match login(LoginStep::Found(found, password, 50)) {
            LoginAction::Answer(r) => {
                let e = r.body.unwrap_err();
                answers.push((r.status, e.success, e.error, e.message));
            }
            _ => panic!("expected a refusal"),
        }
    }
    assert_eq!(answers[0], (401, false, "Invalid credentials".to_string(), None));
    assert_eq!(answers[0], answers[1]);
    assert_eq!(answers[1], answers[2]);
}
